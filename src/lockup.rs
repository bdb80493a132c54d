use crate::error::VsrError;
use vstd::prelude::*;

verus! {

/// Seconds in one day; the periods below are whole days.
pub const SECS_PER_DAY: u64 = 86_400;

/// How long a fixed-term deposit has to wait between an unlock request and a withdrawal.
pub const COOLDOWN_SECS: u64 = 2 * SECS_PER_DAY;

/// Whether a deposit is restricted at all.
#[derive(Clone, Copy, Debug, PartialEq, Eq, Structural)]
pub enum LockupKind {
    /// The tokens may be withdrawn at any time.
    Unrestricted,
    /// Fixed term: the tokens stay locked for the chosen period, then go through a cooldown.
    Constant,
}

/// The closed catalog of lockup periods.
///
/// The catalog is ordered by commitment: `NoPeriod` < `Flex` < `ThreeMonths` < `SixMonths` < `OneYear`.
#[derive(Clone, Copy, Debug, PartialEq, Eq, Structural)]
pub enum LockupPeriod {
    NoPeriod,
    ThreeMonths,
    SixMonths,
    OneYear,
    Flex,
}

impl LockupPeriod {
    /// Length of the period in seconds.
    pub open spec fn spec_secs(&self) -> u64 {
        match self {
            LockupPeriod::NoPeriod => 0,
            LockupPeriod::Flex => 432_000,
            LockupPeriod::ThreeMonths => 7_776_000,
            LockupPeriod::SixMonths => 15_552_000,
            LockupPeriod::OneYear => 31_536_000,
        }
    }

    /// Weight multiplier of a stake locked for this period.
    pub open spec fn spec_multiplier(&self) -> u64 {
        match self {
            LockupPeriod::NoPeriod => 0,
            LockupPeriod::Flex => 1,
            LockupPeriod::ThreeMonths => 2,
            LockupPeriod::SixMonths => 4,
            LockupPeriod::OneYear => 6,
        }
    }

    /// Position of the period in the catalog's order of commitment.
    pub open spec fn spec_rank(&self) -> u8 {
        match self {
            LockupPeriod::NoPeriod => 0,
            LockupPeriod::Flex => 1,
            LockupPeriod::ThreeMonths => 2,
            LockupPeriod::SixMonths => 3,
            LockupPeriod::OneYear => 4,
        }
    }

    /// Length of the period in seconds.
    #[verifier::when_used_as_spec(spec_secs)]
    pub fn to_secs(&self) -> (r: u64)
        ensures
            r == self.spec_secs(),
    {
        match self {
            LockupPeriod::NoPeriod => 0,
            LockupPeriod::Flex => 432_000,
            LockupPeriod::ThreeMonths => 7_776_000,
            LockupPeriod::SixMonths => 15_552_000,
            LockupPeriod::OneYear => 31_536_000,
        }
    }

    /// Weight multiplier of a stake locked for this period.
    #[verifier::when_used_as_spec(spec_multiplier)]
    pub fn multiplier(&self) -> (r: u64)
        ensures
            r == self.spec_multiplier(),
    {
        match self {
            LockupPeriod::NoPeriod => 0,
            LockupPeriod::Flex => 1,
            LockupPeriod::ThreeMonths => 2,
            LockupPeriod::SixMonths => 4,
            LockupPeriod::OneYear => 6,
        }
    }

    /// Position of the period in the catalog's order of commitment.
    #[verifier::when_used_as_spec(spec_rank)]
    pub fn rank(&self) -> (r: u8)
        ensures
            r == self.spec_rank(),
    {
        match self {
            LockupPeriod::NoPeriod => 0,
            LockupPeriod::Flex => 1,
            LockupPeriod::ThreeMonths => 2,
            LockupPeriod::SixMonths => 3,
            LockupPeriod::OneYear => 4,
        }
    }

    /// True when `self` commits at least as long as `other`.
    pub open spec fn spec_at_least(&self, other: &LockupPeriod) -> bool {
        self.spec_rank() >= other.spec_rank()
    }

    /// True when `self` commits at least as long as `other`.
    #[verifier::when_used_as_spec(spec_at_least)]
    pub fn at_least(&self, other: &LockupPeriod) -> (r: bool)
        ensures
            r == self.spec_at_least(other),
    {
        self.rank() >= other.rank()
    }
}

/// The time restriction of one deposit.
#[derive(Clone, Copy, Debug, PartialEq, Eq, Structural)]
pub struct Lockup {
    /// When the current term began.
    pub start_ts: u64,
    /// When the current term ends.
    pub end_ts: u64,
    /// When the cooldown ends, once one was requested.
    pub cooldown_ends_at: u64,
    /// True once the release of the tokens was requested.
    pub cooldown_requested: bool,
    pub kind: LockupKind,
    pub period: LockupPeriod,
}

/// The all-zero lockup: unrestricted, no period, no cooldown.
pub open spec fn default_lockup() -> Lockup {
    Lockup {
        start_ts: 0,
        end_ts: 0,
        cooldown_ends_at: 0,
        cooldown_requested: false,
        kind: LockupKind::Unrestricted,
        period: LockupPeriod::NoPeriod,
    }
}

impl Default for Lockup {
    fn default() -> (r: Lockup)
        ensures
            r == default_lockup(),
    {
        Lockup {
            start_ts: 0,
            end_ts: 0,
            cooldown_ends_at: 0,
            cooldown_requested: false,
            kind: LockupKind::Unrestricted,
            period: LockupPeriod::NoPeriod,
        }
    }
}

impl Lockup {
    /// A lockup of the given kind and period whose term starts at `start_ts`.
    ///
    /// The term ends `period.to_secs()` seconds after its start; no cooldown is requested.
    pub open spec fn spec_begin(kind: LockupKind, start_ts: u64, period: LockupPeriod) -> Lockup {
        Lockup {
            start_ts,
            end_ts: (start_ts + period.spec_secs()) as u64,
            cooldown_ends_at: 0,
            cooldown_requested: false,
            kind,
            period,
        }
    }

    /// Begins a lockup of the given kind and period at `start_ts`.
    ///
    /// Fails with `InvalidTimestampArguments` when the end of the term does not fit in a
    /// timestamp, and with `InvalidLockupPeriod` when `kind` is `Unrestricted` and `period`
    /// is not `NoPeriod`, or the other way round: an
    /// unrestricted deposit has no period, a fixed-term deposit must have one.
    pub fn new(kind: LockupKind, start_ts: u64, period: LockupPeriod) -> (r: Result<Lockup, VsrError>)
        ensures
            (kind == LockupKind::Unrestricted) != (period == LockupPeriod::NoPeriod) ==> r == Err::<
                Lockup,
                VsrError,
            >(VsrError::InvalidLockupPeriod),
            (kind == LockupKind::Unrestricted) == (period == LockupPeriod::NoPeriod) ==> {
                if start_ts + period.spec_secs() > u64::MAX {
                    r == Err::<Lockup, VsrError>(
                        VsrError::InvalidTimestampArguments,
                    )
                } else {
                    r == Ok::<Lockup, VsrError>(
                        Lockup::spec_begin(kind, start_ts, period),
                    )
                }
            },
    {
        if (kind == LockupKind::Unrestricted) != (period == LockupPeriod::NoPeriod) {
            return Err(VsrError::InvalidLockupPeriod);
        }
        match start_ts.checked_add(period.to_secs()) {
            Some(end_ts) => Ok(
                Lockup {
                    start_ts,
                    end_ts,
                    cooldown_ends_at: 0,
                    cooldown_requested: false,
                    kind,
                    period,
                },
            ),
            None => Err(VsrError::InvalidTimestampArguments),
        }
    }

    /// True when the term has ended at `curr_ts`.
    pub open spec fn spec_expired(&self, curr_ts: u64) -> bool {
        self.end_ts <= curr_ts
    }

    /// True when the term has ended at `curr_ts`.
    #[verifier::when_used_as_spec(spec_expired)]
    pub fn expired(&self, curr_ts: u64) -> (r: bool)
        ensures
            r == self.spec_expired(curr_ts),
    {
        self.end_ts <= curr_ts
    }

    /// Seconds until the term ends, or zero once it has ended.
    pub fn seconds_left(&self, curr_ts: u64) -> (r: u64)
        ensures
            r == if self.end_ts > curr_ts {
                (self.end_ts - curr_ts) as u64
            } else {
                0u64
            },
    {
        if self.end_ts > curr_ts {
            self.end_ts - curr_ts
        } else {
            0
        }
    }

    /// The period that the term counts as at `curr_ts`: its own period while it runs,
    /// `Flex` once it has ended.
    pub open spec fn spec_effective_period(&self, curr_ts: u64) -> LockupPeriod {
        if self.spec_expired(curr_ts) {
            LockupPeriod::Flex
        } else {
            self.period
        }
    }

    /// The period that the term counts as at `curr_ts`: its own period while it runs,
    /// `Flex` once it has ended.
    #[verifier::when_used_as_spec(spec_effective_period)]
    pub fn effective_period(&self, curr_ts: u64) -> (r: LockupPeriod)
        ensures
            r == self.spec_effective_period(curr_ts),
    {
        if self.expired(curr_ts) {
            LockupPeriod::Flex
        } else {
            self.period
        }
    }

    /// Weight multiplier at `curr_ts`: that of the period while the term runs, that of
    /// `Flex` once it has ended.
    pub open spec fn spec_multiplier(&self, curr_ts: u64) -> u64 {
        self.spec_effective_period(curr_ts).spec_multiplier()
    }

    /// Weight multiplier at `curr_ts`: that of the period while the term runs, that of
    /// `Flex` once it has ended.
    #[verifier::when_used_as_spec(spec_multiplier)]
    pub fn multiplier(&self, curr_ts: u64) -> (r: u64)
        ensures
            r == self.spec_multiplier(curr_ts),
            r <= 6,
    {
        self.effective_period(curr_ts).multiplier()
    }
}

} // verus!
