use crate::address::Address;
use crate::error::VsrError;
use crate::lockup::{default_lockup, Lockup, LockupKind, LockupPeriod};
use vstd::prelude::*;

verus! {

/// Bookkeeping for a single deposit of one asset under one lockup.
#[derive(Clone, Copy, Debug, PartialEq, Eq)]
pub struct DepositEntry {
    pub lockup: Lockup,
    /// The party allowed to manage the stake on the depositor's behalf.
    pub delegate: Address,
    /// Amount deposited, in native units. Withdrawals reduce it; nobody may ever withdraw
    /// more than it holds.
    pub amount_deposited_native: u64,
    /// When the delegate was last updated.
    pub delegate_last_update_ts: u64,
    /// The part of the deposit that goes to the treasury instead of the depositor.
    pub slashing_penalty: u64,
    /// Index of the asset configuration this deposit is bound to.
    pub voting_mint_config_idx: u8,
    /// False when the slot is free.
    pub is_used: bool,
}

/// The entry whose every field holds its zero value: the state of a free slot.
pub open spec fn default_entry() -> DepositEntry {
    DepositEntry {
        lockup: default_lockup(),
        delegate: Address::spec_zero(),
        amount_deposited_native: 0,
        delegate_last_update_ts: 0,
        slashing_penalty: 0,
        voting_mint_config_idx: 0,
        is_used: false,
    }
}

impl Default for DepositEntry {
    fn default() -> (r: DepositEntry)
        ensures
            r == default_entry(),
    {
        DepositEntry {
            lockup: Lockup::default(),
            delegate: Address::zero(),
            amount_deposited_native: 0,
            delegate_last_update_ts: 0,
            slashing_penalty: 0,
            voting_mint_config_idx: 0,
            is_used: false,
        }
    }
}

impl DepositEntry {
    /// A free slot holds nothing but zero values.
    pub open spec fn wf(&self) -> bool {
        !self.is_used ==> *self == default_entry()
    }

    /// The slot is in use, fixed-term, has a period and no unlock was requested: its tokens
    /// are locked and count as stake.
    pub open spec fn spec_is_staked(&self) -> bool {
        &&& self.is_used
        &&& self.lockup.kind != LockupKind::Unrestricted
        &&& self.lockup.period != LockupPeriod::NoPeriod
        &&& !self.lockup.cooldown_requested
    }

    /// Native tokens still locked: all of them while staked, none otherwise.
    pub open spec fn spec_amount_locked(&self) -> u64 {
        if self.spec_is_staked() {
            self.amount_deposited_native
        } else {
            0
        }
    }

    /// Native tokens that may leave the slot: none while staked, all of them otherwise.
    pub open spec fn spec_amount_unlocked(&self) -> u64 {
        if self.spec_is_staked() {
            0
        } else {
            self.amount_deposited_native
        }
    }

    /// Weighted stake at `curr_ts`: zero unless staked, else the amount times the lockup's
    /// multiplier.
    pub open spec fn spec_weighted_stake(&self, curr_ts: u64) -> int {
        if self.spec_is_staked() {
            self.lockup.spec_multiplier(curr_ts) * self.amount_deposited_native
        } else {
            0
        }
    }

    /// Voting power: one vote per native token deposited.
    pub fn voting_power(&self) -> (r: Result<u64, VsrError>)
        ensures
            r == Ok::<u64, VsrError>(self.amount_deposited_native),
    {
        Ok(self.amount_deposited_native)
    }

    /// Native tokens still locked: all of them while staked, none otherwise.
    #[verifier::when_used_as_spec(spec_amount_locked)]
    pub fn amount_locked(&self) -> (r: u64)
        ensures
            r == self.spec_amount_locked(),
    {
        if self.is_staked() {
            self.amount_deposited_native
        } else {
            0
        }
    }

    /// Native tokens that may leave the slot: none while staked, all of them otherwise.
    #[verifier::when_used_as_spec(spec_amount_unlocked)]
    pub fn amount_unlocked(&self) -> (r: u64)
        ensures
            r == self.spec_amount_unlocked(),
    {
        if self.is_staked() {
            0
        } else {
            self.amount_deposited_native
        }
    }

    /// Weighted stake at `curr_ts`: zero unless staked, else the amount times the lockup's
    /// multiplier. The product must fit in a `u64`.
    pub fn weighted_stake(&self, curr_ts: u64) -> (r: u64)
        requires
            self.spec_weighted_stake(curr_ts) <= u64::MAX,
        ensures
            r == self.spec_weighted_stake(curr_ts),
    {
        if !self.is_staked() {
            return 0;
        }
        self.lockup.multiplier(curr_ts) * self.amount_deposited_native
    }

    /// The slot is in use, fixed-term, has a period and no unlock was requested.
    #[verifier::when_used_as_spec(spec_is_staked)]
    pub fn is_staked(&self) -> (r: bool)
        ensures
            r == self.spec_is_staked(),
    {
        self.is_used && self.lockup.kind != LockupKind::Unrestricted && self.lockup.period
            != LockupPeriod::NoPeriod && !self.lockup.cooldown_requested
    }
}

} // verus!
