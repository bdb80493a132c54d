use crate::address::Address;
use crate::deposit_entry::{default_entry, DepositEntry};
use crate::error::VsrError;
use vstd::prelude::*;

verus! {

/// How many deposit slots a voter has.
pub const MAX_DEPOSITS: usize = 32;

/// One participant: identity and a fixed array of deposit slots, addressed by index.
#[derive(Clone, Copy, Debug, PartialEq, Eq)]
pub struct Voter {
    pub voter_authority: Address,
    pub registrar: Address,
    pub deposits: [DepositEntry; MAX_DEPOSITS],
    pub voter_bump: u8,
    pub voter_weight_record_bump: u8,
}

/// What a voter holds, with the slots as a sequence.
pub struct VoterView {
    pub voter_authority: Seq<u8>,
    pub registrar: Seq<u8>,
    pub deposits: Seq<DepositEntry>,
    pub voter_bump: u8,
    pub voter_weight_record_bump: u8,
}

impl View for Voter {
    type V = VoterView;

    open spec fn view(&self) -> VoterView {
        VoterView {
            voter_authority: self.voter_authority@,
            registrar: self.registrar@,
            deposits: self.deposits@,
            voter_bump: self.voter_bump,
            voter_weight_record_bump: self.voter_weight_record_bump,
        }
    }
}

/// Voting power that a slot contributes: its amount while in use.
pub open spec fn slot_power(d: DepositEntry) -> int {
    if d.is_used {
        d.amount_deposited_native as int
    } else {
        0
    }
}

/// Sum of the voting power of the slots.
pub open spec fn sum_power(s: Seq<DepositEntry>) -> int
    decreases s.len(),
{
    if s.len() == 0 {
        0
    } else {
        sum_power(s.drop_last()) + slot_power(s.last())
    }
}

/// A prefix of the slots never holds more voting power than all of them.
proof fn lemma_sum_power_prefix(s: Seq<DepositEntry>, i: int)
    requires
        0 <= i <= s.len(),
    ensures
        0 <= sum_power(s.subrange(0, i)) <= sum_power(s),
    decreases s.len() - i,
{
    if i < s.len() {
        lemma_sum_power_prefix(s, i + 1);
        assert(s.subrange(0, i + 1).drop_last() =~= s.subrange(0, i));
    } else {
        assert(s.subrange(0, i) =~= s);
    }
    lemma_sum_power_nonneg(s.subrange(0, i));
}

/// Voting power is never negative.
pub proof fn lemma_sum_power_nonneg(s: Seq<DepositEntry>)
    ensures
        sum_power(s) >= 0,
    decreases s.len(),
{
    if s.len() > 0 {
        lemma_sum_power_nonneg(s.drop_last());
    }
}

impl VoterView {
    /// Every slot is in range and a free slot holds nothing but zero values.
    pub open spec fn wf(&self) -> bool {
        &&& self.deposits.len() == MAX_DEPOSITS
        &&& forall|i: int| 0 <= i < self.deposits.len() ==> (#[trigger] self.deposits[i]).wf()
    }

    /// Why slot `index` cannot be operated on, if it cannot.
    pub open spec fn active_deposit_error(&self, index: u8) -> Option<VsrError> {
        if index as int >= self.deposits.len() {
            Some(VsrError::OutOfBoundsDepositEntryIndex)
        } else if !self.deposits[index as int].is_used {
            Some(VsrError::UnusedDepositEntryIndex)
        } else {
            None
        }
    }

    /// The voter with slot `index` replaced by `d`.
    pub open spec fn with_deposit(self, index: int, d: DepositEntry) -> VoterView {
        VoterView { deposits: self.deposits.update(index, d), ..self }
    }

    /// Total voting power of the voter.
    pub open spec fn weight(&self) -> int {
        sum_power(self.deposits)
    }
}

impl Voter {
    pub open spec fn wf(&self) -> bool {
        self@.wf()
    }

    /// A voter whose slots are all free.
    pub fn new(
        voter_authority: Address,
        registrar: Address,
        voter_bump: u8,
        voter_weight_record_bump: u8,
    ) -> (r: Voter)
        ensures
            r.wf(),
            r.voter_authority == voter_authority,
            r.registrar == registrar,
            r.voter_bump == voter_bump,
            r.voter_weight_record_bump == voter_weight_record_bump,
            forall|i: int| 0 <= i < MAX_DEPOSITS ==> #[trigger] r.deposits@[i] == default_entry(),
    {
        let free = DepositEntry::default();
        let r = Voter {
            voter_authority,
            registrar,
            deposits: [free; MAX_DEPOSITS],
            voter_bump,
            voter_weight_record_bump,
        };
        assert forall|i: int| 0 <= i < MAX_DEPOSITS implies r.deposits@[i] == free by {}
        r
    }

    /// The voter with every field zeroed: the state a closed voter is left in.
    pub fn zeroed() -> (r: Voter)
        ensures
            r.wf(),
            r.voter_authority@ == Address::zero_bytes(),
            r.registrar@ == Address::zero_bytes(),
            r.voter_bump == 0,
            r.voter_weight_record_bump == 0,
            forall|i: int| 0 <= i < MAX_DEPOSITS ==> #[trigger] r.deposits@[i] == default_entry(),
    {
        Voter::new(Address::zero(), Address::zero(), 0, 0)
    }

    /// Slot `index`, which must exist and be in use.
    pub fn active_deposit(&self, index: u8) -> (r: Result<DepositEntry, VsrError>)
        ensures
            match self@.active_deposit_error(index) {
                Some(e) => r == Err::<DepositEntry, VsrError>(e),
                None => r == Ok::<DepositEntry, VsrError>(self.deposits@[index as int]),
            },
    {
        if index as usize >= MAX_DEPOSITS {
            return Err(VsrError::OutOfBoundsDepositEntryIndex);
        }
        let d = self.deposits[index as usize];
        if !d.is_used {
            return Err(VsrError::UnusedDepositEntryIndex);
        }
        Ok(d)
    }

    /// Total voting power: the sum of the voting power of the slots in use. Fails with
    /// `VoterWeightOverflow` when the sum does not fit.
    pub fn weight(&self) -> (r: Result<u64, VsrError>)
        ensures
            if self@.weight() <= u64::MAX {
                r == Ok::<u64, VsrError>(self@.weight() as u64)
            } else {
                r == Err::<u64, VsrError>(VsrError::VoterWeightOverflow)
            },
    {
        let ghost s = self.deposits@;
        let mut sum: u64 = 0;
        let mut i: usize = 0;
        while i < MAX_DEPOSITS
            invariant
                0 <= i <= MAX_DEPOSITS,
                s == self.deposits@,
                s.len() == MAX_DEPOSITS,
                sum == sum_power(s.subrange(0, i as int)),
            decreases MAX_DEPOSITS - i,
        {
            let d = &self.deposits[i];
            proof {
                assert(s.subrange(0, i as int + 1).drop_last() =~= s.subrange(0, i as int));
                assert(s.subrange(0, i as int + 1).last() == *d);
            }
            if d.is_used {
                let power = d.voting_power();
                let vp = match power {
                    Ok(vp) => vp,
                    Err(e) => {
                        return Err(e);
                    },
                };
                match sum.checked_add(vp) {
                    Some(next) => {
                        sum = next;
                    },
                    None => {
                        proof {
                            lemma_sum_power_prefix(s, i as int + 1);
                        }
                        return Err(VsrError::VoterWeightOverflow);
                    },
                }
            }
            i = i + 1;
        }
        assert(s.subrange(0, MAX_DEPOSITS as int) =~= s);
        Ok(sum)
    }
}

} // verus!
