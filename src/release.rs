use crate::address::Address;
use crate::deposit_entry::{default_entry, DepositEntry};
use crate::error::VsrError;
use crate::lockup::{LockupKind, LockupPeriod};
use crate::notice::{RewardNotice, Withdrawal};
use crate::registrar::Registrar;
use crate::voter::{Voter, VoterView, MAX_DEPOSITS};
use vstd::prelude::*;

verus! {

/// The balance of one custody account of a voter, as reported when the voter is closed.
#[derive(Clone, Copy, Debug, PartialEq, Eq)]
pub struct VaultBalance {
    pub mint: Address,
    pub amount: u64,
}

/// `d` after `amount` was withdrawn and its penalty paid out. A fixed-term slot left empty
/// is reset to its zero state; an unrestricted one stays in use.
pub open spec fn withdrawn(d: DepositEntry, amount: u64) -> DepositEntry {
    let left = DepositEntry {
        amount_deposited_native: (d.amount_deposited_native - amount) as u64,
        slashing_penalty: 0,
        ..d
    };
    if left.amount_deposited_native == 0 && d.lockup.kind != LockupKind::Unrestricted
        && d.lockup.period != LockupPeriod::NoPeriod {
        default_entry()
    } else {
        left
    }
}

/// Outcome of withdrawing `amount` of the asset `mint` from slot `index` at `now`.
///
/// A fixed-term slot must have had its release requested and its cooldown passed; the
/// amount must not exceed the unlocked balance; the slot must be bound to `mint`. The
/// slot's whole penalty leaves with the withdrawal, and the voter's new total voting power
/// is reported.
pub open spec fn spec_withdraw(
    v: VoterView,
    registrar: Registrar,
    mint: Seq<u8>,
    index: u8,
    amount: u64,
    now: u64,
) -> Result<(VoterView, Withdrawal), VsrError> {
    match registrar.spec_mint_index(mint) {
        None => Err(VsrError::VotingMintNotFound),
        Some(mint_idx) => match v.active_deposit_error(index) {
            Some(e) => Err(e),
            None => {
                let d = v.deposits[index as int];
                if d.lockup.kind == LockupKind::Constant && !d.lockup.cooldown_requested {
                    Err(VsrError::UnlockMustBeCalledFirst)
                } else if d.lockup.kind == LockupKind::Constant && now < d.lockup.cooldown_ends_at {
                    Err(VsrError::InvalidTimestampArguments)
                } else if d.spec_amount_unlocked() < amount {
                    Err(VsrError::InsufficientUnlockedTokens)
                } else if mint_idx != d.voting_mint_config_idx as int {
                    Err(VsrError::InvalidMint)
                } else {
                    let v1 = v.with_deposit(index as int, withdrawn(d, amount));
                    if v1.weight() > u64::MAX {
                        Err(VsrError::VoterWeightOverflow)
                    } else {
                        Ok(
                            (
                                v1,
                                Withdrawal {
                                    amount,
                                    slashing_penalty: d.slashing_penalty,
                                    voter_weight: v1.weight() as u64,
                                },
                            ),
                        )
                    }
                }
            },
        },
    }
}

/// Some slot still holds locked tokens.
pub open spec fn any_locked(v: VoterView) -> bool {
    exists|i: int| 0 <= i < v.deposits.len() && (#[trigger] v.deposits[i]).spec_amount_locked() > 0
}

/// Slot `d` is a fixed-term slot in use.
pub open spec fn is_fixed_term_in_use(d: DepositEntry) -> bool {
    d.is_used && d.lockup.kind != LockupKind::Unrestricted && d.lockup.period
        != LockupPeriod::NoPeriod
}

/// Some slot is a fixed-term slot in use.
pub open spec fn any_fixed_term_in_use(v: VoterView) -> bool {
    exists|i: int| 0 <= i < v.deposits.len() && is_fixed_term_in_use(#[trigger] v.deposits[i])
}

/// Why the custody account `vault` cannot be released, if it cannot: it must hold a
/// configured asset and be empty.
pub open spec fn vault_error(registrar: Registrar, vault: VaultBalance) -> Option<VsrError> {
    if registrar.spec_mint_index(vault.mint@) is None {
        Some(VsrError::VotingMintNotFound)
    } else if vault.amount != 0 {
        Some(VsrError::VaultTokenNonZero)
    } else {
        None
    }
}

/// The reason of the first custody account in `vaults` that cannot be released.
pub open spec fn vaults_error(registrar: Registrar, vaults: Seq<VaultBalance>) -> Option<VsrError>
    decreases vaults.len(),
{
    if vaults.len() == 0 {
        None
    } else {
        match vault_error(registrar, vaults[0]) {
            Some(e) => Some(e),
            None => vaults_error(registrar, vaults.drop_first()),
        }
    }
}

/// The voter with every field zeroed.
pub open spec fn zeroed_view() -> VoterView {
    VoterView {
        voter_authority: Address::zero_bytes(),
        registrar: Address::zero_bytes(),
        deposits: Seq::new(MAX_DEPOSITS as nat, |_i: int| default_entry()),
        voter_bump: 0,
        voter_weight_record_bump: 0,
    }
}

/// Outcome of closing the voter whose custody accounts hold `vaults`: refused while a slot
/// holds locked tokens or a fixed-term slot is in use, or while a custody account cannot be
/// released; otherwise the whole voter is zeroed.
pub open spec fn spec_close_voter(
    v: VoterView,
    registrar: Registrar,
    vaults: Seq<VaultBalance>,
) -> Result<VoterView, VsrError> {
    if any_locked(v) {
        Err(VsrError::DepositStillLocked)
    } else if any_fixed_term_in_use(v) {
        Err(VsrError::DepositStillUsed)
    } else {
        match vaults_error(registrar, vaults) {
            Some(e) => Err(e),
            None => Ok(zeroed_view()),
        }
    }
}

/// Withdraws `amount` tokens of the asset `mint` from slot `deposit_entry_index` at `now`.
///
/// The returned withdrawal says what the caller pays out of custody: the amount to the
/// depositor, the penalty to the treasury, and the voter's new weight for the snapshot.
pub fn withdraw(
    voter: &mut Voter,
    registrar: &Registrar,
    mint: &Address,
    deposit_entry_index: u8,
    amount: u64,
    now: u64,
) -> (r: Result<Withdrawal, VsrError>)
    requires
        old(voter).wf(),
        registrar.wf(),
    ensures
        final(voter).wf(),
        match spec_withdraw(old(voter)@, *registrar, mint@, deposit_entry_index, amount, now) {
            Ok((v, w)) => r == Ok::<Withdrawal, VsrError>(w) && final(voter)@ == v,
            Err(e) => r == Err::<Withdrawal, VsrError>(e) && *final(voter) == *old(voter),
        },
{
    let mint_idx = match registrar.voting_mint_config_index(mint) {
        Ok(i) => i,
        Err(e) => {
            return Err(e);
        },
    };
    let d = match voter.active_deposit(deposit_entry_index) {
        Ok(d) => d,
        Err(e) => {
            return Err(e);
        },
    };
    if d.lockup.kind == LockupKind::Constant {
        if !d.lockup.cooldown_requested {
            return Err(VsrError::UnlockMustBeCalledFirst);
        }
        if now < d.lockup.cooldown_ends_at {
            return Err(VsrError::InvalidTimestampArguments);
        }
    }
    if d.amount_unlocked() < amount {
        return Err(VsrError::InsufficientUnlockedTokens);
    }
    if mint_idx != d.voting_mint_config_idx as usize {
        return Err(VsrError::InvalidMint);
    }
    let mut left = d;
    left.amount_deposited_native = d.amount_deposited_native - amount;
    left.slashing_penalty = 0;
    if left.amount_deposited_native == 0 && d.lockup.kind != LockupKind::Unrestricted
        && d.lockup.period != LockupPeriod::NoPeriod {
        left = DepositEntry::default();
    }
    let mut staged = *voter;
    staged.deposits[deposit_entry_index as usize] = left;
    let voter_weight = match staged.weight() {
        Ok(w) => w,
        Err(e) => {
            return Err(e);
        },
    };
    *voter = staged;
    Ok(Withdrawal { amount, slashing_penalty: d.slashing_penalty, voter_weight })
}

/// Closes the voter, whose custody accounts hold `vaults`: refused while a slot holds locked
/// tokens or a fixed-term slot is in use, or while a custody account holds tokens or an
/// asset that is not configured. On success every field of the voter is zeroed.
///
/// On success the returned notice must reach the reward service.
pub fn close_voter(voter: &mut Voter, registrar: &Registrar, vaults: &Vec<VaultBalance>) -> (r:
    Result<RewardNotice, VsrError>)
    requires
        old(voter).wf(),
        registrar.wf(),
    ensures
        final(voter).wf(),
        match spec_close_voter(old(voter)@, *registrar, vaults@) {
            Ok(v) => {
                &&& r == Ok::<RewardNotice, VsrError>(RewardNotice::CloseMining)
                &&& final(voter)@ == v
            },
            Err(e) => r == Err::<RewardNotice, VsrError>(e) && *final(voter) == *old(voter),
        },
{
    let mut i: usize = 0;
    while i < MAX_DEPOSITS
        invariant
            0 <= i <= MAX_DEPOSITS,
            voter.wf(),
            forall|j: int| 0 <= j < i ==> (#[trigger] voter.deposits@[j]).spec_amount_locked() == 0,
        decreases MAX_DEPOSITS - i,
    {
        if voter.deposits[i].amount_locked() > 0 {
            return Err(VsrError::DepositStillLocked);
        }
        i = i + 1;
    }
    let mut i: usize = 0;
    while i < MAX_DEPOSITS
        invariant
            0 <= i <= MAX_DEPOSITS,
            voter.wf(),
            !any_locked(voter@),
            forall|j: int| 0 <= j < i ==> !is_fixed_term_in_use(#[trigger] voter.deposits@[j]),
        decreases MAX_DEPOSITS - i,
    {
        let d = &voter.deposits[i];
        if d.is_used && d.lockup.kind != LockupKind::Unrestricted && d.lockup.period
            != LockupPeriod::NoPeriod {
            return Err(VsrError::DepositStillUsed);
        }
        i = i + 1;
    }
    let ghost all = vaults@;
    assert(all.subrange(0, all.len() as int) =~= all);
    let mut k: usize = 0;
    while k < vaults.len()
        invariant
            0 <= k <= vaults.len(),
            all == vaults@,
            registrar.wf(),
            voter.wf(),
            !any_locked(voter@),
            !any_fixed_term_in_use(voter@),
            vaults_error(*registrar, all) == vaults_error(
                *registrar,
                all.subrange(k as int, all.len() as int),
            ),
        decreases vaults.len() - k,
    {
        let vault = &vaults[k];
        proof {
            let rest = all.subrange(k as int, all.len() as int);
            assert(rest[0] == *vault);
            assert(rest.drop_first() =~= all.subrange(k as int + 1, all.len() as int));
        }
        match registrar.voting_mint_config_index(&vault.mint) {
            Ok(_) => {},
            Err(e) => {
                return Err(e);
            },
        }
        if vault.amount != 0 {
            return Err(VsrError::VaultTokenNonZero);
        }
        k = k + 1;
    }
    assert(all.subrange(k as int, all.len() as int).len() == 0);
    *voter = Voter::zeroed();
    assert(voter.deposits@ =~= zeroed_view().deposits);
    Ok(RewardNotice::CloseMining)
}

} // verus!
