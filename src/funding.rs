use crate::address::Address;
use crate::deposit_entry::{default_entry, DepositEntry};
use crate::error::VsrError;
use crate::lockup::{Lockup, LockupKind, LockupPeriod};
use crate::registrar::Registrar;
use crate::voter::{Voter, VoterView, MAX_DEPOSITS};
use vstd::prelude::*;

verus! {

/// Outcome of creating a deposit entry at slot `index`, bound to the asset `mint`.
///
/// The slot must be free; the new entry holds nothing, is bound to the asset's
/// configuration index and begins its lockup at `now`.
pub open spec fn spec_create_deposit_entry(
    v: VoterView,
    registrar: Registrar,
    mint: Seq<u8>,
    index: u8,
    kind: LockupKind,
    period: LockupPeriod,
    delegate: Address,
    now: u64,
) -> Result<VoterView, VsrError> {
    match registrar.spec_mint_index(mint) {
        None => Err(VsrError::VotingMintNotFound),
        Some(mint_idx) => if index as int >= v.deposits.len() {
            Err(VsrError::OutOfBoundsDepositEntryIndex)
        } else if v.deposits[index as int].is_used {
            Err(VsrError::UnusedDepositEntryIndex)
        } else if (kind == LockupKind::Unrestricted) != (period == LockupPeriod::NoPeriod) {
            Err(VsrError::InvalidLockupPeriod)
        } else if now + period.spec_secs() > u64::MAX {
            Err(VsrError::InvalidTimestampArguments)
        } else {
            Ok(
                v.with_deposit(
                    index as int,
                    DepositEntry {
                        lockup: Lockup::spec_begin(kind, now, period),
                        delegate,
                        amount_deposited_native: 0,
                        delegate_last_update_ts: now,
                        slashing_penalty: 0,
                        voting_mint_config_idx: mint_idx as u8,
                        is_used: true,
                    },
                ),
            )
        },
    }
}

/// Outcome of funding slot `index` with `amount` of the asset `mint`.
///
/// Funding nothing always succeeds and changes nothing. Otherwise the slot must be in use,
/// unrestricted and bound to `mint`, and its balance grows by `amount`.
pub open spec fn spec_deposit(
    v: VoterView,
    registrar: Registrar,
    mint: Seq<u8>,
    index: u8,
    amount: u64,
) -> Result<VoterView, VsrError> {
    if amount == 0 {
        Ok(v)
    } else {
        match v.active_deposit_error(index) {
            Some(e) => Err(e),
            None => {
                let d = v.deposits[index as int];
                if d.lockup.kind != LockupKind::Unrestricted || d.lockup.period
                    != LockupPeriod::NoPeriod {
                    Err(VsrError::DepositingIsForbidded)
                } else {
                    match registrar.spec_mint_index(mint) {
                        None => Err(VsrError::VotingMintNotFound),
                        Some(mint_idx) => if mint_idx != d.voting_mint_config_idx as int {
                            Err(VsrError::InvalidMint)
                        } else if d.amount_deposited_native + amount > u64::MAX {
                            Err(VsrError::ArithmeticOverflow)
                        } else {
                            Ok(
                                v.with_deposit(
                                    index as int,
                                    DepositEntry {
                                        amount_deposited_native: (d.amount_deposited_native
                                            + amount) as u64,
                                        ..d
                                    },
                                ),
                            )
                        },
                    }
                }
            },
        }
    }
}

/// Outcome of closing slot `index`: an empty slot in use is reset to its zero state.
pub open spec fn spec_close_deposit_entry(v: VoterView, index: u8) -> Result<VoterView, VsrError> {
    match v.active_deposit_error(index) {
        Some(e) => Err(e),
        None => if v.deposits[index as int].amount_deposited_native != 0 {
            Err(VsrError::VotingTokenNonZero)
        } else {
            Ok(v.with_deposit(index as int, default_entry()))
        },
    }
}

/// Creates a deposit entry at the free slot `deposit_entry_index` for the asset `mint`, with
/// the given lockup beginning at `now` and the given delegate.
pub fn create_deposit_entry(
    voter: &mut Voter,
    registrar: &Registrar,
    mint: &Address,
    deposit_entry_index: u8,
    kind: LockupKind,
    period: LockupPeriod,
    delegate: Address,
    now: u64,
) -> (r: Result<(), VsrError>)
    requires
        old(voter).wf(),
        registrar.wf(),
    ensures
        final(voter).wf(),
        match spec_create_deposit_entry(
            old(voter)@,
            *registrar,
            mint@,
            deposit_entry_index,
            kind,
            period,
            delegate,
            now,
        ) {
            Ok(v) => r is Ok && final(voter)@ == v,
            Err(e) => r == Err::<(), VsrError>(e) && *final(voter) == *old(voter),
        },
{
    let mint_idx = match registrar.voting_mint_config_index(mint) {
        Ok(i) => i,
        Err(e) => {
            return Err(e);
        },
    };
    let index = deposit_entry_index as usize;
    if index >= MAX_DEPOSITS {
        return Err(VsrError::OutOfBoundsDepositEntryIndex);
    }
    if voter.deposits[index].is_used {
        return Err(VsrError::UnusedDepositEntryIndex);
    }
    let lockup = match Lockup::new(kind, now, period) {
        Ok(l) => l,
        Err(e) => {
            return Err(e);
        },
    };
    voter.deposits[index] = DepositEntry {
        lockup,
        delegate,
        amount_deposited_native: 0,
        delegate_last_update_ts: now,
        slashing_penalty: 0,
        voting_mint_config_idx: mint_idx as u8,
        is_used: true,
    };
    Ok(())
}

/// Funds slot `deposit_entry_index` with `amount` of the asset `mint`. Moving the tokens into
/// custody is the caller's part.
pub fn deposit(
    voter: &mut Voter,
    registrar: &Registrar,
    mint: &Address,
    deposit_entry_index: u8,
    amount: u64,
) -> (r: Result<(), VsrError>)
    requires
        old(voter).wf(),
        registrar.wf(),
    ensures
        final(voter).wf(),
        match spec_deposit(old(voter)@, *registrar, mint@, deposit_entry_index, amount) {
            Ok(v) => r is Ok && final(voter)@ == v,
            Err(e) => r == Err::<(), VsrError>(e) && *final(voter) == *old(voter),
        },
{
    if amount == 0 {
        return Ok(());
    }
    let mut d = match voter.active_deposit(deposit_entry_index) {
        Ok(d) => d,
        Err(e) => {
            return Err(e);
        },
    };
    if d.lockup.kind != LockupKind::Unrestricted || d.lockup.period != LockupPeriod::NoPeriod {
        return Err(VsrError::DepositingIsForbidded);
    }
    let mint_idx = match registrar.voting_mint_config_index(mint) {
        Ok(i) => i,
        Err(e) => {
            return Err(e);
        },
    };
    if mint_idx != d.voting_mint_config_idx as usize {
        return Err(VsrError::InvalidMint);
    }
    d.amount_deposited_native = match d.amount_deposited_native.checked_add(amount) {
        Some(a) => a,
        None => {
            return Err(VsrError::ArithmeticOverflow);
        },
    };
    voter.deposits[deposit_entry_index as usize] = d;
    Ok(())
}

/// Frees slot `deposit_entry_index`, which must be in use and empty.
pub fn close_deposit_entry(voter: &mut Voter, deposit_entry_index: u8) -> (r: Result<
    (),
    VsrError,
>)
    requires
        old(voter).wf(),
    ensures
        final(voter).wf(),
        match spec_close_deposit_entry(old(voter)@, deposit_entry_index) {
            Ok(v) => r is Ok && final(voter)@ == v,
            Err(e) => r == Err::<(), VsrError>(e) && *final(voter) == *old(voter),
        },
{
    let d = match voter.active_deposit(deposit_entry_index) {
        Ok(d) => d,
        Err(e) => {
            return Err(e);
        },
    };
    if d.amount_deposited_native != 0 {
        return Err(VsrError::VotingTokenNonZero);
    }
    voter.deposits[deposit_entry_index as usize] = DepositEntry::default();
    Ok(())
}

} // verus!
