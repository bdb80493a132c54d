use crate::address::Address;
use crate::deposit_entry::DepositEntry;
use crate::error::VsrError;
use crate::lockup::{Lockup, LockupKind, LockupPeriod, COOLDOWN_SECS};
use crate::notice::RewardNotice;
use crate::registrar::Registrar;
use crate::voter::{Voter, VoterView};
use vstd::prelude::*;

verus! {

/// `d` with `amount` taken out of its balance.
pub open spec fn debited(d: DepositEntry, amount: u64) -> DepositEntry {
    DepositEntry { amount_deposited_native: (d.amount_deposited_native - amount) as u64, ..d }
}

/// Why the source of a stake or an extension cannot give `amount`, if it cannot: it must be
/// unrestricted and hold enough unlocked tokens.
pub open spec fn source_error(src: DepositEntry, amount: u64) -> Option<VsrError> {
    if src.lockup.kind != LockupKind::Unrestricted {
        Some(VsrError::LockingIsForbidded)
    } else if src.spec_amount_unlocked() < amount {
        Some(VsrError::InsufficientUnlockedTokens)
    } else {
        None
    }
}

/// The fresh fixed-term target `tgt` after `amount` was staked into it at `now`: it holds
/// `amount` and its term runs its full period from its start.
pub open spec fn staked_into(tgt: DepositEntry, amount: u64, now: u64) -> DepositEntry {
    DepositEntry {
        amount_deposited_native: amount,
        delegate_last_update_ts: now,
        lockup: Lockup {
            end_ts: (tgt.lockup.start_ts + tgt.lockup.period.spec_secs()) as u64,
            ..tgt.lockup
        },
        ..tgt
    }
}

/// Outcome of staking `amount` from the unrestricted slot `source` into the empty fixed-term
/// slot `target`, and the notice for the reward service.
///
/// The target is judged as it was before the call: it must be fixed-term (else
/// `LockingIsForbidded`), bound to the source's asset, and hold nothing. Since the source is
/// unrestricted, it can never be its own target.
pub open spec fn spec_stake(
    v: VoterView,
    source: u8,
    target: u8,
    amount: u64,
    now: u64,
) -> Result<(VoterView, RewardNotice), VsrError> {
    match v.active_deposit_error(source) {
        Some(e) => Err(e),
        None => {
            let src = v.deposits[source as int];
            match source_error(src, amount) {
                Some(e) => Err(e),
                None => match v.active_deposit_error(target) {
                    Some(e) => Err(e),
                    None => {
                        let tgt = v.deposits[target as int];
                        if tgt.lockup.kind != LockupKind::Constant || tgt.lockup.period
                            == LockupPeriod::NoPeriod {
                            Err(VsrError::LockingIsForbidded)
                        } else if tgt.voting_mint_config_idx != src.voting_mint_config_idx {
                            Err(VsrError::InvalidMint)
                        } else if tgt.amount_deposited_native != 0 {
                            Err(VsrError::DepositEntryIsOld)
                        } else if tgt.lockup.start_ts + tgt.lockup.period.spec_secs() > u64::MAX {
                            Err(VsrError::InvalidTimestampArguments)
                        } else {
                            Ok(
                                (
                                    v.with_deposit(source as int, debited(src, amount)).with_deposit(
                                        target as int,
                                        staked_into(tgt, amount, now),
                                    ),
                                    RewardNotice::DepositMining {
                                        amount,
                                        lockup_period: tgt.lockup.period,
                                    },
                                ),
                            )
                        }
                    },
                },
            }
        },
    }
}

/// Why the fixed-term slot `tgt` cannot be extended to `new_period` at `now`, if it cannot:
/// it must be fixed-term, and the new period must commit at least as long as the period the
/// term counts as now (`Flex` once it has ended).
pub open spec fn extension_error(tgt: DepositEntry, new_period: LockupPeriod, now: u64) -> Option<
    VsrError,
> {
    if tgt.lockup.period == LockupPeriod::NoPeriod || tgt.lockup.kind == LockupKind::Unrestricted {
        Some(VsrError::ExtendDepositIsNotAllowed)
    } else if !new_period.spec_at_least(&tgt.lockup.spec_effective_period(now)) {
        Some(VsrError::ExtendDepositIsNotAllowed)
    } else {
        None
    }
}

/// Why `tgt` cannot take `additional` more tokens and a new term from `now`, if it cannot.
pub open spec fn extension_overflow(
    tgt: DepositEntry,
    new_period: LockupPeriod,
    additional: u64,
    now: u64,
) -> Option<VsrError> {
    if tgt.amount_deposited_native + additional > u64::MAX {
        Some(VsrError::ArithmeticOverflow)
    } else if now + new_period.spec_secs() > u64::MAX {
        Some(VsrError::InvalidTimestampArguments)
    } else {
        None
    }
}

/// `tgt` grown by `additional` tokens, with a new term of `new_period` starting at `now`.
pub open spec fn extended(
    tgt: DepositEntry,
    new_period: LockupPeriod,
    additional: u64,
    now: u64,
) -> DepositEntry {
    DepositEntry {
        amount_deposited_native: (tgt.amount_deposited_native + additional) as u64,
        lockup: Lockup {
            start_ts: now,
            end_ts: (now + new_period.spec_secs()) as u64,
            period: new_period,
            ..tgt.lockup
        },
        ..tgt
    }
}

/// The notice of the extension of `tgt`: the old and new periods, the old start and
/// balance, and what is added.
pub open spec fn extension_notice(
    tgt: DepositEntry,
    new_period: LockupPeriod,
    additional: u64,
    now: u64,
) -> RewardNotice {
    RewardNotice::ExtendStake {
        old_lockup_period: tgt.lockup.spec_effective_period(now),
        new_lockup_period: new_period,
        start_ts: tgt.lockup.start_ts,
        base_amount: tgt.amount_deposited_native,
        additional_amount: additional,
    }
}

/// Outcome of moving `additional` tokens from the unrestricted slot `source` into the
/// fixed-term slot `target` and restarting its term for `new_period`.
pub open spec fn spec_extend_stake(
    v: VoterView,
    source: u8,
    target: u8,
    new_period: LockupPeriod,
    additional: u64,
    now: u64,
) -> Result<(VoterView, RewardNotice), VsrError> {
    match v.active_deposit_error(source) {
        Some(e) => Err(e),
        None => {
            let src = v.deposits[source as int];
            match source_error(src, additional) {
                Some(e) => Err(e),
                None => match v.active_deposit_error(target) {
                    Some(e) => Err(e),
                    None => {
                        let tgt = v.deposits[target as int];
                        match extension_error(tgt, new_period, now) {
                            Some(e) => Err(e),
                            None => if tgt.voting_mint_config_idx != src.voting_mint_config_idx {
                                Err(VsrError::InvalidMint)
                            } else {
                                match extension_overflow(tgt, new_period, additional, now) {
                                    Some(e) => Err(e),
                                    None => Ok(
                                        (
                                            v.with_deposit(
                                                source as int,
                                                debited(src, additional),
                                            ).with_deposit(
                                                target as int,
                                                extended(tgt, new_period, additional, now),
                                            ),
                                            extension_notice(tgt, new_period, additional, now),
                                        ),
                                    ),
                                }
                            },
                        }
                    },
                },
            }
        },
    }
}

/// Outcome of restaking the fixed-term slot `index` for `new_period`, with `additional`
/// tokens of the asset `mint` brought in from outside.
pub open spec fn spec_restake_deposit(
    v: VoterView,
    registrar: Registrar,
    mint: Seq<u8>,
    index: u8,
    new_period: LockupPeriod,
    additional: u64,
    now: u64,
) -> Result<(VoterView, RewardNotice), VsrError> {
    match v.active_deposit_error(index) {
        Some(e) => Err(e),
        None => {
            let d = v.deposits[index as int];
            match extension_error(d, new_period, now) {
                Some(e) => Err(e),
                None => match registrar.spec_mint_index(mint) {
                    None => Err(VsrError::VotingMintNotFound),
                    Some(mint_idx) => if mint_idx != d.voting_mint_config_idx as int {
                        Err(VsrError::InvalidMint)
                    } else {
                        match extension_overflow(d, new_period, additional, now) {
                            Some(e) => Err(e),
                            None => Ok(
                                (
                                    v.with_deposit(
                                        index as int,
                                        extended(d, new_period, additional, now),
                                    ),
                                    extension_notice(d, new_period, additional, now),
                                ),
                            ),
                        }
                    },
                },
            }
        },
    }
}

/// Outcome of requesting the release of slot `index` at `now`: allowed once, after the term
/// has ended; the cooldown then ends `COOLDOWN_SECS` later.
pub open spec fn spec_unlock_tokens(v: VoterView, index: u8, now: u64) -> Result<
    (VoterView, RewardNotice),
    VsrError,
> {
    match v.active_deposit_error(index) {
        Some(e) => Err(e),
        None => {
            let d = v.deposits[index as int];
            if d.lockup.cooldown_requested {
                Err(VsrError::UnlockAlreadyRequested)
            } else if now < d.lockup.end_ts {
                Err(VsrError::DepositStillLocked)
            } else if now + COOLDOWN_SECS > u64::MAX {
                Err(VsrError::InvalidTimestampArguments)
            } else {
                Ok(
                    (
                        v.with_deposit(
                            index as int,
                            DepositEntry {
                                lockup: Lockup {
                                    cooldown_requested: true,
                                    cooldown_ends_at: (now + COOLDOWN_SECS) as u64,
                                    ..d.lockup
                                },
                                ..d
                            },
                        ),
                        RewardNotice::WithdrawMining { amount: d.amount_deposited_native },
                    ),
                )
            }
        },
    }
}

/// Checks that `src` can give `amount` to a stake.
fn check_source(src: &DepositEntry, amount: u64) -> (r: Result<(), VsrError>)
    ensures
        match source_error(*src, amount) {
            Some(e) => r == Err::<(), VsrError>(e),
            None => r is Ok,
        },
{
    if src.lockup.kind != LockupKind::Unrestricted {
        return Err(VsrError::LockingIsForbidded);
    }
    if src.amount_unlocked() < amount {
        return Err(VsrError::InsufficientUnlockedTokens);
    }
    Ok(())
}

/// Checks that `tgt` may be extended to `new_period` at `now`, and returns the period its
/// term counts as now.
fn check_extension(tgt: &DepositEntry, new_period: LockupPeriod, now: u64) -> (r: Result<
    LockupPeriod,
    VsrError,
>)
    ensures
        match extension_error(*tgt, new_period, now) {
            Some(e) => r == Err::<LockupPeriod, VsrError>(e),
            None => r == Ok::<LockupPeriod, VsrError>(tgt.lockup.spec_effective_period(now)),
        },
{
    if tgt.lockup.period == LockupPeriod::NoPeriod || tgt.lockup.kind == LockupKind::Unrestricted {
        return Err(VsrError::ExtendDepositIsNotAllowed);
    }
    let current = tgt.lockup.effective_period(now);
    if !new_period.at_least(&current) {
        return Err(VsrError::ExtendDepositIsNotAllowed);
    }
    Ok(current)
}

/// `tgt` grown by `additional` tokens with a new term of `new_period` from `now`, unless a
/// sum does not fit.
fn extend_entry(tgt: &DepositEntry, new_period: LockupPeriod, additional: u64, now: u64) -> (r:
    Result<DepositEntry, VsrError>)
    ensures
        match extension_overflow(*tgt, new_period, additional, now) {
            Some(e) => r == Err::<DepositEntry, VsrError>(e),
            None => r == Ok::<DepositEntry, VsrError>(extended(*tgt, new_period, additional, now)),
        },
{
    let amount = match tgt.amount_deposited_native.checked_add(additional) {
        Some(a) => a,
        None => {
            return Err(VsrError::ArithmeticOverflow);
        },
    };
    let end_ts = match now.checked_add(new_period.to_secs()) {
        Some(t) => t,
        None => {
            return Err(VsrError::InvalidTimestampArguments);
        },
    };
    let mut d = *tgt;
    d.amount_deposited_native = amount;
    d.lockup.start_ts = now;
    d.lockup.end_ts = end_ts;
    d.lockup.period = new_period;
    Ok(d)
}

/// Stakes `amount` tokens from the unrestricted slot `source_deposit_entry_index` into the
/// empty fixed-term slot `target_deposit_entry_index`, whose term then runs its full period.
///
/// On success the returned notice must reach the reward service.
pub fn stake(
    voter: &mut Voter,
    source_deposit_entry_index: u8,
    target_deposit_entry_index: u8,
    amount: u64,
    now: u64,
) -> (r: Result<RewardNotice, VsrError>)
    requires
        old(voter).wf(),
    ensures
        final(voter).wf(),
        match spec_stake(
            old(voter)@,
            source_deposit_entry_index,
            target_deposit_entry_index,
            amount,
            now,
        ) {
            Ok((v, notice)) => r == Ok::<RewardNotice, VsrError>(notice) && final(voter)@ == v,
            Err(e) => r == Err::<RewardNotice, VsrError>(e) && *final(voter) == *old(voter),
        },
{
    let src = match voter.active_deposit(source_deposit_entry_index) {
        Ok(d) => d,
        Err(e) => {
            return Err(e);
        },
    };
    match check_source(&src, amount) {
        Ok(()) => {},
        Err(e) => {
            return Err(e);
        },
    }
    let tgt = match voter.active_deposit(target_deposit_entry_index) {
        Ok(d) => d,
        Err(e) => {
            return Err(e);
        },
    };
    if tgt.lockup.kind != LockupKind::Constant || tgt.lockup.period == LockupPeriod::NoPeriod {
        return Err(VsrError::LockingIsForbidded);
    }
    if tgt.voting_mint_config_idx != src.voting_mint_config_idx {
        return Err(VsrError::InvalidMint);
    }
    if tgt.amount_deposited_native != 0 {
        return Err(VsrError::DepositEntryIsOld);
    }
    let end_ts = match tgt.lockup.start_ts.checked_add(tgt.lockup.period.to_secs()) {
        Some(t) => t,
        None => {
            return Err(VsrError::InvalidTimestampArguments);
        },
    };
    let mut new_src = src;
    new_src.amount_deposited_native = src.amount_deposited_native - amount;
    let mut new_tgt = tgt;
    new_tgt.amount_deposited_native = amount;
    new_tgt.delegate_last_update_ts = now;
    new_tgt.lockup.end_ts = end_ts;
    voter.deposits[source_deposit_entry_index as usize] = new_src;
    voter.deposits[target_deposit_entry_index as usize] = new_tgt;
    Ok(RewardNotice::DepositMining { amount, lockup_period: tgt.lockup.period })
}

/// Moves `additional_amount` tokens from the unrestricted slot `source_deposit_entry_index`
/// into the fixed-term slot `target_deposit_entry_index` and restarts its term at `now` for
/// `new_lockup_period`, which must commit at least as long as the current one.
///
/// On success the returned notice must reach the reward service.
pub fn extend_stake(
    voter: &mut Voter,
    source_deposit_entry_index: u8,
    target_deposit_entry_index: u8,
    new_lockup_period: LockupPeriod,
    additional_amount: u64,
    now: u64,
) -> (r: Result<RewardNotice, VsrError>)
    requires
        old(voter).wf(),
    ensures
        final(voter).wf(),
        match spec_extend_stake(
            old(voter)@,
            source_deposit_entry_index,
            target_deposit_entry_index,
            new_lockup_period,
            additional_amount,
            now,
        ) {
            Ok((v, notice)) => r == Ok::<RewardNotice, VsrError>(notice) && final(voter)@ == v,
            Err(e) => r == Err::<RewardNotice, VsrError>(e) && *final(voter) == *old(voter),
        },
{
    let src = match voter.active_deposit(source_deposit_entry_index) {
        Ok(d) => d,
        Err(e) => {
            return Err(e);
        },
    };
    match check_source(&src, additional_amount) {
        Ok(()) => {},
        Err(e) => {
            return Err(e);
        },
    }
    let tgt = match voter.active_deposit(target_deposit_entry_index) {
        Ok(d) => d,
        Err(e) => {
            return Err(e);
        },
    };
    let current = match check_extension(&tgt, new_lockup_period, now) {
        Ok(p) => p,
        Err(e) => {
            return Err(e);
        },
    };
    if tgt.voting_mint_config_idx != src.voting_mint_config_idx {
        return Err(VsrError::InvalidMint);
    }
    let new_tgt = match extend_entry(&tgt, new_lockup_period, additional_amount, now) {
        Ok(d) => d,
        Err(e) => {
            return Err(e);
        },
    };
    let mut new_src = src;
    new_src.amount_deposited_native = src.amount_deposited_native - additional_amount;
    voter.deposits[source_deposit_entry_index as usize] = new_src;
    voter.deposits[target_deposit_entry_index as usize] = new_tgt;
    Ok(
        RewardNotice::ExtendStake {
            old_lockup_period: current,
            new_lockup_period,
            start_ts: tgt.lockup.start_ts,
            base_amount: tgt.amount_deposited_native,
            additional_amount,
        },
    )
}

/// Restakes the fixed-term slot `deposit_entry_index` at `now` for `new_lockup_period`,
/// which must commit at least as long as the current one, adding `additional_amount` tokens
/// of the asset `mint` that the caller moves into custody.
///
/// On success the returned notice must reach the reward service.
pub fn restake_deposit(
    voter: &mut Voter,
    registrar: &Registrar,
    mint: &Address,
    deposit_entry_index: u8,
    new_lockup_period: LockupPeriod,
    additional_amount: u64,
    now: u64,
) -> (r: Result<RewardNotice, VsrError>)
    requires
        old(voter).wf(),
        registrar.wf(),
    ensures
        final(voter).wf(),
        match spec_restake_deposit(
            old(voter)@,
            *registrar,
            mint@,
            deposit_entry_index,
            new_lockup_period,
            additional_amount,
            now,
        ) {
            Ok((v, notice)) => r == Ok::<RewardNotice, VsrError>(notice) && final(voter)@ == v,
            Err(e) => r == Err::<RewardNotice, VsrError>(e) && *final(voter) == *old(voter),
        },
{
    let d = match voter.active_deposit(deposit_entry_index) {
        Ok(d) => d,
        Err(e) => {
            return Err(e);
        },
    };
    let current = match check_extension(&d, new_lockup_period, now) {
        Ok(p) => p,
        Err(e) => {
            return Err(e);
        },
    };
    let mint_idx = match registrar.voting_mint_config_index(mint) {
        Ok(i) => i,
        Err(e) => {
            return Err(e);
        },
    };
    if mint_idx != d.voting_mint_config_idx as usize {
        return Err(VsrError::InvalidMint);
    }
    let new_d = match extend_entry(&d, new_lockup_period, additional_amount, now) {
        Ok(n) => n,
        Err(e) => {
            return Err(e);
        },
    };
    voter.deposits[deposit_entry_index as usize] = new_d;
    Ok(
        RewardNotice::ExtendStake {
            old_lockup_period: current,
            new_lockup_period,
            start_ts: d.lockup.start_ts,
            base_amount: d.amount_deposited_native,
            additional_amount,
        },
    )
}

/// Requests the release of slot `deposit_entry_index` at `now`, once its term has ended.
/// Withdrawal becomes possible when the cooldown ends, `COOLDOWN_SECS` later.
///
/// On success the returned notice must reach the reward service.
pub fn unlock_tokens(voter: &mut Voter, deposit_entry_index: u8, now: u64) -> (r: Result<
    RewardNotice,
    VsrError,
>)
    requires
        old(voter).wf(),
    ensures
        final(voter).wf(),
        match spec_unlock_tokens(old(voter)@, deposit_entry_index, now) {
            Ok((v, notice)) => r == Ok::<RewardNotice, VsrError>(notice) && final(voter)@ == v,
            Err(e) => r == Err::<RewardNotice, VsrError>(e) && *final(voter) == *old(voter),
        },
{
    let mut d = match voter.active_deposit(deposit_entry_index) {
        Ok(d) => d,
        Err(e) => {
            return Err(e);
        },
    };
    if d.lockup.cooldown_requested {
        return Err(VsrError::UnlockAlreadyRequested);
    }
    if now < d.lockup.end_ts {
        return Err(VsrError::DepositStillLocked);
    }
    let ends_at = match now.checked_add(COOLDOWN_SECS) {
        Some(t) => t,
        None => {
            return Err(VsrError::InvalidTimestampArguments);
        },
    };
    d.lockup.cooldown_requested = true;
    d.lockup.cooldown_ends_at = ends_at;
    voter.deposits[deposit_entry_index as usize] = d;
    Ok(RewardNotice::WithdrawMining { amount: d.amount_deposited_native })
}

} // verus!
