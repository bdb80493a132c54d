use crate::deposit_entry::{default_entry, DepositEntry};
use crate::error::VsrError;
use crate::funding::spec_deposit;
use crate::lockup::{LockupKind, LockupPeriod};
use crate::registrar::Registrar;
use crate::release::spec_withdraw;
use crate::staking::{spec_extend_stake, spec_stake, spec_restake_deposit, spec_unlock_tokens};
use crate::notice::Withdrawal;
use crate::voter::{lemma_sum_power_nonneg, slot_power, sum_power, VoterView};
use vstd::prelude::*;

verus! {

/// Locked and unlocked tokens of a slot always add up to its balance, at every time.
pub proof fn lemma_locked_plus_unlocked(d: DepositEntry)
    ensures
        d.spec_amount_locked() + d.spec_amount_unlocked() == d.amount_deposited_native,
{
}

/// Funding a slot with nothing always succeeds and changes nothing.
pub proof fn lemma_deposit_nothing(v: VoterView, registrar: Registrar, mint: Seq<u8>, index: u8)
    ensures
        spec_deposit(v, registrar, mint, index, 0) == Ok::<VoterView, VsrError>(v),
{
}

/// Funding an unrestricted slot with `amount` and withdrawing the same amount again gives the
/// slot back its balance. When the slot carried no penalty the whole voter is as before; and
/// when something was funded, the withdrawal is refused only if the voter's total weight does
/// not fit in a `u64`.
pub proof fn lemma_deposit_withdraw_round_trip(
    v: VoterView,
    registrar: Registrar,
    mint: Seq<u8>,
    index: u8,
    amount: u64,
    now: u64,
)
    requires
        v.wf(),
        registrar.wf(),
        (index as int) < v.deposits.len(),
        v.deposits[index as int].lockup.kind == LockupKind::Unrestricted,
        spec_deposit(v, registrar, mint, index, amount) is Ok,
    ensures
        ({
            let v1 = spec_deposit(v, registrar, mint, index, amount)->Ok_0;
            let w = spec_withdraw(v1, registrar, mint, index, amount, now);
            &&& w is Ok ==> w->Ok_0.0.deposits[index as int].amount_deposited_native
                == v.deposits[index as int].amount_deposited_native
            &&& w is Ok && v.deposits[index as int].slashing_penalty == 0 ==> w->Ok_0.0 == v
            &&& amount > 0 && v.weight() <= u64::MAX ==> w is Ok
        }),
{
    let i = index as int;
    let d = v.deposits[i];
    let v1 = spec_deposit(v, registrar, mint, index, amount)->Ok_0;
    let d1 = v1.deposits[i];
    assert(d1.lockup.kind == LockupKind::Unrestricted);
    assert(d1.amount_deposited_native == d.amount_deposited_native + amount);
    let v2 = v1.with_deposit(i, crate::release::withdrawn(d1, amount));
    let back = DepositEntry { slashing_penalty: 0, ..d };
    assert(crate::release::withdrawn(d1, amount) == back);
    assert(v2.deposits =~= v.deposits.update(i, back));
    if d.slashing_penalty == 0 {
        assert(back == d);
        assert(v2.deposits =~= v.deposits);
    }
    lemma_weight_update(v.deposits, i, back);
}

/// Replacing a slot changes the total voting power by the difference of the two slots' power.
proof fn lemma_weight_update(s: Seq<DepositEntry>, i: int, d: DepositEntry)
    requires
        0 <= i < s.len(),
    ensures
        sum_power(s.update(i, d)) == sum_power(s) - slot_power(s[i]) + slot_power(d),
    decreases s.len(),
{
    if i < s.len() - 1 {
        assert(s.update(i, d).drop_last() =~= s.drop_last().update(i, d));
        lemma_weight_update(s.drop_last(), i, d);
    } else {
        assert(s.update(i, d).drop_last() =~= s.drop_last());
    }
}

/// A fixed-term slot whose release was not requested refuses every withdrawal with
/// `UnlockMustBeCalledFirst`, however long its term has been over.
pub proof fn lemma_withdraw_before_unlock(
    v: VoterView,
    registrar: Registrar,
    mint: Seq<u8>,
    index: u8,
    amount: u64,
    now: u64,
)
    requires
        registrar.spec_mint_index(mint) is Some,
        (index as int) < v.deposits.len(),
        v.deposits[index as int].is_used,
        v.deposits[index as int].lockup.kind == LockupKind::Constant,
        !v.deposits[index as int].lockup.cooldown_requested,
    ensures
        spec_withdraw(v, registrar, mint, index, amount, now) == Err::<
            (VoterView, Withdrawal),
            VsrError,
        >(VsrError::UnlockMustBeCalledFirst),
{
}

/// A fixed-term slot whose cooldown has not ended refuses every withdrawal with
/// `InvalidTimestampArguments`.
pub proof fn lemma_withdraw_during_cooldown(
    v: VoterView,
    registrar: Registrar,
    mint: Seq<u8>,
    index: u8,
    amount: u64,
    now: u64,
)
    requires
        registrar.spec_mint_index(mint) is Some,
        (index as int) < v.deposits.len(),
        v.deposits[index as int].is_used,
        v.deposits[index as int].lockup.kind == LockupKind::Constant,
        v.deposits[index as int].lockup.cooldown_requested,
        now < v.deposits[index as int].lockup.cooldown_ends_at,
    ensures
        spec_withdraw(v, registrar, mint, index, amount, now) == Err::<
            (VoterView, Withdrawal),
            VsrError,
        >(VsrError::InvalidTimestampArguments),
{
}

/// Once the cooldown of a fixed-term slot has ended, withdrawing its whole balance with its
/// own asset succeeds and frees the slot, provided the voter's total weight fits in a `u64`.
pub proof fn lemma_full_withdraw_frees_slot(
    v: VoterView,
    registrar: Registrar,
    mint: Seq<u8>,
    index: u8,
    now: u64,
)
    requires
        v.wf(),
        registrar.spec_mint_index(mint) == Some(
            v.deposits[index as int].voting_mint_config_idx as int,
        ),
        (index as int) < v.deposits.len(),
        v.deposits[index as int].is_used,
        v.deposits[index as int].lockup.kind == LockupKind::Constant,
        v.deposits[index as int].lockup.period != LockupPeriod::NoPeriod,
        v.deposits[index as int].lockup.cooldown_requested,
        now >= v.deposits[index as int].lockup.cooldown_ends_at,
        v.weight() <= u64::MAX,
    ensures
        ({
            let w = spec_withdraw(
                v,
                registrar,
                mint,
                index,
                v.deposits[index as int].amount_deposited_native,
                now,
            );
            &&& w is Ok
            &&& w->Ok_0.0.deposits[index as int] == default_entry()
            &&& w->Ok_0.1.amount == v.deposits[index as int].amount_deposited_native
        }),
{
    let i = index as int;
    let d = v.deposits[i];
    assert(crate::release::withdrawn(d, d.amount_deposited_native) == default_entry());
    lemma_weight_update(v.deposits, i, default_entry());
    lemma_sum_power_nonneg(v.deposits);
}

/// A stake succeeds only into another slot that, before the call, was fixed-term, had a
/// period and held nothing; it refuses an unrestricted target with `LockingIsForbidded`.
pub proof fn lemma_stake_into_fresh_fixed_term(
    v: VoterView,
    source: u8,
    target: u8,
    amount: u64,
    now: u64,
)
    ensures
        spec_stake(v, source, target, amount, now) is Ok ==> {
            &&& source != target
            &&& v.deposits[target as int].lockup.kind == LockupKind::Constant
            &&& v.deposits[target as int].lockup.period != LockupPeriod::NoPeriod
            &&& v.deposits[target as int].amount_deposited_native == 0
        },
        (target as int) < v.deposits.len() && v.deposits[target as int].is_used
            && v.deposits[target as int].lockup.kind == LockupKind::Unrestricted
            && v.active_deposit_error(source) is None && crate::staking::source_error(
            v.deposits[source as int],
            amount,
        ) is None ==> spec_stake(v, source, target, amount, now) == Err::<
            (VoterView, crate::notice::RewardNotice),
            VsrError,
        >(VsrError::LockingIsForbidded),
{
}

/// Extending a stake never shortens its commitment: a new period below the period the
/// target's term counts as now (`Flex` once it has ended) is refused, and a period at least
/// as long is never refused for its length. Once the term has ended, every period of the
/// catalog passes that rule.
pub proof fn lemma_extend_period_rule(
    v: VoterView,
    source: u8,
    target: u8,
    new_period: LockupPeriod,
    additional: u64,
    now: u64,
)
    requires
        v.wf(),
        (target as int) < v.deposits.len(),
    ensures
        ({
            let tgt = v.deposits[target as int];
            let r = spec_extend_stake(v, source, target, new_period, additional, now);
            &&& !new_period.spec_at_least(&tgt.lockup.spec_effective_period(now)) ==> r is Err
            &&& tgt.lockup.kind == LockupKind::Constant && tgt.lockup.period
                != LockupPeriod::NoPeriod && new_period.spec_at_least(
                &tgt.lockup.spec_effective_period(now),
            ) ==> r != Err::<(VoterView, crate::notice::RewardNotice), VsrError>(
                VsrError::ExtendDepositIsNotAllowed,
            )
            &&& tgt.lockup.spec_expired(now) && new_period != LockupPeriod::NoPeriod
                ==> new_period.spec_at_least(&tgt.lockup.spec_effective_period(now))
        }),
{
}

/// The same rule holds for restaking a slot with tokens brought in from outside.
pub proof fn lemma_restake_period_rule(
    v: VoterView,
    registrar: Registrar,
    mint: Seq<u8>,
    index: u8,
    new_period: LockupPeriod,
    additional: u64,
    now: u64,
)
    requires
        v.wf(),
        (index as int) < v.deposits.len(),
    ensures
        ({
            let d = v.deposits[index as int];
            let r = spec_restake_deposit(v, registrar, mint, index, new_period, additional, now);
            &&& !new_period.spec_at_least(&d.lockup.spec_effective_period(now)) ==> r is Err
            &&& d.lockup.kind == LockupKind::Constant && d.lockup.period != LockupPeriod::NoPeriod
                && new_period.spec_at_least(&d.lockup.spec_effective_period(now)) ==> r
                != Err::<(VoterView, crate::notice::RewardNotice), VsrError>(
                VsrError::ExtendDepositIsNotAllowed,
            )
        }),
{
}

/// A fixed-term slot can only be withdrawn from once its release was requested and the
/// cooldown has passed.
pub proof fn lemma_withdraw_after_cooldown(
    v: VoterView,
    registrar: Registrar,
    mint: Seq<u8>,
    index: u8,
    amount: u64,
    now: u64,
)
    requires
        (index as int) < v.deposits.len(),
        v.deposits[index as int].lockup.kind == LockupKind::Constant,
    ensures
        spec_withdraw(v, registrar, mint, index, amount, now) is Ok ==> {
            &&& v.deposits[index as int].lockup.cooldown_requested
            &&& now >= v.deposits[index as int].lockup.cooldown_ends_at
        },
{
}

/// The release of a slot can be requested only once: a second request, at any time, is
/// refused with `UnlockAlreadyRequested`.
pub proof fn lemma_unlock_once(v: VoterView, index: u8, now: u64, later: u64)
    requires
        spec_unlock_tokens(v, index, now) is Ok,
    ensures
        spec_unlock_tokens(spec_unlock_tokens(v, index, now)->Ok_0.0, index, later) == Err::<
            (VoterView, crate::notice::RewardNotice),
            VsrError,
        >(VsrError::UnlockAlreadyRequested),
{
}

} // verus!
