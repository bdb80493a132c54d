use crate::lockup::LockupPeriod;
use vstd::prelude::*;

verus! {

/// What the reward service has to be told about a successful operation. The operation and
/// the notice form one transaction: when the notice cannot be delivered, the caller discards
/// the new voter state.
#[derive(Clone, Copy, Debug, PartialEq, Eq, Structural)]
pub enum RewardNotice {
    /// A stake of `amount` for `lockup_period` begins.
    DepositMining { amount: u64, lockup_period: LockupPeriod },
    /// A stake of `base_amount`, begun at `start_ts` and counting as `old_lockup_period`,
    /// grows by `additional_amount` and restarts for `new_lockup_period`.
    ExtendStake {
        old_lockup_period: LockupPeriod,
        new_lockup_period: LockupPeriod,
        start_ts: u64,
        base_amount: u64,
        additional_amount: u64,
    },
    /// A stake of `amount` stops accruing rewards.
    WithdrawMining { amount: u64 },
    /// The participant's reward account is closed.
    CloseMining,
}

/// What leaves custody on a successful withdrawal.
#[derive(Clone, Copy, Debug, PartialEq, Eq, Structural)]
pub struct Withdrawal {
    /// Paid out to the depositor.
    pub amount: u64,
    /// Paid out to the treasury; zero when the deposit carried no penalty.
    pub slashing_penalty: u64,
    /// The voter's total voting power after the withdrawal, for the weight snapshot.
    pub voter_weight: u64,
}

} // verus!
