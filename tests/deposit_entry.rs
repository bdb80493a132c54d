use mpl_staking::address::Address;
use mpl_staking::deposit_entry::DepositEntry;
use mpl_staking::lockup::{Lockup, LockupKind, LockupPeriod};

#[test]
fn deposit_entry_far_future_lockup_start_test() {
    // Voting power stays correct even when the lockup starts very far in the future.
    let lockup_start = 10_000_000_000; // arbitrary point
    let period = LockupPeriod::Flex;
    let delegate = Address { bytes: [7; 32] };
    let deposit = DepositEntry {
        amount_deposited_native: 20_000,
        delegate,
        lockup: Lockup {
            start_ts: lockup_start,
            end_ts: lockup_start + LockupPeriod::Flex.to_secs(),
            kind: LockupKind::Constant,
            period,
            ..Default::default()
        },
        is_used: true,
        ..Default::default()
    };

    let baseline_vote_weight = deposit.amount_deposited_native;
    assert_eq!(baseline_vote_weight, 20_000);

    let withdrawable = deposit.amount_unlocked();
    assert_eq!(withdrawable, 0);

    let voting_power = deposit.voting_power().unwrap();
    assert_eq!(voting_power, 20_000);
}

#[test]
fn test_weighted_stake_unused() {
    let deposit = DepositEntry {
        amount_deposited_native: 20_000,
        ..Default::default()
    };
    assert_eq!(deposit.weighted_stake(0), 0);
}

#[test]
fn test_weighted_stake_expired() {
    let amount = 20_000;
    let deposit = DepositEntry {
        amount_deposited_native: amount,
        lockup: Lockup::default(),
        is_used: true,
        ..Default::default()
    };
    // The default lockup is the all-zero one: unrestricted, with no period. Such a slot is
    // not staked, so it carries no weighted stake.
    assert_eq!(deposit.weighted_stake(10), 0);
}

#[test]
fn test_weighted_stake_under_cooldown() {
    let amount = 20_000;
    let deposit = DepositEntry {
        amount_deposited_native: amount,
        lockup: Lockup {
            end_ts: 100,
            cooldown_requested: true,
            ..Default::default()
        },
        is_used: true,
        ..Default::default()
    };
    assert_eq!(deposit.weighted_stake(150), 0);
}

#[test]
fn test_weighted_stake() {
    let amount = 20_000;
    let deposit = DepositEntry {
        amount_deposited_native: amount,
        lockup: Lockup {
            end_ts: 100,
            kind: LockupKind::Constant,
            period: LockupPeriod::OneYear,
            ..Default::default()
        },
        is_used: true,
        ..Default::default()
    };
    assert_eq!(
        deposit.weighted_stake(50),
        amount * LockupPeriod::OneYear.multiplier()
    );
}

#[test]
fn test_weighted_stake_is_invalid() {
    let amount = 20_000;

    let deposit = DepositEntry {
        amount_deposited_native: amount,
        lockup: Lockup {
            end_ts: 200,
            kind: LockupKind::Unrestricted,
            period: LockupPeriod::NoPeriod,
            ..Default::default()
        },
        is_used: true,
        ..Default::default()
    };
    assert_eq!(deposit.weighted_stake(50), 0);

    let deposit = DepositEntry {
        lockup: Lockup {
            kind: LockupKind::Unrestricted,
            period: LockupPeriod::ThreeMonths,
            ..deposit.lockup
        },
        is_used: true,
        ..deposit
    };
    assert_eq!(deposit.weighted_stake(50), 0);

    let deposit = DepositEntry {
        lockup: Lockup {
            kind: LockupKind::Constant,
            period: LockupPeriod::NoPeriod,
            ..deposit.lockup
        },
        is_used: true,
        ..deposit
    };
    assert_eq!(deposit.weighted_stake(50), 0);

    let deposit = DepositEntry {
        lockup: Lockup {
            kind: LockupKind::Constant,
            period: LockupPeriod::SixMonths,
            ..deposit.lockup
        },
        is_used: false,
        ..deposit
    };
    assert_eq!(deposit.weighted_stake(50), 0);
}

#[test]
fn weighted_stake_of_an_expired_term_counts_as_flex() {
    let deposit = DepositEntry {
        amount_deposited_native: 20_000,
        lockup: Lockup {
            end_ts: 100,
            kind: LockupKind::Constant,
            period: LockupPeriod::OneYear,
            ..Default::default()
        },
        is_used: true,
        ..Default::default()
    };
    assert_eq!(deposit.weighted_stake(100), 20_000);
    assert_eq!(deposit.weighted_stake(99), 120_000);
}

#[test]
fn locked_and_unlocked_add_up() {
    let staked = DepositEntry {
        amount_deposited_native: 500,
        lockup: Lockup {
            end_ts: 100,
            kind: LockupKind::Constant,
            period: LockupPeriod::ThreeMonths,
            ..Default::default()
        },
        is_used: true,
        ..Default::default()
    };
    assert_eq!(staked.amount_locked(), 500);
    assert_eq!(staked.amount_unlocked(), 0);
    let cooling = DepositEntry {
        lockup: Lockup {
            cooldown_requested: true,
            ..staked.lockup
        },
        ..staked
    };
    assert_eq!(cooling.amount_locked(), 0);
    assert_eq!(cooling.amount_unlocked(), 500);
    assert_eq!(
        cooling.amount_locked() + cooling.amount_unlocked(),
        cooling.amount_deposited_native
    );
}

#[test]
fn default_entry_is_all_zero() {
    let d = DepositEntry::default();
    assert!(!d.is_used);
    assert_eq!(d.amount_deposited_native, 0);
    assert_eq!(d.slashing_penalty, 0);
    assert_eq!(d.delegate, Address::zero());
    assert_eq!(d.lockup, Lockup::default());
    assert_eq!(d.lockup.kind, LockupKind::Unrestricted);
    assert_eq!(d.lockup.period, LockupPeriod::NoPeriod);
}

#[test]
fn lockup_catalog() {
    assert_eq!(LockupPeriod::NoPeriod.to_secs(), 0);
    assert_eq!(LockupPeriod::Flex.to_secs(), 5 * 86_400);
    assert_eq!(LockupPeriod::ThreeMonths.to_secs(), 90 * 86_400);
    assert_eq!(LockupPeriod::SixMonths.to_secs(), 180 * 86_400);
    assert_eq!(LockupPeriod::OneYear.to_secs(), 365 * 86_400);
    assert_eq!(LockupPeriod::Flex.multiplier(), 1);
    assert_eq!(LockupPeriod::ThreeMonths.multiplier(), 2);
    assert_eq!(LockupPeriod::SixMonths.multiplier(), 4);
    assert_eq!(LockupPeriod::OneYear.multiplier(), 6);
    assert!(LockupPeriod::ThreeMonths.at_least(&LockupPeriod::Flex));
    assert!(!LockupPeriod::Flex.at_least(&LockupPeriod::ThreeMonths));
    assert!(LockupPeriod::OneYear.at_least(&LockupPeriod::SixMonths));
    assert!(LockupPeriod::SixMonths.at_least(&LockupPeriod::SixMonths));
    assert!(!LockupPeriod::NoPeriod.at_least(&LockupPeriod::Flex));
}

#[test]
fn lockup_timing() {
    let l = Lockup::new(LockupKind::Constant, 1_000, LockupPeriod::Flex).unwrap();
    assert_eq!(l.start_ts, 1_000);
    assert_eq!(l.end_ts, 1_000 + 432_000);
    assert!(!l.cooldown_requested);
    assert_eq!(l.seconds_left(1_000), 432_000);
    assert_eq!(l.seconds_left(500_000), 0);
    assert!(!l.expired(432_999));
    assert!(l.expired(433_000));
    assert_eq!(l.effective_period(0), LockupPeriod::Flex);
    assert_eq!(l.multiplier(0), 1);
    let y = Lockup::new(LockupKind::Constant, 0, LockupPeriod::OneYear).unwrap();
    assert_eq!(y.multiplier(10), 6);
    assert_eq!(y.effective_period(31_536_000), LockupPeriod::Flex);
    assert_eq!(y.multiplier(31_536_000), 1);
}

#[test]
fn address_comparison() {
    let a = Address { bytes: [1; 32] };
    let mut b = a;
    assert!(a.same(&b));
    b.bytes[31] = 2;
    assert!(!a.same(&b));
    assert!(Address::zero().same(&Address { bytes: [0; 32] }));
}
