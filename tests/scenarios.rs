use mpl_staking::address::Address;
use mpl_staking::deposit_entry::DepositEntry;
use mpl_staking::error::VsrError;
use mpl_staking::funding::{close_deposit_entry, create_deposit_entry, deposit};
use mpl_staking::lockup::{LockupKind, LockupPeriod, COOLDOWN_SECS, SECS_PER_DAY};
use mpl_staking::notice::RewardNotice;
use mpl_staking::registrar::Registrar;
use mpl_staking::release::{close_voter, withdraw, VaultBalance};
use mpl_staking::staking::{stake, unlock_tokens};
use mpl_staking::voter::Voter;

const T0: u64 = 1_700_000_000;

fn mint() -> Address {
    Address { bytes: [9; 32] }
}

fn setup(authority: u8) -> (Voter, Registrar) {
    let mut registrar = Registrar::new();
    registrar.configure_voting_mint(0, mint()).unwrap();
    let voter = Voter::new(Address { bytes: [authority; 32] }, Address { bytes: [3; 32] }, 1, 2);
    (voter, registrar)
}

fn create(voter: &mut Voter, registrar: &Registrar, index: u8, kind: LockupKind, period: LockupPeriod, now: u64) {
    let delegate = voter.voter_authority;
    create_deposit_entry(voter, registrar, &mint(), index, kind, period, delegate, now).unwrap();
}

#[test]
fn fund_and_withdraw_unrestricted_slot() {
    let (mut voter, registrar) = setup(1);
    create(&mut voter, &registrar, 0, LockupKind::Unrestricted, LockupPeriod::NoPeriod, T0);
    deposit(&mut voter, &registrar, &mint(), 0, 15000).unwrap();
    assert_eq!(voter.deposits[0].amount_deposited_native, 15000);

    let w = withdraw(&mut voter, &registrar, &mint(), 0, 10000, T0).unwrap();
    assert_eq!(w.amount, 10000);
    assert_eq!(voter.deposits[0].amount_deposited_native, 5000);

    let before = voter;
    assert_eq!(
        withdraw(&mut voter, &registrar, &mint(), 0, 5001, T0),
        Err(VsrError::InsufficientUnlockedTokens)
    );
    assert_eq!(voter, before);

    withdraw(&mut voter, &registrar, &mint(), 0, 5000, T0).unwrap();
    assert_eq!(voter.deposits[0].amount_deposited_native, 0);
    // an unrestricted slot stays in use at zero balance
    assert!(voter.deposits[0].is_used);
}

#[test]
fn fixed_term_stake_unlock_and_withdraw() {
    let (mut voter, registrar) = setup(1);
    create(&mut voter, &registrar, 0, LockupKind::Unrestricted, LockupPeriod::NoPeriod, T0);
    deposit(&mut voter, &registrar, &mint(), 0, 5000).unwrap();
    create(&mut voter, &registrar, 1, LockupKind::Constant, LockupPeriod::ThreeMonths, T0);
    let notice = stake(&mut voter, 0, 1, 1000, T0).unwrap();
    assert_eq!(
        notice,
        RewardNotice::DepositMining { amount: 1000, lockup_period: LockupPeriod::ThreeMonths }
    );
    assert_eq!(voter.deposits[0].amount_deposited_native, 4000);
    assert_eq!(voter.deposits[1].amount_deposited_native, 1000);
    assert_eq!(voter.deposits[1].lockup.end_ts, T0 + 90 * SECS_PER_DAY);
    assert_eq!(voter.deposits[1].delegate_last_update_ts, T0);

    let mid = T0 + 45 * SECS_PER_DAY;
    assert_eq!(
        voter.deposits[1].weighted_stake(mid),
        1000 * LockupPeriod::ThreeMonths.multiplier()
    );
    assert_eq!(voter.deposits[1].amount_locked(), 1000);
    assert_eq!(unlock_tokens(&mut voter, 1, mid), Err(VsrError::DepositStillLocked));

    let after = T0 + 91 * SECS_PER_DAY;
    let notice = unlock_tokens(&mut voter, 1, after).unwrap();
    assert_eq!(notice, RewardNotice::WithdrawMining { amount: 1000 });
    assert_eq!(voter.deposits[1].lockup.cooldown_ends_at, after + COOLDOWN_SECS);
    assert_eq!(voter.deposits[1].weighted_stake(after), 0);

    assert_eq!(
        withdraw(&mut voter, &registrar, &mint(), 1, 1000, after + COOLDOWN_SECS - 1),
        Err(VsrError::InvalidTimestampArguments)
    );
    let w = withdraw(&mut voter, &registrar, &mint(), 1, 1000, after + COOLDOWN_SECS).unwrap();
    assert_eq!(w.amount, 1000);
    assert_eq!(w.voter_weight, 4000);
    assert_eq!(voter.deposits[1], DepositEntry::default());
}

#[test]
fn close_voter_only_without_locked_or_fixed_term_slots() {
    let (mut voter, registrar) = setup(1);
    create(&mut voter, &registrar, 0, LockupKind::Unrestricted, LockupPeriod::NoPeriod, T0);
    deposit(&mut voter, &registrar, &mint(), 0, 3000).unwrap();
    create(&mut voter, &registrar, 4, LockupKind::Constant, LockupPeriod::Flex, T0);
    stake(&mut voter, 0, 4, 3000, T0).unwrap();
    let vaults = vec![VaultBalance { mint: mint(), amount: 0 }];

    let before = voter;
    assert_eq!(close_voter(&mut voter, &registrar, &vaults), Err(VsrError::DepositStillLocked));
    assert_eq!(voter, before);

    let ends = T0 + LockupPeriod::Flex.to_secs();
    unlock_tokens(&mut voter, 4, ends).unwrap();
    assert_eq!(voter.deposits[4].amount_locked(), 0);
    assert_eq!(close_voter(&mut voter, &registrar, &vaults), Err(VsrError::DepositStillUsed));

    withdraw(&mut voter, &registrar, &mint(), 4, 3000, ends + COOLDOWN_SECS).unwrap();
    assert!(!voter.deposits[4].is_used);

    let full = vec![VaultBalance { mint: mint(), amount: 3000 }];
    assert_eq!(close_voter(&mut voter, &registrar, &full), Err(VsrError::VaultTokenNonZero));
    let foreign = vec![VaultBalance { mint: Address { bytes: [4; 32] }, amount: 0 }];
    assert_eq!(close_voter(&mut voter, &registrar, &foreign), Err(VsrError::VotingMintNotFound));

    assert_eq!(close_voter(&mut voter, &registrar, &vaults), Ok(RewardNotice::CloseMining));
    assert_eq!(voter, Voter::zeroed());
    assert_eq!(voter.voter_authority, Address::zero());
}

#[test]
fn test_deposit_no_locking() {
    let (mut voter, registrar) = setup(1);
    let (mut voter2, _) = setup(2);

    create(&mut voter, &registrar, 0, LockupKind::Unrestricted, LockupPeriod::NoPeriod, T0);
    deposit(&mut voter, &registrar, &mint(), 0, 15000).unwrap();
    assert_eq!(voter.weight(), Ok(15000));
    assert_eq!(voter.deposits[0].amount_deposited_native, 15000);

    // a separate deposit (index 1)
    create(&mut voter, &registrar, 1, LockupKind::Unrestricted, LockupPeriod::NoPeriod, T0);
    deposit(&mut voter, &registrar, &mint(), 1, 7000).unwrap();
    assert_eq!(voter.weight(), Ok(22000));
    assert_eq!(voter.deposits[1].amount_deposited_native, 7000);

    let w = withdraw(&mut voter, &registrar, &mint(), 0, 10000, T0).unwrap();
    assert_eq!(w.voter_weight, 12000);
    assert_eq!(voter.deposits[0].amount_deposited_native, 5000);

    assert_eq!(
        withdraw(&mut voter, &registrar, &mint(), 0, 5001, T0),
        Err(VsrError::InsufficientUnlockedTokens)
    );

    let w = withdraw(&mut voter, &registrar, &mint(), 0, 5000, T0).unwrap();
    assert_eq!(w.voter_weight, 7000);
    assert_eq!(voter.deposits[0].amount_deposited_native, 0);

    // close the empty deposit (closing deposits 1 and 2 fails)
    assert_eq!(close_deposit_entry(&mut voter, 2), Err(VsrError::UnusedDepositEntryIndex));
    assert_eq!(close_deposit_entry(&mut voter, 1), Err(VsrError::VotingTokenNonZero));
    close_deposit_entry(&mut voter, 0).unwrap();
    assert_eq!(voter.deposits[0], DepositEntry::default());
    assert_eq!(voter.weight(), Ok(7000));

    // voter2 is still at 0
    assert_eq!(voter2.deposits[0].amount_deposited_native, 0);
    assert_eq!(voter2.weight(), Ok(0));

    // now voter2 deposits
    create(&mut voter2, &registrar, 5, LockupKind::Unrestricted, LockupPeriod::NoPeriod, T0);
    deposit(&mut voter2, &registrar, &mint(), 5, 1000).unwrap();
    assert_eq!(voter2.deposits[5].amount_deposited_native, 1000);
    assert_eq!(voter2.weight(), Ok(1000));

    // when voter1 deposits again, they can reuse deposit index 0
    create(&mut voter, &registrar, 0, LockupKind::Unrestricted, LockupPeriod::NoPeriod, T0);
    deposit(&mut voter, &registrar, &mint(), 0, 3000).unwrap();
    assert_eq!(voter.weight(), Ok(7000 + 3000));
    assert_eq!(voter.deposits[0].amount_deposited_native, 3000);
}

#[test]
fn test_all_deposits() {
    let (mut voter, registrar) = setup(1);
    let mut now = T0;
    create(&mut voter, &registrar, 0, LockupKind::Unrestricted, LockupPeriod::NoPeriod, now);
    deposit(&mut voter, &registrar, &mint(), 0, 32000).unwrap();

    for i in 1..32u8 {
        create(&mut voter, &registrar, i, LockupKind::Constant, LockupPeriod::ThreeMonths, now);
        stake(&mut voter, 0, i, 1000, now).unwrap();
    }

    // the middle of all deposit lockups
    now += 45 * 86400;
    assert_eq!(voter.weight(), Ok(1000 * 32));
    for i in 1..32usize {
        assert_eq!(voter.deposits[i].weighted_stake(now), 2000);
    }

    now += 50 * 86400;
    unlock_tokens(&mut voter, 0, now).unwrap();

    now += 5 * 86400;
    // withdrawing works with all deposits filled
    let w = withdraw(&mut voter, &registrar, &mint(), 0, 1000, now).unwrap();
    assert_eq!(w.voter_weight, 31000);
}

fn staked_voter() -> (Voter, Registrar) {
    let (mut voter, registrar) = setup(1);
    create(&mut voter, &registrar, 1, LockupKind::Unrestricted, LockupPeriod::NoPeriod, 0);
    deposit(&mut voter, &registrar, &mint(), 1, 10_000).unwrap();
    create(&mut voter, &registrar, 0, LockupKind::Constant, LockupPeriod::ThreeMonths, 0);
    stake(&mut voter, 1, 0, 10_000, 0).unwrap();
    (voter, registrar)
}

#[test]
fn test_deposit_constant() {
    let (mut voter, registrar) = staked_voter();
    assert_eq!(voter.weight(), Ok(10_000));
    assert_eq!(voter.deposits[0].amount_deposited_native, 10_000);
    // all locked up
    assert!(withdraw(&mut voter, &registrar, &mint(), 0, 1, 0).is_err());

    // day 92: past the lockup period, yet nothing can leave before the unlock
    let secs_per_day = 24 * 60 * 60;
    unlock_tokens(&mut voter, 0, secs_per_day * 92).unwrap();
    // cooldown still not passed
    assert!(withdraw(&mut voter, &registrar, &mint(), 0, 10_000, secs_per_day * 92).is_err());

    // day 94: two days of cooldown have passed
    withdraw(&mut voter, &registrar, &mint(), 0, 10_000, secs_per_day * 94).unwrap();
    assert!(!voter.deposits[0].is_used);
}

#[test]
fn test_withdrawing_without_unlocking() {
    let (mut voter, registrar) = staked_voter();
    // impossible to withdraw without unlocking, even long after the term
    assert_eq!(
        withdraw(&mut voter, &registrar, &mint(), 0, 10_000, 100 * 24 * 60 * 60),
        Err(VsrError::UnlockMustBeCalledFirst)
    );
}
