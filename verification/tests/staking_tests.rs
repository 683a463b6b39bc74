use stablecoin_protocol::errors::ErrorCode;
use stablecoin_protocol::staking::{claim_rewards, stake_tokens, withdraw_stake};
use stablecoin_protocol::state::{AccountId, StakerAccount};

const DAY: u64 = 24 * 60 * 60;

fn staker(balance: u64, last_claim: u64, lockup: u64, penalty: u64) -> StakerAccount {
    StakerAccount {
        staked_balance: balance,
        last_reward_claim: last_claim,
        reward_debt: 0,
        lockup_period: lockup,
        early_withdrawal_penalty: penalty,
        reward_multiplier: 0,
        auto_compound: false,
    }
}

#[test]
fn stake_long_lockup_sets_five_percent_penalty() {
    // 40 days exceeds the 30-day threshold: penalty rate 5.
    let mut s = staker(0, 0, 0, 0);
    let ev = stake_tokens(&mut s, 100, 40 * DAY, AccountId { id: 1 }).unwrap();
    assert_eq!(ev.amount, 100);
    assert_eq!(s.staked_balance, 100);
    assert_eq!(s.lockup_period, 40 * DAY);
    assert_eq!(s.early_withdrawal_penalty, 5);
}

#[test]
fn stake_short_lockup_sets_two_percent_penalty() {
    let mut s = staker(0, 0, 0, 0);
    stake_tokens(&mut s, 100, 10 * DAY, AccountId { id: 1 }).unwrap();
    assert_eq!(s.early_withdrawal_penalty, 2);
}

#[test]
fn stake_exactly_thirty_days_sets_two_percent_penalty() {
    // The threshold is strict: exactly 30 days is not "longer than".
    let mut s = staker(0, 0, 0, 0);
    stake_tokens(&mut s, 100, 30 * DAY, AccountId { id: 1 }).unwrap();
    assert_eq!(s.early_withdrawal_penalty, 2);
}

#[test]
fn stake_zero_amount_rejected() {
    let mut s = staker(0, 0, 0, 0);
    assert_eq!(stake_tokens(&mut s, 0, DAY, AccountId { id: 1 }), Err(ErrorCode::InvalidAmount));
}

#[test]
fn stake_zero_lockup_rejected() {
    let mut s = staker(0, 0, 0, 0);
    assert_eq!(
        stake_tokens(&mut s, 100, 0, AccountId { id: 1 }),
        Err(ErrorCode::InvalidLockupPeriod)
    );
}

#[test]
fn stake_balance_overflow_rejected() {
    let mut s = staker(u64::MAX, 0, 0, 0);
    assert_eq!(stake_tokens(&mut s, 1, DAY, AccountId { id: 1 }), Err(ErrorCode::Overflow));
    assert_eq!(s.staked_balance, u64::MAX);
}

#[test]
fn early_withdrawal_pays_out_less_penalty() {
    // amount 100 at 5%: penalty 5, so 95 is paid out, yet the staked balance
    // is debited by the full 100.
    let mut s = staker(200, 0, 1000, 5);
    let ev = withdraw_stake(&mut s, 100, 500, AccountId { id: 1 }).unwrap();
    assert_eq!(ev.amount, 100);
    assert_eq!(ev.penalty, 5);
    assert_eq!(ev.amount - ev.penalty, 95);
    assert_eq!(s.staked_balance, 100);
}

#[test]
fn late_withdrawal_pays_no_penalty() {
    let mut s = staker(200, 0, 1000, 5);
    let ev = withdraw_stake(&mut s, 100, 1000, AccountId { id: 1 }).unwrap();
    assert_eq!(ev.penalty, 0);
    assert_eq!(s.staked_balance, 100);
}

#[test]
fn withdrawal_penalty_truncates() {
    // 30 * 5 / 100 = 1 after truncation.
    let mut s = staker(200, 0, 1000, 5);
    let ev = withdraw_stake(&mut s, 30, 0, AccountId { id: 1 }).unwrap();
    assert_eq!(ev.penalty, 1);
}

#[test]
fn withdraw_zero_amount_rejected() {
    let mut s = staker(200, 0, 1000, 5);
    assert_eq!(withdraw_stake(&mut s, 0, 0, AccountId { id: 1 }), Err(ErrorCode::InvalidAmount));
}

#[test]
fn withdraw_beyond_balance_rejected() {
    let mut s = staker(50, 0, 1000, 5);
    assert_eq!(
        withdraw_stake(&mut s, 100, 2000, AccountId { id: 1 }),
        Err(ErrorCode::Overflow)
    );
    assert_eq!(s.staked_balance, 50);
}

#[test]
fn withdraw_penalty_overflow_rejected() {
    // amount * penalty rate overflows before the division can truncate it.
    let mut s = staker(u64::MAX, 0, u64::MAX, u64::MAX);
    assert_eq!(withdraw_stake(&mut s, 2, 0, AccountId { id: 1 }), Err(ErrorCode::Overflow));
}

#[test]
fn claim_rewards_exact_amount() {
    // 2_000_000 staked over 3 seconds: 2_000_000 * 3 / 1_000_000 = 6.
    let mut s = staker(2_000_000, 0, 0, 0);
    let reward = claim_rewards(&mut s, 3).unwrap();
    assert_eq!(reward, 6);
    assert_eq!(s.last_reward_claim, 3);
}

#[test]
fn claim_rewards_truncates() {
    // 500_000 * 1 / 1_000_000 truncates to 0, but the clock still advances.
    let mut s = staker(500_000, 0, 0, 0);
    let reward = claim_rewards(&mut s, 1).unwrap();
    assert_eq!(reward, 0);
    assert_eq!(s.last_reward_claim, 1);
}

#[test]
fn claim_rewards_twice_yields_zero_second_time() {
    // The claim clock advances in the same transition, so an immediate
    // second claim earns nothing.
    let mut s = staker(2_000_000, 0, 0, 0);
    let first = claim_rewards(&mut s, 3).unwrap();
    assert_eq!(first, 6);
    let second = claim_rewards(&mut s, 3).unwrap();
    assert_eq!(second, 0);
    assert_eq!(s.last_reward_claim, 3);
}

#[test]
fn claim_rewards_before_last_claim_rejected() {
    let mut s = staker(2_000_000, 10, 0, 0);
    assert_eq!(claim_rewards(&mut s, 5), Err(ErrorCode::Overflow));
    assert_eq!(s.last_reward_claim, 10);
}

#[test]
fn claim_rewards_product_overflow_rejected() {
    let mut s = staker(u64::MAX, 0, 0, 0);
    assert_eq!(claim_rewards(&mut s, 2), Err(ErrorCode::Overflow));
}
