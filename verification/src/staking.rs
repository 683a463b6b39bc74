//! The staking ledger: staking with lock-up periods, withdrawal with an
//! early-withdrawal penalty, and time-proportional reward claims.

use vstd::prelude::*;
use crate::errors::ErrorCode;
use crate::events::{StakeEvent, WithdrawStakeEvent};
use crate::state::{AccountId, StakerAccount};

verus! {

/// Thirty days expressed in seconds: the lock-up length above which the
/// steeper early-withdrawal penalty applies.
pub const THIRTY_DAYS_IN_SECONDS: u64 = 30 * 24 * 60 * 60;

/// The fixed divisor of the reward formula: the reward-rate time base.
pub const REWARD_SCALING_CONSTANT: u64 = 1_000_000;

/// The early-withdrawal penalty rate chosen at stake time: 5% for lock-up
/// periods longer than thirty days, else 2%.
pub open spec fn stake_penalty_rate(lockup_period: u64) -> u64 {
    if lockup_period > THIRTY_DAYS_IN_SECONDS {
        5u64
    } else {
        2u64
    }
}

/// The outcome of `stake_tokens`: the new staker record and the stake event,
/// or the exact error. The staked balance grows by `amount`; the lock-up
/// period is replaced by the new one and the penalty rate is set from it.
pub open spec fn stake_outcome(
    s: StakerAccount,
    amount: u64,
    lockup_period: u64,
    user: AccountId,
) -> Result<(StakerAccount, StakeEvent), ErrorCode> {
    if amount == 0 {
        Err(ErrorCode::InvalidAmount)
    } else if lockup_period == 0 {
        Err(ErrorCode::InvalidLockupPeriod)
    } else if s.staked_balance + amount > u64::MAX {
        Err(ErrorCode::Overflow)
    } else {
        Ok(
            (
                StakerAccount {
                    staked_balance: (s.staked_balance + amount) as u64,
                    lockup_period,
                    early_withdrawal_penalty: stake_penalty_rate(lockup_period),
                    ..s
                },
                StakeEvent { user, amount },
            ),
        )
    }
}

/// Stake `amount` tokens under a lock-up period.
///
/// On success the staked balance grows by `amount`, the penalty rate is set
/// to 5% for lock-ups over thirty days and 2% otherwise, and the returned
/// event instructs the external ledger to move `amount` from the participant
/// into the staking pool. On any error the record is unchanged.
pub fn stake_tokens(
    staker_account: &mut StakerAccount,
    amount: u64,
    lockup_period: u64,
    user: AccountId,
) -> (r: Result<StakeEvent, ErrorCode>)
    ensures
        match stake_outcome(*old(staker_account), amount, lockup_period, user) {
            Ok(out) => r == Ok::<_, ErrorCode>(out.1) && *final(staker_account) == out.0,
            Err(e) => r == Err::<StakeEvent, _>(e) && *final(staker_account) == *old(
                staker_account,
            ),
        },
{
    if amount == 0 {
        return Err(ErrorCode::InvalidAmount);
    }
    if lockup_period == 0 {
        return Err(ErrorCode::InvalidLockupPeriod);
    }
    let new_balance = match staker_account.staked_balance.checked_add(amount) {
        Some(b) => b,
        None => {
            return Err(ErrorCode::Overflow);
        },
    };
    staker_account.staked_balance = new_balance;
    staker_account.lockup_period = lockup_period;
    staker_account.early_withdrawal_penalty = if lockup_period > THIRTY_DAYS_IN_SECONDS {
        5
    } else {
        2
    };
    Ok(StakeEvent { user, amount })
}

/// The early-withdrawal penalty owed at `current_time`: before the lock-up
/// threshold it is `amount * early_withdrawal_penalty / 100`, truncating;
/// from the threshold on it is zero.
pub open spec fn withdrawal_penalty(s: StakerAccount, amount: u64, current_time: u64) -> int {
    if current_time < s.lockup_period {
        amount * s.early_withdrawal_penalty / 100
    } else {
        0
    }
}

/// The outcome of `withdraw_stake`: the new staker record and the withdrawal
/// event, or the exact error. The staked balance is debited by the full
/// requested `amount` even though only `amount - penalty` is paid out; the
/// penalty amount is destroyed, not redistributed.
pub open spec fn withdraw_outcome(
    s: StakerAccount,
    amount: u64,
    current_time: u64,
    user: AccountId,
) -> Result<(StakerAccount, WithdrawStakeEvent), ErrorCode> {
    let penalty = withdrawal_penalty(s, amount, current_time);
    if amount == 0 {
        Err(ErrorCode::InvalidAmount)
    } else if current_time < s.lockup_period && amount * s.early_withdrawal_penalty > u64::MAX {
        Err(ErrorCode::Overflow)
    } else if penalty > amount {
        Err(ErrorCode::Overflow)
    } else if s.staked_balance < amount {
        Err(ErrorCode::Overflow)
    } else {
        Ok(
            (
                StakerAccount { staked_balance: (s.staked_balance - amount) as u64, ..s },
                WithdrawStakeEvent { user, amount, penalty: penalty as u64 },
            ),
        )
    }
}

/// Withdraw `amount` staked tokens, paying the early-withdrawal penalty when
/// the lock-up period has not yet elapsed.
///
/// On success the staked balance falls by the full `amount` and the returned
/// event carries the penalty: the external ledger pays `amount - penalty`
/// back to the participant. On any error the record is unchanged.
pub fn withdraw_stake(
    staker_account: &mut StakerAccount,
    amount: u64,
    current_time: u64,
    user: AccountId,
) -> (r: Result<WithdrawStakeEvent, ErrorCode>)
    ensures
        match withdraw_outcome(*old(staker_account), amount, current_time, user) {
            Ok(out) => r == Ok::<_, ErrorCode>(out.1) && *final(staker_account) == out.0,
            Err(e) => r == Err::<WithdrawStakeEvent, _>(e) && *final(staker_account) == *old(
                staker_account,
            ),
        },
{
    if amount == 0 {
        return Err(ErrorCode::InvalidAmount);
    }
    let penalty: u64 = if current_time < staker_account.lockup_period {
        let scaled = match amount.checked_mul(staker_account.early_withdrawal_penalty) {
            Some(p) => p,
            None => {
                return Err(ErrorCode::Overflow);
            },
        };
        scaled / 100
    } else {
        0
    };
    if penalty > amount {
        return Err(ErrorCode::Overflow);
    }
    let new_balance = match staker_account.staked_balance.checked_sub(amount) {
        Some(b) => b,
        None => {
            return Err(ErrorCode::Overflow);
        },
    };
    staker_account.staked_balance = new_balance;
    Ok(WithdrawStakeEvent { user, amount, penalty })
}

/// The reward owed at `current_time`: the staked balance times the seconds
/// since the last claim, divided by the fixed scaling constant, truncating.
pub open spec fn reward_amount(s: StakerAccount, current_time: u64) -> int {
    s.staked_balance * (current_time - s.last_reward_claim) / (REWARD_SCALING_CONSTANT as int)
}

/// The outcome of `claim_rewards`: the staker record with its claim clock
/// advanced to `current_time`, and the reward to mint, or the exact error.
pub open spec fn claim_outcome(s: StakerAccount, current_time: u64) -> Result<
    (StakerAccount, u64),
    ErrorCode,
> {
    if current_time < s.last_reward_claim {
        Err(ErrorCode::Overflow)
    } else if s.staked_balance * (current_time - s.last_reward_claim) > u64::MAX {
        Err(ErrorCode::Overflow)
    } else {
        Ok(
            (
                StakerAccount { last_reward_claim: current_time, ..s },
                reward_amount(s, current_time) as u64,
            ),
        )
    }
}

/// Claim the staking rewards accrued since the last claim.
///
/// The claim clock is advanced to `current_time` in the same transition that
/// computes the reward, so a second claim at the same time yields zero. The
/// returned amount is what the external ledger mints to the participant. On
/// any error the record is unchanged.
pub fn claim_rewards(staker_account: &mut StakerAccount, current_time: u64) -> (r: Result<
    u64,
    ErrorCode,
>)
    ensures
        match claim_outcome(*old(staker_account), current_time) {
            Ok(out) => r == Ok::<_, ErrorCode>(out.1) && *final(staker_account) == out.0,
            Err(e) => r == Err::<u64, _>(e) && *final(staker_account) == *old(staker_account),
        },
{
    let time_since_last_claim = match current_time.checked_sub(
        staker_account.last_reward_claim,
    ) {
        Some(t) => t,
        None => {
            return Err(ErrorCode::Overflow);
        },
    };
    let scaled = match staker_account.staked_balance.checked_mul(time_since_last_claim) {
        Some(p) => p,
        None => {
            return Err(ErrorCode::Overflow);
        },
    };
    let reward = scaled / REWARD_SCALING_CONSTANT;
    staker_account.last_reward_claim = current_time;
    Ok(reward)
}

/// Claiming twice with no time elapsed in between is idempotent: when a claim
/// at `current_time` succeeds, a second claim at the same `current_time`
/// also succeeds, yields a zero reward, and leaves the record as the first
/// claim left it.
pub proof fn lemma_claim_rewards_idempotent(
    s: StakerAccount,
    current_time: u64,
    s2: StakerAccount,
    reward: u64,
)
    requires
        claim_outcome(s, current_time) == Ok::<(StakerAccount, u64), ErrorCode>((s2, reward)),
    ensures
        claim_outcome(s2, current_time) == Ok::<(StakerAccount, u64), ErrorCode>((s2, 0u64)),
{
    assert(s2.last_reward_claim == current_time);
    assert(s2.staked_balance * (current_time - s2.last_reward_claim) == 0);
}

} // verus!
