//! The position ledger: minting stablecoin against collateral, and partial
//! liquidation of under-collateralized positions.
//!
//! Each operation validates, computes, and only then commits: a failing call
//! returns a specific [`ErrorCode`] and leaves every record exactly as it was.

use vstd::prelude::*;
use crate::errors::ErrorCode;
use crate::events::{LiquidationEvent, MintStablecoinEvent, MintStablecoinWithCollateralEvent};
use crate::state::{AccountId, CollateralType, UserAccount};

verus! {

/// The minting fee: 1% of the amount, truncating; halved (again truncating)
/// when the current price is above the peg (price scaled by 100, so above
/// 100 means above $1.00).
pub open spec fn mint_fee(amount: int, current_price: int) -> int {
    if current_price > 100 {
        amount / 100 / 2
    } else {
        amount / 100
    }
}

/// The outcome of `mint_stablecoin` on a position: the new position and the
/// mint event, or the exact error. Errors are checked in this order: a zero
/// amount, a zero price, a co-signing authority that is not the position
/// owner, overflow of `amount + fee`, overflow of the required collateral
/// `(amount + fee) * collateral_ratio`, insufficient collateral, and overflow
/// of the stablecoin balance.
pub open spec fn mint_outcome(
    u: UserAccount,
    amount: u64,
    current_price: u64,
    optional_authority: Option<AccountId>,
    user: AccountId,
) -> Result<(UserAccount, MintStablecoinEvent), ErrorCode> {
    let fee = mint_fee(amount as int, current_price as int);
    if amount == 0 {
        Err(ErrorCode::InvalidAmount)
    } else if current_price == 0 {
        Err(ErrorCode::InvalidPrice)
    } else if optional_authority is Some && optional_authority->0 != user {
        Err(ErrorCode::UnauthorizedOperation)
    } else if amount + fee > u64::MAX {
        Err(ErrorCode::Overflow)
    } else if (amount + fee) * u.collateral_ratio > u64::MAX {
        Err(ErrorCode::Overflow)
    } else if u.collateral_balance < (amount + fee) * u.collateral_ratio {
        Err(ErrorCode::InsufficientCollateral)
    } else if u.stablecoin_balance + amount > u64::MAX {
        Err(ErrorCode::Overflow)
    } else {
        Ok(
            (
                UserAccount {
                    stablecoin_balance: (u.stablecoin_balance + amount) as u64,
                    ..u
                },
                MintStablecoinEvent { user, amount, fee: fee as u64 },
            ),
        )
    }
}

/// Mint `amount` stablecoin against the position's own collateral ratio, with
/// a dynamic fee based on the current price.
///
/// On success the position's stablecoin balance grows by `amount` and the
/// returned event instructs the external token ledger to mint `amount` to the
/// participant and `fee` to the treasury. If a co-signing authority is
/// supplied it must be the position owner. On any error the position is
/// unchanged.
pub fn mint_stablecoin(
    user_account: &mut UserAccount,
    amount: u64,
    current_price: u64,
    optional_authority: Option<AccountId>,
    user: AccountId,
) -> (r: Result<MintStablecoinEvent, ErrorCode>)
    ensures
        match mint_outcome(*old(user_account), amount, current_price, optional_authority, user) {
            Ok(out) => r == Ok::<_, ErrorCode>(out.1) && *final(user_account) == out.0,
            Err(e) => r == Err::<MintStablecoinEvent, _>(e)
                && *final(user_account) == *old(user_account),
        },
{
    if amount == 0 {
        return Err(ErrorCode::InvalidAmount);
    }
    if current_price == 0 {
        return Err(ErrorCode::InvalidPrice);
    }
    if let Some(authority) = optional_authority {
        if authority != user {
            return Err(ErrorCode::UnauthorizedOperation);
        }
    }
    let mut fee: u64 = amount / 100;
    if current_price > 100 {
        fee = fee / 2;
    }
    let total_amount = match amount.checked_add(fee) {
        Some(t) => t,
        None => {
            return Err(ErrorCode::Overflow);
        },
    };
    let required_collateral = match total_amount.checked_mul(user_account.collateral_ratio) {
        Some(c) => c,
        None => {
            return Err(ErrorCode::Overflow);
        },
    };
    if user_account.collateral_balance < required_collateral {
        return Err(ErrorCode::InsufficientCollateral);
    }
    let new_balance = match user_account.stablecoin_balance.checked_add(amount) {
        Some(b) => b,
        None => {
            return Err(ErrorCode::Overflow);
        },
    };
    user_account.stablecoin_balance = new_balance;
    Ok(MintStablecoinEvent { user, amount, fee })
}

/// After a successful mint, the position meets the solvency target
/// `collateral_balance * 100 >= stablecoin_balance * collateral_ratio`,
/// whenever the debt that stood before the mint is dominated by what the
/// mint-time collateral check covers: `stablecoin_balance + amount <=
/// 100 * (amount + fee)`. A fresh position (zero stablecoin balance) always
/// satisfies that premise. A position already near its debt ceiling can leave
/// a successful mint below the target; liquidation is what corrects it.
pub proof fn lemma_mint_solvency(
    u: UserAccount,
    amount: u64,
    current_price: u64,
    optional_authority: Option<AccountId>,
    user: AccountId,
    u2: UserAccount,
    ev: MintStablecoinEvent,
)
    requires
        mint_outcome(u, amount, current_price, optional_authority, user) == Ok::<
            (UserAccount, MintStablecoinEvent),
            ErrorCode,
        >((u2, ev)),
        u.stablecoin_balance + amount <= 100 * (amount + mint_fee(
            amount as int,
            current_price as int,
        )),
    ensures
        u2.collateral_balance * 100 >= u2.stablecoin_balance * u2.collateral_ratio,
{
    let fee = mint_fee(amount as int, current_price as int);
    let c = u.collateral_balance as int;
    let s = u.stablecoin_balance as int;
    let a = amount as int;
    let r = u.collateral_ratio as int;
    assert(c >= (a + fee) * r);
    assert(s + a <= 100 * (a + fee));
    assert(c * 100 >= (s + a) * r) by (nonlinear_arith)
        requires
            c >= (a + fee) * r,
            s + a <= 100 * (a + fee),
            r >= 0,
            a + fee >= 0,
    ;
}

/// A position with no stablecoin debt always meets the solvency target after
/// a successful mint: the mint-time collateral check alone guarantees it.
pub proof fn lemma_first_mint_solvency(
    u: UserAccount,
    amount: u64,
    current_price: u64,
    optional_authority: Option<AccountId>,
    user: AccountId,
    u2: UserAccount,
    ev: MintStablecoinEvent,
)
    requires
        u.stablecoin_balance == 0,
        mint_outcome(u, amount, current_price, optional_authority, user) == Ok::<
            (UserAccount, MintStablecoinEvent),
            ErrorCode,
        >((u2, ev)),
    ensures
        u2.collateral_balance * 100 >= u2.stablecoin_balance * u2.collateral_ratio,
{
    let fee = mint_fee(amount as int, current_price as int);
    assert(amount >= 1);
    assert(fee >= 0);
    lemma_mint_solvency(u, amount, current_price, optional_authority, user, u2, ev);
}

/// The outcome of `mint_stablecoin_with_collateral`: as for `mint_outcome`
/// but with no fee, and with the required collateral computed from the named
/// collateral type's ratio. Fails with `InvalidCollateralType` when the
/// registry entry's stored mint identity differs from the requested one.
pub open spec fn mint_with_collateral_outcome(
    u: UserAccount,
    entry: CollateralType,
    amount: u64,
    collateral_type: AccountId,
    optional_authority: Option<AccountId>,
    user: AccountId,
) -> Result<(UserAccount, MintStablecoinWithCollateralEvent), ErrorCode> {
    if amount == 0 {
        Err(ErrorCode::InvalidAmount)
    } else if optional_authority is Some && optional_authority->0 != user {
        Err(ErrorCode::UnauthorizedOperation)
    } else if entry.collateral_mint != collateral_type {
        Err(ErrorCode::InvalidCollateralType)
    } else if amount * entry.collateral_ratio > u64::MAX {
        Err(ErrorCode::Overflow)
    } else if u.collateral_balance < amount * entry.collateral_ratio {
        Err(ErrorCode::InsufficientCollateral)
    } else if u.stablecoin_balance + amount > u64::MAX {
        Err(ErrorCode::Overflow)
    } else {
        Ok(
            (
                UserAccount {
                    stablecoin_balance: (u.stablecoin_balance + amount) as u64,
                    ..u
                },
                MintStablecoinWithCollateralEvent { user, amount, collateral_type },
            ),
        )
    }
}

/// Mint `amount` stablecoin against a named collateral type: the required
/// collateral is `amount * entry.collateral_ratio`, computed from the
/// registry entry instead of the position's own ratio, and no fee is charged.
/// On any error the position is unchanged.
pub fn mint_stablecoin_with_collateral(
    user_account: &mut UserAccount,
    entry: &CollateralType,
    amount: u64,
    collateral_type: AccountId,
    optional_authority: Option<AccountId>,
    user: AccountId,
) -> (r: Result<MintStablecoinWithCollateralEvent, ErrorCode>)
    ensures
        match mint_with_collateral_outcome(
            *old(user_account),
            *entry,
            amount,
            collateral_type,
            optional_authority,
            user,
        ) {
            Ok(out) => r == Ok::<_, ErrorCode>(out.1) && *final(user_account) == out.0,
            Err(e) => r == Err::<MintStablecoinWithCollateralEvent, _>(e)
                && *final(user_account) == *old(user_account),
        },
{
    if amount == 0 {
        return Err(ErrorCode::InvalidAmount);
    }
    if let Some(authority) = optional_authority {
        if authority != user {
            return Err(ErrorCode::UnauthorizedOperation);
        }
    }
    if entry.collateral_mint != collateral_type {
        return Err(ErrorCode::InvalidCollateralType);
    }
    let required_collateral = match amount.checked_mul(entry.collateral_ratio) {
        Some(c) => c,
        None => {
            return Err(ErrorCode::Overflow);
        },
    };
    if user_account.collateral_balance < required_collateral {
        return Err(ErrorCode::InsufficientCollateral);
    }
    let new_balance = match user_account.stablecoin_balance.checked_add(amount) {
        Some(b) => b,
        None => {
            return Err(ErrorCode::Overflow);
        },
    };
    user_account.stablecoin_balance = new_balance;
    Ok(MintStablecoinWithCollateralEvent { user, amount, collateral_type })
}

/// The outcome of `partial_liquidate` on a position and the liquidator's
/// collateral balance. Eligibility demands `collateral_balance * 100 /
/// stablecoin_balance < collateral_ratio`. A zero stablecoin balance makes
/// that ratio a division by zero: a defined arithmetic failure, reported as
/// `Overflow` like every other checked-arithmetic fault. The penalty is 10%
/// of the liquidated amount, truncating, credited to the liquidator; the
/// remainder is taken from the position's collateral.
pub open spec fn liquidate_outcome(
    u: UserAccount,
    liquidator_collateral: u64,
    liquidation_amount: u64,
    user: AccountId,
) -> Result<(UserAccount, u64, LiquidationEvent), ErrorCode> {
    let penalty = liquidation_amount as int / 10;
    let remaining = liquidation_amount - penalty;
    if liquidation_amount == 0 {
        Err(ErrorCode::InvalidAmount)
    } else if u.stablecoin_balance == 0 {
        Err(ErrorCode::Overflow)
    } else if u.collateral_balance * 100 > u64::MAX {
        Err(ErrorCode::Overflow)
    } else if u.collateral_balance * 100 / u.stablecoin_balance as int >= u.collateral_ratio {
        Err(ErrorCode::NotEligibleForLiquidation)
    } else if u.stablecoin_balance < liquidation_amount {
        Err(ErrorCode::Overflow)
    } else if u.collateral_balance < remaining {
        Err(ErrorCode::Overflow)
    } else if liquidator_collateral + penalty > u64::MAX {
        Err(ErrorCode::Overflow)
    } else {
        Ok(
            (
                UserAccount {
                    stablecoin_balance: (u.stablecoin_balance - liquidation_amount) as u64,
                    collateral_balance: (u.collateral_balance - remaining) as u64,
                    ..u
                },
                (liquidator_collateral + penalty) as u64,
                LiquidationEvent { user, amount: liquidation_amount, penalty: penalty as u64 },
            ),
        )
    }
}

/// Partially liquidate an under-collateralized position.
///
/// On success the position's stablecoin balance falls by the full
/// `liquidation_amount`, its collateral balance by `liquidation_amount` less
/// the 10% penalty, and the penalty is credited to the liquidator's
/// collateral balance. On any error both balances are unchanged.
pub fn partial_liquidate(
    user_account: &mut UserAccount,
    liquidator_collateral_balance: &mut u64,
    liquidation_amount: u64,
    user: AccountId,
) -> (r: Result<LiquidationEvent, ErrorCode>)
    ensures
        match liquidate_outcome(
            *old(user_account),
            *old(liquidator_collateral_balance),
            liquidation_amount,
            user,
        ) {
            Ok(out) => r == Ok::<_, ErrorCode>(out.2) && *final(user_account) == out.0
                && *final(liquidator_collateral_balance) == out.1,
            Err(e) => r == Err::<LiquidationEvent, _>(e)
                && *final(user_account) == *old(user_account)
                && *final(liquidator_collateral_balance) == *old(liquidator_collateral_balance),
        },
{
    if liquidation_amount == 0 {
        return Err(ErrorCode::InvalidAmount);
    }
    if user_account.stablecoin_balance == 0 {
        return Err(ErrorCode::Overflow);
    }
    let scaled = match user_account.collateral_balance.checked_mul(100) {
        Some(s) => s,
        None => {
            return Err(ErrorCode::Overflow);
        },
    };
    let current_ratio = scaled / user_account.stablecoin_balance;
    if current_ratio >= user_account.collateral_ratio {
        return Err(ErrorCode::NotEligibleForLiquidation);
    }
    let penalty = liquidation_amount / 10;
    let remaining_collateral = liquidation_amount - penalty;
    let new_stablecoin = match user_account.stablecoin_balance.checked_sub(liquidation_amount) {
        Some(b) => b,
        None => {
            return Err(ErrorCode::Overflow);
        },
    };
    let new_collateral = match user_account.collateral_balance.checked_sub(remaining_collateral) {
        Some(b) => b,
        None => {
            return Err(ErrorCode::Overflow);
        },
    };
    let new_liquidator = match liquidator_collateral_balance.checked_add(penalty) {
        Some(b) => b,
        None => {
            return Err(ErrorCode::Overflow);
        },
    };
    user_account.stablecoin_balance = new_stablecoin;
    user_account.collateral_balance = new_collateral;
    *liquidator_collateral_balance = new_liquidator;
    Ok(LiquidationEvent { user, amount: liquidation_amount, penalty })
}

} // verus!
