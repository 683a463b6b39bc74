//! The domain events that successful operations emit.
//!
//! An event both describes the transition to off-chain observers and tells
//! the host exactly which external token-ledger calls to make: a mint event
//! asks for `amount` minted to the participant and `fee` to the treasury, a
//! stake event for a transfer into the staking pool, and so on. The engine
//! itself never touches the ledger.

use vstd::prelude::*;
use crate::state::AccountId;

verus! {

/// The protocol was initialized with its genesis collateral ratio.
#[derive(Clone, Copy, Debug, PartialEq, Eq, Structural)]
pub struct ProtocolInitialized {
    pub collateral_ratio: u64,
}

/// Stablecoin was minted: `amount` to the participant, `fee` to the treasury.
#[derive(Clone, Copy, Debug, PartialEq, Eq, Structural)]
pub struct MintStablecoinEvent {
    pub user: AccountId,
    pub amount: u64,
    pub fee: u64,
}

/// A position was partially liquidated; the penalty was credited to the
/// liquidator's collateral balance.
#[derive(Clone, Copy, Debug, PartialEq, Eq, Structural)]
pub struct LiquidationEvent {
    pub user: AccountId,
    pub amount: u64,
    pub penalty: u64,
}

/// Tokens were staked: `amount` moves from the participant to the pool.
#[derive(Clone, Copy, Debug, PartialEq, Eq, Structural)]
pub struct StakeEvent {
    pub user: AccountId,
    pub amount: u64,
}

/// A stake withdrawal: `amount - penalty` is paid out of the pool, while the
/// staked balance is debited by the full `amount`.
#[derive(Clone, Copy, Debug, PartialEq, Eq, Structural)]
pub struct WithdrawStakeEvent {
    pub user: AccountId,
    pub amount: u64,
    pub penalty: u64,
}

/// A governance proposal was created.
#[derive(Clone, Copy, Debug, PartialEq, Eq, Structural)]
pub struct ProposalCreatedEvent {
    pub proposer: AccountId,
    pub proposal_id: AccountId,
}

/// A vote was cast on a governance proposal.
#[derive(Clone, Copy, Debug, PartialEq, Eq, Structural)]
pub struct ProposalVotedEvent {
    pub voter: AccountId,
    pub proposal_id: AccountId,
    pub approved: bool,
}

/// A new collateral type was registered.
#[derive(Clone, Copy, Debug, PartialEq, Eq, Structural)]
pub struct CollateralTypeAddedEvent {
    pub collateral_mint: AccountId,
    pub collateral_ratio: u64,
}

/// Stablecoin was minted against a named collateral type.
#[derive(Clone, Copy, Debug, PartialEq, Eq, Structural)]
pub struct MintStablecoinWithCollateralEvent {
    pub user: AccountId,
    pub amount: u64,
    pub collateral_type: AccountId,
}

} // verus!
