//! The persistent entities of the protocol.
//!
//! Each struct mirrors one persisted record: a participant's position, the
//! global governance parameters, a staker's ledger entry, the reward pool, a
//! governance proposal, one collateral type, and the system-wide flags. The
//! host resolves and locks these records and hands them to the operations in
//! this crate, which are their only mutators.

use vstd::prelude::*;

verus! {

/// The identity of an account on the external ledger: a participant, an
/// authority, a collateral asset's mint, or a price feed. The engine only
/// ever compares identities for equality; the host maps them to real ledger
/// addresses.
#[derive(Clone, Copy, Debug, PartialEq, Eq, Structural)]
pub struct AccountId {
    pub id: u64,
}

/// One participant's position: deposited collateral against minted stablecoin.
///
/// The position's solvency target is `collateral_balance * 100 >=
/// stablecoin_balance * collateral_ratio`. It is enforced at mint time through
/// the required-collateral check and may be violated between a price move and
/// the liquidation that corrects it.
#[derive(Clone, Copy, Debug, PartialEq, Eq, Structural)]
pub struct UserAccount {
    /// The amount of collateral deposited.
    pub collateral_balance: u64,
    /// The amount of stablecoin minted against it.
    pub stablecoin_balance: u64,
    /// The required collateral ratio, in percent (e.g. 150 for 150%).
    pub collateral_ratio: u64,
    /// Timestamp of the last liquidation action.
    pub last_liquidation_time: u64,
    /// Timestamp of the last minting action.
    pub last_mint_time: u64,
}

/// The global protocol parameters. Written once at genesis and thereafter
/// only by an approved governance proposal.
#[derive(Clone, Copy, Debug, PartialEq, Eq, Structural)]
pub struct Governance {
    /// Protocol-wide default collateral ratio, in percent.
    pub collateral_ratio: u64,
    /// Threshold used to adjust the collateral ratio under volatility.
    pub volatility_threshold: u64,
    /// Rate for adjusting rewards, set by approved proposals.
    pub reward_adjustment_rate: u64,
    /// Minimum number of approval votes a proposal needs.
    pub minimum_approval_threshold: u32,
}

/// One staker's ledger entry. Created on first stake; the record persists even
/// when the balance reaches zero.
#[derive(Clone, Copy, Debug, PartialEq, Eq, Structural)]
pub struct StakerAccount {
    /// The amount of tokens currently staked.
    pub staked_balance: u64,
    /// Timestamp of the last reward claim.
    pub last_reward_claim: u64,
    /// Accumulated rewards not yet claimed.
    pub reward_debt: u64,
    /// The lock-up threshold in seconds; withdrawing earlier incurs the
    /// penalty below.
    pub lockup_period: u64,
    /// Penalty in percent for withdrawing before the lock-up period is over.
    pub early_withdrawal_penalty: u64,
    /// Multiplier used for reward calculation.
    pub reward_multiplier: u64,
    /// Whether rewards are auto-compounded.
    pub auto_compound: bool,
}

/// The global reward pool, keeping per-share reward accounting consistent.
#[derive(Clone, Copy, Debug, PartialEq, Eq, Structural)]
pub struct RewardPool {
    /// Total amount of tokens staked in the pool.
    pub total_staked: u64,
    /// Tokens rewarded per second.
    pub reward_rate: u64,
    /// Timestamp of the last reward rate update.
    pub last_update_time: u64,
    /// Accumulated reward per share.
    pub accumulated_reward_per_share: u64,
}

/// The lifecycle of a governance proposal. A proposal starts `Pending` and is
/// concluded to `Approved` or `Rejected` exactly once; a concluded proposal
/// never changes status again.
#[derive(Clone, Copy, Debug, PartialEq, Eq, Structural)]
pub enum ProposalStatus {
    Pending,
    Approved,
    Rejected,
}

/// A governance proposal to change global protocol parameters.
#[derive(Debug)]
pub struct Proposal {
    /// Free-text description, at most 200 code units.
    pub description: String,
    /// Proposed new protocol collateral ratio, if any.
    pub new_collateral_ratio: Option<u64>,
    /// Proposed new reward adjustment rate, if any.
    pub new_reward_rate: Option<u64>,
    /// Number of votes in favor.
    pub approval_votes: u32,
    /// Number of votes against.
    pub reject_votes: u32,
    /// Current status; terminal once it leaves `Pending`.
    pub status: ProposalStatus,
    /// Identity of the proposer.
    pub proposer: AccountId,
    /// Timestamp when the voting period ends.
    pub voting_period_end: u64,
}

/// Parameters of one supported collateral asset, keyed by the asset's mint
/// identity.
#[derive(Clone, Copy, Debug, PartialEq, Eq, Structural)]
pub struct CollateralType {
    /// The mint identity of the collateral asset.
    pub collateral_mint: AccountId,
    /// The required collateral ratio for this asset, in percent.
    pub collateral_ratio: u64,
    /// The price feed reference for this asset.
    pub price_feed: AccountId,
    /// The ratio below which liquidation can occur; zero until configured.
    pub liquidation_threshold: u64,
    /// Stability fee for borrowing against this asset; zero until configured.
    pub stability_fee: u64,
}

/// System-wide flags and fees.
#[derive(Clone, Copy, Debug, PartialEq, Eq, Structural)]
pub struct SystemState {
    /// Whether staking is currently paused. Callers must gate staking
    /// operations on this flag; the staking ledger itself does not read it.
    pub staking_paused: bool,
    /// The current governance authority of the protocol.
    pub governance_authority: AccountId,
    /// Global stability fee for borrowing.
    pub global_stability_fee: u64,
    /// Fee rate applied when minting stablecoin.
    pub minting_fee_rate: u64,
}

} // verus!
