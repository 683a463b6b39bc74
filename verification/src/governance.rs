//! Genesis initialization and the governance state machine.

use vstd::prelude::*;
use vstd::string::StrSliceExecFns;
use crate::errors::ErrorCode;
use crate::events::ProtocolInitialized;
use crate::state::{AccountId, Governance, Proposal, ProposalStatus};

verus! {

/// The outcome of initializing the protocol: the new parameter record, or the
/// error when the genesis collateral ratio is not above 100 percent.
pub open spec fn initialize_outcome(g: Governance, collateral_ratio: u64) -> Result<
    Governance,
    ErrorCode,
> {
    if collateral_ratio <= 100 {
        Err(ErrorCode::InvalidCollateralRatio)
    } else {
        Ok(Governance { collateral_ratio, ..g })
    }
}

/// One-time genesis operation: set the protocol's default collateral ratio.
///
/// The ratio must exceed 100 percent, else `InvalidCollateralRatio` is
/// returned and the record is untouched. The host guarantees this runs once,
/// on a freshly allocated parameter record.
pub fn initialize(governance: &mut Governance, collateral_ratio: u64) -> (r: Result<
    ProtocolInitialized,
    ErrorCode,
>)
    ensures
        match initialize_outcome(*old(governance), collateral_ratio) {
            Ok(g2) => r == Ok::<_, ErrorCode>(ProtocolInitialized { collateral_ratio })
                && *final(governance) == g2,
            Err(e) => r == Err::<ProtocolInitialized, _>(e)
                && *final(governance) == *old(governance),
        },
{
    if collateral_ratio <= 100 {
        return Err(ErrorCode::InvalidCollateralRatio);
    }
    governance.collateral_ratio = collateral_ratio;
    Ok(ProtocolInitialized { collateral_ratio })
}

/// The outcome of `create_proposal`: the freshly initialized proposal, or the
/// exact error. Errors are checked in this order: a description over 200
/// code units, a proposed collateral ratio not above 100 percent, and a
/// proposal that names no change at all.
pub open spec fn create_proposal_outcome(
    description: String,
    new_collateral_ratio: Option<u64>,
    new_reward_rate: Option<u64>,
    proposer: AccountId,
) -> Result<Proposal, ErrorCode> {
    if description@.len() > 200 {
        Err(ErrorCode::DescriptionTooLong)
    } else if new_collateral_ratio is Some && new_collateral_ratio->0 <= 100 {
        Err(ErrorCode::InvalidCollateralRatio)
    } else if new_collateral_ratio is None && new_reward_rate is None {
        Err(ErrorCode::ProposalNoChangesSpecified)
    } else {
        Ok(
            Proposal {
                description,
                new_collateral_ratio,
                new_reward_rate,
                approval_votes: 0,
                reject_votes: 0,
                status: ProposalStatus::Pending,
                proposer,
                voting_period_end: 0,
            },
        )
    }
}

/// Create a governance proposal.
///
/// The description is bounded to 200 code units, a proposed collateral ratio
/// must exceed 100 percent, and at least one of the two optional changes must
/// be present. The new proposal starts `Pending` with zeroed vote counters.
pub fn create_proposal(
    description: String,
    new_collateral_ratio: Option<u64>,
    new_reward_rate: Option<u64>,
    proposer: AccountId,
) -> (r: Result<Proposal, ErrorCode>)
    ensures
        match create_proposal_outcome(description, new_collateral_ratio, new_reward_rate, proposer) {
            Ok(p) => r is Ok && r->Ok_0 == p,
            Err(e) => r == Err::<Proposal, _>(e),
        },
{
    if description.as_str().unicode_len() > 200 {
        return Err(ErrorCode::DescriptionTooLong);
    }
    if let Some(collateral_ratio) = new_collateral_ratio {
        if collateral_ratio <= 100 {
            return Err(ErrorCode::InvalidCollateralRatio);
        }
    }
    if new_collateral_ratio.is_none() && new_reward_rate.is_none() {
        return Err(ErrorCode::ProposalNoChangesSpecified);
    }
    Ok(
        Proposal {
            description,
            new_collateral_ratio,
            new_reward_rate,
            approval_votes: 0,
            reject_votes: 0,
            status: ProposalStatus::Pending,
            proposer,
            voting_period_end: 0,
        },
    )
}

/// The outcome of `vote_on_proposal`: the proposal with the vote counted and
/// its status resolved, and the protocol parameters with an approved
/// proposal's changes applied, or the exact error. Only a `Pending` proposal
/// can be voted on; counting the vote resolves the status at once, to
/// `Approved` when the approvals outnumber the rejections and to `Rejected`
/// otherwise, so the parameter changes of an approved proposal are applied
/// exactly once, at that resolution.
pub open spec fn vote_outcome(p: Proposal, g: Governance, approve: bool) -> Result<
    (Proposal, Governance),
    ErrorCode,
> {
    if !(p.status is Pending) {
        Err(ErrorCode::ProposalAlreadyConcluded)
    } else if approve && p.approval_votes + 1 > u32::MAX {
        Err(ErrorCode::Overflow)
    } else if !approve && p.reject_votes + 1 > u32::MAX {
        Err(ErrorCode::Overflow)
    } else {
        let approval_votes = if approve {
            (p.approval_votes + 1) as u32
        } else {
            p.approval_votes
        };
        let reject_votes = if approve {
            p.reject_votes
        } else {
            (p.reject_votes + 1) as u32
        };
        let status = if approval_votes > reject_votes {
            ProposalStatus::Approved
        } else {
            ProposalStatus::Rejected
        };
        let g2 = if status is Approved {
            Governance {
                collateral_ratio: if p.new_collateral_ratio is Some {
                    p.new_collateral_ratio->0
                } else {
                    g.collateral_ratio
                },
                reward_adjustment_rate: if p.new_reward_rate is Some {
                    p.new_reward_rate->0
                } else {
                    g.reward_adjustment_rate
                },
                ..g
            }
        } else {
            g
        };
        Ok((Proposal { approval_votes, reject_votes, status, ..p }, g2))
    }
}

/// Vote on a pending proposal.
///
/// The vote is counted and the proposal is concluded in the same transition:
/// its status becomes `Approved` when approvals outnumber rejections and
/// `Rejected` otherwise, and an approved proposal's parameter changes are
/// written to the protocol parameters then and there. A proposal that has
/// already concluded is refused with `ProposalAlreadyConcluded`, and nothing
/// changes. On any error both records are unchanged.
pub fn vote_on_proposal(proposal: &mut Proposal, governance: &mut Governance, approve: bool) -> (r:
    Result<(), ErrorCode>)
    ensures
        match vote_outcome(*old(proposal), *old(governance), approve) {
            Ok(out) => r == Ok::<(), ErrorCode>(()) && *final(proposal) == out.0
                && *final(governance) == out.1,
            Err(e) => r == Err::<(), _>(e) && *final(proposal) == *old(proposal)
                && *final(governance) == *old(governance),
        },
{
    if proposal.status != ProposalStatus::Pending {
        return Err(ErrorCode::ProposalAlreadyConcluded);
    }
    if approve {
        let votes = match proposal.approval_votes.checked_add(1) {
            Some(v) => v,
            None => {
                return Err(ErrorCode::Overflow);
            },
        };
        proposal.approval_votes = votes;
    } else {
        let votes = match proposal.reject_votes.checked_add(1) {
            Some(v) => v,
            None => {
                return Err(ErrorCode::Overflow);
            },
        };
        proposal.reject_votes = votes;
    }
    if proposal.approval_votes > proposal.reject_votes {
        proposal.status = ProposalStatus::Approved;
    } else {
        proposal.status = ProposalStatus::Rejected;
    }
    if proposal.status == ProposalStatus::Approved {
        if let Some(new_collateral_ratio) = proposal.new_collateral_ratio {
            governance.collateral_ratio = new_collateral_ratio;
        }
        if let Some(new_reward_rate) = proposal.new_reward_rate {
            governance.reward_adjustment_rate = new_reward_rate;
        }
    }
    Ok(())
}

/// A concluded proposal is terminal: a vote on a proposal whose status has
/// left `Pending` fails with `ProposalAlreadyConcluded`, whichever way the
/// vote goes, so its status and the protocol parameters never change again
/// through voting.
pub proof fn lemma_concluded_proposal_is_terminal(p: Proposal, g: Governance, approve: bool)
    requires
        !(p.status is Pending),
    ensures
        vote_outcome(p, g, approve) == Err::<(Proposal, Governance), ErrorCode>(
            ErrorCode::ProposalAlreadyConcluded,
        ),
{
}

/// A successful vote concludes the proposal: afterwards its status is
/// `Approved` or `Rejected`, never `Pending`. Together with
/// `lemma_concluded_proposal_is_terminal`, once a proposal leaves `Pending`
/// it never re-enters it and its resolution never flips.
pub proof fn lemma_vote_concludes(
    p: Proposal,
    g: Governance,
    approve: bool,
    p2: Proposal,
    g2: Governance,
)
    requires
        vote_outcome(p, g, approve) == Ok::<(Proposal, Governance), ErrorCode>((p2, g2)),
    ensures
        !(p2.status is Pending),
        p2.status is Approved || p2.status is Rejected,
{
}

} // verus!
