use stablecoin_protocol::errors::ErrorCode;
use stablecoin_protocol::governance::{create_proposal, initialize, vote_on_proposal};
use stablecoin_protocol::state::{AccountId, Governance, Proposal, ProposalStatus};

fn params() -> Governance {
    Governance {
        collateral_ratio: 150,
        volatility_threshold: 0,
        reward_adjustment_rate: 7,
        minimum_approval_threshold: 0,
    }
}

#[test]
fn initialize_sets_collateral_ratio() {
    let mut g = Governance {
        collateral_ratio: 0,
        volatility_threshold: 0,
        reward_adjustment_rate: 0,
        minimum_approval_threshold: 0,
    };
    let ev = initialize(&mut g, 150).unwrap();
    assert_eq!(ev.collateral_ratio, 150);
    assert_eq!(g.collateral_ratio, 150);
}

#[test]
fn initialize_rejects_low_ratio() {
    let mut g = params();
    assert_eq!(initialize(&mut g, 100), Err(ErrorCode::InvalidCollateralRatio));
    assert_eq!(g.collateral_ratio, 150);
}

#[test]
fn proposal_without_changes_rejected() {
    let r = create_proposal(String::from("raise nothing"), None, None, AccountId { id: 3 });
    assert_eq!(r.unwrap_err(), ErrorCode::ProposalNoChangesSpecified);
}

#[test]
fn proposal_with_long_description_rejected() {
    let description: String = "x".repeat(201);
    let r = create_proposal(description, Some(160), None, AccountId { id: 3 });
    assert_eq!(r.unwrap_err(), ErrorCode::DescriptionTooLong);
}

#[test]
fn proposal_description_of_exactly_200_accepted() {
    let description: String = "x".repeat(200);
    let r = create_proposal(description, Some(160), None, AccountId { id: 3 });
    assert!(r.is_ok());
}

#[test]
fn proposal_with_low_ratio_rejected() {
    let r = create_proposal(String::from("lower the ratio"), Some(100), None, AccountId { id: 3 });
    assert_eq!(r.unwrap_err(), ErrorCode::InvalidCollateralRatio);
}

#[test]
fn fresh_proposal_is_pending_with_zero_votes() {
    let p = create_proposal(
        String::from("raise the ratio"),
        Some(160),
        Some(9),
        AccountId { id: 3 },
    )
    .unwrap();
    assert_eq!(p.status, ProposalStatus::Pending);
    assert_eq!(p.approval_votes, 0);
    assert_eq!(p.reject_votes, 0);
    assert_eq!(p.new_collateral_ratio, Some(160));
    assert_eq!(p.new_reward_rate, Some(9));
    assert_eq!(p.proposer, AccountId { id: 3 });
}

#[test]
fn approving_vote_applies_changes() {
    let mut p = create_proposal(
        String::from("raise the ratio"),
        Some(160),
        Some(9),
        AccountId { id: 3 },
    )
    .unwrap();
    let mut g = params();
    vote_on_proposal(&mut p, &mut g, true).unwrap();
    assert_eq!(p.status, ProposalStatus::Approved);
    assert_eq!(p.approval_votes, 1);
    assert_eq!(g.collateral_ratio, 160);
    assert_eq!(g.reward_adjustment_rate, 9);
}

#[test]
fn approving_vote_leaves_absent_fields_alone() {
    let mut p = create_proposal(String::from("new rate only"), None, Some(9), AccountId { id: 3 })
        .unwrap();
    let mut g = params();
    vote_on_proposal(&mut p, &mut g, true).unwrap();
    assert_eq!(g.collateral_ratio, 150);
    assert_eq!(g.reward_adjustment_rate, 9);
}

#[test]
fn rejecting_vote_concludes_without_changes() {
    let mut p = create_proposal(
        String::from("raise the ratio"),
        Some(160),
        None,
        AccountId { id: 3 },
    )
    .unwrap();
    let mut g = params();
    vote_on_proposal(&mut p, &mut g, false).unwrap();
    assert_eq!(p.status, ProposalStatus::Rejected);
    assert_eq!(p.reject_votes, 1);
    assert_eq!(g.collateral_ratio, 150);
    assert_eq!(g.reward_adjustment_rate, 7);
}

#[test]
fn vote_counter_overflow_rejected() {
    // A vote counter at its limit cannot wrap around.
    let mut p = Proposal {
        description: String::from("saturated"),
        new_collateral_ratio: Some(160),
        new_reward_rate: None,
        approval_votes: u32::MAX,
        reject_votes: 0,
        status: ProposalStatus::Pending,
        proposer: AccountId { id: 3 },
        voting_period_end: 0,
    };
    let mut g = params();
    let r = vote_on_proposal(&mut p, &mut g, true);
    assert_eq!(r, Err(ErrorCode::Overflow));
    assert_eq!(p.approval_votes, u32::MAX);
    assert_eq!(p.status, ProposalStatus::Pending);
    assert_eq!(g.collateral_ratio, 150);
}

#[test]
fn vote_on_concluded_proposal_rejected() {
    let mut p = create_proposal(
        String::from("raise the ratio"),
        Some(160),
        None,
        AccountId { id: 3 },
    )
    .unwrap();
    let mut g = params();
    vote_on_proposal(&mut p, &mut g, false).unwrap();
    assert_eq!(p.status, ProposalStatus::Rejected);
    // The conclusion is terminal: a later approving vote changes nothing.
    let r = vote_on_proposal(&mut p, &mut g, true);
    assert_eq!(r, Err(ErrorCode::ProposalAlreadyConcluded));
    assert_eq!(p.status, ProposalStatus::Rejected);
    assert_eq!(p.approval_votes, 0);
    assert_eq!(p.reject_votes, 1);
    assert_eq!(g.collateral_ratio, 150);
}
