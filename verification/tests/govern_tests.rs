use tribeca::govern::{
    activate_proposal, cancel_proposal, create_governor, create_proposal, create_proposal_meta,
    new_vote, queue_proposal, set_electorate, set_governance_params, set_vote, side_from_code,
    ErrorCode, GovernanceParameters, Governor, Proposal, ProposalInstruction, VoteSide,
};
use tribeca::pubkey::Pubkey;

fn key(id: u64) -> Pubkey {
    Pubkey { id }
}

fn params() -> GovernanceParameters {
    GovernanceParameters { voting_period: 1000, quorum_votes: 10, timelock_delay_seconds: 60 }
}

fn governor() -> Governor {
    create_governor(key(1), key(2), params()).unwrap()
}

fn active_proposal(governor: &mut Governor) -> Proposal {
    let mut p = create_proposal(governor, key(9), key(3), Vec::new(), 100).unwrap();
    activate_proposal(governor, &mut p, key(1), 200).unwrap();
    p
}

#[test]
fn create_governor_initializes() {
    let g = governor();
    assert_eq!(g.electorate, key(1));
    assert_eq!(g.smart_wallet, key(2));
    assert_eq!(g.proposal_count, 0);
    assert_eq!(g.params, params());
}

#[test]
fn create_governor_rejects_negative_timelock() {
    let bad = GovernanceParameters { timelock_delay_seconds: -1, ..params() };
    assert_eq!(create_governor(key(1), key(2), bad), Err(ErrorCode::InvalidTimelockDelay));
}

#[test]
fn proposal_indices_increment() {
    // Two proposals on one governor get indices 0 and 1, and the counter
    // ends at 2.
    let mut g = governor();
    let p0 = create_proposal(&mut g, key(9), key(3), Vec::new(), 100).unwrap();
    let p1 = create_proposal(&mut g, key(9), key(4), Vec::new(), 101).unwrap();
    assert_eq!(p0.index, 0);
    assert_eq!(p1.index, 1);
    assert_eq!(g.proposal_count, 2);
}

#[test]
fn fresh_proposal_is_zeroed_draft() {
    let mut g = governor();
    let instr = ProposalInstruction { program_id: key(50), keys: Vec::new(), data: vec![1, 2] };
    let p = create_proposal(&mut g, key(9), key(3), vec![instr], 100).unwrap();
    assert_eq!(p.governor, key(9));
    assert_eq!(p.proposer, key(3));
    assert_eq!(p.quorum_votes, 10);
    assert_eq!(p.created_at, 100);
    assert_eq!(p.activated_at, 0);
    assert_eq!(p.voting_ends_at, 0);
    assert_eq!(p.canceled_at, 0);
    assert_eq!(p.queued_at, 0);
    assert_eq!(p.for_votes, 0);
    assert_eq!(p.against_votes, 0);
    assert_eq!(p.abstain_votes, 0);
    assert_eq!(p.instructions.len(), 1);
    assert_eq!(p.instructions[0].data, vec![1, 2]);
}

#[test]
fn create_proposal_counter_exhaustion() {
    let mut g = governor();
    g.proposal_count = u64::MAX;
    let r = create_proposal(&mut g, key(9), key(3), Vec::new(), 100);
    assert_eq!(r.unwrap_err(), ErrorCode::ArithmeticOverflow);
    assert_eq!(g.proposal_count, u64::MAX);
}

#[test]
fn activate_sets_voting_window() {
    let mut g = governor();
    let mut p = create_proposal(&mut g, key(9), key(3), Vec::new(), 100).unwrap();
    activate_proposal(&g, &mut p, key(1), 200).unwrap();
    assert_eq!(p.activated_at, 200);
    assert_eq!(p.voting_ends_at, 1200);
}

#[test]
fn activate_requires_electorate() {
    let mut g = governor();
    let mut p = create_proposal(&mut g, key(9), key(3), Vec::new(), 100).unwrap();
    assert_eq!(activate_proposal(&g, &mut p, key(99), 200), Err(ErrorCode::Unauthorized));
    assert_eq!(p.activated_at, 0);
}

#[test]
fn activate_requires_draft() {
    let mut g = governor();
    let mut p = active_proposal(&mut g);
    assert_eq!(activate_proposal(&g, &mut p, key(1), 300), Err(ErrorCode::ProposalNotDraft));
}

#[test]
fn activate_overflowing_window_fails() {
    let mut g = create_governor(
        key(1),
        key(2),
        GovernanceParameters {
            voting_period: u64::MAX,
            quorum_votes: 10,
            timelock_delay_seconds: 0,
        },
    )
    .unwrap();
    let mut p = create_proposal(&mut g, key(9), key(3), Vec::new(), 100).unwrap();
    assert_eq!(activate_proposal(&g, &mut p, key(1), 200), Err(ErrorCode::ArithmeticOverflow));
    assert_eq!(p.activated_at, 0);
}

#[test]
fn cancel_draft_by_proposer() {
    let mut g = governor();
    let mut p = create_proposal(&mut g, key(9), key(3), Vec::new(), 100).unwrap();
    cancel_proposal(&mut p, key(3), 150).unwrap();
    assert_eq!(p.canceled_at, 150);
}

#[test]
fn cancel_requires_proposer() {
    let mut g = governor();
    let mut p = create_proposal(&mut g, key(9), key(3), Vec::new(), 100).unwrap();
    assert_eq!(cancel_proposal(&mut p, key(4), 150), Err(ErrorCode::Unauthorized));
    assert_eq!(p.canceled_at, 0);
}

#[test]
fn cancel_after_activate_fails() {
    // Activation and cancellation are mutually exclusive branches out of
    // Draft: once activated, even the proposer cannot cancel.
    let mut g = governor();
    let mut p = active_proposal(&mut g);
    assert_eq!(cancel_proposal(&mut p, key(3), 201), Err(ErrorCode::ProposalNotDraft));
    assert_eq!(p.canceled_at, 0);
}

#[test]
fn queue_active_proposal() {
    let mut g = governor();
    let mut p = active_proposal(&mut g);
    queue_proposal(&mut p, key(77), 1300).unwrap();
    assert_eq!(p.queued_at, 1300);
    assert_eq!(p.queued_transaction, key(77));
}

#[test]
fn queue_requires_activation() {
    let mut g = governor();
    let mut p = create_proposal(&mut g, key(9), key(3), Vec::new(), 100).unwrap();
    assert_eq!(queue_proposal(&mut p, key(77), 1300), Err(ErrorCode::ProposalNotActive));
    let mut canceled = create_proposal(&mut g, key(9), key(3), Vec::new(), 100).unwrap();
    cancel_proposal(&mut canceled, key(3), 150).unwrap();
    assert_eq!(queue_proposal(&mut canceled, key(77), 1300), Err(ErrorCode::ProposalNotActive));
}

#[test]
fn queue_twice_fails() {
    let mut g = governor();
    let mut p = active_proposal(&mut g);
    queue_proposal(&mut p, key(77), 1300).unwrap();
    assert_eq!(queue_proposal(&mut p, key(78), 1400), Err(ErrorCode::ProposalNotActive));
    assert_eq!(p.queued_transaction, key(77));
}

#[test]
fn new_vote_is_pending_and_weightless() {
    let v = new_vote(key(40), key(41));
    assert_eq!(v.proposal, key(40));
    assert_eq!(v.voter, key(41));
    assert_eq!(v.side, 0);
    assert_eq!(v.weight, 0);
}

#[test]
fn set_vote_moves_weight_between_sides() {
    // A sequence of set_vote calls: the per-side tallies always equal the
    // sum of the currently recorded votes, with no double counting across
    // a side change.
    let mut g = governor();
    let mut p = active_proposal(&mut g);
    let mut alice = new_vote(key(40), key(41));
    let mut bob = new_vote(key(40), key(42));

    set_vote(&g, &mut p, &mut alice, key(1), 2, 500, 300).unwrap();
    assert_eq!((p.for_votes, p.against_votes, p.abstain_votes), (500, 0, 0));

    set_vote(&g, &mut p, &mut bob, key(1), 1, 200, 301).unwrap();
    assert_eq!((p.for_votes, p.against_votes, p.abstain_votes), (500, 200, 0));

    // Alice switches side: her 500 leaves the for tally entirely.
    set_vote(&g, &mut p, &mut alice, key(1), 1, 500, 302).unwrap();
    assert_eq!((p.for_votes, p.against_votes, p.abstain_votes), (0, 700, 0));

    // Bob re-votes with a new weight on the same side: only the delta moves.
    set_vote(&g, &mut p, &mut bob, key(1), 1, 50, 303).unwrap();
    assert_eq!((p.for_votes, p.against_votes, p.abstain_votes), (0, 550, 0));

    // Alice abstains.
    set_vote(&g, &mut p, &mut alice, key(1), 3, 500, 304).unwrap();
    assert_eq!((p.for_votes, p.against_votes, p.abstain_votes), (0, 50, 500));
    assert_eq!(alice.side, 3);
    assert_eq!(alice.weight, 500);

    // Back to pending: the weight leaves the tallies entirely.
    set_vote(&g, &mut p, &mut alice, key(1), 0, 123, 305).unwrap();
    assert_eq!((p.for_votes, p.against_votes, p.abstain_votes), (0, 50, 0));
}

#[test]
fn set_vote_requires_electorate() {
    let mut g = governor();
    let mut p = active_proposal(&mut g);
    let mut v = new_vote(key(40), key(41));
    assert_eq!(set_vote(&g, &mut p, &mut v, key(99), 2, 500, 300), Err(ErrorCode::Unauthorized));
    assert_eq!(p.for_votes, 0);
    assert_eq!(v.weight, 0);
}

#[test]
fn set_vote_requires_active_proposal() {
    let mut g = governor();
    let mut p = create_proposal(&mut g, key(9), key(3), Vec::new(), 100).unwrap();
    let mut v = new_vote(key(40), key(41));
    assert_eq!(set_vote(&g, &mut p, &mut v, key(1), 2, 500, 300), Err(ErrorCode::ProposalNotActive));
    // After the window has elapsed the proposal is no longer active.
    let mut p2 = active_proposal(&mut g);
    assert_eq!(
        set_vote(&g, &mut p2, &mut v, key(1), 2, 500, 1200),
        Err(ErrorCode::ProposalNotActive)
    );
}

#[test]
fn set_vote_rejects_unknown_side() {
    let mut g = governor();
    let mut p = active_proposal(&mut g);
    let mut v = new_vote(key(40), key(41));
    assert_eq!(set_vote(&g, &mut p, &mut v, key(1), 4, 500, 300), Err(ErrorCode::InvalidVoteSide));
    assert_eq!(v.side, 0);
}

#[test]
fn set_vote_tally_overflow_fails_cleanly() {
    let mut g = governor();
    let mut p = active_proposal(&mut g);
    let mut alice = new_vote(key(40), key(41));
    let mut bob = new_vote(key(40), key(42));
    set_vote(&g, &mut p, &mut alice, key(1), 2, u64::MAX, 300).unwrap();
    assert_eq!(
        set_vote(&g, &mut p, &mut bob, key(1), 2, 1, 301),
        Err(ErrorCode::ArithmeticOverflow)
    );
    assert_eq!(p.for_votes, u64::MAX);
    assert_eq!(bob.weight, 0);
}

#[test]
fn set_governance_params_swaps_and_reports_previous() {
    let mut g = governor();
    let next = GovernanceParameters { voting_period: 2000, quorum_votes: 5, timelock_delay_seconds: 0 };
    let prev = set_governance_params(&mut g, key(2), next).unwrap();
    assert_eq!(prev, params());
    assert_eq!(g.params, next);
    assert_eq!(set_governance_params(&mut g, key(1), next), Err(ErrorCode::Unauthorized));
    let bad = GovernanceParameters { timelock_delay_seconds: -5, ..next };
    assert_eq!(set_governance_params(&mut g, key(2), bad), Err(ErrorCode::InvalidTimelockDelay));
}

#[test]
fn set_electorate_swaps_and_reports_previous() {
    let mut g = governor();
    let prev = set_electorate(&mut g, key(2), key(10)).unwrap();
    assert_eq!(prev, key(1));
    assert_eq!(g.electorate, key(10));
    assert_eq!(set_electorate(&mut g, key(1), key(11)), Err(ErrorCode::Unauthorized));
}

#[test]
fn side_codes_decode() {
    assert_eq!(side_from_code(0), Some(VoteSide::Pending));
    assert_eq!(side_from_code(1), Some(VoteSide::Against));
    assert_eq!(side_from_code(2), Some(VoteSide::For));
    assert_eq!(side_from_code(3), Some(VoteSide::Abstain));
    assert_eq!(side_from_code(4), None);
    assert_eq!(side_from_code(255), None);
}

#[test]
fn proposal_meta_holds_text() {
    let m = create_proposal_meta(key(40), String::from("title"), String::from("link"));
    assert_eq!(m.proposal, key(40));
    assert_eq!(m.title, "title");
    assert_eq!(m.description_link, "link");
}
