//! The governance state machine: governors, proposals and weighted votes.
//!
//! A governor owns DAO-wide parameters and a strictly increasing proposal
//! counter. A proposal moves `Draft -> Active -> Queued`, with
//! `Draft -> Canceled` as the only alternate branch out of `Draft`; lifecycle
//! timestamps use `0` as the "never happened" sentinel, so every operation
//! that stamps one takes a current time of at least `1`. Each voter has one
//! vote record per proposal, and the proposal's per-side tallies are kept
//! equal to the sum of the recorded vote weights by removing a voter's old
//! contribution before adding the new one.
//!
//! Authorization is an equality check on opaque identities; the hosting
//! environment is assumed to have already checked signatures and account
//! relationships, as well as to persist the records handed back.

use vstd::prelude::*;

use crate::pubkey::Pubkey;

verus! {

/// DAO-wide governance configuration.
#[derive(Clone, Copy, PartialEq, Eq, Structural, Debug)]
pub struct GovernanceParameters {
    /// Length of the voting window, in seconds.
    pub voting_period: u64,
    /// Minimum aggregate vote weight for a proposal to pass.
    pub quorum_votes: u64,
    /// Delay before a queued proposal may execute, in seconds; never negative.
    pub timelock_delay_seconds: i64,
}

/// The governance configuration root for one DAO.
#[derive(Clone, Copy, PartialEq, Eq, Structural, Debug)]
pub struct Governor {
    /// The authority permitted to activate proposals and record votes.
    pub electorate: Pubkey,
    /// The external execution service that runs queued proposals.
    pub smart_wallet: Pubkey,
    /// Number of proposals created so far; the next proposal's index.
    pub proposal_count: u64,
    /// Current governance parameters.
    pub params: GovernanceParameters,
}

/// One account taking part in a proposed instruction.
#[derive(Clone, Copy, PartialEq, Eq, Structural, Debug)]
pub struct ProposalAccountMeta {
    /// The account's identity.
    pub pubkey: Pubkey,
    /// Whether the account must sign.
    pub is_signer: bool,
    /// Whether the account is written.
    pub is_writable: bool,
}

/// One instruction of a proposal's payload.
#[derive(Clone, Debug)]
pub struct ProposalInstruction {
    /// The program that executes the instruction.
    pub program_id: Pubkey,
    /// The accounts the instruction touches.
    pub keys: Vec<ProposalAccountMeta>,
    /// The instruction data.
    pub data: Vec<u8>,
}

/// One governance item: payload, lifecycle timestamps and vote tallies.
#[derive(Clone, Debug)]
pub struct Proposal {
    /// The governor this proposal belongs to.
    pub governor: Pubkey,
    /// Index assigned from the governor's counter at creation; never reused.
    pub index: u64,
    /// The creator, the only identity allowed to cancel the draft.
    pub proposer: Pubkey,
    /// Quorum snapshot taken from the governor at creation time.
    pub quorum_votes: u64,
    /// When the proposal was created.
    pub created_at: i64,
    /// When the proposal was activated; `0` while a draft.
    pub activated_at: i64,
    /// End of the voting window; `0` until activation.
    pub voting_ends_at: i64,
    /// When the proposal was canceled; `0` if never.
    pub canceled_at: i64,
    /// When the proposal was queued for execution; `0` if never.
    pub queued_at: i64,
    /// The execution-service transaction the payload was handed to.
    pub queued_transaction: Pubkey,
    /// Sum of the weights of votes currently recorded in favour.
    pub for_votes: u64,
    /// Sum of the weights of votes currently recorded against.
    pub against_votes: u64,
    /// Sum of the weights of votes currently recorded as abstaining.
    pub abstain_votes: u64,
    /// The instruction payload handed to the execution service when queued.
    pub instructions: Vec<ProposalInstruction>,
}

/// Human-readable metadata attached to a proposal; no tally effect.
#[derive(Clone, Debug)]
pub struct ProposalMeta {
    /// The proposal the metadata describes.
    pub proposal: Pubkey,
    /// Title of the proposal.
    pub title: String,
    /// Link to a longer description.
    pub description_link: String,
}

/// A side a vote can take.
#[derive(Clone, Copy, PartialEq, Eq, Structural, Debug)]
pub enum VoteSide {
    /// Registered but not yet cast; carries no tally weight.
    Pending,
    /// Against the proposal.
    Against,
    /// In favour of the proposal.
    For,
    /// Counted for quorum but neither for nor against.
    Abstain,
}

/// One voter's current side and weight for one proposal.
#[derive(Clone, Copy, PartialEq, Eq, Structural, Debug)]
pub struct Vote {
    /// The proposal voted on.
    pub proposal: Pubkey,
    /// The voter's identity.
    pub voter: Pubkey,
    /// The side, encoded as in [`side_code`].
    pub side: u8,
    /// The voter's weight at the last [`set_vote`] call.
    pub weight: u64,
}

/// Errors of the governance state machine.
#[derive(Clone, Copy, PartialEq, Eq, Structural, Debug)]
pub enum ErrorCode {
    /// The caller is not the electorate, proposer or execution service owner.
    Unauthorized,
    /// A negative timelock delay was supplied.
    InvalidTimelockDelay,
    /// A vote side outside the defined encoding was supplied.
    InvalidVoteSide,
    /// The proposal is no longer a draft.
    ProposalNotDraft,
    /// The proposal is not currently active.
    ProposalNotActive,
    /// A checked addition or subtraction could not be represented.
    ArithmeticOverflow,
}

/// The numeric encoding of a vote side, as stored in [`Vote::side`].
pub open spec fn side_code(s: VoteSide) -> u8 {
    match s {
        VoteSide::Pending => 0,
        VoteSide::Against => 1,
        VoteSide::For => 2,
        VoteSide::Abstain => 3,
    }
}

/// Whether `side` encodes one of the four defined vote sides.
pub open spec fn valid_side(side: u8) -> bool {
    side <= 3
}

/// Decodes a side code; `None` outside the defined encoding.
pub fn side_from_code(side: u8) -> (r: Option<VoteSide>)
    ensures
        match r {
            Some(s) => valid_side(side) && side == side_code(s),
            None => !valid_side(side),
        },
{
    if side == 0 {
        Some(VoteSide::Pending)
    } else if side == 1 {
        Some(VoteSide::Against)
    } else if side == 2 {
        Some(VoteSide::For)
    } else if side == 3 {
        Some(VoteSide::Abstain)
    } else {
        None
    }
}

/// Whether the parameters are acceptable: the timelock delay is not negative.
pub open spec fn governance_params_valid(p: GovernanceParameters) -> bool {
    p.timelock_delay_seconds >= 0
}

/// A proposal on which nothing has happened yet.
pub open spec fn is_draft(p: Proposal) -> bool {
    p.canceled_at == 0 && p.queued_at == 0 && p.activated_at == 0
}

/// A proposal that has been activated (possibly since ended).
pub open spec fn is_activated(p: Proposal) -> bool {
    p.activated_at != 0
}

/// A proposal inside its voting window at time `now`.
pub open spec fn is_active(p: Proposal, now: i64) -> bool {
    p.canceled_at == 0 && p.queued_at == 0 && p.activated_at != 0 && now < p.voting_ends_at
}

/// The tally of `p` for side code `side` (`0` for the pending side,
/// which has no tally).
pub open spec fn tally_get(p: Proposal, side: u8) -> u64 {
    if side == 1 {
        p.against_votes
    } else if side == 2 {
        p.for_votes
    } else if side == 3 {
        p.abstain_votes
    } else {
        0
    }
}

/// `p` with the tally of side code `side` replaced by `v`; unchanged for the
/// pending side.
pub open spec fn with_tally(p: Proposal, side: u8, v: u64) -> Proposal {
    if side == 1 {
        Proposal { against_votes: v, ..p }
    } else if side == 2 {
        Proposal { for_votes: v, ..p }
    } else if side == 3 {
        Proposal { abstain_votes: v, ..p }
    } else {
        p
    }
}

/// How much a recorded (side, weight) pair contributes to side `s`'s tally.
pub open spec fn contribution(side: u8, weight: u64, s: u8) -> int {
    if side == s && s != 0 {
        weight as int
    } else {
        0
    }
}

/// Whether removing `w` from side `side`'s tally stays non-negative.
pub open spec fn sub_ok(p: Proposal, side: u8, w: u64) -> bool {
    side == 0 || tally_get(p, side) >= w
}

/// `p` after removing `w` from side `side`'s tally.
pub open spec fn after_sub(p: Proposal, side: u8, w: u64) -> Proposal {
    if side == 0 {
        p
    } else {
        with_tally(p, side, (tally_get(p, side) - w) as u64)
    }
}

/// Whether adding `w` to side `side`'s tally stays representable.
pub open spec fn add_ok(p: Proposal, side: u8, w: u64) -> bool {
    side == 0 || tally_get(p, side) + w <= u64::MAX
}

/// `p` after adding `w` to side `side`'s tally.
pub open spec fn after_add(p: Proposal, side: u8, w: u64) -> Proposal {
    if side == 0 {
        p
    } else {
        with_tally(p, side, (tally_get(p, side) + w) as u64)
    }
}

/// The error a [`set_vote`] call reports, or `None` when it succeeds:
/// the checks run in this order and the first failure wins.
pub open spec fn set_vote_error(
    g: Governor,
    p: Proposal,
    v: Vote,
    caller: Pubkey,
    side: u8,
    weight: u64,
    now: i64,
) -> Option<ErrorCode> {
    if caller != g.electorate {
        Some(ErrorCode::Unauthorized)
    } else if !is_active(p, now) {
        Some(ErrorCode::ProposalNotActive)
    } else if !valid_side(side) {
        Some(ErrorCode::InvalidVoteSide)
    } else if !sub_ok(p, v.side, v.weight) {
        Some(ErrorCode::ArithmeticOverflow)
    } else if !add_ok(after_sub(p, v.side, v.weight), side, weight) {
        Some(ErrorCode::ArithmeticOverflow)
    } else {
        None
    }
}

/// Creates a [`Governor`] with a zero proposal counter; rejects a negative
/// timelock delay.
pub fn create_governor(
    electorate: Pubkey,
    smart_wallet: Pubkey,
    params: GovernanceParameters,
) -> (r: Result<Governor, ErrorCode>)
    ensures
        match r {
            Ok(g) => {
                &&& governance_params_valid(params)
                &&& g == (Governor { electorate, smart_wallet, proposal_count: 0, params })
            },
            Err(e) => {
                &&& !governance_params_valid(params)
                &&& e == ErrorCode::InvalidTimelockDelay
            },
        },
{
    if params.timelock_delay_seconds < 0 {
        return Err(ErrorCode::InvalidTimelockDelay);
    }
    Ok(Governor { electorate, smart_wallet, proposal_count: 0, params })
}

/// Whether `p` is the draft proposal that [`create_proposal`] hands back:
/// index and quorum snapshotted from `g`, zero tallies, all lifecycle
/// timestamps at the sentinel, and the given payload.
pub open spec fn is_fresh_proposal(
    p: Proposal,
    g: Governor,
    governor_key: Pubkey,
    proposer: Pubkey,
    now: i64,
    instructions: Seq<ProposalInstruction>,
) -> bool {
    &&& p.governor == governor_key
    &&& p.index == g.proposal_count
    &&& p.proposer == proposer
    &&& p.quorum_votes == g.params.quorum_votes
    &&& p.created_at == now
    &&& p.activated_at == 0
    &&& p.voting_ends_at == 0
    &&& p.canceled_at == 0
    &&& p.queued_at == 0
    &&& p.queued_transaction == Pubkey::zero_key()
    &&& p.for_votes == 0
    &&& p.against_votes == 0
    &&& p.abstain_votes == 0
    &&& p.instructions@ == instructions
}

/// Opens a draft proposal under `governor`, snapshotting the quorum and
/// assigning the next index; the counter increment is checked, so the index
/// of a proposal is never reused.
pub fn create_proposal(
    governor: &mut Governor,
    governor_key: Pubkey,
    proposer: Pubkey,
    instructions: Vec<ProposalInstruction>,
    now: i64,
) -> (r: Result<Proposal, ErrorCode>)
    ensures
        match r {
            Ok(p) => {
                &&& old(governor).proposal_count < u64::MAX
                &&& is_fresh_proposal(p, *old(governor), governor_key, proposer, now, instructions@)
                &&& *final(governor) == (Governor {
                    proposal_count: (old(governor).proposal_count + 1) as u64,
                    ..*old(governor)
                })
            },
            Err(e) => {
                &&& old(governor).proposal_count == u64::MAX
                &&& e == ErrorCode::ArithmeticOverflow
                &&& *final(governor) == *old(governor)
            },
        },
{
    let next_count: u64 = match governor.proposal_count.checked_add(1) {
        Some(c) => c,
        None => {
            return Err(ErrorCode::ArithmeticOverflow);
        },
    };
    let proposal = Proposal {
        governor: governor_key,
        index: governor.proposal_count,
        proposer,
        quorum_votes: governor.params.quorum_votes,
        created_at: now,
        activated_at: 0,
        voting_ends_at: 0,
        canceled_at: 0,
        queued_at: 0,
        queued_transaction: Pubkey::zero(),
        for_votes: 0,
        against_votes: 0,
        abstain_votes: 0,
        instructions,
    };
    governor.proposal_count = next_count;
    Ok(proposal)
}

/// The error an [`activate_proposal`] call reports, or `None` when it
/// succeeds.
pub open spec fn activate_error(
    g: Governor,
    p: Proposal,
    caller: Pubkey,
    now: i64,
) -> Option<ErrorCode> {
    if caller != g.electorate {
        Some(ErrorCode::Unauthorized)
    } else if !is_draft(p) {
        Some(ErrorCode::ProposalNotDraft)
    } else if now + g.params.voting_period > i64::MAX {
        Some(ErrorCode::ArithmeticOverflow)
    } else {
        None
    }
}

/// Activates a draft proposal: only the electorate may call, and the end of
/// the voting window is computed with checked addition.
pub fn activate_proposal(
    governor: &Governor,
    proposal: &mut Proposal,
    caller: Pubkey,
    now: i64,
) -> (r: Result<(), ErrorCode>)
    requires
        1 <= now,
    ensures
        match r {
            Ok(_) => {
                &&& activate_error(*governor, *old(proposal), caller, now) is None
                &&& *final(proposal) == (Proposal {
                    activated_at: now,
                    voting_ends_at: (now + governor.params.voting_period) as i64,
                    ..*old(proposal)
                })
            },
            Err(e) => {
                &&& activate_error(*governor, *old(proposal), caller, now) == Some(e)
                &&& *final(proposal) == *old(proposal)
            },
        },
{
    if caller != governor.electorate {
        return Err(ErrorCode::Unauthorized);
    }
    if !(proposal.canceled_at == 0 && proposal.queued_at == 0 && proposal.activated_at == 0) {
        return Err(ErrorCode::ProposalNotDraft);
    }
    if governor.params.voting_period > i64::MAX as u64 {
        return Err(ErrorCode::ArithmeticOverflow);
    }
    let period: i64 = governor.params.voting_period as i64;
    let ends_at: i64 = match now.checked_add(period) {
        Some(t) => t,
        None => {
            return Err(ErrorCode::ArithmeticOverflow);
        },
    };
    proposal.activated_at = now;
    proposal.voting_ends_at = ends_at;
    Ok(())
}

/// Whether `caller` may cancel `p`: only the proposer, and only while the
/// proposal is still a draft.
pub open spec fn cancel_allowed(p: Proposal, caller: Pubkey) -> bool {
    caller == p.proposer && is_draft(p)
}

/// Cancels a draft proposal; activation and cancellation are mutually
/// exclusive branches out of `Draft`.
pub fn cancel_proposal(proposal: &mut Proposal, caller: Pubkey, now: i64) -> (r: Result<
    (),
    ErrorCode,
>)
    requires
        1 <= now,
    ensures
        match r {
            Ok(_) => {
                &&& cancel_allowed(*old(proposal), caller)
                &&& *final(proposal) == (Proposal { canceled_at: now, ..*old(proposal) })
            },
            Err(e) => {
                &&& !cancel_allowed(*old(proposal), caller)
                &&& (e == ErrorCode::Unauthorized <==> caller != old(proposal).proposer)
                &&& (e == ErrorCode::ProposalNotDraft <==> caller == old(proposal).proposer
                    && !is_draft(*old(proposal)))
                &&& *final(proposal) == *old(proposal)
            },
        },
{
    if caller != proposal.proposer {
        return Err(ErrorCode::Unauthorized);
    }
    if !(proposal.canceled_at == 0 && proposal.queued_at == 0 && proposal.activated_at == 0) {
        return Err(ErrorCode::ProposalNotDraft);
    }
    proposal.canceled_at = now;
    Ok(())
}

/// Whether `p` may be queued: it was activated and neither canceled nor
/// already queued. Quorum and window checks are the execution service's
/// rules, outside this core.
pub open spec fn queue_allowed(p: Proposal) -> bool {
    p.canceled_at == 0 && p.queued_at == 0 && p.activated_at != 0
}

/// Records that the proposal's payload was handed to the external execution
/// service as `transaction`. The caller reads the payload from
/// [`Proposal::instructions`].
pub fn queue_proposal(proposal: &mut Proposal, transaction: Pubkey, now: i64) -> (r: Result<
    (),
    ErrorCode,
>)
    requires
        1 <= now,
    ensures
        match r {
            Ok(_) => {
                &&& queue_allowed(*old(proposal))
                &&& *final(proposal) == (Proposal {
                    queued_at: now,
                    queued_transaction: transaction,
                    ..*old(proposal)
                })
            },
            Err(e) => {
                &&& !queue_allowed(*old(proposal))
                &&& e == ErrorCode::ProposalNotActive
                &&& *final(proposal) == *old(proposal)
            },
        },
{
    if !(proposal.canceled_at == 0 && proposal.queued_at == 0 && proposal.activated_at != 0) {
        return Err(ErrorCode::ProposalNotActive);
    }
    proposal.queued_at = now;
    proposal.queued_transaction = transaction;
    Ok(())
}

/// Registers `voter` on a proposal: a pending vote of weight zero. This is
/// idempotent registration, not a cast vote.
pub fn new_vote(proposal_key: Pubkey, voter: Pubkey) -> (r: Vote)
    ensures
        r == (Vote { proposal: proposal_key, voter, side: 0u8, weight: 0u64 }),
{
    Vote { proposal: proposal_key, voter, side: 0, weight: 0 }
}

/// Records `voter`'s current side and weight: the old contribution is
/// removed from its side's tally and the new one added, atomically, so the
/// tallies always equal the sum of the currently recorded votes.
///
/// Only the electorate may call. All tally arithmetic is checked; on any
/// failure nothing changes.
pub fn set_vote(
    governor: &Governor,
    proposal: &mut Proposal,
    vote: &mut Vote,
    caller: Pubkey,
    side: u8,
    weight: u64,
    now: i64,
) -> (r: Result<(), ErrorCode>)
    requires
        valid_side(old(vote).side),
    ensures
        match r {
            Ok(_) => {
                &&& set_vote_error(
                    *governor,
                    *old(proposal),
                    *old(vote),
                    caller,
                    side,
                    weight,
                    now,
                ) is None
                &&& *final(proposal) == after_add(
                    after_sub(*old(proposal), old(vote).side, old(vote).weight),
                    side,
                    weight,
                )
                &&& *final(vote) == (Vote { side, weight, ..*old(vote) })
            },
            Err(e) => {
                &&& set_vote_error(
                    *governor,
                    *old(proposal),
                    *old(vote),
                    caller,
                    side,
                    weight,
                    now,
                ) == Some(e)
                &&& *final(proposal) == *old(proposal)
                &&& *final(vote) == *old(vote)
            },
        },
{
    if caller != governor.electorate {
        return Err(ErrorCode::Unauthorized);
    }
    if !(proposal.canceled_at == 0 && proposal.queued_at == 0 && proposal.activated_at != 0
        && now < proposal.voting_ends_at) {
        return Err(ErrorCode::ProposalNotActive);
    }
    if side_from_code(side).is_none() {
        return Err(ErrorCode::InvalidVoteSide);
    }
    // Work on copies of the tallies so that a failed check leaves no trace.
    let mut against: u64 = proposal.against_votes;
    let mut in_favour: u64 = proposal.for_votes;
    let mut abstain: u64 = proposal.abstain_votes;
    let old_side: u8 = vote.side;
    let old_weight: u64 = vote.weight;
    if old_side == 1 {
        against = match against.checked_sub(old_weight) {
            Some(v) => v,
            None => {
                return Err(ErrorCode::ArithmeticOverflow);
            },
        };
    } else if old_side == 2 {
        in_favour = match in_favour.checked_sub(old_weight) {
            Some(v) => v,
            None => {
                return Err(ErrorCode::ArithmeticOverflow);
            },
        };
    } else if old_side == 3 {
        abstain = match abstain.checked_sub(old_weight) {
            Some(v) => v,
            None => {
                return Err(ErrorCode::ArithmeticOverflow);
            },
        };
    }
    if side == 1 {
        against = match against.checked_add(weight) {
            Some(v) => v,
            None => {
                return Err(ErrorCode::ArithmeticOverflow);
            },
        };
    } else if side == 2 {
        in_favour = match in_favour.checked_add(weight) {
            Some(v) => v,
            None => {
                return Err(ErrorCode::ArithmeticOverflow);
            },
        };
    } else if side == 3 {
        abstain = match abstain.checked_add(weight) {
            Some(v) => v,
            None => {
                return Err(ErrorCode::ArithmeticOverflow);
            },
        };
    }
    proposal.against_votes = against;
    proposal.for_votes = in_favour;
    proposal.abstain_votes = abstain;
    vote.side = side;
    vote.weight = weight;
    Ok(())
}

/// Replaces the governance parameters; only the execution service owner may
/// call. Returns the previous parameters for the audit record.
pub fn set_governance_params(
    governor: &mut Governor,
    caller: Pubkey,
    params: GovernanceParameters,
) -> (r: Result<GovernanceParameters, ErrorCode>)
    ensures
        match r {
            Ok(prev) => {
                &&& caller == old(governor).smart_wallet
                &&& governance_params_valid(params)
                &&& prev == old(governor).params
                &&& *final(governor) == (Governor { params, ..*old(governor) })
            },
            Err(e) => {
                &&& !(caller == old(governor).smart_wallet && governance_params_valid(params))
                &&& (e == ErrorCode::Unauthorized <==> caller != old(governor).smart_wallet)
                &&& (e == ErrorCode::InvalidTimelockDelay <==> caller == old(governor).smart_wallet
                    && !governance_params_valid(params))
                &&& *final(governor) == *old(governor)
            },
        },
{
    if caller != governor.smart_wallet {
        return Err(ErrorCode::Unauthorized);
    }
    if params.timelock_delay_seconds < 0 {
        return Err(ErrorCode::InvalidTimelockDelay);
    }
    let prev = governor.params;
    governor.params = params;
    Ok(prev)
}

/// Replaces the electorate; only the execution service owner may call.
/// Returns the previous electorate for the audit record.
pub fn set_electorate(governor: &mut Governor, caller: Pubkey, new_electorate: Pubkey) -> (r:
    Result<Pubkey, ErrorCode>)
    ensures
        match r {
            Ok(prev) => {
                &&& caller == old(governor).smart_wallet
                &&& prev == old(governor).electorate
                &&& *final(governor) == (Governor {
                    electorate: new_electorate,
                    ..*old(governor)
                })
            },
            Err(e) => {
                &&& caller != old(governor).smart_wallet
                &&& e == ErrorCode::Unauthorized
                &&& *final(governor) == *old(governor)
            },
        },
{
    if caller != governor.smart_wallet {
        return Err(ErrorCode::Unauthorized);
    }
    let prev = governor.electorate;
    governor.electorate = new_electorate;
    Ok(prev)
}

/// Law: activation and cancellation are mutually exclusive branches out of
/// `Draft`. A proposal that [`activate_proposal`] has just activated can no
/// longer be canceled, by anyone — [`cancel_proposal`] is sure to report an
/// error on it.
pub proof fn lemma_cancel_after_activate_fails(
    governor: Governor,
    p: Proposal,
    caller: Pubkey,
    now: i64,
    anyone: Pubkey,
)
    requires
        1 <= now,
        activate_error(governor, p, caller, now) is None,
    ensures
        !cancel_allowed(
            (Proposal {
                activated_at: now,
                voting_ends_at: (now + governor.params.voting_period) as i64,
                ..p
            }),
            anyone,
        ),
{
}

/// Attaches metadata to a proposal; purely descriptive, no tally effect.
pub fn create_proposal_meta(proposal_key: Pubkey, title: String, description_link: String) -> (r:
    ProposalMeta)
    ensures
        r.proposal == proposal_key,
        r.title@ == title@,
        r.description_link@ == description_link@,
{
    ProposalMeta { proposal: proposal_key, title, description_link }
}

} // verus!
