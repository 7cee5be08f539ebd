use crate::error::CustomError;
use crate::identity::Identity;
use vstd::prelude::*;

verus! {

/// Seconds in the 7 days for which a proposal is open to votes.
pub const VOTING_PERIOD: i64 = 604_800;

/// Number of voters that a proposal's record has room for.
pub const MAX_VOTERS: usize = 100;

/// A governance proposal with its tally. `voters` lists, in the order of
/// their votes, the identities that have voted; `passed` is a latch that a
/// majority sets and nothing clears.
#[derive(Clone, Debug, PartialEq, Eq)]
pub struct Proposal {
    pub creator: Identity,
    pub description: String,
    pub votes_for: u64,
    pub votes_against: u64,
    pub voting_deadline: i64,
    pub passed: bool,
    pub voters: Vec<Identity>,
}

/// What a proposal holds, with its description and its voters as sequences.
pub struct ProposalView {
    pub creator: Identity,
    pub description: Seq<char>,
    pub votes_for: u64,
    pub votes_against: u64,
    pub voting_deadline: i64,
    pub passed: bool,
    pub voters: Seq<Identity>,
}

impl View for Proposal {
    type V = ProposalView;

    open spec fn view(&self) -> ProposalView {
        ProposalView {
            creator: self.creator,
            description: self.description@,
            votes_for: self.votes_for,
            votes_against: self.votes_against,
            voting_deadline: self.voting_deadline,
            passed: self.passed,
            voters: self.voters@,
        }
    }
}

impl ProposalView {
    /// A proposal is well formed when its list of voters fits the record,
    /// names nobody twice, and has one entry for each vote counted.
    pub open spec fn wf(self) -> bool {
        &&& self.voters.len() <= MAX_VOTERS
        &&& self.voters.no_duplicates()
        &&& self.votes_for + self.votes_against == self.voters.len()
    }
}

/// Whether the votes in favour are more than half of all votes cast.
pub open spec fn has_majority(votes_for: nat, votes_against: nat) -> bool {
    2 * votes_for > votes_for + votes_against
}

/// Whether a proposal can be opened with this description: an empty one is
/// rejected.
pub open spec fn check_description_spec(description: Seq<char>) -> Result<(), CustomError> {
    if description.len() == 0 {
        Err(CustomError::InvalidProposalDescription)
    } else {
        Ok(())
    }
}

/// The outcome of opening a proposal at time `now`: an empty description is
/// rejected; otherwise the proposal starts with an empty tally and closes
/// 7 days later.
pub open spec fn create_proposal_spec(
    creator: Identity,
    description: Seq<char>,
    now: i64,
) -> Result<ProposalView, CustomError> {
    match check_description_spec(description) {
        Err(e) => Err(e),
        Ok(_) => Ok(
            ProposalView {
                creator,
                description,
                votes_for: 0,
                votes_against: 0,
                voting_deadline: (now + VOTING_PERIOD) as i64,
                passed: false,
                voters: Seq::empty(),
            },
        ),
    }
}

/// The outcome of a vote by `voter` at time `now`: the first failed check in
/// the order deadline, single vote, room in the record; otherwise the
/// proposal with the vote counted, the voter appended, and `passed` set if it
/// was set before or the votes in favour now hold the majority.
pub open spec fn vote_on_proposal_spec(
    proposal: ProposalView,
    voter: Identity,
    vote_for: bool,
    now: i64,
) -> Result<ProposalView, CustomError> {
    if now > proposal.voting_deadline {
        Err(CustomError::VotingPeriodEnded)
    } else if proposal.voters.contains(voter) {
        Err(CustomError::AlreadyVoted)
    } else if proposal.voters.len() >= MAX_VOTERS {
        Err(CustomError::CapacityExceeded)
    } else {
        let votes_for = if vote_for {
            (proposal.votes_for + 1) as u64
        } else {
            proposal.votes_for
        };
        let votes_against = if vote_for {
            proposal.votes_against
        } else {
            (proposal.votes_against + 1) as u64
        };
        Ok(
            ProposalView {
                votes_for,
                votes_against,
                passed: proposal.passed || has_majority(votes_for as nat, votes_against as nat),
                voters: proposal.voters.push(voter),
                ..proposal
            },
        )
    }
}

/// The proposal as a vote leaves it: with the vote counted, or unchanged
/// where the vote is rejected.
pub open spec fn proposal_after_vote(
    proposal: ProposalView,
    voter: Identity,
    vote_for: bool,
    now: i64,
) -> ProposalView {
    match vote_on_proposal_spec(proposal, voter, vote_for, now) {
        Ok(counted) => counted,
        Err(_) => proposal,
    }
}

impl Proposal {
    /// Whether `voter` is on the list of those who have voted.
    pub fn has_voted(&self, voter: &Identity) -> (found: bool)
        ensures
            found == self@.voters.contains(*voter),
    {
        let mut i: usize = 0;
        while i < self.voters.len()
            invariant
                i <= self.voters.len(),
                forall|j: int| 0 <= j < i ==> self.voters@[j] != *voter,
            decreases self.voters.len() - i,
        {
            if self.voters[i] == *voter {
                return true;
            }
            i += 1;
        }
        false
    }

    /// Checks a record that comes from storage: whether it is well formed.
    pub fn is_well_formed(&self) -> (ok: bool)
        ensures
            ok == self@.wf(),
    {
        let n: usize = self.voters.len();
        if n > MAX_VOTERS {
            return false;
        }
        if self.votes_for > n as u64 || self.votes_against != n as u64 - self.votes_for {
            return false;
        }
        let mut i: usize = 0;
        while i < n
            invariant
                n == self.voters.len(),
                i <= n,
                forall|a: int, b: int| 0 <= a < b < i ==> self.voters@[a] != self.voters@[b],
            decreases n - i,
        {
            let mut j: usize = 0;
            while j < i
                invariant
                    n == self.voters.len(),
                    i < n,
                    j <= i,
                    forall|a: int| 0 <= a < j ==> self.voters@[a] != self.voters@[i as int],
                decreases i - j,
            {
                if self.voters[j] == self.voters[i] {
                    return false;
                }
                j += 1;
            }
            i += 1;
        }
        true
    }
}

/// Checks what a proposal needs, before the clock is read: a description
/// that is not empty.
pub fn check_description(description: &str) -> (r: Result<(), CustomError>)
    ensures
        r == check_description_spec(description@),
        r is Ok <==> description@.len() > 0,
{
    if description.is_empty() {
        return Err(CustomError::InvalidProposalDescription);
    }
    Ok(())
}

/// Opens a proposal by `creator` at time `now`. The description must not be
/// empty. The time has to leave room for the 7 days only where the proposal
/// is accepted.
pub fn create_proposal(
    creator: Identity,
    description: String,
    now: i64,
) -> (r: Result<Proposal, CustomError>)
    requires
        description@.len() > 0 ==> now + VOTING_PERIOD <= i64::MAX,
    ensures
        match create_proposal_spec(creator, description@, now) {
            Ok(proposal) => r is Ok && r->Ok_0@ == proposal,
            Err(e) => r == Err::<Proposal, CustomError>(e),
        },
        r matches Ok(proposal) ==> proposal@.wf() && proposal.voting_deadline == now + 604_800,
{
    match check_description(description.as_str()) {
        Err(e) => {
            return Err(e);
        },
        Ok(_) => {},
    }
    Ok(
        Proposal {
            creator,
            description,
            votes_for: 0,
            votes_against: 0,
            voting_deadline: now + VOTING_PERIOD,
            passed: false,
            voters: Vec::new(),
        },
    )
}

/// Counts the vote of `voter`, cast at time `now`. Each identity votes once,
/// and only up to the deadline. A rejected vote leaves the proposal as it
/// was.
pub fn vote_on_proposal(
    proposal: &mut Proposal,
    voter: Identity,
    vote_for: bool,
    now: i64,
) -> (r: Result<(), CustomError>)
    requires
        old(proposal)@.wf(),
    ensures
        match vote_on_proposal_spec(old(proposal)@, voter, vote_for, now) {
            Ok(counted) => r is Ok && final(proposal)@ == counted,
            Err(e) => r == Err::<(), CustomError>(e) && *final(proposal) == *old(proposal),
        },
        final(proposal)@ == proposal_after_vote(old(proposal)@, voter, vote_for, now),
        final(proposal)@.wf(),
        old(proposal).passed ==> final(proposal).passed,
{
    if now > proposal.voting_deadline {
        return Err(CustomError::VotingPeriodEnded);
    }
    if proposal.has_voted(&voter) {
        return Err(CustomError::AlreadyVoted);
    }
    if proposal.voters.len() >= MAX_VOTERS {
        return Err(CustomError::CapacityExceeded);
    }
    if vote_for {
        proposal.votes_for += 1;
    } else {
        proposal.votes_against += 1;
    }
    proposal.voters.push(voter);
    let total_votes: u64 = proposal.votes_for + proposal.votes_against;
    if 2 * proposal.votes_for > total_votes {
        proposal.passed = true;
    }
    proof {
        lemma_vote_keeps_well_formed(old(proposal)@, voter, vote_for, now);
    }
    Ok(())
}

/// A counted vote leaves a well-formed proposal well formed: the voter is
/// new to the list, the list still fits, and the tally grew with it.
pub proof fn lemma_vote_keeps_well_formed(
    proposal: ProposalView,
    voter: Identity,
    vote_for: bool,
    now: i64,
)
    requires
        proposal.wf(),
    ensures
        vote_on_proposal_spec(proposal, voter, vote_for, now) matches Ok(counted) ==> counted.wf(),
{
}

/// The first vote on a new proposal, cast in favour and in time, is counted
/// and passes the proposal at once: one vote for and none against is a
/// majority.
pub proof fn lemma_first_vote_for_passes(
    creator: Identity,
    description: Seq<char>,
    created_at: i64,
    voter: Identity,
    now: i64,
)
    requires
        description.len() > 0,
        created_at + VOTING_PERIOD <= i64::MAX,
        now <= created_at + VOTING_PERIOD,
    ensures
        create_proposal_spec(creator, description, created_at) matches Ok(proposal)
            && vote_on_proposal_spec(proposal, voter, true, now) matches Ok(counted)
            && counted.votes_for == 1 && counted.votes_against == 0 && counted.passed,
{
    let proposal = create_proposal_spec(creator, description, created_at)->Ok_0;
}

/// Whenever a vote in favour is counted on a proposal that had no votes, the
/// proposal has passed immediately after it.
pub proof fn lemma_single_vote_for_passes(proposal: ProposalView, voter: Identity, now: i64)
    requires
        proposal.votes_for == 0,
        proposal.votes_against == 0,
        vote_on_proposal_spec(proposal, voter, true, now) is Ok,
    ensures
        proposal_after_vote(proposal, voter, true, now).votes_for == 1,
        proposal_after_vote(proposal, voter, true, now).votes_against == 0,
        proposal_after_vote(proposal, voter, true, now).passed,
{
}

/// Nobody votes twice: once a vote of `voter` has been counted, every later
/// vote of the same identity is rejected, whichever way and whenever it is
/// cast, and leaves the tally and the rest of the proposal as they were. Up
/// to the deadline the rejection is `AlreadyVoted`; after it the deadline is
/// reported first.
pub proof fn lemma_second_vote_rejected(
    proposal: ProposalView,
    voter: Identity,
    first_choice: bool,
    first_now: i64,
    second_choice: bool,
    second_now: i64,
)
    requires
        vote_on_proposal_spec(proposal, voter, first_choice, first_now) is Ok,
    ensures
        ({
            let counted = proposal_after_vote(proposal, voter, first_choice, first_now);
            &&& vote_on_proposal_spec(counted, voter, second_choice, second_now) is Err
            &&& second_now <= counted.voting_deadline ==> vote_on_proposal_spec(
                counted,
                voter,
                second_choice,
                second_now,
            ) == Err::<ProposalView, CustomError>(CustomError::AlreadyVoted)
            &&& proposal_after_vote(counted, voter, second_choice, second_now) == counted
        }),
{
    let counted = proposal_after_vote(proposal, voter, first_choice, first_now);
    assert(counted.voters[proposal.voters.len() as int] == voter);
}

/// `passed` is a one-way latch: no vote, counted or rejected, in favour or
/// against, clears it.
pub proof fn lemma_passed_is_sticky(
    proposal: ProposalView,
    voter: Identity,
    vote_for: bool,
    now: i64,
)
    requires
        proposal.passed,
    ensures
        proposal_after_vote(proposal, voter, vote_for, now).passed,
{
}

} // verus!
