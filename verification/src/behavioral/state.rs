//! State: a voting machine whose reaction to a vote depends on the state it
//! is in, and whose state changes with each vote.

use vstd::prelude::*;

verus! {

/// The states of a voting machine.
#[derive(Clone, Copy, Debug, PartialEq, Eq, Structural)]
pub enum VotingState {
    /// No vote has been cast.
    NotVoted,
    /// The vote has been cast.
    Voted,
    /// Voting is closed.
    Locked,
}

/// What the machine answers to a vote.
#[derive(Clone, Copy, Debug, PartialEq, Eq, Structural)]
pub enum VoteOutcome {
    /// The vote was taken.
    Accepted,
    /// A vote had been cast before; this one was not taken.
    AlreadyVoted,
    /// Voting is closed; the vote was not taken.
    Refused,
}

impl VotingState {
    /// The state that follows a vote in this state.  A first vote leads to
    /// `Voted`; after that a vote changes nothing.
    pub open spec fn after_vote(self) -> VotingState {
        match self {
            VotingState::NotVoted => VotingState::Voted,
            VotingState::Voted => VotingState::Voted,
            VotingState::Locked => VotingState::Locked,
        }
    }

    /// The answer to a vote in this state.
    pub open spec fn answer(self) -> VoteOutcome {
        match self {
            VotingState::NotVoted => VoteOutcome::Accepted,
            VotingState::Voted => VoteOutcome::AlreadyVoted,
            VotingState::Locked => VoteOutcome::Refused,
        }
    }

    /// Reacts to a vote: the state that follows, and the answer.
    pub fn vote(self) -> (r: (VotingState, VoteOutcome))
        ensures
            r.0 == self.after_vote(),
            r.1 == self.answer(),
    {
        match self {
            VotingState::NotVoted => (VotingState::Voted, VoteOutcome::Accepted),
            VotingState::Voted => (VotingState::Voted, VoteOutcome::AlreadyVoted),
            VotingState::Locked => (VotingState::Locked, VoteOutcome::Refused),
        }
    }
}

/// Exactly the first vote is accepted: once a vote has been cast, the machine
/// stays in `Voted` and answers every further vote with `AlreadyVoted`.
pub proof fn lemma_only_first_vote_counts(state: VotingState)
    ensures
        state.answer() == VoteOutcome::Accepted <==> state == VotingState::NotVoted,
        VotingState::NotVoted.after_vote() == VotingState::Voted,
        VotingState::Voted.after_vote() == VotingState::Voted,
        state.after_vote().after_vote() == state.after_vote(),
{
}

/// The voting machine.
pub struct VotingMachine {
    state: VotingState,
}

impl View for VotingMachine {
    type V = VotingState;

    closed spec fn view(&self) -> VotingState {
        self.state
    }
}

impl VotingMachine {
    /// A machine on which nobody has voted.
    pub fn new() -> (machine: VotingMachine)
        ensures
            machine@ == VotingState::NotVoted,
    {
        VotingMachine { state: VotingState::NotVoted }
    }

    /// Casts a vote: the machine moves to the state that follows and gives
    /// the answer of the state it was in.
    pub fn vote(&mut self) -> (outcome: VoteOutcome)
        ensures
            final(self)@ == old(self)@.after_vote(),
            outcome == old(self)@.answer(),
    {
        let (next, outcome) = self.state.vote();
        self.state = next;
        outcome
    }

    /// The state the machine is in.
    pub fn status(&self) -> (state: VotingState)
        ensures
            state == self@,
    {
        self.state
    }
}

} // verus!
