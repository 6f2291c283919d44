//! Visitor: new behaviour for the states of a voting machine without touching
//! the states themselves.  A visitor is shown the state the machine is in and
//! notes down a remark of its own kind.

use vstd::prelude::*;

verus! {

/// No vote has been cast.
#[derive(Clone, Copy, Debug, PartialEq, Eq)]
pub struct NotVoted;

/// The vote has been cast.
#[derive(Clone, Copy, Debug, PartialEq, Eq)]
pub struct Voted;

/// The vote is final.
#[derive(Clone, Copy, Debug, PartialEq, Eq)]
pub struct Locked;

/// The states of the machine.
#[derive(Clone, Copy, Debug, PartialEq, Eq)]
pub enum VotingState {
    NotVoted(NotVoted),
    Voted(Voted),
    Locked(Locked),
}

/// Which state it is, without the state itself.
#[derive(Clone, Copy, Debug, PartialEq, Eq, Structural)]
pub enum StateKind {
    NotVoted,
    Voted,
    Locked,
}

/// What the machine answers to a vote.
#[derive(Clone, Copy, Debug, PartialEq, Eq, Structural)]
pub enum VoteOutcome {
    /// The vote was taken.
    Accepted,
    /// A vote had been cast before; the machine is now locked.
    AlreadyVoted,
    /// The vote is final; nothing changed.
    Refused,
}

/// What a visitor notes down about a state.
#[derive(Clone, Copy, Debug, PartialEq, Eq, Structural)]
pub enum Remark {
    /// The log's remark: the machine is in this state.
    CurrentState(StateKind),
    /// The audit's remark on `NotVoted`.
    ReadyToVote,
    /// The audit's remark on `Voted`.
    AlreadyCast,
    /// The audit's remark on `Locked`.
    VoteFinalized,
}

impl VotingState {
    /// Which state this is.
    pub open spec fn kind(self) -> StateKind {
        match self {
            VotingState::NotVoted(_) => StateKind::NotVoted,
            VotingState::Voted(_) => StateKind::Voted,
            VotingState::Locked(_) => StateKind::Locked,
        }
    }
}

impl StateKind {
    /// The state that follows a vote: the first vote is taken, the second
    /// locks the machine, and a locked machine stays locked.
    pub open spec fn after_vote(self) -> StateKind {
        match self {
            StateKind::NotVoted => StateKind::Voted,
            StateKind::Voted => StateKind::Locked,
            StateKind::Locked => StateKind::Locked,
        }
    }

    /// The answer to a vote in this state.
    pub open spec fn answer(self) -> VoteOutcome {
        match self {
            StateKind::NotVoted => VoteOutcome::Accepted,
            StateKind::Voted => VoteOutcome::AlreadyVoted,
            StateKind::Locked => VoteOutcome::Refused,
        }
    }
}

/// Two votes lock the machine, whatever state it was in, and a locked
/// machine takes no vote and stays locked.
pub proof fn lemma_two_votes_lock(kind: StateKind)
    ensures
        kind.after_vote().after_vote() == StateKind::Locked,
        kind.answer() == VoteOutcome::Accepted <==> kind == StateKind::NotVoted,
        StateKind::Locked.after_vote() == StateKind::Locked,
        StateKind::Locked.answer() == VoteOutcome::Refused,
{
}

/// Something that can be shown each state of the machine.
pub trait StateVisitor {
    /// The remarks noted down so far, oldest first.
    spec fn remarks(&self) -> Seq<Remark>;

    /// The remark this visitor makes on a state of the given kind.
    spec fn remark_on(&self, kind: StateKind) -> Remark;

    /// Is shown a machine on which nobody has voted.
    fn visit_not_voted(&mut self, state: &NotVoted)
        ensures
            final(self).remarks() == old(self).remarks().push(
                old(self).remark_on(StateKind::NotVoted),
            ),
    ;

    /// Is shown a machine on which the vote has been cast.
    fn visit_voted(&mut self, state: &Voted)
        ensures
            final(self).remarks() == old(self).remarks().push(
                old(self).remark_on(StateKind::Voted),
            ),
    ;

    /// Is shown a locked machine.
    fn visit_locked(&mut self, state: &Locked)
        ensures
            final(self).remarks() == old(self).remarks().push(
                old(self).remark_on(StateKind::Locked),
            ),
    ;
}

/// Notes down which state the machine is in.
pub struct LoggingVisitor {
    pub log: Vec<Remark>,
}

impl LoggingVisitor {
    /// A visitor with an empty log.
    pub fn new() -> (visitor: LoggingVisitor)
        ensures
            visitor.log@ == Seq::<Remark>::empty(),
    {
        LoggingVisitor { log: Vec::new() }
    }
}

impl StateVisitor for LoggingVisitor {
    open spec fn remarks(&self) -> Seq<Remark> {
        self.log@
    }

    open spec fn remark_on(&self, kind: StateKind) -> Remark {
        Remark::CurrentState(kind)
    }

    fn visit_not_voted(&mut self, state: &NotVoted) {
        self.log.push(Remark::CurrentState(StateKind::NotVoted));
    }

    fn visit_voted(&mut self, state: &Voted) {
        self.log.push(Remark::CurrentState(StateKind::Voted));
    }

    fn visit_locked(&mut self, state: &Locked) {
        self.log.push(Remark::CurrentState(StateKind::Locked));
    }
}

/// Notes down what each state means for the vote.
pub struct AuditVisitor {
    pub findings: Vec<Remark>,
}

impl AuditVisitor {
    /// A visitor with no findings.
    pub fn new() -> (visitor: AuditVisitor)
        ensures
            visitor.findings@ == Seq::<Remark>::empty(),
    {
        AuditVisitor { findings: Vec::new() }
    }
}

impl StateVisitor for AuditVisitor {
    open spec fn remarks(&self) -> Seq<Remark> {
        self.findings@
    }

    open spec fn remark_on(&self, kind: StateKind) -> Remark {
        match kind {
            StateKind::NotVoted => Remark::ReadyToVote,
            StateKind::Voted => Remark::AlreadyCast,
            StateKind::Locked => Remark::VoteFinalized,
        }
    }

    fn visit_not_voted(&mut self, state: &NotVoted) {
        self.findings.push(Remark::ReadyToVote);
    }

    fn visit_voted(&mut self, state: &Voted) {
        self.findings.push(Remark::AlreadyCast);
    }

    fn visit_locked(&mut self, state: &Locked) {
        self.findings.push(Remark::VoteFinalized);
    }
}

/// The voting machine.
pub struct VotingMachine {
    state: VotingState,
}

impl View for VotingMachine {
    type V = StateKind;

    closed spec fn view(&self) -> StateKind {
        self.state.kind()
    }
}

impl VotingMachine {
    /// A machine on which nobody has voted.
    pub fn new() -> (machine: VotingMachine)
        ensures
            machine@ == StateKind::NotVoted,
    {
        VotingMachine { state: VotingState::NotVoted(NotVoted) }
    }

    /// Casts a vote: the machine moves to the state that follows and gives
    /// the answer of the state it was in.
    pub fn vote(&mut self) -> (outcome: VoteOutcome)
        ensures
            final(self)@ == old(self)@.after_vote(),
            outcome == old(self)@.answer(),
    {
        match self.state {
            VotingState::NotVoted(_) => {
                self.state = VotingState::Voted(Voted);
                VoteOutcome::Accepted
            },
            VotingState::Voted(_) => {
                self.state = VotingState::Locked(Locked);
                VoteOutcome::AlreadyVoted
            },
            VotingState::Locked(_) => VoteOutcome::Refused,
        }
    }

    /// Which state the machine is in.
    pub fn status(&self) -> (kind: StateKind)
        ensures
            kind == self@,
    {
        match self.state {
            VotingState::NotVoted(_) => StateKind::NotVoted,
            VotingState::Voted(_) => StateKind::Voted,
            VotingState::Locked(_) => StateKind::Locked,
        }
    }

    /// Shows the visitor the state the machine is in.  The visitor notes down
    /// its remark on that state, after those it holds already.
    pub fn accept<V: StateVisitor>(&self, visitor: &mut V)
        ensures
            final(visitor).remarks() == old(visitor).remarks().push(old(visitor).remark_on(self@)),
    {
        match &self.state {
            VotingState::NotVoted(state) => visitor.visit_not_voted(state),
            VotingState::Voted(state) => visitor.visit_voted(state),
            VotingState::Locked(state) => visitor.visit_locked(state),
        }
    }
}

} // verus!
