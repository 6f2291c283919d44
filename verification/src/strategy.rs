//! Strategy: the context does not know which algorithm it runs; it runs the
//! one it was given, and can be given another.

use vstd::prelude::*;

verus! {

/// Which algorithm ran.
#[derive(Clone, Copy, Debug, PartialEq, Eq, Structural)]
pub enum Executed {
    StrategyA,
    StrategyB,
}

/// An interchangeable algorithm.
pub trait Strategy {
    /// Which algorithm this is.
    spec fn identity(&self) -> Executed;

    /// Runs the algorithm and reports which one ran.
    fn execute(&self) -> (ran: Executed)
        ensures
            ran == self.identity(),
    ;
}

/// The first algorithm.
pub struct ConcreteStrategyA;

impl Strategy for ConcreteStrategyA {
    open spec fn identity(&self) -> Executed {
        Executed::StrategyA
    }

    fn execute(&self) -> (ran: Executed) {
        Executed::StrategyA
    }
}

/// The second algorithm.
pub struct ConcreteStrategyB;

impl Strategy for ConcreteStrategyB {
    open spec fn identity(&self) -> Executed {
        Executed::StrategyB
    }

    fn execute(&self) -> (ran: Executed) {
        Executed::StrategyB
    }
}

/// Either algorithm, for a context that switches between them while it runs.
pub enum AnyStrategy {
    A(ConcreteStrategyA),
    B(ConcreteStrategyB),
}

impl Strategy for AnyStrategy {
    open spec fn identity(&self) -> Executed {
        match self {
            AnyStrategy::A(a) => a.identity(),
            AnyStrategy::B(b) => b.identity(),
        }
    }

    fn execute(&self) -> (ran: Executed) {
        match self {
            AnyStrategy::A(a) => a.execute(),
            AnyStrategy::B(b) => b.execute(),
        }
    }
}

/// Runs whatever strategy it holds.
pub struct Context<S: Strategy> {
    strategy: S,
}

impl<S: Strategy> Context<S> {
    /// The strategy the context holds.
    pub closed spec fn strategy(&self) -> S {
        self.strategy
    }

    /// A context that holds `strategy`.
    pub fn new(strategy: S) -> (context: Context<S>)
        ensures
            context.strategy() == strategy,
    {
        Context { strategy }
    }

    /// Replaces the strategy.
    pub fn set_strategy(&mut self, strategy: S)
        ensures
            final(self).strategy() == strategy,
    {
        self.strategy = strategy;
    }

    /// Runs the strategy the context holds, and reports which one ran.
    pub fn execute_strategy(&self) -> (ran: Executed)
        ensures
            ran == self.strategy().identity(),
    {
        self.strategy.execute()
    }
}

} // verus!
