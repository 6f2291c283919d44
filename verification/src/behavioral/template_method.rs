//! Template method: the order of the steps is fixed once, in the trait; what
//! each step does is left to the implementor.

use vstd::prelude::*;

verus! {

/// Who carried out a step.
#[derive(Clone, Copy, Debug, PartialEq, Eq, Structural)]
pub enum Performer {
    ConcreteClassA,
    ConcreteClassB,
}

/// A step that was carried out: by whom, and which one.
#[derive(Clone, Copy, Debug, PartialEq, Eq, Structural)]
pub struct Step {
    pub performer: Performer,
    pub number: u8,
}

/// An algorithm of three steps.
pub trait AbstractClass {
    /// What the first step does.
    spec fn first(&self) -> Step;

    /// What the second step does.
    spec fn second(&self) -> Step;

    /// What the third step does.
    spec fn third(&self) -> Step;

    /// Runs the algorithm: the first, the second and the third step, in this
    /// order and each exactly once.
    fn template_method(&self) -> (steps: Vec<Step>)
        ensures
            steps@ == seq![self.first(), self.second(), self.third()],
    {
        let mut steps: Vec<Step> = Vec::new();
        steps.push(self.step1());
        steps.push(self.step2());
        steps.push(self.step3());
        proof {
            assert(steps@ =~= seq![self.first(), self.second(), self.third()]);
        }
        steps
    }

    /// Carries out the first step.
    fn step1(&self) -> (step: Step)
        ensures
            step == self.first(),
    ;

    /// Carries out the second step.
    fn step2(&self) -> (step: Step)
        ensures
            step == self.second(),
    ;

    /// Carries out the third step.
    fn step3(&self) -> (step: Step)
        ensures
            step == self.third(),
    ;
}

/// One way to carry out the steps.
pub struct ConcreteClassA;

impl AbstractClass for ConcreteClassA {
    open spec fn first(&self) -> Step {
        Step { performer: Performer::ConcreteClassA, number: 1 }
    }

    open spec fn second(&self) -> Step {
        Step { performer: Performer::ConcreteClassA, number: 2 }
    }

    open spec fn third(&self) -> Step {
        Step { performer: Performer::ConcreteClassA, number: 3 }
    }

    fn step1(&self) -> (step: Step) {
        Step { performer: Performer::ConcreteClassA, number: 1 }
    }

    fn step2(&self) -> (step: Step) {
        Step { performer: Performer::ConcreteClassA, number: 2 }
    }

    fn step3(&self) -> (step: Step) {
        Step { performer: Performer::ConcreteClassA, number: 3 }
    }
}

/// Another way to carry out the steps.
pub struct ConcreteClassB;

impl AbstractClass for ConcreteClassB {
    open spec fn first(&self) -> Step {
        Step { performer: Performer::ConcreteClassB, number: 1 }
    }

    open spec fn second(&self) -> Step {
        Step { performer: Performer::ConcreteClassB, number: 2 }
    }

    open spec fn third(&self) -> Step {
        Step { performer: Performer::ConcreteClassB, number: 3 }
    }

    fn step1(&self) -> (step: Step) {
        Step { performer: Performer::ConcreteClassB, number: 1 }
    }

    fn step2(&self) -> (step: Step) {
        Step { performer: Performer::ConcreteClassB, number: 2 }
    }

    fn step3(&self) -> (step: Step) {
        Step { performer: Performer::ConcreteClassB, number: 3 }
    }
}

} // verus!
