//! Decorator: behaviour is added to a component by wrapping it.  The wrapper
//! does what the component does, and then what it adds.

use vstd::prelude::*;

verus! {

/// Something that was done.
#[derive(Clone, Copy, Debug, PartialEq, Eq, Structural)]
pub enum Action {
    /// What [`ConcreteComponent`] does.
    ConcreteOperation,
    /// What [`ConcreteDecoratorA`] adds.
    AddedBehaviorA,
}

/// Something that can be operated.
pub trait Component {
    /// What operating this component does, first to last.
    spec fn actions(&self) -> Seq<Action>;

    /// Operates the component and reports what was done.
    fn operation(&self) -> (done: Vec<Action>)
        ensures
            done@ == self.actions(),
    ;
}

/// The plain component.
pub struct ConcreteComponent;

impl Component for ConcreteComponent {
    open spec fn actions(&self) -> Seq<Action> {
        seq![Action::ConcreteOperation]
    }

    fn operation(&self) -> (done: Vec<Action>) {
        let mut done: Vec<Action> = Vec::new();
        done.push(Action::ConcreteOperation);
        proof {
            assert(done@ =~= self.actions());
        }
        done
    }
}

/// A component that wraps another.
pub trait Decorator: Component {

}

/// Wraps a component and adds its own behaviour after the component's.
pub struct ConcreteDecoratorA<T: Component> {
    component: T,
}

impl<T: Component> ConcreteDecoratorA<T> {
    /// The component inside.
    pub closed spec fn component(&self) -> T {
        self.component
    }

    /// Wraps `component`.
    pub fn new(component: T) -> (decorator: ConcreteDecoratorA<T>)
        ensures
            decorator.component() == component,
    {
        ConcreteDecoratorA { component }
    }

    /// What the decorator adds.
    pub fn added_behavior(&self) -> (action: Action)
        ensures
            action == Action::AddedBehaviorA,
    {
        Action::AddedBehaviorA
    }
}

impl<T: Component> Component for ConcreteDecoratorA<T> {
    /// Everything the component inside does, then the added behaviour.
    open spec fn actions(&self) -> Seq<Action> {
        self.component().actions().push(Action::AddedBehaviorA)
    }

    fn operation(&self) -> (done: Vec<Action>) {
        let mut done = self.component.operation();
        done.push(self.added_behavior());
        done
    }
}

impl<T: Component> Decorator for ConcreteDecoratorA<T> {

}

} // verus!
