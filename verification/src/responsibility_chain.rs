//! Chain of responsibility: a request is passed along a chain of handlers
//! until one of them takes it.

use vstd::prelude::*;

verus! {

/// A request, told apart by its text.
pub struct Request {
    pub content: String,
}

/// Who took a request.
#[derive(Clone, Copy, Debug, PartialEq, Eq, Structural)]
pub enum Handled {
    /// A [`ConcreteHandlerA`] took it.
    ByHandlerA,
    /// A [`ConcreteHandlerB`] took it.
    ByHandlerB,
    /// The request reached the end of the chain.
    ByNobody,
}

/// Whether `mark` occurs in `text`.
pub fn contains_char(text: &str, mark: char) -> (found: bool)
    ensures
        found == text@.contains(mark),
{
    let mut found = false;
    let mut chars = text.chars();
    for c in it: chars
        invariant
            it.seq() == text@,
            found <==> exists|j: int| 0 <= j < it.index() && text@[j] == mark,
    {
        if c == mark {
            found = true;
        }
    }
    found
}

/// What every handler can do.
pub trait Handler: Sized {
    /// The kind of handler that can follow this one.
    type Next;

    /// The handler that follows this one, if any.
    spec fn successor(&self) -> Option<Self::Next>;

    /// Who takes a request with the text `content`, once it is given to this
    /// handler.
    spec fn verdict(&self, content: Seq<char>) -> Handled;

    /// Makes `handler` the one that follows this one.
    fn set_next(&mut self, handler: Self::Next)
        ensures
            final(self).successor() == Some(handler),
    ;

    /// Takes the request, or passes it on.
    fn handle_request(&self, request: &Request) -> (handled: Handled)
        ensures
            handled == self.verdict(request.content@),
    ;
}

/// The end of a chain: a handler that takes nothing.  Only another end can
/// follow it, so nothing that comes after it takes anything either.
pub struct EndOfChain {
    pub next_handler: Option<Box<EndOfChain>>,
}

impl Handler for EndOfChain {
    type Next = EndOfChain;

    open spec fn successor(&self) -> Option<EndOfChain> {
        match self.next_handler {
            Some(next) => Some(*next),
            None => None,
        }
    }

    open spec fn verdict(&self, content: Seq<char>) -> Handled {
        Handled::ByNobody
    }

    fn set_next(&mut self, handler: EndOfChain) {
        self.next_handler = Some(Box::new(handler));
    }

    fn handle_request(&self, request: &Request) -> (handled: Handled) {
        Handled::ByNobody
    }
}

/// Takes the requests whose text holds an `A`, and passes the others on.
pub struct ConcreteHandlerA<N: Handler> {
    pub next_handler: Option<N>,
}

impl<N: Handler> Handler for ConcreteHandlerA<N> {
    type Next = N;

    open spec fn successor(&self) -> Option<N> {
        self.next_handler
    }

    open spec fn verdict(&self, content: Seq<char>) -> Handled {
        if content.contains('A') {
            Handled::ByHandlerA
        } else {
            match self.next_handler {
                Some(next) => next.verdict(content),
                None => Handled::ByNobody,
            }
        }
    }

    fn set_next(&mut self, handler: N) {
        self.next_handler = Some(handler);
    }

    fn handle_request(&self, request: &Request) -> (handled: Handled) {
        if contains_char(request.content.as_str(), 'A') {
            Handled::ByHandlerA
        } else {
            match &self.next_handler {
                Some(next) => next.handle_request(request),
                None => Handled::ByNobody,
            }
        }
    }
}

/// Takes the requests whose text holds a `B`, and passes the others on.
pub struct ConcreteHandlerB<N: Handler> {
    pub next_handler: Option<N>,
}

impl<N: Handler> Handler for ConcreteHandlerB<N> {
    type Next = N;

    open spec fn successor(&self) -> Option<N> {
        self.next_handler
    }

    open spec fn verdict(&self, content: Seq<char>) -> Handled {
        if content.contains('B') {
            Handled::ByHandlerB
        } else {
            match self.next_handler {
                Some(next) => next.verdict(content),
                None => Handled::ByNobody,
            }
        }
    }

    fn set_next(&mut self, handler: N) {
        self.next_handler = Some(handler);
    }

    fn handle_request(&self, request: &Request) -> (handled: Handled) {
        if contains_char(request.content.as_str(), 'B') {
            Handled::ByHandlerB
        } else {
            match &self.next_handler {
                Some(next) => next.handle_request(request),
                None => Handled::ByNobody,
            }
        }
    }
}

} // verus!
