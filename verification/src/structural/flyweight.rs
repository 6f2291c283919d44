//! Flyweight: values that share their intrinsic state are kept once, in a
//! factory, and found again by that state.

use vstd::prelude::*;

verus! {

/// What an operation on a flyweight works with: the state the flyweight
/// holds, and the state the caller brought.
pub struct Operation {
    pub intrinsic_state: String,
    pub extrinsic_state: String,
}

/// A value whose intrinsic state is shared.
pub trait Flyweight {
    /// The state the flyweight holds.
    spec fn intrinsic(&self) -> Seq<char>;

    /// Operates on the flyweight with the state the caller brings.
    fn operation(&self, extrinsic_state: &str) -> (op: Operation)
        ensures
            op.intrinsic_state@ == self.intrinsic(),
            op.extrinsic_state@ == extrinsic_state@,
    ;
}

/// A flyweight whose intrinsic state is a text.
pub struct ConcreteFlyweight {
    intrinsic_state: String,
}

impl View for ConcreteFlyweight {
    type V = Seq<char>;

    closed spec fn view(&self) -> Seq<char> {
        self.intrinsic_state@
    }
}

impl Flyweight for ConcreteFlyweight {
    open spec fn intrinsic(&self) -> Seq<char> {
        self@
    }

    fn operation(&self, extrinsic_state: &str) -> (op: Operation) {
        Operation {
            intrinsic_state: self.intrinsic_state.clone(),
            extrinsic_state: extrinsic_state.to_owned(),
        }
    }
}

/// `at` is the first place at which `state` stands in `states`.
pub open spec fn is_first_position(states: Seq<Seq<char>>, state: Seq<char>, at: int) -> bool {
    &&& 0 <= at < states.len()
    &&& states[at] == state
    &&& forall|j: int| 0 <= j < at ==> states[j] != state
}

/// Keeps the flyweights, in the order in which they were added.
pub struct FlyweightFactory {
    pub flyweights: Vec<ConcreteFlyweight>,
}

impl View for FlyweightFactory {
    type V = Seq<Seq<char>>;

    /// The intrinsic states of the flyweights kept, oldest first.
    open spec fn view(&self) -> Seq<Seq<char>> {
        self.flyweights@.map_values(|f: ConcreteFlyweight| f@)
    }
}

impl FlyweightFactory {
    /// A factory that keeps nothing.
    pub fn new() -> (factory: FlyweightFactory)
        ensures
            factory@ == Seq::<Seq<char>>::empty(),
    {
        let factory = FlyweightFactory { flyweights: Vec::new() };
        proof {
            assert(factory@ =~= Seq::<Seq<char>>::empty());
        }
        factory
    }

    /// Where the first flyweight with the intrinsic state `state` is kept.
    pub fn position(&self, state: &str) -> (at: Option<usize>)
        ensures
            match at {
                Some(i) => is_first_position(self@, state@, i as int),
                None => !self@.contains(state@),
            },
    {
        let wanted = state.to_owned();
        let mut i: usize = 0;
        while i < self.flyweights.len()
            invariant
                i <= self.flyweights@.len(),
                wanted@ == state@,
                forall|j: int| 0 <= j < i ==> self@[j] != state@,
            decreases self.flyweights@.len() - i,
        {
            if self.flyweights[i].intrinsic_state == wanted {
                return Some(i);
            }
            i = i + 1;
        }
        None
    }

    /// Looks `s` up and makes sure that it is kept.  If a flyweight with the
    /// intrinsic state `s` is kept already, the first such flyweight is
    /// returned and nothing changes; if none is, one is added at the end and
    /// `None` is returned.  So a factory that is filled through `handle`
    /// alone never keeps two flyweights with the same state.
    pub fn handle(&mut self, s: &str) -> (found: Option<&ConcreteFlyweight>)
        ensures
            match found {
                Some(flyweight) => {
                    &&& old(self)@.contains(s@)
                    &&& flyweight@ == s@
                    &&& exists|i: int|
                        is_first_position(old(self)@, s@, i) && *flyweight == old(
                            self,
                        ).flyweights@[i]
                    &&& final(self).flyweights@ == old(self).flyweights@
                },
                None => {
                    &&& !old(self)@.contains(s@)
                    &&& final(self)@ == old(self)@.push(s@)
                },
            },
            old(self)@.no_duplicates() ==> final(self)@.no_duplicates(),
    {
        match self.position(s) {
            Some(i) => {
                let found = &self.flyweights[i];
                proof {
                    assert(is_first_position(old(self)@, s@, i as int));
                }
                Some(found)
            },
            None => {
                self.flyweights.push(ConcreteFlyweight { intrinsic_state: s.to_owned() });
                proof {
                    assert(self@ =~= old(self)@.push(s@));
                    if old(self)@.no_duplicates() {
                        assert forall|a: int, b: int|
                            0 <= a < self@.len() && 0 <= b < self@.len() && a != b implies self@[a]
                            != self@[b] by {
                            if a < old(self)@.len() {
                                assert(old(self)@.contains(old(self)@[a]));
                            }
                            if b < old(self)@.len() {
                                assert(old(self)@.contains(old(self)@[b]));
                            }
                        }
                    }
                }
                None
            },
        }
    }

    /// The first flyweight kept with the intrinsic state `intrinsic_state`,
    /// if there is one.
    pub fn get_flyweight(&self, intrinsic_state: &str) -> (found: Option<&ConcreteFlyweight>)
        ensures
            match found {
                Some(flyweight) => {
                    &&& flyweight@ == intrinsic_state@
                    &&& exists|i: int|
                        is_first_position(self@, intrinsic_state@, i) && *flyweight
                            == self.flyweights@[i]
                },
                None => !self@.contains(intrinsic_state@),
            },
    {
        match self.position(intrinsic_state) {
            Some(i) => {
                proof {
                    assert(is_first_position(self@, intrinsic_state@, i as int));
                }
                Some(&self.flyweights[i])
            },
            None => None,
        }
    }

    /// Adds a flyweight with the given intrinsic state at the end, whether or
    /// not one with that state is kept already.
    pub fn push_flyweight(&mut self, intrinsic_state: String)
        ensures
            final(self)@ == old(self)@.push(intrinsic_state@),
    {
        self.flyweights.push(ConcreteFlyweight { intrinsic_state });
        proof {
            assert(self@ =~= old(self)@.push(intrinsic_state@));
        }
    }
}

} // verus!
