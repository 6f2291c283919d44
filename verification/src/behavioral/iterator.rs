//! Iterator: walking a slice front to back, one item per call.

use vstd::prelude::*;

verus! {

/// A cursor over a borrowed slice of numbers.
pub struct MyIterator<'a> {
    data: &'a [i32],
    index: usize,
}

impl<'a> View for MyIterator<'a> {
    type V = Seq<i32>;

    /// The items that are still to come, the next one first.
    closed spec fn view(&self) -> Seq<i32> {
        self.data@.skip(self.index as int)
    }
}

impl<'a> MyIterator<'a> {
    #[verifier::type_invariant]
    spec fn within(self) -> bool {
        self.index <= self.data@.len()
    }

    /// A cursor in front of the first item of `data`.
    pub fn new(data: &'a [i32]) -> (it: MyIterator<'a>)
        ensures
            it@ == data@,
    {
        let it = MyIterator { data, index: 0 };
        proof {
            assert(it@ =~= data@);
        }
        it
    }

    /// Hands out the next item and steps over it; `None`, with nothing
    /// changed, once every item has been handed out.
    pub fn next(&mut self) -> (item: Option<i32>)
        ensures
            old(self)@.len() == 0 ==> item is None && final(self)@ == old(self)@,
            old(self)@.len() > 0 ==> item == Some(old(self)@.first()) && final(self)@ == old(
                self,
            )@.drop_first(),
    {
        proof {
            use_type_invariant(&*self);
        }
        if self.index < self.data.len() {
            let item = self.data[self.index];
            self.index += 1;
            proof {
                assert(self@ =~= old(self)@.drop_first());
            }
            Some(item)
        } else {
            None
        }
    }
}

} // verus!
