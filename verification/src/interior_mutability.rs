//! Three counters and containers, by how their value may be changed: by one
//! owner, by several threads one at a time, and by many readers or one
//! writer.

use std::sync::Arc;
use vstd::prelude::*;
use vstd::rwlock::RwLock;
use vstd::rwlock::RwLockPredicate;

verus! {

/// A number with a single owner.  To change it one must hold it
/// exclusively, which the compiler sees to; so its value is known
/// exactly at every point.
pub struct MyData {
    value: i32,
}

impl View for MyData {
    type V = int;

    closed spec fn view(&self) -> int {
        self.value as int
    }
}

impl MyData {
    /// Holds `val`.
    pub fn new(val: i32) -> (data: MyData)
        ensures
            data@ == val,
    {
        MyData { value: val }
    }

    /// Adds one.  There must be room for it.
    pub fn increment(&mut self)
        requires
            old(self)@ < i32::MAX,
        ensures
            final(self)@ == old(self)@ + 1,
    {
        self.value = self.value + 1;
    }

    /// The number held.
    pub fn get_value(&self) -> (value: i32)
        ensures
            value == self@,
    {
        self.value
    }
}

/// The number that follows `count`; after the largest `i32` comes the
/// smallest.
pub open spec fn following(count: int) -> int {
    if count == i32::MAX {
        i32::MIN as int
    } else {
        count + 1
    }
}

/// The number that follows `count`.
pub fn next_count(count: i32) -> (next: i32)
    ensures
        next == following(count as int),
{
    if count == i32::MAX {
        i32::MIN
    } else {
        count + 1
    }
}

/// The lock around a shared count lets any number in.
pub struct AnyCount;

impl RwLockPredicate<i32> for AnyCount {
    open spec fn inv(self, count: i32) -> bool {
        true
    }
}

/// A counter that several threads share.  Each of them sees the count as it
/// is at the moment it looks, and no increment is lost.
pub struct SharedCounter {
    pub count: Arc<RwLock<i32, AnyCount>>,
}

impl SharedCounter {
    /// A counter that starts at `val`.
    pub fn new(val: i32) -> (counter: SharedCounter) {
        SharedCounter { count: Arc::new(RwLock::new(val, Ghost(AnyCount))) }
    }

    /// Another handle to the same count.
    pub fn share(&self) -> (other: SharedCounter)
        ensures
            other.count == self.count,
    {
        SharedCounter { count: self.count.clone() }
    }

    /// Replaces the count by the number that follows it, in one step that no
    /// other thread can interrupt.
    pub fn increment(&self) {
        let (count, handle) = self.count.acquire_write();
        handle.release_write(next_count(count));
    }

    /// The count at the moment of the call.
    pub fn get_count(&self) -> (count: i32) {
        let handle = self.count.acquire_read();
        let count = *handle.borrow();
        handle.release_read();
        count
    }
}

/// The lock around a shared text lets any text in.
pub struct AnyText;

impl RwLockPredicate<String> for AnyText {
    open spec fn inv(self, text: String) -> bool {
        true
    }
}

/// A text that many may read at once and one may replace.
pub struct ReadWriteData {
    data: RwLock<String, AnyText>,
}

impl ReadWriteData {
    /// Holds a copy of `s`.
    pub fn new(s: &str) -> (holder: ReadWriteData) {
        ReadWriteData { data: RwLock::new(s.to_owned(), Ghost(AnyText)) }
    }

    /// A copy of the text at the moment of the call.
    pub fn read_data(&self) -> (text: String) {
        let handle = self.data.acquire_read();
        let text = handle.borrow().clone();
        handle.release_read();
        text
    }

    /// Replaces the text by a copy of `new_val`.
    pub fn write_data(&self, new_val: &str) {
        let (_, handle) = self.data.acquire_write();
        handle.release_write(new_val.to_owned());
    }
}

} // verus!
