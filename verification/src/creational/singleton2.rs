//! Singleton behind a lock: one instance that several threads may change,
//! one at a time.

use std::sync::Arc;
use vstd::prelude::*;
use vstd::rwlock::RwLock;
use vstd::rwlock::RwLockPredicate;
use vstd::string::StringExecFns;

verus! {

/// The one instance.
pub struct Singleton2 {
    pub value: String,
}

/// The lock around the instance lets any instance in.
pub struct AnyInstance;

impl RwLockPredicate<Singleton2> for AnyInstance {
    open spec fn inv(self, instance: Singleton2) -> bool {
        true
    }
}

/// The instance behind its lock.
pub type SharedSingleton2 = Arc<RwLock<Singleton2, AnyInstance>>;

impl Singleton2 {
    /// The instance in `slot`, behind its lock.  It is made if `slot` is
    /// empty, and left as it is if not: every caller gets a handle to the
    /// same instance.
    pub fn get_instance(slot: &mut Option<SharedSingleton2>) -> (instance: SharedSingleton2)
        ensures
            *final(slot) == Some(instance),
            *old(slot) is Some ==> *final(slot) == *old(slot),
    {
        if slot.is_none() {
            let fresh = Singleton2 { value: String::from_str("Singleton Instance") };
            *slot = Some(Arc::new(RwLock::new(fresh, Ghost(AnyInstance))));
        }
        slot.as_ref().unwrap().clone()
    }

    /// A copy of the instance's value at the moment of the call.
    pub fn value_of(instance: &SharedSingleton2) -> (value: String) {
        let handle = instance.acquire_read();
        let value = handle.borrow().value.clone();
        handle.release_read();
        value
    }
}

} // verus!
