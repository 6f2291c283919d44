//! Classic design patterns with machine-checked contracts.
//!
//! The centre of the crate is [`object_pool`]: a bounded pool of reusable
//! connections, given once as a plain state machine with exact contracts and
//! once behind a lock for use from several threads.  The remaining modules are
//! small pattern studies.  Where a pattern is about *what happens in which
//! order*, its operations return a record of what happened instead of printing
//! it, so that the order itself can be stated and proved.

pub mod adapter;
pub mod behavioral;
pub mod builder_default;
pub mod creational;
pub mod deref_coercion;
pub mod interior_mutability;
pub mod new_type;
pub mod object_pool;
pub mod observer;
pub mod panic_result;
pub mod phantom_data;
pub mod responsibility_chain;
pub mod singleton;
pub mod specific;
pub mod strategy;
pub mod structural;
