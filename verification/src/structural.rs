//! Patterns about structure: how values are put together.

pub mod bridge;
pub mod decorator;
pub mod flyweight;
pub mod proxy;
