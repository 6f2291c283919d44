//! Patterns about creation: who makes a value, and how many of it there are.

pub mod config;
pub mod factory_method;
pub mod prototype;
pub mod singleton2;
