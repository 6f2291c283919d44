//! Patterns about behaviour: who does what, when, and in which order.

pub mod command;
pub mod iterator;
pub mod memento;
pub mod state;
pub mod template_method;
pub mod visitor;
