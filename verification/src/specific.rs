//! What is particular to the language.

pub mod resource;
