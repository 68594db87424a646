//! Recipes of interpreters.

pub mod perl;
