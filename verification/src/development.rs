//! Recipes of interpreters and libraries.

pub mod interpreters;
pub mod libraries;
