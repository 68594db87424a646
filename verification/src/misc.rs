//! Recipes that fit nowhere else.

pub mod hello;
