//! The package set.

pub mod all_packages;
