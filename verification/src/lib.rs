//! Package-build recipes for a derivation-based build system.
//!
//! A recipe describes one build step: its sources, the scripts of its phases,
//! and the roles of its dependencies. The crate composes such descriptions and
//! bootstraps the standard environment that every package step builds against.
//! It performs no I/O: every function here turns plain values into plain values.

pub mod system;
pub mod hash;
pub mod builtins;
pub mod expr;
pub mod vars;
pub mod text;
pub mod drv;
pub mod stdenv;
pub mod build;
pub mod fetchers;
pub mod hello;
pub mod perl;
pub mod development;
pub mod misc;
pub mod top_level;
