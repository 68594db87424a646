//! Fetchers that run in a step of their own.

pub mod fetchurl;
