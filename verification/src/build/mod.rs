//! Fetchers and the tools that fetch with them.

pub mod curl;
pub mod fetchurl;
pub mod pkg_config;
