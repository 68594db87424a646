//! Recipes of libraries.

pub mod libiconv;
pub mod zlib;
