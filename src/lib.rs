//! Checking that deployed bytecode was built from a given source commit: the
//! digest of an artifact, the cache of build digests, and the decisions of a
//! build run between its outside steps.

pub mod cache;
pub mod digest;
pub mod nesting;
pub mod params;
pub mod pipeline;
pub mod run;
