//! Builders for git invocations.

pub mod repo;
pub mod version;
