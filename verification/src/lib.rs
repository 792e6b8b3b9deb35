//! Consumer-driven contract testing core: normalising annotated JSON bodies
//! into clean bodies plus path-indexed matching rules and generators, and the
//! bookkeeping of mock-server sessions.

pub mod contract;
pub mod json;
pub mod laws;
pub mod normalizer;
pub mod outside;
pub mod path;
pub mod session;
