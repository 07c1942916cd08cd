//! A location-aware service core: an immutable catalog of named geographic
//! features with exact and range lookup, a per-session route summary
//! aggregator, and a shared note hub with append-and-replay semantics
//! keyed by location.

pub mod catalog;
pub mod geo;
pub mod hub;
pub mod route;
pub mod service;
