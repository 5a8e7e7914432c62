//! Verified core of a command-line client for a live-streaming platform.
//!
//! The crate maps decoded JSON payloads from the platform's REST API into a
//! uniform listable-entity model, classifies HTTP responses into typed
//! failures, renders an aligned Unicode-aware choice table, and validates
//! interactive input against it.  Transport, credential sourcing and process
//! spawning are left to the surrounding program.

pub mod digits;
pub mod error;
pub mod flow;
pub mod gateway;
pub mod json;
pub mod normalize;
pub mod select;
pub mod text;
pub mod types;
