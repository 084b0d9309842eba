//! Overwrites targets with a stream of generated bytes until they refuse more.
//!
//! The verified core: the reusable byte source, the resolution of run settings,
//! and the per-target state machine that drives a write-until-failure loop.

pub mod buffer;
pub mod config;
pub mod worker;
pub mod report;
