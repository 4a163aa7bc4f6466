//! Capability tokens and the rights they carry.

pub mod token;
