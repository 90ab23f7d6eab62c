//! A small library that answers one question: is a named project known and
//! currently enabled?
//!
//! The configuration is a snapshot of a name-to-flag table together with the
//! address the service binds to; [`handler`] classifies a requested name
//! against such a snapshot and derives the wire status for the answer.

pub mod config;
pub mod handler;
pub mod laws;
