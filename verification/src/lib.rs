//! Two small process fixtures for exercising tools that attach to, instrument
//! or monitor running programs: a loop gated by a single decision point, and a
//! one-shot HTTP responder whose end is a race between its first served
//! request and a startup timeout.
//!
//! This crate holds the rules of both fixtures as plain functions on plain
//! values. The programs around it perform the actions these functions decide
//! on: printing, sleeping, listening and ending the process.

pub mod gate;
pub mod message;
pub mod response;
pub mod lifecycle;
pub mod responder;
