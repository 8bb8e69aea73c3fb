//! Run-lifecycle logic for triggering a continuous-delivery pipeline run and
//! watching it until it reaches a terminal state.
//!
//! The crate holds the rules only: how a request body is built from the
//! caller's template parameters, how the endpoints and the authorization
//! header are spelled, how a response is interpreted, and the state machine
//! that sequences trigger, report and poll. Network traffic, the clock and
//! the process environment belong to the program that drives it.

pub mod client;
pub mod config;
pub mod json;
pub mod messages;
pub mod orchestrator;
pub mod text;
pub mod request;
