//! A supervisor for one local backend server process.
//!
//! The crate holds the decisions of the supervisor and none of its effects:
//! every entry point takes plain values (an event, a probe observation, a
//! health check) and answers with the next state and the action the host has
//! to perform. Spawning, probing, sleeping and killing are left to the host.
//!
//! - [`supervisor`]: the state machine that owns the process handle;
//!   [`model`] is its transition function and [`laws`] what is proved of it.
//! - [`probe`]: the wait for readiness; [`http`]: the bytes of one probe.
//! - [`health`]: the watch over a running backend.
//! - [`backoff`]: the delay between restarts.
//! - [`shutdown`]: the end of the child, by asking and then by force.
//! - [`process`], [`event`], [`error`], [`config`]: the values they exchange.

pub mod backoff;
pub mod config;
pub mod error;
pub mod event;
pub mod health;
pub mod http;
pub mod laws;
pub mod model;
pub mod probe;
pub mod process;
pub mod shutdown;
pub mod supervisor;
