//! A recurring remote-call poller, written as a verified state machine.
//!
//! The host drives it: it reports timer firings, call completions and stop
//! requests, and performs the actions that the poller hands back (issue a
//! request, clear a timer). Parameters are encoded at most once per poller.

pub mod model;
pub mod params;
pub mod poller;

pub use model::{Event, Phase, PollerView};
pub use params::{ParamsOnce, ParamsState};
pub use poller::{IcpPollerBuilder, PollError, TickAction};
