//! Verified core of a stdio-to-HTTP command bridge.
//!
//! The crate models the shared state of a bridge that turns tool calls
//! arriving on a stdio RPC surface into command envelopes that an HTTP
//! long-poll peer dequeues, executes and answers.  All queueing, reply
//! routing and wake bookkeeping is verified here; the asynchronous plumbing
//! (HTTP server, stdio transport, timers) lives outside the library and
//! drives these functions.
#![allow(unused_imports)]

use vstd::prelude::*;

pub mod dispatch;
pub mod errors;
pub mod ext;
pub mod ids;
pub mod model;
pub mod remote;
pub mod scripts;
pub mod sentry;
pub mod state;
pub mod text;

verus! {

/// Fixed loopback port that the HTTP side of the bridge binds.
pub const STUDIO_PLUGIN_PORT: u16 = 44755;

} // verus!
