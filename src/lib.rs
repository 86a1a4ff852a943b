//! Control of a media-player daemon over the session bus, and supervision of the
//! daemon's process.
//!
//! The library holds the decisions and the state; the caller performs the bus calls,
//! signals, pauses and process launches that they ask for and reports what it saw:
//!
//! - [`controller`]: the cached playback snapshot, the checks and conversions around
//!   each player command, the snapshot feed, and connecting with retries.
//! - [`supervisor`]: the tracked daemon process, start-or-adopt and stop as step
//!   functions, health, and the wait for bus registration.
//! - [`termination`]: terminating one process, gracefully and then forcefully.
//! - [`metadata`]: reading a track out of the player's metadata.
//! - [`process`]: liveness from the process table, process listings, and locating and
//!   launching the daemon's executable.
//! - [`bus`]: matching service names on the bus.
//! - [`feed`]: the bounded snapshot feed and the latest-value status slot.
use vstd::prelude::*;

pub mod bus;
pub mod controller;
pub mod error;
pub mod feed;
pub mod metadata;
pub mod process;
pub mod supervisor;
pub mod termination;
pub mod types;

verus! {

} // verus!
