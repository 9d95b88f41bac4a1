//! Verified core of an in-process developer-tools instrumentation server.
//!
//! The crate models the coupling layer between a host application's
//! structured-event instrumentation stream and subscribed remote clients:
//! the field-extraction visitors that interpret trace events, the bounded
//! per-watcher outbound queues, the watcher registry with its eviction
//! policy, the aggregator state machine that multiplexes events and
//! subscription commands, the health reporter, and the request/response
//! service surface (config, asset, metrics).
//!
//! Transport framing, CORS, and the async runtime are deliberately outside
//! this crate: they perform I/O and carry no decision logic. Every function
//! here works on plain values and is verified against its contract.

pub mod aggregator;
pub mod events;
pub mod fields;
pub mod health;
pub mod instrument;
pub mod queue;
pub mod registry;
pub mod server;
pub mod tauri;
pub mod visitor;

use vstd::prelude::*;

verus! {

/// Default capacity of the outbound queue handed to each subscribed client.
/// When the queue is full the client has fallen this many updates behind
/// and is deemed unhealthy; the next broadcast evicts it.
pub const DEFAULT_CLIENT_BUFFER_CAPACITY: usize = 4096;

/// The error kinds surfaced on the wire. The transport layer maps each to
/// its RPC status code.
#[derive(Clone, Copy, Debug, PartialEq, Eq, Structural)]
pub enum ErrorKind {
    /// The request named something that does not exist or cannot be parsed.
    InvalidArgument,
    /// The aggregation task is not running or failed mid-stream.
    Internal,
    /// A health query named an unknown service.
    NotFound,
}

} // verus!
