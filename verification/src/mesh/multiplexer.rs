//! Mesh priority multiplexer: priority-tagged packet scheduling with
//! dynamic backpressure.
//!
//! - P0 (critical): session termination, kill directives; never suspended;
//! - P1 (standard): chat messages, state sync;
//! - P2 (bulk): file chunks, media transfers; suspended when RTT > 200 ms.

use std::time::Duration;
use vstd::prelude::*;

verus! {

/// Packet priority level for mesh multiplexing, ordered from the most to the
/// least urgent (`Critical < Standard < Bulk`). P0 packets are never queued
/// behind P2 packets, so the control plane is never starved.
#[derive(Debug, Clone, Copy, PartialEq, Eq, PartialOrd, Ord, Hash)]
pub enum MeshPriority {
    /// Critical control signals: never suspended, never queued behind bulk.
    Critical,
    /// Standard messaging: normal priority.
    Standard,
    /// Bulk data transfer: suspended under backpressure.
    Bulk,
}

/// Backpressure state for the mesh multiplexer.
#[derive(Debug, Clone, Copy, PartialEq, Eq, Structural)]
pub enum BackpressureState {
    /// Normal operation: all priorities transmit.
    Normal,
    /// P2 suspended: RTT exceeded the 200 ms threshold. P2 resumes when RTT
    /// stays below 100 ms for 5 s.
    BulkSuspended {
        /// When backpressure was engaged.
        since_ms: u64,
    },
}

/// Configuration for the mesh multiplexer.
pub struct MultiplexerConfig {
    /// RTT threshold to engage backpressure (default 200 ms).
    pub backpressure_engage_rtt: Duration,
    /// RTT threshold to disengage backpressure (default 100 ms).
    pub backpressure_release_rtt: Duration,
    /// Sustained low-RTT duration before releasing backpressure (default 5 s).
    pub backpressure_release_sustain: Duration,
}

/// The duration that `Duration::from_millis(millis)` returns.
pub uninterp spec fn duration_of_millis(millis: u64) -> Duration;

/// The duration that `Duration::from_secs(secs)` returns.
pub uninterp spec fn duration_of_secs(secs: u64) -> Duration;

/// `std::time::Duration::from_millis`; the contract names its result, which
/// depends on the argument alone.
#[verifier::external_body]
fn duration_from_millis(ms: u64) -> (d: Duration)
    ensures
        d == duration_of_millis(ms),
{
    Duration::from_millis(ms)
}

/// `std::time::Duration::from_secs`; the contract names its result, which
/// depends on the argument alone.
#[verifier::external_body]
fn duration_from_secs(s: u64) -> (d: Duration)
    ensures
        d == duration_of_secs(s),
{
    Duration::from_secs(s)
}

impl Default for MultiplexerConfig {
    /// Engage at 200 ms, release below 100 ms sustained for 5 s.
    fn default() -> (c: Self)
        ensures
            c.backpressure_engage_rtt == duration_of_millis(200),
            c.backpressure_release_rtt == duration_of_millis(100),
            c.backpressure_release_sustain == duration_of_secs(5),
    {
        MultiplexerConfig {
            backpressure_engage_rtt: duration_from_millis(200),
            backpressure_release_rtt: duration_from_millis(100),
            backpressure_release_sustain: duration_from_secs(5),
        }
    }
}

} // verus!
