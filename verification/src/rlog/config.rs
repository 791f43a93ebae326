use vstd::prelude::*;

verus! {

/// Number of secondary nodes the master replicates to.
pub const SECONDARY_COUNT: usize = 2;

/// Timeout, in seconds, of a replication request from the master to a secondary.
pub const SECONDARY_REQUEST_TIMEOUT: u64 = 15;

/// Interval, in seconds, the master waits before retrying a dead secondary.
pub const RETRY_INTERVAL: u64 = 5;

/// Interval, in seconds, between two heartbeat rounds.
pub const HEARTBEAT_CHECK_INTERVAL: u64 = 5;

/// The delays, in seconds, among which a secondary picks before storing a message.
pub const SECONDARY_SLEEP_DURATIONS: [u64; 3] = [1, 5, 10];

} // verus!
