use vstd::prelude::*;

verus! {

/// Initial size of each splice direction's buffer, in bytes.
pub const MIN_BUFFER_SIZE: usize = 4 * 1024;

/// Size past which a splice buffer is not doubled any more, in bytes.
pub const MAX_BUFFER_SIZE: usize = 2 * 1024 * 1024;

/// How long a public connection may wait for a gateway, in seconds.
pub const QUEUE_TIMEOUT_SECS: u64 = 60;

/// How long a handshake byte may take to arrive, in seconds.
pub const HANDSHAKE_TIMEOUT_SECS: u64 = 5;

/// Longest gap allowed between two heartbeat bytes, in seconds.
pub const HEARTBEAT_TIMEOUT_SECS: u64 = 10;

/// Interval between two heartbeat bytes, in seconds.
pub const HEARTBEAT_INTERVAL_SECS: u64 = HEARTBEAT_TIMEOUT_SECS / 2;

/// Lower bound of the retry intervals, in seconds.
pub const BACKOFF_MIN_SECS: u8 = 1;

/// Upper bound of the retry intervals, in seconds.
pub const BACKOFF_MAX_SECS: u8 = 64;

} // verus!
