use vstd::prelude::*;

verus! {

/// Size of the buffer that one read call fills.
pub const INPUT_BUF_SIZE: usize = 1024;

/// Size of the buffer that one write call drains.
pub const OUTPUT_BUF_SIZE: usize = 1024;

/// Readiness key of the raw-TCP listener.
pub const TCP_LISTENER_TOKEN: usize = 0;

/// Readiness key of the WebSocket listener.
pub const WS_LISTENER_TOKEN: usize = 1;

/// Number of readiness events fetched by one poll.
pub const EVENT_CAPACITY: usize = 128;

} // verus!
