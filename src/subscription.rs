use vstd::prelude::*;

verus! {

/// How many subscriptions ask for each data kind.
#[derive(Debug, Clone, Copy, PartialEq, Eq, Structural)]
pub struct TypeCount {
    pub depth_count: usize,
    pub touch_line_count: usize,
    pub mini_touch_line_count: usize,
}

/// The clients subscribed to one instrument, by slot index, with counts per
/// transport and data kind.
pub struct Subscription {
    pub all_clients: Vec<usize>,
    pub tcp_clients: Vec<usize>,
    total_udp_count: usize,
    total_count: usize,
    udp_type_count: TypeCount,
    tcp_type_count: TypeCount,
}

} // verus!
