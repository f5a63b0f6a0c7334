use vstd::prelude::*;

verus! {

/// How clients receive market data.
#[derive(Debug, Clone, Copy, PartialEq, Eq, Structural)]
pub enum Mode {
    Tcp,
    Udp,
    Kafka,
}

impl Default for Mode {
    fn default() -> (r: Mode)
        ensures
            r == Mode::Tcp,
    {
        Mode::Tcp
    }
}

/// The process configuration, read once at startup and never changed.
#[derive(Clone)]
pub struct Settings {
    pub distributor_address: Option<String>,
    pub kafka_address: Option<String>,
    pub kafka_topic: Option<String>,
    pub kafka_partition: Vec<usize>,
    pub tcp_address: String,
    pub ws_address: String,
    pub mode: Mode,
    pub interface_ip: String,
    pub udp_multicast_address: String,
}

} // verus!
