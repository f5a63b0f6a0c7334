use crate::dispatch::WorkLatch;
use crate::settings::Mode;
use mio::net::TcpStream;
use tungstenite::WebSocket;
use vstd::prelude::*;

verus! {

#[verifier::external_type_specification]
#[verifier::external_body]
pub struct ExTcpStream(TcpStream);

#[verifier::external_type_specification]
#[verifier::external_body]
#[verifier::reject_recursive_types(S)]
pub struct ExWebSocket<S>(WebSocket<S>);

/// A set of market-data kinds, one bit each.
#[derive(Debug, Clone, Copy, PartialEq, Eq, Structural)]
pub struct TypeFlags {
    bits: u8,
}

impl TypeFlags {
    pub closed spec fn spec_bits(&self) -> u8 {
        self.bits
    }

    /// Order-book depth.
    pub fn depth() -> (r: Self)
        ensures
            r.spec_bits() == 1,
    {
        TypeFlags { bits: 1 }
    }

    /// Touch-line quotes.
    pub fn touch_line() -> (r: Self)
        ensures
            r.spec_bits() == 2,
    {
        TypeFlags { bits: 2 }
    }

    /// Reduced touch-line quotes.
    pub fn mini_touch_line() -> (r: Self)
        ensures
            r.spec_bits() == 4,
    {
        TypeFlags { bits: 4 }
    }

    /// Every kind.
    pub fn all() -> (r: Self)
        ensures
            r.spec_bits() == 7,
    {
        TypeFlags { bits: 7 }
    }

    /// The bits of the set.
    pub fn bits(&self) -> (r: u8)
        ensures
            r == self.spec_bits(),
    {
        self.bits
    }

    /// The kinds in either set.
    pub fn union(self, other: Self) -> (r: Self)
        ensures
            r.spec_bits() == self.spec_bits() | other.spec_bits(),
    {
        TypeFlags { bits: self.bits | other.bits }
    }

    /// Whether every kind of `other` is in the set.
    pub fn contains(&self, other: Self) -> (r: bool)
        ensures
            r == (self.spec_bits() & other.spec_bits() == other.spec_bits()),
    {
        self.bits & other.bits == other.bits
    }
}

/// One instrument a client follows and the kinds it wants of it.
#[derive(Debug, Clone, Copy)]
pub struct ClientSubscription {
    pub token: usize,
    pub dtype: TypeFlags,
}

/// How updates are encoded for a client.
#[derive(Debug, Clone, Copy, PartialEq, Eq, Structural)]
pub enum Format {
    Json,
    Native,
    JsonArray,
}

/// A client's transport: a WebSocket over TCP, or raw TCP.
pub enum Connection {
    Ws(WebSocket<TcpStream>),
    Tcp(TcpStream),
}

/// Everything the server keeps about one live connection.
pub struct ClientProfile {
    pub conn: Connection,
    pub subscriptions: Vec<ClientSubscription>,
    pub mode: Mode,
    pub format: Format,
    pub initialized: bool,
    pub work: WorkLatch,
}

impl ClientProfile {
    /// A fresh profile for `conn`: no subscriptions, the default mode, the
    /// native format, not initialized, and an idle work latch.
    pub fn create_empty(conn: Connection) -> (r: Self)
        ensures
            r.conn == conn,
            r.subscriptions@.len() == 0,
            r.mode == Mode::Tcp,
            r.format == Format::Native,
            !r.initialized,
            r.work@.pending.len() == 0,
            !r.work@.busy,
    {
        ClientProfile {
            conn,
            subscriptions: Vec::new(),
            mode: Mode::default(),
            format: Format::Native,
            initialized: false,
            work: WorkLatch::new(),
        }
    }
}

} // verus!
