use crate::client_profile::{ClientProfile, Connection, Format};
use crate::constants::{TCP_LISTENER_TOKEN, WS_LISTENER_TOKEN};
use crate::error_utils::{interrupted, io_kind_of, would_block, IoKind};
use crate::packet::InputPacket;
use crate::reuse_array::ReuseArr;
use crate::settings::Mode;
use vstd::prelude::*;

verus! {

/// The two kinds of listener.
#[derive(Debug, Clone, Copy, PartialEq, Eq, Structural)]
pub enum Transport {
    Tcp,
    Ws,
}

/// What a readiness event is about.
#[derive(Debug, Clone, Copy, PartialEq, Eq, Structural)]
pub enum EventTarget {
    /// A listener has connections waiting.
    Listener(Transport),
    /// A client, by slot index, has data waiting.
    Client(usize),
}

/// What the accept loop does after one accept call.
#[derive(Debug, Clone, Copy, PartialEq, Eq, Structural)]
pub enum AcceptAction {
    /// A connection was accepted: set it up, then accept again.
    Handle,
    /// The call was interrupted: accept again.
    Retry,
    /// Nothing more is pending, or the listener failed: back to the poller.
    Stop,
}

/// What the read loop of a raw-TCP client does after one read call.
#[derive(Debug, Clone, Copy, PartialEq, Eq, Structural)]
pub enum ReadAction {
    /// Read again.
    ReadAgain,
    /// The socket is drained: send the reply and keep the connection.
    Reply,
    /// The peer closed or the socket failed: disconnect the client.
    Disconnect,
}

/// Routes a readiness key: the two listener keys name the listeners, any
/// other key is a client's slot index.
pub fn route_event(token: usize) -> (r: EventTarget)
    ensures
        token == TCP_LISTENER_TOKEN ==> r == EventTarget::Listener(Transport::Tcp),
        token == WS_LISTENER_TOKEN ==> r == EventTarget::Listener(Transport::Ws),
        token != TCP_LISTENER_TOKEN && token != WS_LISTENER_TOKEN ==> r == EventTarget::Client(
            token,
        ),
{
    if token == TCP_LISTENER_TOKEN {
        EventTarget::Listener(Transport::Tcp)
    } else if token == WS_LISTENER_TOKEN {
        EventTarget::Listener(Transport::Ws)
    } else {
        EventTarget::Client(token)
    }
}

/// Decides the accept loop's next step from one accept result: an accepted
/// connection or an interrupted call keeps the loop going, so a burst of
/// pending connections is consumed in one pass; only "nothing pending" or a
/// listener failure ends it.
pub fn accept_step<S>(outcome: &Result<S, std::io::Error>) -> (r: AcceptAction)
    ensures
        outcome is Ok ==> r == AcceptAction::Handle,
        outcome matches Err(e) ==> (r == AcceptAction::Retry <==> io_kind_of(*e)
            == IoKind::Interrupted),
        outcome matches Err(e) ==> (r == AcceptAction::Stop <==> io_kind_of(*e)
            != IoKind::Interrupted),
{
    match outcome {
        Ok(_) => AcceptAction::Handle,
        Err(e) => {
            if interrupted(e) {
                AcceptAction::Retry
            } else {
                AcceptAction::Stop
            }
        },
    }
}

/// The byte count after `n` more bytes, capped at the largest `usize`.
pub open spec fn added_bytes(total: usize, n: usize) -> usize {
    if total + n > usize::MAX {
        usize::MAX
    } else {
        (total + n) as usize
    }
}

/// One step of draining a raw-TCP client: takes the result of one read into
/// `packet`'s buffer, adds the bytes read to its count, and says what to do
/// next. Zero bytes means the peer closed; "would block" means the socket
/// is drained; an interrupted call is retried; any other error disconnects.
pub fn handle_request(packet: &mut InputPacket, outcome: &Result<usize, std::io::Error>) -> (r:
    ReadAction)
    ensures
        final(packet).0 == old(packet).0,
        match outcome {
            Ok(n) => if *n > 0 {
                r == ReadAction::ReadAgain && final(packet).1 == added_bytes(old(packet).1, *n)
            } else {
                r == ReadAction::Disconnect && final(packet).1 == old(packet).1
            },
            Err(e) => final(packet).1 == old(packet).1 && r == match io_kind_of(*e) {
                IoKind::Interrupted => ReadAction::ReadAgain,
                IoKind::WouldBlock => ReadAction::Reply,
                IoKind::Other => ReadAction::Disconnect,
            },
        },
{
    match outcome {
        Ok(size) => {
            if *size == 0 {
                ReadAction::Disconnect
            } else {
                packet.1 = packet.1.saturating_add(*size);
                ReadAction::ReadAgain
            }
        },
        Err(e) => {
            if interrupted(e) {
                ReadAction::ReadAgain
            } else if would_block(e) {
                ReadAction::Reply
            } else {
                ReadAction::Disconnect
            }
        },
    }
}

/// Handler for an initialization request; its protocol is not defined at
/// this layer.
pub fn handle_init() {
}

/// Handler for an instrument subscription; its protocol is not defined at
/// this layer.
pub fn handle_token_subscribe() {
}

/// Handler for an instrument unsubscription; its protocol is not defined at
/// this layer.
pub fn handle_token_unsubscribe() {
}

/// Handler for a switch to UDP delivery; its protocol is not defined at this
/// layer.
pub fn handle_udp_switch() {
}

/// Handler for a request that cannot be decoded; its protocol is not
/// defined at this layer.
pub fn handle_invalid_request() {
}

/// The client table's invariant: the registry is well formed and the two
/// listener keys stay taken, so no client is ever given one.
pub open spec fn table_wf(t: &ReuseArr<ClientProfile>) -> bool {
    &&& t.wf()
    &&& t.live_set().contains(TCP_LISTENER_TOKEN as int)
    &&& t.live_set().contains(WS_LISTENER_TOKEN as int)
}

/// A client table whose only live indices are the two listener keys.
pub fn new_client_table() -> (t: ReuseArr<ClientProfile>)
    ensures
        table_wf(&t),
        t.live_set() == set![TCP_LISTENER_TOKEN as int, WS_LISTENER_TOKEN as int],
{
    let mut t: ReuseArr<ClientProfile> = ReuseArr::new();
    let a = t.reserve();
    assert(a == 0);
    assert(t.next_index() == 1) by {
        if t.pool().len() > 0 {
            assert(t.pool()[0] == 1);
        }
    }
    let b = t.reserve();
    assert(b == 1);
    assert(t.live_set() =~= set![0int, 1int]);
    t
}

/// Completes the setup of the connection accepted into the reserved index
/// `idx`: stores a fresh profile for it, or, when the WebSocket handshake
/// gave no connection, releases the index.
pub fn handle_connection(clients: &mut ReuseArr<ClientProfile>, idx: usize, conn: Option<
    Connection,
>)
    requires
        table_wf(old(clients)),
        old(clients).live_set().contains(idx as int),
        idx != TCP_LISTENER_TOKEN,
        idx != WS_LISTENER_TOKEN,
    ensures
        table_wf(final(clients)),
        forall|j: int| j != idx ==> final(clients).occupant(j) == old(clients).occupant(j),
        conn is None ==> final(clients).live_set() == old(clients).live_set().remove(idx as int)
            && final(clients).occupant(idx as int) is None,
        conn is Some ==> final(clients).live_set() == old(clients).live_set(),
        conn matches Some(c) ==> (final(clients).occupant(idx as int) matches Some(p) && p.conn
            == c && p.subscriptions@.len() == 0 && p.mode == Mode::Tcp && p.format
            == Format::Native && !p.initialized && p.work@.pending.len() == 0 && !p.work@.busy),
{
    match conn {
        Some(c) => {
            clients.insert_at(ClientProfile::create_empty(c), idx);
        },
        None => {
            let _ = clients.remove(idx);
        },
    }
}

/// Disconnects the client at `idx`: releases its index back to the pool and
/// hands back its connection, if it had a profile, for the caller to close.
/// The listener keys are never released.
pub fn handle_disconnection(clients: &mut ReuseArr<ClientProfile>, idx: usize) -> (r: Option<
    Connection,
>)
    requires
        table_wf(old(clients)),
    ensures
        table_wf(final(clients)),
        idx == TCP_LISTENER_TOKEN || idx == WS_LISTENER_TOKEN ==> r is None && *final(clients)
            == *old(clients),
        idx != TCP_LISTENER_TOKEN && idx != WS_LISTENER_TOKEN ==> {
            &&& final(clients).live_set() == old(clients).live_set().remove(idx as int)
            &&& final(clients).occupant(idx as int) is None
            &&& forall|j: int| j != idx ==> final(clients).occupant(j) == old(clients).occupant(j)
            &&& old(clients).live_set().contains(idx as int) ==> final(clients).pool() == old(
                clients,
            ).pool().push(idx)
            &&& r == match old(clients).occupant(idx as int) {
                Some(p) => Some(p.conn),
                None => None,
            }
        },
{
    if idx == TCP_LISTENER_TOKEN || idx == WS_LISTENER_TOKEN {
        return None;
    }
    match clients.remove(idx) {
        Some(profile) => Some(profile.conn),
        None => None,
    }
}

} // verus!
