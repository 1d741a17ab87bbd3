//! Connections, and the list of them.

use vstd::prelude::*;

use crate::error::LkError;
use crate::msg::PAGE_SIZE;
use crate::vsock::ports::VsockAddr;
use crate::wire::zeros;

verus! {

/// Bytes in the receive buffer of a connection. It is twice as large as the buffer of the vsock
/// connection so that messages can wait in it while TIPC does not take any.
pub const RX_BUFFER_LEN: usize = 8192;

/// All events of a handle.
pub const ALL_EVENTS: u32 = 0xffff_ffff;

/// How far a connection has come.
#[derive(Clone, Copy, Debug, PartialEq, Eq, Structural)]
pub enum VsockConnectionState {
    Invalid,
    VsockOnly,
    TipcOnly,
    TipcConnecting,
    TipcSendBlocked,
    Active,
    TipcClosed,
    Closed,
}

/// The reference of a connection to its TIPC channel.
#[derive(Clone, Copy, Debug, PartialEq, Eq, Structural)]
pub struct HandleRef {
    /// Address of the reference, which does not change while the connection is open.
    pub addr: u64,
    /// What events of the channel are found by: the address, or zero if the channel has none.
    pub cookie: u64,
    /// The events that are waited for.
    pub emask: u32,
    pub id: u32,
}

/// A connection between a vsock peer and a TIPC service.
#[derive(Debug)]
pub struct VsockConnection {
    pub peer: VsockAddr,
    pub local_port: u32,
    pub state: VsockConnectionState,
    pub tipc_port_name: Option<Vec<u8>>,
    pub href: HandleRef,
    pub tx_count: u64,
    pub tx_since_rx: u64,
    pub rx_count: u64,
    pub rx_since_tx: u64,
    /// Holds what was received while TIPC does not take it.
    pub rx_buffer: Vec<u8>,
    /// How many bytes of the buffer have to be sent.
    pub rx_pending: usize,
}

/// The abstract value of a [`VsockConnection`].
#[verifier::ext_equal]
pub struct ConnectionView {
    pub peer: VsockAddr,
    pub local_port: u32,
    pub state: VsockConnectionState,
    pub tipc_port_name: Option<Seq<u8>>,
    pub href: HandleRef,
    pub tx_count: u64,
    pub tx_since_rx: u64,
    pub rx_count: u64,
    pub rx_since_tx: u64,
    pub rx_buffer: Seq<u8>,
    pub rx_pending: usize,
}

impl View for VsockConnection {
    type V = ConnectionView;

    open spec fn view(&self) -> ConnectionView {
        ConnectionView {
            peer: self.peer,
            local_port: self.local_port,
            state: self.state,
            tipc_port_name: match self.tipc_port_name {
                Some(name) => Some(name@),
                None => None,
            },
            href: self.href,
            tx_count: self.tx_count,
            tx_since_rx: self.tx_since_rx,
            rx_count: self.rx_count,
            rx_since_tx: self.rx_since_tx,
            rx_buffer: self.rx_buffer@,
            rx_pending: self.rx_pending,
        }
    }
}

impl ConnectionView {
    pub open spec fn wf(self) -> bool {
        &&& self.rx_buffer.len() == RX_BUFFER_LEN
        &&& self.rx_pending <= RX_BUFFER_LEN
    }

    /// A connection from `peer` to `local_port` without a TIPC channel. `href_addr` is the address
    /// of its handle reference.
    pub open spec fn fresh(peer: VsockAddr, local_port: u32, href_addr: u64) -> ConnectionView {
        ConnectionView {
            peer,
            local_port,
            state: VsockConnectionState::VsockOnly,
            tipc_port_name: None,
            href: HandleRef { addr: href_addr, cookie: 0, emask: 0, id: 0 },
            tx_count: 0,
            tx_since_rx: 0,
            rx_count: 0,
            rx_since_tx: 0,
            rx_buffer: zeros(RX_BUFFER_LEN as nat),
            rx_pending: 0,
        }
    }

    /// The bytes that have to be sent to TIPC.
    pub open spec fn pending(self) -> Seq<u8> {
        self.rx_buffer.take(self.rx_pending as int)
    }

    /// The connection with a handle reference that waits for all events and can be found by them.
    pub open spec fn with_cookie(self) -> ConnectionView {
        ConnectionView {
            href: HandleRef {
                cookie: self.href.addr,
                emask: ALL_EVENTS,
                id: self.peer.port,
                ..self.href
            },
            ..self
        }
    }

    /// The connection while it waits for its TIPC channel.
    pub open spec fn connecting(self) -> ConnectionView {
        ConnectionView {
            state: VsockConnectionState::TipcConnecting,
            ..self.with_cookie()
        }
    }

    /// What sending the pending bytes to TIPC comes to. A channel without room is not an error: the
    /// bytes stay until there is room. The whole message has to be taken at once.
    pub open spec fn try_send(self, ret: i32) -> Result<ConnectionView, LkError> {
        if ret == LkError::NotEnoughBuffer.code_spec() {
            Ok(ConnectionView { state: VsockConnectionState::TipcSendBlocked, ..self })
        } else if ret < 0 {
            Err(LkError::of_code(ret))
        } else if ret != self.rx_pending {
            Err(LkError::BadLen)
        } else {
            Ok(
                ConnectionView {
                    state: VsockConnectionState::Active,
                    tx_since_rx: 0,
                    rx_pending: 0,
                    ..self
                },
            )
        }
    }

    /// Whether the connection has a TIPC channel.
    pub open spec fn has_channel(self) -> bool {
        ||| self.state == VsockConnectionState::Active
        ||| self.state == VsockConnectionState::TipcConnecting
        ||| self.state == VsockConnectionState::TipcSendBlocked
        ||| self.state == VsockConnectionState::TipcOnly
    }

    /// The connection after it was closed for `action`: its channel is closed, and if it is to be
    /// removed it does not wait for the peer.
    pub open spec fn closed(self, action: ConnectionStateAction) -> ConnectionView {
        let after_tipc = if self.has_channel() {
            ConnectionView {
                state: VsockConnectionState::TipcClosed,
                href: HandleRef { cookie: 0, ..self.href },
                ..self
            }
        } else if self.state == VsockConnectionState::VsockOnly {
            ConnectionView { state: VsockConnectionState::TipcClosed, ..self }
        } else {
            self
        };
        if action == ConnectionStateAction::Remove && after_tipc.state
            == VsockConnectionState::TipcClosed {
            ConnectionView { state: VsockConnectionState::Closed, ..after_tipc }
        } else {
            after_tipc
        }
    }

    /// Whether the connection can be taken off the list.
    pub open spec fn is_gone(self) -> bool {
        self.state == VsockConnectionState::Closed && self.href.cookie == 0
    }
}

/// What is to be done with a connection after an event.
#[derive(Clone, Copy, Debug, PartialEq, Eq, Structural)]
pub enum ConnectionStateAction {
    /// Nothing: the connection stays open.
    Keep,
    /// TIPC closed the connection: close it, but keep it until the peer acknowledges that.
    Close,
    /// Close the connection and remove it, without waiting for the peer.
    Remove,
}

/// What closing a connection comes to.
#[derive(Clone, Copy, Debug, PartialEq, Eq, Structural)]
pub struct Closed {
    /// Whether the connection has to be taken off the list.
    pub remove: bool,
    /// Whether its TIPC channel has to be detached and closed.
    pub close_channel: bool,
}

impl VsockConnection {
    /// A connection without a TIPC channel.
    pub fn new(peer: VsockAddr, local_port: u32, href_addr: u64) -> (c: VsockConnection)
        ensures
            c@ == ConnectionView::fresh(peer, local_port, href_addr),
            c@.wf(),
    {
        let mut rx_buffer: Vec<u8> = Vec::new();
        rx_buffer.resize(2 * PAGE_SIZE, 0);
        let c = VsockConnection {
            peer,
            local_port,
            state: VsockConnectionState::VsockOnly,
            tipc_port_name: None,
            href: HandleRef { addr: href_addr, cookie: 0, emask: 0, id: 0 },
            tx_count: 0,
            tx_since_rx: 0,
            rx_count: 0,
            rx_since_tx: 0,
            rx_buffer,
            rx_pending: 0,
        };
        assert(c@ =~= ConnectionView::fresh(peer, local_port, href_addr));
        c
    }

    /// The bytes that have to be sent to TIPC.
    pub fn pending_data(&self) -> (data: &[u8])
        requires
            self@.wf(),
        ensures
            data@ == self@.pending(),
    {
        let data = vstd::slice::slice_subrange(self.rx_buffer.as_slice(), 0, self.rx_pending);
        assert(data@ =~= self@.pending());
        data
    }

    /// Takes the return value of sending the pending bytes to TIPC.
    pub fn tipc_try_send(&mut self, ret: i32) -> (result: Result<(), LkError>)
        requires
            old(self)@.wf(),
        ensures
            match old(self)@.try_send(ret) {
                Ok(after) => result == Ok::<(), LkError>(()) && final(self)@ == after,
                Err(e) => result == Err::<(), LkError>(e) && final(self)@ == old(self)@,
            },
            final(self)@.wf(),
    {
        if ret == LkError::NotEnoughBuffer.code() {
            self.state = VsockConnectionState::TipcSendBlocked;
            return Ok(());
        }
        if ret < 0 {
            return LkError::from_lk(ret);
        }
        if ret as usize != self.rx_pending {
            return Err(LkError::BadLen);
        }
        self.state = VsockConnectionState::Active;
        self.tx_since_rx = 0;
        self.rx_pending = 0;
        Ok(())
    }

    /// Makes the handle reference wait for all events, and lets the connection be found by them.
    pub fn set_cookie(&mut self)
        ensures
            final(self)@ == old(self)@.with_cookie(),
    {
        self.href.cookie = self.href.addr;
        self.href.emask = ALL_EVENTS;
        self.href.id = self.peer.port;
    }

    /// Prepares a connection whose service is known for its TIPC channel.
    pub fn vsock_connect_tipc(&mut self)
        requires
            old(self)@.tipc_port_name is Some,
        ensures
            final(self)@ == old(self)@.connecting(),
    {
        self.state = VsockConnectionState::TipcConnecting;
        self.set_cookie();
    }
}

/// Closes a connection.
pub fn vsock_connection_close(c: &mut VsockConnection, action: ConnectionStateAction) -> (closed:
    Closed)
    requires
        old(c)@.wf(),
    ensures
        final(c)@ == old(c)@.closed(action),
        closed.remove == final(c)@.is_gone(),
        closed.close_channel == old(c)@.has_channel(),
        final(c)@.wf(),
{
    let mut close_channel: bool = false;
    if c.state == VsockConnectionState::VsockOnly {
        c.state = VsockConnectionState::TipcClosed;
    }
    if c.state == VsockConnectionState::Active || c.state == VsockConnectionState::TipcConnecting
        || c.state == VsockConnectionState::TipcSendBlocked || c.state
        == VsockConnectionState::TipcOnly {
        close_channel = true;
        c.href.cookie = 0;
        c.state = VsockConnectionState::TipcClosed;
    }
    if action == ConnectionStateAction::Remove && c.state == VsockConnectionState::TipcClosed {
        c.state = VsockConnectionState::Closed;
    }
    let remove: bool = c.state == VsockConnectionState::Closed && c.href.cookie == 0;
    Closed { remove, close_channel }
}

/// The abstract value of a list of connections.
pub open spec fn views(conns: Seq<VsockConnection>) -> Seq<ConnectionView> {
    Seq::new(conns.len(), |i: int| conns[i]@)
}

/// Whether all connections are valid.
pub open spec fn all_wf(conns: Seq<ConnectionView>) -> bool {
    forall|i: int| 0 <= i < conns.len() ==> #[trigger] conns[i].wf()
}

/// Whether a connection is the one between `peer` and `local_port`.
pub open spec fn is_between(c: ConnectionView, peer: VsockAddr, local_port: u32) -> bool {
    c.peer == peer && c.local_port == local_port
}

/// The first connection at or after `i` that is between `peer` and `local_port`.
pub open spec fn find_peer(
    conns: Seq<ConnectionView>,
    peer: VsockAddr,
    local_port: u32,
    i: nat,
) -> Option<nat>
    decreases conns.len() - i,
{
    if i >= conns.len() {
        None
    } else if is_between(conns[i as int], peer, local_port) {
        Some(i)
    } else {
        find_peer(conns, peer, local_port, i + 1)
    }
}

/// The first connection at or after `i` whose handle reference has address `cookie`.
pub open spec fn find_cookie(conns: Seq<ConnectionView>, cookie: u64, i: nat) -> Option<nat>
    decreases conns.len() - i,
{
    if i >= conns.len() {
        None
    } else if conns[i as int].href.addr == cookie {
        Some(i)
    } else {
        find_cookie(conns, cookie, i + 1)
    }
}

pub proof fn lemma_find_peer(
    conns: Seq<ConnectionView>,
    peer: VsockAddr,
    local_port: u32,
    i: nat,
)
    ensures
        match find_peer(conns, peer, local_port, i) {
            Some(k) => i <= k < conns.len() && is_between(conns[k as int], peer, local_port),
            None => forall|j: int|
                i <= j < conns.len() ==> !is_between(#[trigger] conns[j], peer, local_port),
        },
    decreases conns.len() - i,
{
    if i < conns.len() && !is_between(conns[i as int], peer, local_port) {
        lemma_find_peer(conns, peer, local_port, i + 1);
    }
}

pub proof fn lemma_find_cookie(conns: Seq<ConnectionView>, cookie: u64, i: nat)
    ensures
        match find_cookie(conns, cookie, i) {
            Some(k) => i <= k < conns.len() && conns[k as int].href.addr == cookie,
            None => forall|j: int|
                i <= j < conns.len() ==> (#[trigger] conns[j]).href.addr != cookie,
        },
    decreases conns.len() - i,
{
    if i < conns.len() && conns[i as int].href.addr != cookie {
        lemma_find_cookie(conns, cookie, i + 1);
    }
}

/// Finds the connection between a peer and a local port.
pub fn vsock_connection_lookup_peer(
    connections: &Vec<VsockConnection>,
    peer: VsockAddr,
    local_port: u32,
) -> (index: Option<usize>)
    ensures
        match find_peer(views(connections@), peer, local_port, 0) {
            Some(i) => index matches Some(k) && k == i && k < connections@.len(),
            None => index is None,
        },
{
    let ghost conns = views(connections@);
    let mut i: usize = 0;
    while i < connections.len()
        invariant
            i <= connections@.len(),
            conns == views(connections@),
            find_peer(conns, peer, local_port, 0) == find_peer(conns, peer, local_port, i as nat),
        decreases connections@.len() - i,
    {
        let c = &connections[i];
        assert(c@ == conns[i as int]);
        if c.peer == peer && c.local_port == local_port {
            return Some(i);
        }
        i = i + 1;
    }
    None
}

/// Finds the connection that an event belongs to.
pub fn vsock_connection_lookup_cookie(connections: &Vec<VsockConnection>, cookie: u64) -> (index:
    Option<usize>)
    ensures
        match find_cookie(views(connections@), cookie, 0) {
            Some(i) => index matches Some(k) && k == i && k < connections@.len(),
            None => index is None,
        },
{
    let ghost conns = views(connections@);
    let mut i: usize = 0;
    while i < connections.len()
        invariant
            i <= connections@.len(),
            conns == views(connections@),
            find_cookie(conns, cookie, 0) == find_cookie(conns, cookie, i as nat),
        decreases connections@.len() - i,
    {
        let c = &connections[i];
        assert(c@ == conns[i as int]);
        if c.href.addr == cookie {
            return Some(i);
        }
        i = i + 1;
    }
    None
}

/// A list without element `i`: the last element takes its place.
pub open spec fn without<T>(s: Seq<T>, i: int) -> Seq<T> {
    s.update(i, s.last()).drop_last()
}

/// The list after `action` was applied to connection `i`.
pub open spec fn after_action(
    conns: Seq<ConnectionView>,
    i: int,
    action: ConnectionStateAction,
) -> Seq<ConnectionView> {
    if action == ConnectionStateAction::Keep {
        conns
    } else if conns[i].closed(action).is_gone() {
        without(conns, i)
    } else {
        conns.update(i, conns[i].closed(action))
    }
}

/// The handle reference whose channel has to be detached and closed when `action` is applied to
/// connection `i`.
pub open spec fn channel_to_close(
    conns: Seq<ConnectionView>,
    i: int,
    action: ConnectionStateAction,
) -> Option<u64> {
    if action != ConnectionStateAction::Keep && conns[i].has_channel() {
        Some(conns[i].href.addr)
    } else {
        None
    }
}

/// Applies an action to a connection. Returns the handle reference whose channel has to be detached
/// and closed.
pub fn vsock_connection_apply(
    connections: &mut Vec<VsockConnection>,
    index: usize,
    action: ConnectionStateAction,
) -> (channel: Option<u64>)
    requires
        index < old(connections)@.len(),
        all_wf(views(old(connections)@)),
    ensures
        views(final(connections)@) == after_action(views(old(connections)@), index as int, action),
        channel == channel_to_close(views(old(connections)@), index as int, action),
        all_wf(views(final(connections)@)),
{
    if action == ConnectionStateAction::Keep {
        return None;
    }
    let ghost conns = views(connections@);
    assert(conns[index as int].wf());
    let c = &mut connections[index];
    let addr: u64 = c.href.addr;
    let closed = vsock_connection_close(c, action);
    if closed.remove {
        connections.swap_remove(index);
    }
    proof {
        assert(views(connections@) =~= after_action(conns, index as int, action));
        assert forall|i: int| 0 <= i < connections@.len() implies (#[trigger] views(
            connections@,
        )[i]).wf() by {
            if closed.remove {
                assert(conns[i].wf() && conns.last().wf());
            } else if i != index {
                assert(conns[i].wf());
            }
        }
    }
    if closed.close_channel {
        Some(addr)
    } else {
        None
    }
}

/// The handle references of the first `n` connections that have a channel.
pub open spec fn channels(conns: Seq<ConnectionView>, n: nat) -> Seq<u64>
    decreases n,
{
    if n == 0 {
        seq![]
    } else {
        let rest = channels(conns, (n - 1) as nat);
        if conns[n - 1].has_channel() {
            rest.push(conns[n - 1].href.addr)
        } else {
            rest
        }
    }
}

/// Closes and removes all connections. Returns the handle references whose channels have to be
/// detached and closed.
pub fn vsock_connection_close_all(connections: &mut Vec<VsockConnection>) -> (closed: Vec<u64>)
    requires
        all_wf(views(old(connections)@)),
    ensures
        final(connections)@.len() == 0,
        closed@ == channels(views(old(connections)@), old(connections)@.len()),
{
    let mut closed: Vec<u64> = Vec::new();
    let ghost conns = views(connections@);
    let len: usize = connections.len();
    let mut i: usize = 0;
    while i < len
        invariant
            i <= len,
            len == connections@.len(),
            len == conns.len(),
            all_wf(conns),
            forall|j: int| i <= j < len ==> (#[trigger] connections@[j])@ == conns[j],
            closed@ == channels(conns, i as nat),
        decreases len - i,
    {
        let c = &mut connections[i];
        assert(conns[i as int].wf());
        let addr: u64 = c.href.addr;
        let outcome = vsock_connection_close(c, ConnectionStateAction::Remove);
        if outcome.close_channel {
            closed.push(addr);
        }
        i = i + 1;
    }
    connections.clear();
    closed
}

/// Removing a connection that is open takes it off the list: what is left is every other
/// connection, as it was.
pub proof fn law_remove_takes_connection_off_list(conns: Seq<ConnectionView>, i: int)
    requires
        0 <= i < conns.len(),
        conns[i].has_channel() || (conns[i].state == VsockConnectionState::VsockOnly
            && conns[i].href.cookie == 0),
    ensures
        after_action(conns, i, ConnectionStateAction::Remove) == without(conns, i),
        after_action(conns, i, ConnectionStateAction::Remove).to_multiset().insert(conns[i])
            =~= conns.to_multiset(),
{
    let s = conns.update(i, conns.last());
    broadcast use vstd::seq_lib::group_to_multiset_ensures;

    assert(s.drop_last().push(conns.last()) =~= s);
    assert(conns.update(i, conns.last()).to_multiset() =~= conns.to_multiset().remove(
        conns[i],
    ).insert(conns.last()));
    assert(s.drop_last().push(conns.last()).to_multiset() == s.drop_last().to_multiset().insert(
        conns.last(),
    ));
    let kept = s.drop_last().to_multiset();
    let wanted = conns.to_multiset().remove(conns[i]);
    assert(kept.insert(conns.last()) == wanted.insert(conns.last()));
    assert(kept =~= kept.insert(conns.last()).remove(conns.last()));
    assert(wanted =~= wanted.insert(conns.last()).remove(conns.last()));
    assert(conns.to_multiset().count(conns[i]) > 0);
}

/// A connection that TIPC closed stays on the list until the peer is done with it, and is then
/// removed.
pub proof fn law_closed_connection_waits_for_peer(conns: Seq<ConnectionView>, i: int)
    requires
        0 <= i < conns.len(),
        conns[i].has_channel(),
    ensures
        ({
            let after = after_action(conns, i, ConnectionStateAction::Close);
            &&& after.len() == conns.len()
            &&& after[i].state == VsockConnectionState::TipcClosed
            &&& !after[i].has_channel()
            &&& after_action(after, i, ConnectionStateAction::Remove) == without(after, i)
            &&& channel_to_close(after, i, ConnectionStateAction::Remove) is None
        }),
{
}

/// The channel of a connection is closed once: closing a connection a second time has no channel to
/// close.
pub proof fn law_channel_is_closed_once(
    c: ConnectionView,
    first: ConnectionStateAction,
    second: ConnectionStateAction,
)
    ensures
        !c.closed(first).has_channel(),
        c.closed(first).closed(second) == c.closed(first) || (second
            == ConnectionStateAction::Remove && c.closed(first).state
            == VsockConnectionState::TipcClosed),
{
}

/// What waits to be sent is not lost while TIPC has no room, and it is sent as a whole or not at
/// all.
pub proof fn law_blocked_send_keeps_data(c: ConnectionView, ret: i32)
    ensures
        match c.try_send(ret) {
            Ok(after) => {
                ||| after.pending() == c.pending() && after.state
                    == VsockConnectionState::TipcSendBlocked
                ||| after.rx_pending == 0 && ret == c.rx_pending && after.state
                    == VsockConnectionState::Active
            },
            Err(_) => true,
        },
{
}

} // verus!
