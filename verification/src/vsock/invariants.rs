//! What holds of the connections before and after every part of a turn.

use vstd::prelude::*;

use crate::vsock::connection::{
    after_action, find_peer, is_between, lemma_find_peer, without, ConnectionStateAction,
    ConnectionView, VsockConnectionState,
};
use crate::vsock::ports::{port_name, Features, MappingView, VsockAddr};
use crate::vsock::rx::{
    can_resume, new_connecting, rx_next, rx_start, step_index, RxInput, RxStep, VsockEvent,
    VsockEventType,
};
use crate::vsock::tx::{
    accepted, can_start, can_take, tx_next, tx_start, HandleEvent, TxInput, TxStep,
};

verus! {

/// Whether no two connections are between the same peer and local port.
pub open spec fn all_distinct(conns: Seq<ConnectionView>) -> bool {
    forall|i: int, j: int|
        0 <= i < j < conns.len() ==> !is_between(
            #[trigger] conns[i],
            (#[trigger] conns[j]).peer,
            conns[j].local_port,
        )
}

/// Whether no connection is between `peer` and `local_port`.
pub open spec fn is_unused(conns: Seq<ConnectionView>, peer: VsockAddr, local_port: u32) -> bool {
    forall|i: int| 0 <= i < conns.len() ==> !is_between(#[trigger] conns[i], peer, local_port)
}

/// Whether a step that adds a connection adds one that is not on the list.
pub open spec fn adds_new(conns: Seq<ConnectionView>, step: RxStep) -> bool {
    step matches RxStep::ConnectNew { peer, local_port, .. } ==> is_unused(conns, peer, local_port)
}

proof fn lemma_push_distinct(conns: Seq<ConnectionView>, c: ConnectionView)
    requires
        all_distinct(conns),
        is_unused(conns, c.peer, c.local_port),
    ensures
        all_distinct(conns.push(c)),
{
    let after = conns.push(c);
    assert forall|i: int, j: int| 0 <= i < j < after.len() implies !is_between(
        #[trigger] after[i],
        (#[trigger] after[j]).peer,
        after[j].local_port,
    ) by {
        assert(after[i] == conns[i]);
        if j < conns.len() {
            assert(after[j] == conns[j]);
        }
    }
}

proof fn lemma_update_distinct(conns: Seq<ConnectionView>, k: int, c: ConnectionView)
    requires
        all_distinct(conns),
        0 <= k < conns.len(),
        is_between(c, conns[k].peer, conns[k].local_port),
    ensures
        all_distinct(conns.update(k, c)),
{
    let after = conns.update(k, c);
    assert forall|i: int, j: int| 0 <= i < j < after.len() implies !is_between(
        #[trigger] after[i],
        (#[trigger] after[j]).peer,
        after[j].local_port,
    ) by {
        assert(!is_between(conns[i], conns[j].peer, conns[j].local_port));
    }
}

/// Closing or removing a connection keeps the connections distinct.
pub proof fn law_actions_keep_connections_distinct(
    conns: Seq<ConnectionView>,
    k: int,
    action: ConnectionStateAction,
)
    requires
        all_distinct(conns),
        0 <= k < conns.len(),
    ensures
        all_distinct(after_action(conns, k, action)),
{
    lemma_update_distinct(conns, k, conns[k].closed(action));
    let after = without(conns, k);
    assert forall|i: int, j: int| 0 <= i < j < after.len() implies !is_between(
        #[trigger] after[i],
        (#[trigger] after[j]).peer,
        after[j].local_port,
    ) by {
        let last = conns.len() - 1;
        let from_i = if i == k {
            last
        } else {
            i
        };
        let from_j = if j == k {
            last
        } else {
            j
        };
        assert(after[i] == conns[from_i] && after[j] == conns[from_j]);
        if from_i < from_j {
            assert(!is_between(conns[from_i], conns[from_j].peer, conns[from_j].local_port));
        } else {
            assert(!is_between(conns[from_j], conns[from_i].peer, conns[from_i].local_port));
        }
    }
}

/// A peer has at most one connection to a port: the start of a receive turn never adds a second one.
pub proof fn law_rx_start_keeps_connections_distinct(
    f: Features,
    conns: Seq<ConnectionView>,
    pending: Seq<VsockEvent>,
    event: VsockEvent,
    href_addr: u64,
)
    requires
        all_distinct(conns),
    ensures
        ({
            let after = rx_start(f, conns, pending, event, href_addr);
            all_distinct(after.conns) && adds_new(after.conns, after.step)
        }),
{
    let peer = event.source;
    let local_port = event.destination.port;
    lemma_find_peer(conns, peer, local_port, 0);
    match find_peer(conns, peer, local_port, 0) {
        Some(k) => {
            law_actions_keep_connections_distinct(conns, k as int, ConnectionStateAction::Remove);
        },
        None => {
            lemma_push_distinct(conns, ConnectionView::fresh(peer, local_port, href_addr));
        },
    }
}

/// A peer has at most one connection to a port: no part of a receive turn adds a second one.
pub proof fn law_rx_next_keeps_connections_distinct(
    f: Features,
    conns: Seq<ConnectionView>,
    step: RxStep,
    input: RxInput,
)
    requires
        can_resume(f, conns, step, input),
        all_distinct(conns),
        adds_new(conns, step),
    ensures
        all_distinct(rx_next(f, conns, step, input).0),
        adds_new(rx_next(f, conns, step, input).0, rx_next(f, conns, step, input).1),
{
    match step {
        RxStep::ConnectNew { peer, local_port, href_addr } => {
            lemma_push_distinct(conns, new_connecting(f, peer, local_port, href_addr));
        },
        _ => {},
    }
    if let Some(index) = step_index(step) {
        let k = index as int;
        law_actions_keep_connections_distinct(conns, k, ConnectionStateAction::Remove);
        let after = rx_next(f, conns, step, input).0;
        if after.len() == conns.len() {
            lemma_update_distinct(conns, k, after[k]);
        }
    }
}

/// A peer has at most one connection to a port: accepting a client adds a connection that is not on
/// the list, as long as the port that was picked is not connected to the peer.
pub proof fn law_accepting_keeps_connections_distinct(
    conns: Seq<ConnectionView>,
    m: MappingView,
    src_port: u32,
    href_addr: u64,
)
    requires
        all_distinct(conns),
        is_unused(conns, m.addr, src_port),
    ensures
        all_distinct(conns.push(accepted(m, src_port, href_addr))),
{
    lemma_push_distinct(conns, accepted(m, src_port, href_addr));
}

/// Whether a step that adds a connection adds one to a port with a service.
pub open spec fn adds_incoming(f: Features, step: RxStep) -> bool {
    step matches RxStep::ConnectNew { local_port, .. } ==> port_name(f, local_port) is Some
}

/// Connections that a client of TIPC asked for and those that a peer asked for do not get in each
/// other's way: the port that is picked for a client has no service, so it is not connected to the
/// peer unless another connection without a service is.
pub proof fn law_picked_port_is_unused(
    f: Features,
    conns: Seq<ConnectionView>,
    peer: VsockAddr,
    src_port: u32,
)
    requires
        port_name(f, src_port) is None,
        forall|i: int|
            0 <= i < conns.len() && port_name(f, (#[trigger] conns[i]).local_port) is None
                ==> !is_between(conns[i], peer, src_port),
    ensures
        is_unused(conns, peer, src_port),
{
}

/// The start of a receive turn adds no connection to a port without a service.
pub proof fn law_rx_start_keeps_picked_ports_unused(
    f: Features,
    conns: Seq<ConnectionView>,
    pending: Seq<VsockEvent>,
    event: VsockEvent,
    href_addr: u64,
    peer: VsockAddr,
    src_port: u32,
)
    requires
        port_name(f, src_port) is None,
        is_unused(conns, peer, src_port),
    ensures
        ({
            let after = rx_start(f, conns, pending, event, href_addr);
            is_unused(after.conns, peer, src_port) && adds_incoming(f, after.step)
        }),
{
    lemma_find_peer(conns, event.source, event.destination.port, 0);
    let after = rx_start(f, conns, pending, event, href_addr).conns;
    assert forall|i: int| 0 <= i < after.len() implies !is_between(
        #[trigger] after[i],
        peer,
        src_port,
    ) by {
        if i < conns.len() {
            assert(!is_between(conns[i], peer, src_port));
        }
        if conns.len() > 0 {
            assert(!is_between(conns[conns.len() - 1], peer, src_port));
        }
    }
}

/// No part of a receive turn adds a connection to a port without a service.
pub proof fn law_rx_next_keeps_picked_ports_unused(
    f: Features,
    conns: Seq<ConnectionView>,
    step: RxStep,
    input: RxInput,
    peer: VsockAddr,
    src_port: u32,
)
    requires
        can_resume(f, conns, step, input),
        port_name(f, src_port) is None,
        is_unused(conns, peer, src_port),
    ensures
        is_unused(rx_next(f, conns, step, input).0, peer, src_port),
        adds_incoming(f, rx_next(f, conns, step, input).1),
{
    let after = rx_next(f, conns, step, input).0;
    assert forall|i: int| 0 <= i < after.len() implies !is_between(
        #[trigger] after[i],
        peer,
        src_port,
    ) by {
        if i < conns.len() {
            assert(!is_between(conns[i], peer, src_port));
        }
        if conns.len() > 0 {
            assert(!is_between(conns[conns.len() - 1], peer, src_port));
        }
    }
}

/// Whether a connection is open or waits for its peer, and can be found by the events of its channel
/// exactly while it has one.
pub open spec fn is_live(c: ConnectionView) -> bool {
    &&& c.state != VsockConnectionState::Invalid
    &&& c.state != VsockConnectionState::Closed
    &&& c.href.cookie == if c.has_channel() {
        c.href.addr
    } else {
        0
    }
}

/// Whether all connections are live.
pub open spec fn all_live(conns: Seq<ConnectionView>) -> bool {
    forall|i: int| 0 <= i < conns.len() ==> is_live(#[trigger] conns[i])
}

/// Whether a step only uses the channel of a connection that has one.
pub open spec fn uses_channel(conns: Seq<ConnectionView>, step: RxStep) -> bool {
    match step {
        RxStep::ConnectNamed { index } => conns[index as int].has_channel(),
        RxStep::Attach { index } => conns[index as int].has_channel(),
        RxStep::ReceiveData { index, .. } => conns[index as int].has_channel(),
        RxStep::SendPending { index } => conns[index as int].has_channel(),
        RxStep::UpdateCredit { index } => conns[index as int].has_channel(),
        _ => true,
    }
}

/// Removing a live connection takes it off the list, and closing one keeps it live.
pub proof fn law_actions_keep_connections_live(
    conns: Seq<ConnectionView>,
    k: int,
    action: ConnectionStateAction,
)
    requires
        all_live(conns),
        0 <= k < conns.len(),
    ensures
        all_live(after_action(conns, k, action)),
        action == ConnectionStateAction::Remove ==> after_action(conns, k, action) == without(
            conns,
            k,
        ),
{
    assert(is_live(conns[k]));
    let after = after_action(conns, k, action);
    assert forall|i: int| 0 <= i < after.len() implies is_live(#[trigger] after[i]) by {
        assert(is_live(conns[i]));
        assert(is_live(conns.last()));
    }
}

/// The start of a receive turn keeps the connections live. Only a connection that a client of TIPC
/// asked for can become connected.
pub proof fn law_rx_start_keeps_connections_live(
    f: Features,
    conns: Seq<ConnectionView>,
    pending: Seq<VsockEvent>,
    event: VsockEvent,
    href_addr: u64,
)
    requires
        conns.len() <= usize::MAX,
        all_live(conns),
        event.event_type == VsockEventType::Connected ==> match find_peer(
            conns,
            event.source,
            event.destination.port,
            0,
        ) {
            Some(k) => conns[k as int].state == VsockConnectionState::TipcOnly,
            None => true,
        },
    ensures
        ({
            let after = rx_start(f, conns, pending, event, href_addr);
            all_live(after.conns) && uses_channel(after.conns, after.step)
        }),
{
    let peer = event.source;
    let local_port = event.destination.port;
    lemma_find_peer(conns, peer, local_port, 0);
    match find_peer(conns, peer, local_port, 0) {
        Some(k) => {
            law_actions_keep_connections_live(conns, k as int, ConnectionStateAction::Remove);
        },
        None => {},
    }
}

/// Every part of a receive turn keeps the connections live.
pub proof fn law_rx_next_keeps_connections_live(
    f: Features,
    conns: Seq<ConnectionView>,
    step: RxStep,
    input: RxInput,
)
    requires
        can_resume(f, conns, step, input),
        all_live(conns),
        uses_channel(conns, step),
    ensures
        all_live(rx_next(f, conns, step, input).0),
        uses_channel(rx_next(f, conns, step, input).0, rx_next(f, conns, step, input).1),
{
    if let Some(index) = step_index(step) {
        law_actions_keep_connections_live(conns, index as int, ConnectionStateAction::Remove);
        assert(is_live(conns[index as int]));
    }
}

/// The start of a transmit turn keeps its connection live.
pub proof fn law_tx_start_keeps_connection_live(f: Features, c: ConnectionView, event: HandleEvent)
    requires
        can_start(f, c, event),
        is_live(c),
    ensures
        is_live(tx_start(f, c, event.emask).0),
{
}

/// Every part of a transmit turn keeps its connection live.
pub proof fn law_tx_next_keeps_connection_live(
    c: ConnectionView,
    emask: u32,
    step: TxStep,
    input: TxInput,
)
    requires
        can_take(c, step),
        is_live(c),
    ensures
        is_live(tx_next(c, emask, step, input).0),
{
}

/// The connection of a client that was accepted is live.
pub proof fn law_accepted_connection_is_live(m: MappingView, src_port: u32, href_addr: u64)
    ensures
        is_live(accepted(m, src_port, href_addr)),
{
}

} // verus!
