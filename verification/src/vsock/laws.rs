//! What becomes of connections and of their data, told by the fields of the connections, of the
//! events and of what the kernel returned.

use vstd::prelude::*;

use crate::error::LkError;
use crate::vsock::connection::{
    after_action, channel_to_close, channels, find_cookie, find_peer,
    law_remove_takes_connection_off_list, ConnectionStateAction, ConnectionView,
    VsockConnectionState,
};
use crate::vsock::ports::{
    law_listening_ports_have_services, law_only_port_zero_expects_name, listening, mappings,
    port_name, port_step_after, Features, MappingView, PortStep, TransportKind, Uuid, VsockAddr,
};
use crate::vsock::rx::{
    rx_next, rx_start, ResetTarget, RxDone, RxInput, RxStep, VsockEvent, VsockEventType,
};
use crate::vsock::tx::{
    accepted, target_of, tx_next, tx_start, HandleEvent, TxInput, TxStep, TxTarget,
};
use crate::vsock::{rx, tx, VsockRxEvent};

verus! {

proof fn lemma_first_peer(conns: Seq<ConnectionView>, peer: VsockAddr, local_port: u32, i: nat)
    ensures
        match find_peer(conns, peer, local_port, i) {
            Some(k) => {
                &&& i <= k < conns.len()
                &&& conns[k as int].peer.cid == peer.cid
                &&& conns[k as int].peer.port == peer.port
                &&& conns[k as int].local_port == local_port
                &&& forall|j: int|
                    i <= j < k ==> !((#[trigger] conns[j]).peer.cid == peer.cid
                        && conns[j].peer.port == peer.port && conns[j].local_port == local_port)
            },
            None => forall|j: int|
                i <= j < conns.len() ==> !((#[trigger] conns[j]).peer.cid == peer.cid
                    && conns[j].peer.port == peer.port && conns[j].local_port == local_port),
        },
    decreases conns.len() - i,
{
    if i < conns.len() {
        lemma_first_peer(conns, peer, local_port, i + 1);
    }
}

/// The connection that is found for a peer has the whole address of the peer, its cid and its port,
/// and the local port. It is the first such connection, and none is found only if there is none.
pub proof fn law_peer_is_found_by_whole_address(
    conns: Seq<ConnectionView>,
    peer: VsockAddr,
    local_port: u32,
)
    ensures
        match find_peer(conns, peer, local_port, 0) {
            Some(k) => {
                &&& k < conns.len()
                &&& conns[k as int].peer.cid == peer.cid
                &&& conns[k as int].peer.port == peer.port
                &&& conns[k as int].local_port == local_port
                &&& forall|j: int|
                    0 <= j < k ==> !((#[trigger] conns[j]).peer.cid == peer.cid
                        && conns[j].peer.port == peer.port && conns[j].local_port == local_port)
            },
            None => forall|j: int|
                0 <= j < conns.len() ==> !((#[trigger] conns[j]).peer.cid == peer.cid
                    && conns[j].peer.port == peer.port && conns[j].local_port == local_port),
        },
{
    lemma_first_peer(conns, peer, local_port, 0);
}

proof fn lemma_first_cookie(conns: Seq<ConnectionView>, cookie: u64, i: nat)
    ensures
        match find_cookie(conns, cookie, i) {
            Some(k) => {
                &&& i <= k < conns.len()
                &&& conns[k as int].href.addr == cookie
                &&& forall|j: int| i <= j < k ==> (#[trigger] conns[j]).href.addr != cookie
            },
            None => forall|j: int|
                i <= j < conns.len() ==> (#[trigger] conns[j]).href.addr != cookie,
        },
    decreases conns.len() - i,
{
    if i < conns.len() {
        lemma_first_cookie(conns, cookie, i + 1);
    }
}

/// A port has a service exactly if it is port zero, or the part of the build that its service
/// belongs to is there.
pub proof fn law_services_follow_the_build(f: Features, port: u32)
    ensures
        port_name(f, port) is Some <==> {
            ||| port == 0
            ||| port == 1 && f.authmgr
            ||| port == 6 && f.widevine_aidl_comm
            ||| port == 8 && f.gatekeeper
            ||| port == 9 && f.keymint
            ||| port == 10 && f.vintf_ta
            ||| port == 11 && f.keymint_commservice
        },
{
}

/// The ports that accept connections are listed once each, in ascending order, and they are the ones
/// with a service.
pub proof fn law_listening_ports_ascend(f: Features, port: u32)
    ensures
        forall|i: int, j: int|
            0 <= i < j < listening(f).len() ==> #[trigger] listening(f)[i] < #[trigger] listening(
                f,
            )[j],
        listening(f).contains(port) <==> port_name(f, port) is Some,
{
    law_listening_ports_have_services(f, port);
}

/// The receive loop stops exactly if the lowest bit of the reason for which it was woken is set.
pub proof fn law_receive_loop_stops_when_told(event: VsockRxEvent)
    ensures
        event.stops() <==> event.wake_reason & 1 != 0,
{
}

/// What a port is called does not depend on the build: wherever it has a service, it is the same one.
/// Two ports never have the same service.
pub proof fn law_service_names_are_fixed(f: Features, g: Features, port: u32, other: u32)
    requires
        port_name(f, port) is Some,
    ensures
        port_name(g, port) is Some ==> port_name(g, port) == port_name(f, port),
        port_name(g, other) is Some && other != port ==> port_name(g, other) != port_name(f, port),
        (port_name(f, port) matches Some(name) && name.len() == 0) <==> port == 0,
{
    law_only_port_zero_expects_name(f, port);
    reveal_strlit("");
    reveal_strlit("ahss.authmgr.IAuthMgrAuthorization/default.bnd");
    reveal_strlit("com.android.trusty.widevine.transact");
    reveal_strlit("com.android.trusty.gatekeeper");
    reveal_strlit("com.android.trusty.keymint");
    reveal_strlit("com.android.trusty.vintf");
    reveal_strlit("com.android.trusty.keymint.commservice");
    let (a, b) = (port_name(f, port)->Some_0, port_name(g, other));
    if let Some(b) = b {
        assert(other != port && a == b ==> a.len() == b.len());
    }
}

/// Data of a peer, for the first connection on the list that has its address and the local port.
/// It is put off exactly while the service has no room or, on a port with a service of its own, is
/// not ready: the event is kept behind the others, and nothing happens to any connection. The first
/// data of a connection without a channel is the name of a service, and the data of an active one
/// is taken. In any other state the connection is reset.
pub proof fn law_received_data_follows_the_state(
    f: Features,
    conns: Seq<ConnectionView>,
    pending: Seq<VsockEvent>,
    event: VsockEvent,
    length: usize,
    href_addr: u64,
    i: int,
)
    requires
        conns.len() <= usize::MAX,
        event.event_type == (VsockEventType::Received { length }),
        0 <= i < conns.len(),
        conns[i].peer.cid == event.source.cid,
        conns[i].peer.port == event.source.port,
        conns[i].local_port == event.destination.port,
        forall|j: int|
            0 <= j < i ==> !((#[trigger] conns[j]).peer.cid == event.source.cid
                && conns[j].peer.port == event.source.port && conns[j].local_port
                == event.destination.port),
    ensures
        ({
            let o = rx_start(f, conns, pending, event, href_addr);
            let c = conns[i];
            &&& o.step == RxStep::Sleep <==> c.state == VsockConnectionState::TipcSendBlocked || (
            c.state == VsockConnectionState::TipcConnecting && c.local_port != 0)
            &&& o.step == RxStep::Sleep ==> o.conns == conns && o.pending == pending.push(event)
            &&& o.step != RxStep::Sleep ==> o.pending == pending
            &&& o.step == (RxStep::ReceiveName { index: i as usize, length }) <==> c.state
                == VsockConnectionState::VsockOnly
            &&& o.step == (RxStep::ReceiveData { index: i as usize, length }) <==> c.state
                == VsockConnectionState::Active
            &&& !(o.step is Done) ==> o.conns == conns
            &&& o.step is Done <==> {
                ||| c.state == VsockConnectionState::Invalid
                ||| c.state == VsockConnectionState::TipcOnly
                ||| c.state == VsockConnectionState::TipcConnecting && c.local_port == 0
                ||| c.state == VsockConnectionState::TipcClosed
                ||| c.state == VsockConnectionState::Closed
            }
            &&& o.step matches RxStep::Done(end) ==> {
                &&& end.reset == Some(
                    ResetTarget { peer: event.source, local_port: event.destination.port },
                )
                &&& end.error == Some(LkError::BadState)
                &&& end.close_channel == if c.state == VsockConnectionState::TipcOnly || c.state
                    == VsockConnectionState::TipcConnecting {
                    Some(c.href.addr)
                } else {
                    None
                }
                &&& c.state == VsockConnectionState::TipcOnly || c.state
                    == VsockConnectionState::TipcConnecting ==> o.conns.to_multiset().insert(c)
                    == conns.to_multiset()
            }
        }),
{
    lemma_first_peer(conns, event.source, event.destination.port, 0);
    law_only_port_zero_expects_name(f, event.destination.port);
    assert(conns[i].peer == event.source);
    let k = find_peer(conns, event.source, event.destination.port, 0);
    assert(k == Some(i as nat));
    if conns[i].state == VsockConnectionState::TipcOnly || conns[i].state
        == VsockConnectionState::TipcConnecting {
        law_remove_takes_connection_off_list(conns, i);
    }
}

/// Events that are not requests change nothing if no connection has the address of the peer and the
/// local port.
pub proof fn law_events_without_connection_change_nothing(
    f: Features,
    conns: Seq<ConnectionView>,
    pending: Seq<VsockEvent>,
    event: VsockEvent,
    href_addr: u64,
)
    requires
        event.event_type != VsockEventType::ConnectionRequest,
        forall|j: int|
            0 <= j < conns.len() ==> !((#[trigger] conns[j]).peer.cid == event.source.cid
                && conns[j].peer.port == event.source.port && conns[j].local_port
                == event.destination.port),
    ensures
        ({
            let o = rx_start(f, conns, pending, event, href_addr);
            &&& o.conns == conns
            &&& o.pending == pending
            &&& o.step == RxStep::Done(RxDone { reset: None, error: None, close_channel: None })
        }),
{
    lemma_first_peer(conns, event.source, event.destination.port, 0);
}

/// A peer that accepts, gives up or reports room, for the first connection on the list that has its
/// address and the local port: a connection that was accepted gets its channel attached, one that is
/// given up is taken off the list together with its channel, and room changes nothing.
pub proof fn law_other_events_follow_their_kind(
    f: Features,
    conns: Seq<ConnectionView>,
    pending: Seq<VsockEvent>,
    event: VsockEvent,
    href_addr: u64,
    i: int,
)
    requires
        conns.len() <= usize::MAX,
        0 <= i < conns.len(),
        conns[i].peer.cid == event.source.cid,
        conns[i].peer.port == event.source.port,
        conns[i].local_port == event.destination.port,
        forall|j: int|
            0 <= j < i ==> !((#[trigger] conns[j]).peer.cid == event.source.cid
                && conns[j].peer.port == event.source.port && conns[j].local_port
                == event.destination.port),
    ensures
        ({
            let o = rx_start(f, conns, pending, event, href_addr);
            let c = conns[i];
            let channel_is_open = {
                ||| c.state == VsockConnectionState::Active
                ||| c.state == VsockConnectionState::TipcConnecting
                ||| c.state == VsockConnectionState::TipcSendBlocked
                ||| c.state == VsockConnectionState::TipcOnly
            };
            &&& event.event_type == VsockEventType::Connected ==> {
                &&& o.step == (RxStep::Attach { index: i as usize })
                &&& o.conns == conns
                &&& o.pending == pending
            }
            &&& event.event_type == VsockEventType::Disconnected ==> {
                &&& o.pending == pending
                &&& o.step == RxStep::Done(
                    RxDone {
                        reset: None,
                        error: None,
                        close_channel: if channel_is_open {
                            Some(c.href.addr)
                        } else {
                            None
                        },
                    },
                )
                &&& channel_is_open || (c.href.cookie == 0 && (c.state
                    == VsockConnectionState::VsockOnly || c.state
                    == VsockConnectionState::TipcClosed || c.state
                    == VsockConnectionState::Closed)) ==> o.conns.to_multiset().insert(c)
                    == conns.to_multiset()
            }
            &&& event.event_type == VsockEventType::CreditUpdate ==> {
                &&& o.conns == conns
                &&& o.pending == pending
                &&& o.step == RxStep::Done(
                    RxDone { reset: None, error: None, close_channel: None },
                )
            }
        }),
{
    lemma_first_peer(conns, event.source, event.destination.port, 0);
    assert(find_peer(conns, event.source, event.destination.port, 0) == Some(i as nat));
    lemma_removed(conns, i);
}

/// A connection that can be closed completely is taken off the list.
proof fn lemma_removed(conns: Seq<ConnectionView>, i: int)
    requires
        0 <= i < conns.len(),
    ensures
        after_action(conns, i, ConnectionStateAction::Remove) == conns.update(
            i,
            conns.last(),
        ).drop_last() ==> after_action(conns, i, ConnectionStateAction::Remove).to_multiset().insert(
            conns[i],
        ) == conns.to_multiset(),
{
    broadcast use vstd::seq_lib::group_to_multiset_ensures;

    let s = conns.update(i, conns.last());
    let kept = s.drop_last().to_multiset();
    let wanted = conns.to_multiset().remove(conns[i]);
    assert(s.drop_last().push(conns.last()) =~= s);
    assert(s.to_multiset() =~= wanted.insert(conns.last()));
    assert(s.drop_last().push(conns.last()).to_multiset() == kept.insert(conns.last()));
    assert(kept =~= kept.insert(conns.last()).remove(conns.last()));
    assert(wanted =~= wanted.insert(conns.last()).remove(conns.last()));
    assert(conns.to_multiset().count(conns[i]) > 0);
    assert(wanted.insert(conns[i]) =~= conns.to_multiset());
}

/// A request for a connection. It is refused exactly if a connection has the whole address of the
/// peer and the port already, or if the port has no service. A request for port zero adds a connection
/// that waits for the name of a service, and a request for any other port has the service connected.
pub proof fn law_requests_are_answered(
    f: Features,
    conns: Seq<ConnectionView>,
    pending: Seq<VsockEvent>,
    event: VsockEvent,
    href_addr: u64,
)
    requires
        event.event_type == VsockEventType::ConnectionRequest,
    ensures
        ({
            let o = rx_start(f, conns, pending, event, href_addr);
            let (peer, port) = (event.source, event.destination.port);
            let known = exists|j: int|
                0 <= j < conns.len() && (#[trigger] conns[j]).peer.cid == peer.cid
                    && conns[j].peer.port == peer.port && conns[j].local_port == port;
            let served = {
                ||| port == 1 && f.authmgr
                ||| port == 6 && f.widevine_aidl_comm
                ||| port == 8 && f.gatekeeper
                ||| port == 9 && f.keymint
                ||| port == 10 && f.vintf_ta
                ||| port == 11 && f.keymint_commservice
            };
            let refused = |e: LkError|
                RxStep::Done(
                    RxDone {
                        reset: Some(ResetTarget { peer, local_port: port }),
                        error: Some(e),
                        close_channel: None,
                    },
                );
            &&& o.pending == pending
            &&& known || port != 0 ==> o.conns == conns
            &&& known ==> o.step == refused(LkError::AlreadyExists)
            &&& !known && port != 0 && !served ==> o.step == refused(LkError::OutOfRange)
            &&& !known && served ==> o.step == (RxStep::ConnectNew {
                peer,
                local_port: port,
                href_addr,
            })
            &&& !known && port == 0 ==> {
                let c = o.conns.last();
                &&& o.step == RxStep::Done(
                    RxDone { reset: None, error: None, close_channel: None },
                )
                &&& o.conns.len() == conns.len() + 1
                &&& o.conns.drop_last() == conns
                &&& c.peer.cid == peer.cid && c.peer.port == peer.port && c.local_port == 0
                &&& c.state == VsockConnectionState::VsockOnly
                &&& c.tipc_port_name is None
                &&& c.href.addr == href_addr && c.href.cookie == 0
                &&& c.rx_pending == 0 && c.rx_buffer.len() == 8192
                &&& c.tx_count == 0 && c.tx_since_rx == 0 && c.rx_count == 0 && c.rx_since_tx == 0
            }
        }),
{
    let (peer, port) = (event.source, event.destination.port);
    lemma_first_peer(conns, peer, port, 0);
    law_only_port_zero_expects_name(f, port);
    let o = rx_start(f, conns, pending, event, href_addr);
    if let Some(k) = find_peer(conns, peer, port, 0) {
        assert(conns[k as int].peer.cid == peer.cid);
    } else if port == 0 {
        assert(o.conns.drop_last() =~= conns);
    }
}

/// A service that was connected for a new connection: the connection is added, under the name of the
/// service of its port, and waits for the service, whose events find it. If the service could not be
/// connected, the peer is told, and nothing is added.
pub proof fn law_new_connections_wait_for_their_service(
    f: Features,
    conns: Seq<ConnectionView>,
    peer: VsockAddr,
    local_port: u32,
    href_addr: u64,
    input: RxInput,
)
    requires
        input is Attached,
        port_name(f, local_port) is Some,
    ensures
        ({
            let step = RxStep::ConnectNew { peer, local_port, href_addr };
            let (after, next) = rx_next(f, conns, step, input);
            match input->Attached_0 {
                Ok(()) => {
                    let c = after.last();
                    &&& next == RxStep::Done(
                        RxDone { reset: None, error: None, close_channel: None },
                    )
                    &&& after.len() == conns.len() + 1
                    &&& after.drop_last() == conns
                    &&& c.peer.cid == peer.cid && c.peer.port == peer.port
                    &&& c.local_port == local_port
                    &&& c.state == VsockConnectionState::TipcConnecting
                    &&& c.tipc_port_name == Some(
                        vstd::utf8::encode_utf8(port_name(f, local_port)->Some_0),
                    )
                    &&& c.href.addr == href_addr && c.href.cookie == href_addr
                    &&& c.href.id == peer.port && c.href.emask == 0xffff_ffff
                    &&& c.rx_pending == 0 && c.rx_buffer.len() == 8192
                    &&& c.tx_count == 0 && c.tx_since_rx == 0 && c.rx_count == 0 && c.rx_since_tx
                        == 0
                },
                Err(e) => {
                    &&& after == conns
                    &&& next == RxStep::Done(
                        RxDone {
                            reset: Some(ResetTarget { peer, local_port }),
                            error: Some(e),
                            close_channel: None,
                        },
                    )
                },
            }
        }),
{
    let step = RxStep::ConnectNew { peer, local_port, href_addr };
    let after = rx_next(f, conns, step, input).0;
    if input->Attached_0 is Ok {
        assert(after.drop_last() =~= conns);
    }
}

/// Only the connection that a step works on changes, and its ends never do.
pub proof fn law_steps_leave_other_connections_alone(
    f: Features,
    conns: Seq<ConnectionView>,
    step: RxStep,
    input: RxInput,
    index: usize,
    j: int,
)
    requires
        0 <= j < conns.len(),
        index < conns.len(),
        step == (RxStep::ConnectNamed { index }) || step == (RxStep::Attach { index }) || (
        step matches RxStep::ReceiveName { index: k, .. } && k == index) || (
        step matches RxStep::ReceiveData { index: k, .. } && k == index) || step
            == (RxStep::SendPending { index }) || step == (RxStep::UpdateCredit { index }),
        !(rx_next(f, conns, step, input).1 matches RxStep::Done(end) && end.reset is Some),
    ensures
        ({
            let after = rx_next(f, conns, step, input).0;
            &&& after.len() == conns.len()
            &&& j != index ==> after[j] == conns[j]
            &&& after[j].peer == conns[j].peer && after[j].local_port == conns[j].local_port
            &&& after[j].href.addr == conns[j].href.addr
            &&& after[j].tx_count == conns[j].tx_count
        }),
{
}

/// A connection whose step fails is reset for the reason that the kernel gave: the peer is told, the
/// channel is closed and the connection is taken off the list. A step that succeeds resets nothing.
pub proof fn law_failed_steps_reset_their_connection(
    f: Features,
    conns: Seq<ConnectionView>,
    step: RxStep,
    input: RxInput,
    index: usize,
)
    requires
        index < conns.len(),
        step == (RxStep::ConnectNamed { index }) || step == (RxStep::Attach { index }),
        input is Attached,
    ensures
        ({
            let (after, next) = rx_next(f, conns, step, input);
            let c = conns[index as int];
            let channel_is_open = {
                ||| c.state == VsockConnectionState::Active
                ||| c.state == VsockConnectionState::TipcConnecting
                ||| c.state == VsockConnectionState::TipcSendBlocked
                ||| c.state == VsockConnectionState::TipcOnly
            };
            match input->Attached_0 {
                Ok(()) => next == RxStep::Done(
                    RxDone { reset: None, error: None, close_channel: None },
                ),
                Err(e) => {
                    &&& next == RxStep::Done(
                        RxDone {
                            reset: Some(ResetTarget { peer: c.peer, local_port: c.local_port }),
                            error: Some(e),
                            close_channel: if channel_is_open {
                                Some(c.href.addr)
                            } else {
                                None
                            },
                        },
                    )
                    &&& channel_is_open ==> after.to_multiset().insert(c) == conns.to_multiset()
                },
            }
        }),
{
    lemma_removed(conns, index as int);
}

/// A connection whose channel was attached for its peer is active, and one that was connected to the
/// service that it named waits until the service is ready.
pub proof fn law_attached_connections(
    f: Features,
    conns: Seq<ConnectionView>,
    index: usize,
    input: RxInput,
)
    requires
        index < conns.len(),
        input is Attached,
        input->Attached_0 is Ok,
    ensures
        rx_next(f, conns, RxStep::Attach { index }, input).0[index as int] == (ConnectionView {
            state: VsockConnectionState::Active,
            ..conns[index as int]
        }),
        rx_next(f, conns, RxStep::ConnectNamed { index }, input).0 == conns,
{
}

/// The first data of a connection names its service: without a newline at the end, all of it is the
/// name. The connection then waits for that service, whose events find it.
pub proof fn law_first_data_names_the_service(
    f: Features,
    conns: Seq<ConnectionView>,
    index: usize,
    length: usize,
    input: RxInput,
)
    requires
        index < conns.len(),
        input is Data,
        input->Data_0@.len() > 0,
    ensures
        ({
            let data = input->Data_0@;
            let n = data.len() as int;
            let (after, next) = rx_next(f, conns, RxStep::ReceiveName { index, length }, input);
            let (b, c) = (conns[index as int], after[index as int]);
            &&& next == (RxStep::ConnectNamed { index })
            &&& c.tipc_port_name matches Some(name) && name == if data[n - 1] == 10 {
                data.take(n - 1)
            } else {
                data
            }
            &&& c.state == VsockConnectionState::TipcConnecting
            &&& c.href.cookie == b.href.addr && c.href.id == b.peer.port && c.href.emask
                == 0xffff_ffff
            &&& c.rx_pending == b.rx_pending && c.rx_buffer == b.rx_buffer
            &&& c.rx_count == b.rx_count && c.rx_since_tx == b.rx_since_tx && c.tx_since_rx
                == b.tx_since_rx
        }),
{
    let data = input->Data_0@;
    assert(data.take(data.len() - 1) =~= data.drop_last());
}

/// What a peer sends to an active connection is handed on to the service byte for byte, and counted,
/// whatever was in the buffer before.
pub proof fn law_data_is_handed_on(
    f: Features,
    conns: Seq<ConnectionView>,
    index: usize,
    length: usize,
    input: RxInput,
)
    requires
        index < conns.len(),
        conns[index as int].rx_buffer.len() == 8192,
        input is Data,
        input->Data_0@.len() <= 8192,
        conns[index as int].rx_count < u64::MAX,
        conns[index as int].rx_since_tx < u64::MAX,
    ensures
        ({
            let data = input->Data_0@;
            let (after, next) = rx_next(f, conns, RxStep::ReceiveData { index, length }, input);
            let (b, c) = (conns[index as int], after[index as int]);
            &&& next == (RxStep::SendPending { index })
            &&& c.rx_pending == data.len()
            &&& c.rx_buffer.len() == 8192
            &&& forall|k: int| 0 <= k < data.len() ==> c.rx_buffer[k] == data[k]
            &&& c.pending() == data
            &&& c.state == b.state && c.href == b.href && c.tipc_port_name == b.tipc_port_name
            &&& c.rx_count == b.rx_count + 1 && c.rx_since_tx == b.rx_since_tx + 1
            &&& c.tx_since_rx == b.tx_since_rx
        }),
{
    let data = input->Data_0@;
    let c = rx_next(f, conns, RxStep::ReceiveData { index, length }, input).0[index as int];
    assert(c.pending() =~= data);
}

/// What sending the pending bytes to a service comes to, for a receive turn: a service without room
/// leaves the bytes where they are and blocks the connection, a service that took all of them makes it
/// active again with nothing pending, and anything else resets it.
pub proof fn law_sent_data_is_accounted_for(
    f: Features,
    conns: Seq<ConnectionView>,
    index: usize,
    ret: i32,
)
    requires
        index < conns.len(),
    ensures
        ({
            let (after, next) = rx_next(
                f,
                conns,
                RxStep::SendPending { index },
                RxInput::Sent(ret),
            );
            let b = conns[index as int];
            &&& next == (RxStep::UpdateCredit { index }) <==> ret == -9 || ret == b.rx_pending
            &&& ret == -9 ==> after[index as int] == (ConnectionView {
                state: VsockConnectionState::TipcSendBlocked,
                ..b
            })
            &&& ret == b.rx_pending ==> after[index as int] == (ConnectionView {
                state: VsockConnectionState::Active,
                rx_pending: 0,
                tx_since_rx: 0,
                ..b
            })
            &&& ret != -9 && ret != b.rx_pending ==> {
                &&& next matches RxStep::Done(end)
                &&& end.reset == Some(ResetTarget { peer: b.peer, local_port: b.local_port })
                &&& ret >= 0 ==> end.error == Some(LkError::BadLen)
                &&& ret < 0 ==> (end.error matches Some(e) && e.code_spec() == ret)
            }
        }),
{
}

/// Nothing is left to do once the peer was told how much room there is, or once an event that was put
/// off has waited a little.
pub proof fn law_last_steps_change_nothing(
    f: Features,
    conns: Seq<ConnectionView>,
    step: RxStep,
)
    requires
        step is UpdateCredit || step is Sleep,
    ensures
        rx_next(f, conns, step, RxInput::Nothing) == (
            conns,
            RxStep::Done(RxDone { reset: None, error: None, close_channel: None }),
        ),
{
}

/// Data reaches its service: once the service took what an active connection received, the connection
/// is active with nothing pending, and what the service was given is what the peer sent. If the service
/// had no room, the connection keeps the data, further data is put off, and the next event that says
/// that there is room has the same data sent.
pub proof fn law_data_reaches_the_service(
    f: Features,
    conns: Seq<ConnectionView>,
    pending: Seq<VsockEvent>,
    event: VsockEvent,
    later: VsockEvent,
    i: int,
    length: usize,
    more: usize,
    input: RxInput,
    no_room: i32,
    emask: u32,
)
    requires
        no_room == -9,
        conns.len() <= usize::MAX,
        0 <= i < conns.len(),
        conns[i].peer.cid == event.source.cid,
        conns[i].peer.port == event.source.port,
        conns[i].local_port == event.destination.port,
        forall|j: int|
            0 <= j < i ==> !((#[trigger] conns[j]).peer.cid == event.source.cid
                && conns[j].peer.port == event.source.port && conns[j].local_port
                == event.destination.port),
        conns[i].state == VsockConnectionState::Active,
        conns[i].rx_buffer.len() == 8192,
        conns[i].rx_count < u64::MAX,
        conns[i].rx_since_tx < u64::MAX,
        event.event_type == (VsockEventType::Received { length }),
        length <= 8192,
        input is Data,
        input->Data_0@.len() == length,
        later.event_type == (VsockEventType::Received { length: more }),
        later.source == event.source,
        later.destination == event.destination,
        emask & 1 == 0,
        emask & 8 == 0,
        emask & 16 != 0,
    ensures
        ({
            let index = i as usize;
            let start = rx_start(f, conns, pending, event, 0);
            let (held, send) = rx_next(f, start.conns, start.step, input);
            let sent = rx_next(f, held, send, RxInput::Sent(length as i32));
            let blocked = rx_next(f, held, send, RxInput::Sent(no_room));
            let put_off = rx_start(f, blocked.0, pending, later, 0);
            let retry = tx_start(f, blocked.0[i], emask);
            &&& start.pending == pending
            &&& send == (RxStep::SendPending { index })
            &&& held[i].pending() == input->Data_0@
            &&& sent.1 == (RxStep::UpdateCredit { index })
            &&& sent.0[i].state == VsockConnectionState::Active
            &&& sent.0[i].rx_pending == 0
            &&& blocked.1 == (RxStep::UpdateCredit { index })
            &&& blocked.0[i].pending() == input->Data_0@
            &&& put_off.step == RxStep::Sleep
            &&& put_off.conns == blocked.0
            &&& put_off.pending == pending.push(later)
            &&& retry.1 == TxStep::SendPending
            &&& retry.0.pending() == input->Data_0@
        }),
{
    law_received_data_follows_the_state(f, conns, pending, event, length, 0, i);
    let index = i as usize;
    let start = rx_start(f, conns, pending, event, 0);
    law_data_is_handed_on(f, start.conns, index, length, input);
    let (held, send) = rx_next(f, start.conns, start.step, input);
    law_sent_data_is_accounted_for(f, held, index, length as i32);
    law_sent_data_is_accounted_for(f, held, index, no_room);
    let blocked = rx_next(f, held, send, RxInput::Sent(no_room)).0;
    assert forall|j: int| 0 <= j < i implies !((#[trigger] blocked[j]).peer.cid
        == later.source.cid && blocked[j].peer.port == later.source.port && blocked[j].local_port
        == later.destination.port) by {
        assert(blocked[j] == conns[j]);
    }
    law_received_data_follows_the_state(f, blocked, pending, later, more, 0, i);
    law_transmit_turn_starts(f, blocked[i], emask);
}

/// The start of a transmit turn: a service that became ready makes the connection active, and nothing
/// else changes. The peer is told first if it waits for that, which it does on port zero. Then comes
/// the first of these that the event asks for: to take a message, to send what is pending, to shut the
/// connection down, or to end the turn.
pub proof fn law_transmit_turn_starts(f: Features, c: ConnectionView, emask: u32)
    ensures
        ({
            let (after, step) = tx_start(f, c, emask);
            let told = emask & 1 != 0 && c.local_port == 0;
            &&& emask & 1 != 0 ==> after == (ConnectionView {
                state: VsockConnectionState::Active,
                ..c
            })
            &&& emask & 1 == 0 ==> after == c
            &&& step == TxStep::SendStatus <==> told
            &&& step == TxStep::GetMsg <==> !told && emask & 8 != 0
            &&& step == TxStep::SendPending <==> !told && emask & 8 == 0 && emask & 16 != 0
            &&& step == TxStep::Shutdown <==> !told && emask & 8 == 0 && emask & 16 == 0 && emask
                & 4 != 0
            &&& step == TxStep::Done(ConnectionStateAction::Keep) <==> !told && emask & 8 == 0
                && emask & 16 == 0 && emask & 4 == 0
        }),
{
    law_only_port_zero_expects_name(f, c.local_port);
}

/// A message is sent to the peer if and only if it was looked at and all of it was read, whatever the
/// connection has sent or received before.
pub proof fn law_messages_are_sent_iff_read(
    c: ConnectionView,
    emask: u32,
    step: TxStep,
    input: TxInput,
    len: usize,
)
    ensures
        tx_next(c, emask, step, input).1 == (TxStep::SendMsg { len }) <==> step
            == (TxStep::ReadMsg { len }) && (input matches TxInput::MsgRead { ret } && ret == len),
        tx_next(c, emask, step, input).1 == (TxStep::ReadMsg { len }) <==> step == TxStep::GetMsg
            && input == (TxInput::MsgInfo { ret: 0, len }),
{
}

/// A message that is sent is counted, and nothing but a message is.
pub proof fn law_messages_are_counted(
    c: ConnectionView,
    emask: u32,
    step: TxStep,
    input: TxInput,
)
    requires
        c.tx_count < u64::MAX,
        c.tx_since_rx < u64::MAX,
    ensures
        ({
            let (after, next) = tx_next(c, emask, step, input);
            &&& next is SendMsg ==> {
                &&& after.tx_count == c.tx_count + 1
                &&& after.tx_since_rx == c.tx_since_rx + 1
                &&& after.rx_since_tx == 0
                &&& after.state == c.state && after.rx_pending == c.rx_pending
            }
            &&& !(next is SendMsg) ==> after.tx_count == c.tx_count && after.rx_since_tx
                == c.rx_since_tx
            &&& !(next is SendMsg) && step != TxStep::SendPending ==> after == c
            &&& after.peer == c.peer && after.local_port == c.local_port && after.href == c.href
            &&& after.rx_buffer == c.rx_buffer && after.tipc_port_name == c.tipc_port_name
            &&& after.rx_count == c.rx_count
        }),
{
}

/// Every part of an event is dealt with, in order: after the peer was told comes a message, if there
/// is one; after a message, or one that could not be read, comes what is pending, if there is room for
/// it; after that the connection is shut down, if its channel was closed. Only then the turn ends.
pub proof fn law_transmit_turn_goes_on(
    c: ConnectionView,
    emask: u32,
    step: TxStep,
    input: TxInput,
)
    ensures
        ({
            let next = tx_next(c, emask, step, input).1;
            let told = step == TxStep::SendStatus && input == TxInput::Sent;
            let no_message = step == TxStep::GetMsg && (input matches TxInput::MsgInfo { ret, .. }
                && ret != 0);
            let not_read = step is ReadMsg && (input matches TxInput::MsgRead { ret } && ret
                != step->ReadMsg_len);
            let message_sent = step is SendMsg && input == TxInput::Sent;
            let messages_done = no_message || not_read || message_sent || (told && emask & 8 == 0);
            let pending_done = step == TxStep::SendPending && input is PendingSent;
            &&& next == TxStep::GetMsg <==> told && emask & 8 != 0
            &&& next == TxStep::SendPending <==> messages_done && emask & 16 != 0
            &&& next == TxStep::Shutdown <==> emask & 4 != 0 && (pending_done || (messages_done
                && emask & 16 == 0))
            &&& next == TxStep::Done(ConnectionStateAction::Close) <==> step == TxStep::Shutdown
                && input == (TxInput::ShutDown { ok: true })
            &&& next != TxStep::Done(ConnectionStateAction::Remove)
            &&& next != TxStep::SendStatus
        }),
{
}

/// What sending the pending bytes to a service comes to, for a transmit turn: a service that still has
/// no room leaves them where they are, one that took all of them makes the connection active with
/// nothing pending, and after any other answer the connection is as it was.
pub proof fn law_pending_data_is_sent_once(
    c: ConnectionView,
    emask: u32,
    ret: i32,
)
    ensures
        ({
            let after = tx_next(c, emask, TxStep::SendPending, TxInput::PendingSent { ret }).0;
            &&& ret == -9 ==> after == (ConnectionView {
                state: VsockConnectionState::TipcSendBlocked,
                ..c
            })
            &&& ret == c.rx_pending ==> after == (ConnectionView {
                state: VsockConnectionState::Active,
                rx_pending: 0,
                tx_since_rx: 0,
                ..c
            })
            &&& ret != -9 && ret != c.rx_pending ==> after == c
        }),
{
}

/// Whom an event of a handle is for. The stop handle comes first, then the first connection whose
/// reference has the cookie, and then the first of the ports with this handle, from the first port
/// on: a client is accepted there exactly if the event says that there is one.
pub proof fn law_events_reach_their_target(
    conns: Seq<ConnectionView>,
    event: HandleEvent,
    stop: Option<u64>,
    ports: Seq<u64>,
    i: int,
)
    requires
        conns.len() <= usize::MAX,
        ports.len() <= usize::MAX,
    ensures
        ({
            let target = target_of(conns, event, stop, ports);
            let known = exists|j: int|
                0 <= j < conns.len() && (#[trigger] conns[j]).href.addr == event.cookie;
            let stopped = stop matches Some(handle) && handle == event.handle;
            &&& target == TxTarget::Stop <==> stopped
            &&& !stopped && 0 <= i < conns.len() && conns[i].href.addr == event.cookie && (forall|
                j: int,
            |
                0 <= j < i ==> (#[trigger] conns[j]).href.addr != event.cookie) ==> target
                == TxTarget::Connection(i as usize)
            &&& target is Connection ==> known
            &&& !stopped && !known && 0 <= i < ports.len() && ports[i] == event.handle && (forall|
                j: int,
            | 0 <= j < i ==> #[trigger] ports[j] != event.handle) ==> target == if event.emask & 1
                != 0 {
                TxTarget::Accept(i as usize)
            } else {
                TxTarget::Nobody
            }
            &&& target == TxTarget::Nobody && event.emask & 1 != 0 && 0 <= i < ports.len()
                ==> ports[i] != event.handle
            &&& target matches TxTarget::Accept(k) ==> !known && k < ports.len() && ports[k as int]
                == event.handle && event.emask & 1 != 0
        }),
{
    lemma_first_cookie(conns, event.cookie, 0);
    lemma_first_handle(ports, event.handle, 0);
    if let Some(k) = find_cookie(conns, event.cookie, 0) {
        assert(conns[k as int].href.addr == event.cookie);
    }
}

proof fn lemma_first_handle(handles: Seq<u64>, handle: u64, i: nat)
    ensures
        match tx::find_handle(handles, handle, i) {
            Some(k) => {
                &&& i <= k < handles.len()
                &&& handles[k as int] == handle
                &&& forall|j: int| i <= j < k ==> #[trigger] handles[j] != handle
            },
            None => forall|j: int| i <= j < handles.len() ==> #[trigger] handles[j] != handle,
        },
    decreases handles.len() - i,
{
    if i < handles.len() {
        lemma_first_handle(handles, handle, i + 1);
    }
}

/// The connection of a client that was accepted is between the peer of the port and the local port
/// that was picked. It has the name of the port, waits for the peer, and is found by the events of the
/// client.
pub proof fn law_accepted_clients_are_connected(m: MappingView, src_port: u32, href_addr: u64)
    ensures
        ({
            let c = accepted(m, src_port, href_addr);
            &&& c.peer.cid == m.addr.cid && c.peer.port == m.addr.port
            &&& c.local_port == src_port
            &&& c.state == VsockConnectionState::TipcOnly
            &&& c.tipc_port_name == Some(vstd::utf8::encode_utf8(m.name))
            &&& c.href.addr == href_addr && c.href.cookie == href_addr
            &&& c.href.id == m.addr.port && c.href.emask == 0xffff_ffff
            &&& c.rx_pending == 0 && c.rx_buffer.len() == 8192
            &&& c.tx_count == 0 && c.tx_since_rx == 0 && c.rx_count == 0 && c.rx_since_tx == 0
        }),
{
}

/// A client may connect to a port exactly if the port lists no clients, or lists this one.
pub proof fn law_listed_clients_are_allowed(m: MappingView, uuid: Uuid)
    ensures
        m.allows(uuid) <==> m.allowed_uuids.len() == 0 || exists|i: int|
            0 <= i < m.allowed_uuids.len() && #[trigger] m.allowed_uuids[i] == uuid,
{
}

/// Each forwarded port is there exactly if its part of the build is, in a fixed order, and it is the
/// same in every build. All of them are reached through the secure partition.
pub proof fn law_forwarded_ports_follow_the_build(f: Features, g: Features)
    ensures
        mappings(f).len() == (if f.tipc_vsock_forwarder {
            1int
        } else {
            0
        }) + (if f.tipc_vsock_authmgr {
            1int
        } else {
            0
        }),
        f.tipc_vsock_forwarder ==> mappings(f)[0].addr.port == 0 && mappings(
            f,
        )[0].allowed_uuids.len() == 0,
        f.tipc_vsock_authmgr ==> mappings(f).last().addr.port == 1 && mappings(
            f,
        ).last().allowed_uuids.len() == 3,
        f.tipc_vsock_forwarder && g.tipc_vsock_forwarder ==> mappings(f)[0] == mappings(g)[0],
        f.tipc_vsock_authmgr && g.tipc_vsock_authmgr ==> mappings(f).last() == mappings(g).last(),
        forall|i: int|
            0 <= i < mappings(f).len() ==> (#[trigger] mappings(f)[i]).addr.cid == 2 && mappings(
                f,
            )[i].transport_kind == TransportKind::DriverFFAMsg(0x8001),
{
}

/// A port for which nothing fails is created, published, attached and then open. One that fails is
/// closed if there is something to close, and is not used.
pub proof fn law_ports_are_opened_step_by_step(step: PortStep, ok: bool)
    ensures
        port_step_after(step, ok) == PortStep::Publish <==> step == PortStep::Create && ok,
        port_step_after(step, ok) == PortStep::Attach <==> step == PortStep::Publish && ok,
        port_step_after(step, ok) == PortStep::Open <==> step == PortStep::Open || (step
            == PortStep::Attach && ok),
        port_step_after(step, ok) == PortStep::Close <==> !ok && (step == PortStep::Publish || step
            == PortStep::Attach),
        port_step_after(step, ok) != PortStep::Create,
{
}

/// What closing a connection does to it. A channel that is open is closed, and is not found by events
/// any more. A connection that TIPC closed waits for its peer, and one that is to be removed does not.
pub proof fn law_closing_a_connection(c: ConnectionView, action: ConnectionStateAction)
    ensures
        ({
            let after = c.closed(action);
            let channel_is_open = {
                ||| c.state == VsockConnectionState::Active
                ||| c.state == VsockConnectionState::TipcConnecting
                ||| c.state == VsockConnectionState::TipcSendBlocked
                ||| c.state == VsockConnectionState::TipcOnly
            };
            let waits = channel_is_open || c.state == VsockConnectionState::VsockOnly || c.state
                == VsockConnectionState::TipcClosed;
            &&& c.has_channel() <==> channel_is_open
            &&& waits ==> after.state == if action == ConnectionStateAction::Remove {
                VsockConnectionState::Closed
            } else {
                VsockConnectionState::TipcClosed
            }
            &&& !waits ==> after.state == c.state
            &&& after.href.cookie == if channel_is_open {
                0
            } else {
                c.href.cookie
            }
            &&& after == (ConnectionView { state: after.state, href: after.href, ..c })
            &&& after.href.addr == c.href.addr && after.href.id == c.href.id && after.href.emask
                == c.href.emask
            &&& after.is_gone() <==> after.state == VsockConnectionState::Closed
                && after.href.cookie == 0
        }),
{
}

/// What an action does to the list: to keep a connection changes nothing, to close one leaves it on
/// the list without its channel, and to remove one takes it off the list. The channel is closed exactly
/// if it was open.
pub proof fn law_actions_on_the_list(
    conns: Seq<ConnectionView>,
    i: int,
    action: ConnectionStateAction,
)
    requires
        0 <= i < conns.len(),
        conns[i].state == VsockConnectionState::Active || conns[i].state
            == VsockConnectionState::TipcConnecting || conns[i].state
            == VsockConnectionState::TipcSendBlocked || conns[i].state
            == VsockConnectionState::TipcOnly,
    ensures
        ({
            let after = after_action(conns, i, action);
            let channel = channel_to_close(conns, i, action);
            match action {
                ConnectionStateAction::Keep => after == conns && channel is None,
                ConnectionStateAction::Close => {
                    &&& channel == Some(conns[i].href.addr)
                    &&& after.len() == conns.len()
                    &&& forall|j: int| 0 <= j < conns.len() && j != i ==> after[j] == conns[j]
                    &&& after[i].state == VsockConnectionState::TipcClosed
                    &&& after[i].peer == conns[i].peer && after[i].local_port
                        == conns[i].local_port
                    &&& after[i].href.cookie == 0
                },
                ConnectionStateAction::Remove => {
                    &&& channel == Some(conns[i].href.addr)
                    &&& after.len() == conns.len() - 1
                    &&& after.to_multiset().insert(conns[i]) == conns.to_multiset()
                },
            }
        }),
{
    lemma_removed(conns, i);
}

/// When all connections are closed, the channels to close are those of exactly the connections that
/// have one, in the order of the list.
pub proof fn law_all_channels_are_closed(conns: Seq<ConnectionView>, n: nat, addr: u64)
    requires
        n <= conns.len(),
    ensures
        channels(conns, n).contains(addr) <==> exists|i: int|
            0 <= i < n && (#[trigger] conns[i]).href.addr == addr && (conns[i].state
                == VsockConnectionState::Active || conns[i].state
                == VsockConnectionState::TipcConnecting || conns[i].state
                == VsockConnectionState::TipcSendBlocked || conns[i].state
                == VsockConnectionState::TipcOnly),
        channels(conns, n).len() <= n,
        (forall|i: int|
            0 <= i < n ==> (#[trigger] conns[i]).state == VsockConnectionState::Active)
            ==> channels(conns, n).len() == n && forall|i: int|
            0 <= i < n ==> channels(conns, n)[i] == (#[trigger] conns[i]).href.addr,
    decreases n,
{
    if n > 0 {
        let last = n - 1;
        let rest = channels(conns, last as nat);
        let all = channels(conns, n);
        law_all_channels_are_closed(conns, last as nat, addr);
        if rest.contains(addr) {
            let k = rest.index_of(addr);
            assert(all[k] == addr);
        }
        if all.contains(addr) {
            let k = all.index_of(addr);
            if k < rest.len() {
                assert(rest[k] == addr);
            }
        }
        if all.len() > rest.len() {
            assert(all.last() == conns[last].href.addr);
            assert(all[rest.len() as int] == all.last());
        }
    }
}

/// A receive turn can start with every event but a request for credit, which the vsock driver answers.
/// Only the data of a connection on the list has to meet a limit: a name has at least one byte and
/// fits in a TIPC path, and can only come to port zero, and data for an active connection fits in the
/// receive buffer.
pub proof fn law_receive_turn_can_start(
    f: Features,
    conns: Seq<ConnectionView>,
    event: VsockEvent,
    i: int,
)
    ensures
        event.event_type == VsockEventType::ConnectionRequest || event.event_type
            == VsockEventType::Connected || event.event_type == VsockEventType::Disconnected
            || event.event_type == VsockEventType::CreditUpdate ==> rx::can_start(f, conns, event),
        event.event_type == VsockEventType::CreditRequest ==> !rx::can_start(f, conns, event),
        (forall|j: int|
            0 <= j < conns.len() ==> !((#[trigger] conns[j]).peer.cid == event.source.cid
                && conns[j].peer.port == event.source.port && conns[j].local_port
                == event.destination.port)) && event.event_type is Received ==> rx::can_start(
            f,
            conns,
            event,
        ),
        event.event_type is Received && 0 <= i < conns.len() && conns[i].peer.cid
            == event.source.cid && conns[i].peer.port == event.source.port && conns[i].local_port
            == event.destination.port && (forall|j: int|
            0 <= j < i ==> !((#[trigger] conns[j]).peer.cid == event.source.cid
                && conns[j].peer.port == event.source.port && conns[j].local_port
                == event.destination.port)) ==> {
            let length = event.event_type->length;
            rx::can_start(f, conns, event) <==> {
                &&& conns[i].state == VsockConnectionState::VsockOnly ==> 0 < length < 64
                    && event.destination.port == 0
                &&& conns[i].state == VsockConnectionState::Active ==> length <= 8192
            }
        },
{
    lemma_first_peer(conns, event.source, event.destination.port, 0);
    law_only_port_zero_expects_name(f, event.destination.port);
}

/// A receive turn can go on with whatever the kernel returned for a step: any result of attaching a
/// channel and any return value of sending, and as many bytes as were announced. The name of a service
/// must not have a zero byte, and the counters must not be at their limit.
pub proof fn law_receive_turn_can_go_on(
    f: Features,
    conns: Seq<ConnectionView>,
    index: usize,
    length: usize,
    peer: VsockAddr,
    local_port: u32,
    href_addr: u64,
    input: RxInput,
)
    requires
        index < conns.len(),
    ensures
        input is Attached ==> rx::can_resume(f, conns, RxStep::ConnectNamed { index }, input)
            && rx::can_resume(f, conns, RxStep::Attach { index }, input),
        input is Attached && port_name(f, local_port) is Some ==> rx::can_resume(
            f,
            conns,
            RxStep::ConnectNew { peer, local_port, href_addr },
            input,
        ),
        input is Sent ==> rx::can_resume(f, conns, RxStep::SendPending { index }, input),
        input is Nothing ==> rx::can_resume(f, conns, RxStep::UpdateCredit { index }, input)
            && rx::can_resume(f, conns, RxStep::Sleep, input),
        length <= 8192 && (input matches RxInput::Data(data) && data@.len() == length)
            && conns[index as int].rx_count < u64::MAX && conns[index as int].rx_since_tx
            < u64::MAX ==> rx::can_resume(
            f,
            conns,
            RxStep::ReceiveData { index, length },
            input,
        ),
        0 < length < 64 && (input matches RxInput::Data(data) && data@.len() == length && forall|
            k: int,
        |
            0 <= k < length ==> #[trigger] data@[k] != 0) ==> rx::can_resume(
            f,
            conns,
            RxStep::ReceiveName { index, length },
            input,
        ),
{
}

/// A transmit turn can start with every event that has the id of the connection, as long as only a
/// connection that waits for its service becomes ready, and only one that is blocked gets room.
pub proof fn law_transmit_turn_can_start(f: Features, c: ConnectionView, event: HandleEvent)
    ensures
        tx::can_start(f, c, event) <==> {
            &&& event.id == c.href.id
            &&& event.emask & 1 != 0 ==> c.state == VsockConnectionState::TipcConnecting
            &&& event.emask & 8 == 0 && event.emask & 16 != 0 && !(event.emask & 1 != 0
                && c.local_port == 0) ==> event.emask & 1 == 0 && c.state
                == VsockConnectionState::TipcSendBlocked && c.rx_pending != 0
        },
{
    law_only_port_zero_expects_name(f, c.local_port);
}

/// A transmit turn can go on with whatever the kernel returned for a step, as long as no room is
/// reported for a connection that is not blocked. A message that was read fits in a page, and the
/// counters must not be at their limit.
pub proof fn law_transmit_turn_can_go_on(
    c: ConnectionView,
    emask: u32,
    len: usize,
    ret: i32,
    ok: bool,
)
    requires
        emask & 16 == 0 || (c.state == VsockConnectionState::TipcSendBlocked && c.rx_pending != 0),
        c.tx_count < u64::MAX,
        c.tx_since_rx < u64::MAX,
    ensures
        tx::can_resume(c, emask, TxStep::SendStatus, TxInput::Sent),
        tx::can_resume(c, emask, TxStep::GetMsg, TxInput::MsgInfo { ret, len }),
        len <= 4096 ==> tx::can_resume(c, emask, TxStep::ReadMsg { len }, TxInput::MsgRead { ret }),
        tx::can_resume(c, emask, TxStep::SendMsg { len }, TxInput::Sent),
        tx::can_resume(c, emask, TxStep::SendPending, TxInput::PendingSent { ret }),
        tx::can_resume(c, emask, TxStep::Shutdown, TxInput::ShutDown { ok }),
{
}

} // verus!
