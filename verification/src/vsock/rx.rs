//! The receive side.

use std::collections::VecDeque;

use vstd::prelude::*;

use crate::error::LkError;
use crate::vsock::connection::{
    after_action, all_wf, channel_to_close, channels, find_peer, is_between, lemma_find_peer, views,
    vsock_connection_apply, vsock_connection_close_all, vsock_connection_lookup_peer,
    ConnectionStateAction, ConnectionView, VsockConnection, VsockConnectionState, RX_BUFFER_LEN,
};
use crate::vsock::ports::{
    expects_name, get_port_name, port_expects_name, port_name, Features, VsockAddr,
    IPC_PORT_PATH_MAX,
};
use crate::vsock::{VsockDevice, VsockRxEvent};

verus! {

/// What happened to a vsock connection.
#[derive(Clone, Copy, Debug, PartialEq, Eq, Structural)]
pub enum VsockEventType {
    /// A peer wants to connect.
    ConnectionRequest,
    /// A peer accepted a connection.
    Connected,
    /// `length` bytes came in.
    Received { length: usize },
    /// The connection is gone.
    Disconnected,
    /// The peer said how much room it has.
    CreditUpdate,
    /// The peer asked how much room there is.
    CreditRequest,
}

/// An event of a vsock connection.
#[derive(Clone, Copy, Debug, PartialEq, Eq, Structural)]
pub struct VsockEvent {
    pub source: VsockAddr,
    pub destination: VsockAddr,
    pub event_type: VsockEventType,
    /// How much room the peer has, and how much of it is used.
    pub buffer_allocation: u32,
    pub forward_count: u32,
}

/// A connection that has to be reset.
#[derive(Clone, Copy, Debug, PartialEq, Eq, Structural)]
pub struct ResetTarget {
    pub peer: VsockAddr,
    pub local_port: u32,
}

/// How a turn ends.
#[derive(Clone, Copy, Debug, PartialEq, Eq, Structural)]
pub struct RxDone {
    /// The connection that has to be reset.
    pub reset: Option<ResetTarget>,
    /// Why it has to be reset.
    pub error: Option<LkError>,
    /// The handle reference whose channel has to be detached and closed.
    pub close_channel: Option<u64>,
}

/// What has to be done next in a turn.
#[derive(Clone, Copy, Debug, PartialEq, Eq, Structural)]
pub enum RxStep {
    /// Connect a new connection to the service of its port, and attach the channel. If the channel
    /// cannot be attached, close it.
    ConnectNew { peer: VsockAddr, local_port: u32, href_addr: u64 },
    /// Connect a connection to the service that it named, and attach the channel. If the channel
    /// cannot be attached, close it.
    ConnectNamed { index: usize },
    /// Attach the channel of a connection.
    Attach { index: usize },
    /// Take `length` bytes of a connection, which are the name of a service.
    ReceiveName { index: usize, length: usize },
    /// Take `length` bytes of a connection.
    ReceiveData { index: usize, length: usize },
    /// Send the pending bytes of a connection to its channel.
    SendPending { index: usize },
    /// Tell the peer of a connection how much room there is.
    UpdateCredit { index: usize },
    /// Wait a little: the event was put off.
    Sleep,
    /// End the turn.
    Done(RxDone),
}

/// What a step returned.
#[derive(Debug)]
pub enum RxInput {
    /// Whether a channel was attached.
    Attached(Result<(), LkError>),
    /// The bytes that were taken.
    Data(Vec<u8>),
    /// The return value of sending to a channel.
    Sent(i32),
    /// Nothing that matters.
    Nothing,
}

/// What one part of a turn comes to: the connections, the events that were put off, and the next
/// step.
#[verifier::ext_equal]
pub struct RxOutcome {
    pub conns: Seq<ConnectionView>,
    pub pending: Seq<VsockEvent>,
    pub step: RxStep,
}

/// The end of a turn that asks for nothing.
pub open spec fn done() -> RxStep {
    RxStep::Done(RxDone { reset: None, error: None, close_channel: None })
}

/// The end of a turn that resets a connection which is not on the list, because of `e`.
pub open spec fn reset(peer: VsockAddr, local_port: u32, e: LkError) -> RxStep {
    RxStep::Done(
        RxDone {
            reset: Some(ResetTarget { peer, local_port }),
            error: Some(e),
            close_channel: None,
        },
    )
}

/// The end of a turn in which connection `i` is removed.
pub open spec fn removed(conns: Seq<ConnectionView>, i: int) -> RxStep {
    RxStep::Done(
        RxDone {
            reset: None,
            error: None,
            close_channel: channel_to_close(conns, i, ConnectionStateAction::Remove),
        },
    )
}

/// The end of a turn in which connection `i` failed with `e`: it is reset, closed and removed.
pub open spec fn failed(conns: Seq<ConnectionView>, i: int, e: LkError) -> RxStep {
    RxStep::Done(
        RxDone {
            reset: Some(ResetTarget { peer: conns[i].peer, local_port: conns[i].local_port }),
            error: Some(e),
            close_channel: channel_to_close(conns, i, ConnectionStateAction::Remove),
        },
    )
}

/// The list without connection `i`, which failed or was given up.
pub open spec fn after_remove(conns: Seq<ConnectionView>, i: int) -> Seq<ConnectionView> {
    after_action(conns, i, ConnectionStateAction::Remove)
}

/// A request for a connection: it is refused if there is such a connection or no such port. If the
/// port has a service of its own, the service is connected first.
pub open spec fn on_request(
    f: Features,
    conns: Seq<ConnectionView>,
    peer: VsockAddr,
    local_port: u32,
    href_addr: u64,
) -> (Seq<ConnectionView>, RxStep) {
    if find_peer(conns, peer, local_port, 0) is Some {
        (conns, reset(peer, local_port, LkError::AlreadyExists))
    } else if port_name(f, local_port) is None {
        (conns, reset(peer, local_port, LkError::OutOfRange))
    } else if expects_name(f, local_port) {
        (conns.push(ConnectionView::fresh(peer, local_port, href_addr)), done())
    } else {
        (conns, RxStep::ConnectNew { peer, local_port, href_addr })
    }
}

/// Whether data for a connection in `state` is put off: its channel is not ready, and the peer did
/// not have to wait for it.
pub open spec fn puts_off(f: Features, state: VsockConnectionState, local_port: u32) -> bool {
    state == VsockConnectionState::TipcSendBlocked || (state == VsockConnectionState::TipcConnecting
        && !expects_name(f, local_port))
}

/// Data for connection `i`. What is done with it depends on how far the connection has come: the
/// first data may name a service, and data that cannot be forwarded yet is put off.
pub open spec fn on_received(
    f: Features,
    conns: Seq<ConnectionView>,
    pending: Seq<VsockEvent>,
    i: int,
    event: VsockEvent,
    length: usize,
) -> RxOutcome {
    let state = conns[i].state;
    if state == VsockConnectionState::VsockOnly {
        RxOutcome { conns, pending, step: RxStep::ReceiveName { index: i as usize, length } }
    } else if state == VsockConnectionState::Active {
        RxOutcome { conns, pending, step: RxStep::ReceiveData { index: i as usize, length } }
    } else if puts_off(f, state, event.destination.port) {
        RxOutcome { conns, pending: pending.push(event), step: RxStep::Sleep }
    } else {
        RxOutcome {
            conns: after_remove(conns, i),
            pending,
            step: failed(conns, i, LkError::BadState),
        }
    }
}

/// The start of a turn.
pub open spec fn rx_start(
    f: Features,
    conns: Seq<ConnectionView>,
    pending: Seq<VsockEvent>,
    event: VsockEvent,
    href_addr: u64,
) -> RxOutcome {
    let local_port = event.destination.port;
    let found = find_peer(conns, event.source, local_port, 0);
    let ignored = RxOutcome { conns, pending, step: done() };
    match event.event_type {
        VsockEventType::ConnectionRequest => {
            let (after, step) = on_request(f, conns, event.source, local_port, href_addr);
            RxOutcome { conns: after, pending, step }
        },
        VsockEventType::Connected => match found {
            Some(i) => RxOutcome { conns, pending, step: RxStep::Attach { index: i as usize } },
            None => ignored,
        },
        VsockEventType::Received { length } => match found {
            Some(i) => on_received(f, conns, pending, i as int, event, length),
            None => ignored,
        },
        VsockEventType::Disconnected => match found {
            Some(i) => RxOutcome {
                conns: after_remove(conns, i as int),
                pending,
                step: removed(conns, i as int),
            },
            None => ignored,
        },
        _ => ignored,
    }
}

/// Whether a turn can be started with `event`. Requests for credit are answered by the vsock driver.
/// The name of a service has to fit in a TIPC path and can only be sent to a port that expects it,
/// and data has to fit in the receive buffer.
pub open spec fn can_start(f: Features, conns: Seq<ConnectionView>, event: VsockEvent) -> bool {
    &&& event.event_type != VsockEventType::CreditRequest
    &&& event.event_type matches VsockEventType::Received { length } ==> match find_peer(
        conns,
        event.source,
        event.destination.port,
        0,
    ) {
        Some(i) => {
            &&& conns[i as int].state == VsockConnectionState::VsockOnly ==> 0 < length
                < IPC_PORT_PATH_MAX && expects_name(f, event.destination.port)
            &&& conns[i as int].state == VsockConnectionState::Active ==> length <= RX_BUFFER_LEN
        },
        None => true,
    }
}

/// The name of a service in the bytes that a peer sent: a newline at the end is left out.
pub open spec fn service_name(data: Seq<u8>) -> Seq<u8> {
    if data.last() == 10 {
        data.drop_last()
    } else {
        data
    }
}

/// Whether a name can be handed over as a C string.
pub open spec fn is_c_string(name: Seq<u8>) -> bool {
    forall|i: int| 0 <= i < name.len() ==> #[trigger] name[i] != 0
}

/// A connection after `data` was received.
pub open spec fn received(c: ConnectionView, data: Seq<u8>) -> ConnectionView {
    ConnectionView {
        rx_buffer: data + c.rx_buffer.skip(data.len() as int),
        rx_pending: data.len() as usize,
        rx_count: (c.rx_count + 1) as u64,
        rx_since_tx: (c.rx_since_tx + 1) as u64,
        ..c
    }
}

/// The bytes of the name of the service behind `port`.
pub open spec fn port_name_bytes(f: Features, port: u32) -> Seq<u8> {
    vstd::utf8::encode_utf8(port_name(f, port).unwrap())
}

/// A new connection to the service of its port, while it waits for the channel.
pub open spec fn new_connecting(
    f: Features,
    peer: VsockAddr,
    local_port: u32,
    href_addr: u64,
) -> ConnectionView {
    ConnectionView {
        tipc_port_name: Some(port_name_bytes(f, local_port)),
        ..ConnectionView::fresh(peer, local_port, href_addr)
    }.connecting()
}

/// How a turn goes on after `step` returned `input`: the connections and the next step.
pub open spec fn rx_next(
    f: Features,
    conns: Seq<ConnectionView>,
    step: RxStep,
    input: RxInput,
) -> (Seq<ConnectionView>, RxStep) {
    match (step, input) {
        (RxStep::ConnectNew { peer, local_port, href_addr }, RxInput::Attached(
            result,
        )) => match result {
            Ok(()) => (conns.push(new_connecting(f, peer, local_port, href_addr)), done()),
            Err(e) => (conns, reset(peer, local_port, e)),
        },
        (RxStep::ConnectNamed { index }, RxInput::Attached(result)) => match result {
            Ok(()) => (conns, done()),
            Err(e) => (after_remove(conns, index as int), failed(conns, index as int, e)),
        },
        (RxStep::Attach { index }, RxInput::Attached(result)) => match result {
            Ok(()) => {
                let active = ConnectionView {
                    state: VsockConnectionState::Active,
                    ..conns[index as int]
                };
                (conns.update(index as int, active), done())
            },
            Err(e) => (after_remove(conns, index as int), failed(conns, index as int, e)),
        },
        (RxStep::ReceiveName { index, .. }, RxInput::Data(data)) => {
            let named = ConnectionView {
                tipc_port_name: Some(service_name(data@)),
                ..conns[index as int]
            };
            (conns.update(index as int, named.connecting()), RxStep::ConnectNamed { index })
        },
        (RxStep::ReceiveData { index, .. }, RxInput::Data(data)) => (
            conns.update(index as int, received(conns[index as int], data@)),
            RxStep::SendPending { index },
        ),
        (RxStep::SendPending { index }, RxInput::Sent(ret)) => match conns[index as int].try_send(
            ret,
        ) {
            Ok(c) => (conns.update(index as int, c), RxStep::UpdateCredit { index }),
            Err(e) => (after_remove(conns, index as int), failed(conns, index as int, e)),
        },
        _ => (conns, done()),
    }
}

/// The connection that a step works on.
pub open spec fn step_index(step: RxStep) -> Option<usize> {
    match step {
        RxStep::ConnectNamed { index } => Some(index),
        RxStep::Attach { index } => Some(index),
        RxStep::ReceiveName { index, .. } => Some(index),
        RxStep::ReceiveData { index, .. } => Some(index),
        RxStep::SendPending { index } => Some(index),
        RxStep::UpdateCredit { index } => Some(index),
        _ => None,
    }
}

/// Whether a step can be taken: its connection is on the list, a new connection is for a port with a
/// service, the name of a service fits in a TIPC path, and data fits in the receive buffer.
pub open spec fn step_wf(f: Features, conns: Seq<ConnectionView>, step: RxStep) -> bool {
    &&& step_index(step) matches Some(index) ==> index < conns.len()
    &&& match step {
        RxStep::ConnectNew { local_port, .. } => port_name(f, local_port) is Some,
        RxStep::ReceiveName { length, .. } => 0 < length < IPC_PORT_PATH_MAX,
        RxStep::ReceiveData { length, .. } => length <= RX_BUFFER_LEN,
        _ => true,
    }
}

/// Whether `input` is what `step` returns. A step that takes bytes has to return as many as it was
/// told to, the name of a service has no zero byte, and the counters have not reached their limit.
pub open spec fn is_input_of(conns: Seq<ConnectionView>, step: RxStep, input: RxInput) -> bool {
    match step {
        RxStep::ConnectNew { .. } => input is Attached,
        RxStep::ConnectNamed { .. } => input is Attached,
        RxStep::Attach { .. } => input is Attached,
        RxStep::ReceiveName { length, .. } => {
            &&& input matches RxInput::Data(data)
            &&& data@.len() == length
            &&& is_c_string(service_name(data@))
        },
        RxStep::ReceiveData { index, length } => {
            &&& input matches RxInput::Data(data)
            &&& data@.len() == length
            &&& conns[index as int].rx_count < u64::MAX
            &&& conns[index as int].rx_since_tx < u64::MAX
        },
        RxStep::SendPending { .. } => input is Sent,
        RxStep::UpdateCredit { .. } => input is Nothing,
        RxStep::Sleep => input is Nothing,
        RxStep::Done(_) => false,
    }
}

/// Whether a turn can go on with what `step` returned.
pub open spec fn can_resume(
    f: Features,
    conns: Seq<ConnectionView>,
    step: RxStep,
    input: RxInput,
) -> bool {
    step_wf(f, conns, step) && is_input_of(conns, step, input)
}

impl VsockDevice {
    /// Removes a connection that failed, and has it reset.
    fn rx_fail(&mut self, index: usize, error: LkError) -> (step: RxStep)
        requires
            old(self).wf(),
            index < old(self).connections@.len(),
        ensures
            final(self).conns() == after_remove(old(self).conns(), index as int),
            step == failed(old(self).conns(), index as int, error),
            final(self).wf(),
            final(self).features == old(self).features,
            final(self).rx_event == old(self).rx_event,
    {
        let c = &self.connections[index];
        assert(c@ == self.conns()[index as int]);
        let target = ResetTarget { peer: c.peer, local_port: c.local_port };
        let close_channel = vsock_connection_apply(
            &mut self.connections,
            index,
            ConnectionStateAction::Remove,
        );
        RxStep::Done(RxDone { reset: Some(target), error: Some(error), close_channel })
    }

    /// Takes a request for a connection.
    pub fn vsock_rx_op_request(&mut self, peer: VsockAddr, local_port: u32, href_addr: u64) -> (step:
        RxStep)
        requires
            old(self).wf(),
        ensures
            (final(self).conns(), step) == on_request(
                old(self).features,
                old(self).conns(),
                peer,
                local_port,
                href_addr,
            ),
            final(self).wf(),
            final(self).features == old(self).features,
            final(self).rx_event == old(self).rx_event,
    {
        if vsock_connection_lookup_peer(&self.connections, peer, local_port).is_some() {
            return RxStep::Done(
                RxDone {
                    reset: Some(ResetTarget { peer, local_port }),
                    error: Some(LkError::AlreadyExists),
                    close_channel: None,
                },
            );
        }
        match get_port_name(&self.features, local_port) {
            None => RxStep::Done(
                RxDone {
                    reset: Some(ResetTarget { peer, local_port }),
                    error: Some(LkError::OutOfRange),
                    close_channel: None,
                },
            ),
            Some(name) => {
                if !name.is_empty() {
                    return RxStep::ConnectNew { peer, local_port, href_addr };
                }
                let c = VsockConnection::new(peer, local_port, href_addr);
                proof {
                    lemma_push(self.connections@, c);
                }
                self.connections.push(c);
                RxStep::Done(RxDone { reset: None, error: None, close_channel: None })
            },
        }
    }

    /// Takes data for the connection at `index`.
    fn rx_received(
        &mut self,
        pending: &mut VecDeque<VsockEvent>,
        index: usize,
        event: VsockEvent,
        length: usize,
    ) -> (step: RxStep)
        requires
            old(self).wf(),
            index < old(self).connections@.len(),
        ensures
            ({
                let o = on_received(
                    old(self).features,
                    old(self).conns(),
                    old(pending)@,
                    index as int,
                    event,
                    length,
                );
                &&& final(self).conns() == o.conns
                &&& final(pending)@ == o.pending
                &&& step == o.step
            }),
            final(self).wf(),
            final(self).features == old(self).features,
            final(self).rx_event == old(self).rx_event,
    {
        let state = self.connections[index].state;
        assert(self.connections@[index as int]@ == self.conns()[index as int]);
        match state {
            VsockConnectionState::VsockOnly => RxStep::ReceiveName { index, length },
            VsockConnectionState::Active => RxStep::ReceiveData { index, length },
            VsockConnectionState::TipcConnecting | VsockConnectionState::TipcSendBlocked => {
                let name_expected: bool = port_expects_name(
                    &self.features,
                    event.destination.port,
                );
                if state == VsockConnectionState::TipcConnecting && name_expected {
                    self.rx_fail(index, LkError::BadState)
                } else {
                    pending.push_back(event);
                    RxStep::Sleep
                }
            },
            _ => self.rx_fail(index, LkError::BadState),
        }
    }

    /// Starts a turn with an event. An event that cannot be handled yet is put off, behind those
    /// that were put off before. `href_addr` is the address of the handle reference for a new
    /// connection, if there is one.
    pub fn vsock_rx_start(
        &mut self,
        pending: &mut VecDeque<VsockEvent>,
        event: VsockEvent,
        href_addr: u64,
    ) -> (step: RxStep)
        requires
            old(self).wf(),
            can_start(old(self).features, old(self).conns(), event),
        ensures
            ({
                let o = rx_start(
                    old(self).features,
                    old(self).conns(),
                    old(pending)@,
                    event,
                    href_addr,
                );
                &&& final(self).conns() == o.conns
                &&& final(pending)@ == o.pending
                &&& step == o.step
            }),
            step_wf(old(self).features, final(self).conns(), step),
            final(self).wf(),
            final(self).features == old(self).features,
            final(self).rx_event == old(self).rx_event,
    {
        if event.event_type == VsockEventType::ConnectionRequest {
            return self.vsock_rx_op_request(event.source, event.destination.port, href_addr);
        }
        let found = vsock_connection_lookup_peer(
            &self.connections,
            event.source,
            event.destination.port,
        );
        let index: usize = match found {
            Some(index) => index,
            None => {
                return RxStep::Done(RxDone { reset: None, error: None, close_channel: None });
            },
        };
        match event.event_type {
            VsockEventType::Connected => RxStep::Attach { index },
            VsockEventType::Received { length } => self.rx_received(pending, index, event, length),
            VsockEventType::Disconnected => {
                let close_channel = vsock_connection_apply(
                    &mut self.connections,
                    index,
                    ConnectionStateAction::Remove,
                );
                RxStep::Done(RxDone { reset: None, error: None, close_channel })
            },
            _ => RxStep::Done(RxDone { reset: None, error: None, close_channel: None }),
        }
    }
}

/// Adding a valid connection to a list.
pub(crate) proof fn lemma_push(conns: Seq<VsockConnection>, c: VsockConnection)
    requires
        all_wf(views(conns)),
        c@.wf(),
    ensures
        views(conns.push(c)) == views(conns).push(c@),
        all_wf(views(conns.push(c))),
{
    assert(views(conns.push(c)) =~= views(conns).push(c@));
    assert forall|i: int| 0 <= i < conns.push(c).len() implies (#[trigger] views(
        conns.push(c),
    )[i]).wf() by {
        if i < conns.len() {
            assert(views(conns)[i].wf());
        }
    }
}

/// Replacing a connection by a valid one.
proof fn lemma_update(conns: Seq<VsockConnection>, i: int, c: VsockConnection)
    requires
        all_wf(views(conns)),
        0 <= i < conns.len(),
        c@.wf(),
    ensures
        views(conns.update(i, c)) == views(conns).update(i, c@),
        all_wf(views(conns.update(i, c))),
{
    assert(views(conns.update(i, c)) =~= views(conns).update(i, c@));
    assert forall|j: int| 0 <= j < conns.len() implies (#[trigger] views(
        conns.update(i, c),
    )[j]).wf() by {
        if j != i {
            assert(views(conns)[j].wf());
        }
    }
}

/// Copies bytes.
pub(crate) fn copy_bytes(bytes: &[u8], len: usize) -> (copy: Vec<u8>)
    requires
        len <= bytes@.len(),
    ensures
        copy@ == bytes@.take(len as int),
{
    let mut copy: Vec<u8> = Vec::new();
    let mut i: usize = 0;
    while i < len
        invariant
            i <= len <= bytes@.len(),
            copy@ == bytes@.take(i as int),
        decreases len - i,
    {
        copy.push(bytes[i]);
        i = i + 1;
        assert(copy@ =~= bytes@.take(i as int));
    }
    copy
}

impl VsockConnection {
    /// Takes the name of a service from the first bytes that the peer sent, and prepares the
    /// connection for its channel.
    pub fn vsock_connect_on_rx(&mut self, data: &Vec<u8>)
        requires
            data@.len() > 0,
            is_c_string(service_name(data@)),
        ensures
            final(self)@ == (ConnectionView {
                tipc_port_name: Some(service_name(data@)),
                ..old(self)@
            }).connecting(),
    {
        let mut data_len: usize = data.len();
        if data[data_len - 1] == 10 {
            data_len = data_len - 1;
        }
        let name = copy_bytes(data.as_slice(), data_len);
        assert(name@ =~= service_name(data@));
        self.tipc_port_name = Some(name);
        self.vsock_connect_tipc();
    }

    /// Puts received bytes into the receive buffer, from where they are sent on.
    pub fn vsock_rx_channel(&mut self, data: &Vec<u8>)
        requires
            old(self)@.wf(),
            data@.len() <= RX_BUFFER_LEN,
            old(self).rx_count < u64::MAX,
            old(self).rx_since_tx < u64::MAX,
        ensures
            final(self)@ == received(old(self)@, data@),
            final(self)@.wf(),
    {
        let ghost start = self@;
        let mut i: usize = 0;
        while i < data.len()
            invariant
                i <= data@.len() <= RX_BUFFER_LEN,
                start == old(self)@,
                start.wf(),
                self@ == (ConnectionView { rx_buffer: self.rx_buffer@, ..start }),
                self.rx_buffer@ == data@.take(i as int) + start.rx_buffer.skip(i as int),
                start.rx_count < u64::MAX,
                start.rx_since_tx < u64::MAX,
            decreases data@.len() - i,
        {
            self.rx_buffer[i] = data[i];
            i = i + 1;
            assert(self.rx_buffer@ =~= data@.take(i as int) + start.rx_buffer.skip(i as int));
        }
        assert(data@.take(data@.len() as int) =~= data@);
        self.rx_pending = data.len();
        self.rx_count = self.rx_count + 1;
        self.rx_since_tx = self.rx_since_tx + 1;
    }
}

impl VsockDevice {
    /// Goes on with a turn after a step returned.
    pub fn vsock_rx_resume(&mut self, step: RxStep, input: RxInput) -> (next: RxStep)
        requires
            old(self).wf(),
            can_resume(old(self).features, old(self).conns(), step, input),
        ensures
            (final(self).conns(), next) == rx_next(
                old(self).features,
                old(self).conns(),
                step,
                input,
            ),
            step_wf(old(self).features, final(self).conns(), next),
            final(self).wf(),
            final(self).features == old(self).features,
            final(self).rx_event == old(self).rx_event,
    {
        let ghost conns = self.connections@;
        let end = RxStep::Done(RxDone { reset: None, error: None, close_channel: None });
        match (step, input) {
            (RxStep::ConnectNew { peer, local_port, href_addr }, RxInput::Attached(result)) => {
                if let Err(e) = result {
                    return RxStep::Done(
                        RxDone {
                            reset: Some(ResetTarget { peer, local_port }),
                            error: Some(e),
                            close_channel: None,
                        },
                    );
                }
                let mut c = VsockConnection::new(peer, local_port, href_addr);
                if let Some(name) = get_port_name(&self.features, local_port) {
                    let bytes = name.as_bytes();
                    let copy = copy_bytes(bytes, bytes.len());
                    assert(copy@ =~= bytes@);
                    c.tipc_port_name = Some(copy);
                    c.vsock_connect_tipc();
                }
                proof {
                    lemma_push(conns, c);
                }
                self.connections.push(c);
                end
            },
            (RxStep::ConnectNamed { index }, RxInput::Attached(result)) => {
                if let Err(e) = result {
                    return self.rx_fail(index, e);
                }
                end
            },
            (RxStep::Attach { index }, RxInput::Attached(result)) => {
                if let Err(e) = result {
                    return self.rx_fail(index, e);
                }
                assert(views(conns)[index as int].wf());
                let c = &mut self.connections[index];
                c.state = VsockConnectionState::Active;
                proof {
                    lemma_update(conns, index as int, self.connections@[index as int]);
                    assert(self.connections@ =~= conns.update(
                        index as int,
                        self.connections@[index as int],
                    ));
                }
                end
            },
            (RxStep::ReceiveName { index, length }, RxInput::Data(data)) => {
                assert(views(conns)[index as int].wf());
                let c = &mut self.connections[index];
                c.vsock_connect_on_rx(&data);
                proof {
                    lemma_update(conns, index as int, self.connections@[index as int]);
                    assert(self.connections@ =~= conns.update(
                        index as int,
                        self.connections@[index as int],
                    ));
                }
                RxStep::ConnectNamed { index }
            },
            (RxStep::ReceiveData { index, length }, RxInput::Data(data)) => {
                assert(views(conns)[index as int].wf());
                let c = &mut self.connections[index];
                c.vsock_rx_channel(&data);
                proof {
                    lemma_update(conns, index as int, self.connections@[index as int]);
                    assert(self.connections@ =~= conns.update(
                        index as int,
                        self.connections@[index as int],
                    ));
                }
                RxStep::SendPending { index }
            },
            (RxStep::SendPending { index }, RxInput::Sent(ret)) => {
                assert(views(conns)[index as int].wf());
                let c = &mut self.connections[index];
                let result = c.tipc_try_send(ret);
                proof {
                    lemma_update(conns, index as int, self.connections@[index as int]);
                    assert(self.connections@ =~= conns.update(
                        index as int,
                        self.connections@[index as int],
                    ));
                    assert(result is Err ==> self.conns() =~= views(conns));
                }
                if let Err(e) = result {
                    return self.rx_fail(index, e);
                }
                RxStep::UpdateCredit { index }
            },
            _ => end,
        }
    }

    /// Whether a turn can be started with an event (see [`can_start`]).
    pub fn rx_can_start(&self, event: &VsockEvent) -> (res: bool)
        ensures
            res == can_start(self.features, self.conns(), *event),
    {
        match event.event_type {
            VsockEventType::CreditRequest => false,
            VsockEventType::Received { length } => {
                let index: usize = match vsock_connection_lookup_peer(
                    &self.connections,
                    event.source,
                    event.destination.port,
                ) {
                    Some(index) => index,
                    None => {
                        return true;
                    },
                };
                assert(self.connections@[index as int]@ == self.conns()[index as int]);
                match self.connections[index].state {
                    VsockConnectionState::VsockOnly => 0 < length && length < IPC_PORT_PATH_MAX
                        && port_expects_name(&self.features, event.destination.port),
                    VsockConnectionState::Active => length <= RX_BUFFER_LEN,
                    _ => true,
                }
            },
            _ => true,
        }
    }

    /// Whether a turn can go on with what a step returned (see [`is_input_of`]).
    pub fn rx_can_resume(&self, step: RxStep, input: &RxInput) -> (res: bool)
        requires
            step_wf(self.features, self.conns(), step),
        ensures
            res == can_resume(self.features, self.conns(), step, *input),
    {
        match (step, input) {
            (RxStep::ConnectNew { .. }, RxInput::Attached(_)) => true,
            (RxStep::ConnectNamed { .. }, RxInput::Attached(_)) => true,
            (RxStep::Attach { .. }, RxInput::Attached(_)) => true,
            (RxStep::ReceiveName { length, .. }, RxInput::Data(data)) => data.len() == length
                && can_be_service_name(data),
            (RxStep::ReceiveData { index, length }, RxInput::Data(data)) => {
                let c = &self.connections[index];
                assert(c@ == self.conns()[index as int]);
                data.len() == length && c.rx_count < u64::MAX && c.rx_since_tx < u64::MAX
            },
            (RxStep::SendPending { .. }, RxInput::Sent(_)) => true,
            (RxStep::UpdateCredit { .. }, RxInput::Nothing) => true,
            (RxStep::Sleep, RxInput::Nothing) => true,
            _ => false,
        }
    }
}

/// Whether bytes that a peer sent can be the name of a service.
fn can_be_service_name(data: &Vec<u8>) -> (res: bool)
    requires
        data@.len() > 0,
    ensures
        res == is_c_string(service_name(data@)),
{
    let len: usize = data.len();
    let name_len: usize = if data[len - 1] == 10 {
        len - 1
    } else {
        len
    };
    assert(service_name(data@) =~= data@.take(name_len as int));
    let mut i: usize = 0;
    while i < name_len
        invariant
            i <= name_len <= data@.len(),
            service_name(data@) == data@.take(name_len as int),
            forall|j: int| 0 <= j < i ==> data@[j] != 0,
        decreases name_len - i,
    {
        if data[i] == 0 {
            assert(service_name(data@)[i as int] == 0);
            return false;
        }
        i = i + 1;
    }
    true
}

/// The event to handle next: events that were put off come first, in the order in which they were
/// put off.
pub fn next_event(pending: &mut VecDeque<VsockEvent>) -> (event: Option<VsockEvent>)
    ensures
        old(pending)@.len() == 0 ==> event is None && final(pending)@ == old(pending)@,
        old(pending)@.len() > 0 ==> {
            &&& event == Some(old(pending)@.first())
            &&& final(pending)@ == old(pending)@.drop_first()
        },
{
    pending.pop_front()
}

/// What the receive loop does after it waited for an event.
#[derive(Debug)]
pub enum RxIdle {
    /// Look for events again.
    Continue,
    /// Stop. The channels of these handle references have to be detached and closed.
    Stop(Vec<u64>),
}

impl VsockDevice {
    /// Decides what to do after the receive loop waited in vain: it stops if it was told to.
    pub fn vsock_rx_idle(&mut self, wait: Result<(), LkError>) -> (idle: RxIdle)
        requires
            old(self).wf(),
            wait matches Err(e) ==> e == LkError::TimedOut,
        ensures
            wait is Ok && old(self).rx_event.stops() ==> {
                &&& idle matches RxIdle::Stop(closed)
                &&& closed@ == channels(old(self).conns(), old(self).conns().len())
                &&& final(self).conns() == Seq::<ConnectionView>::empty()
            },
            wait is Err || !old(self).rx_event.stops() ==> idle is Continue && final(self).conns()
                == old(self).conns(),
            final(self).wf(),
            final(self).features == old(self).features,
            final(self).rx_event == old(self).rx_event,
    {
        if wait.is_ok() && self.rx_event.wake_reason & VsockRxEvent::TERMINATE != 0 {
            let closed = vsock_connection_close_all(&mut self.connections);
            assert(self.conns() =~= Seq::<ConnectionView>::empty());
            return RxIdle::Stop(closed);
        }
        RxIdle::Continue
    }
}

/// What is forwarded to TIPC is what the peer sent.
pub proof fn law_received_data_is_forwarded(c: ConnectionView, data: Seq<u8>)
    requires
        c.wf(),
        data.len() <= RX_BUFFER_LEN,
    ensures
        received(c, data).pending() == data,
        received(c, data).wf(),
{
    assert(received(c, data).pending() =~= data);
}

/// An event of a connection that is not known changes nothing.
pub proof fn law_unknown_connections_are_ignored(
    f: Features,
    conns: Seq<ConnectionView>,
    pending: Seq<VsockEvent>,
    event: VsockEvent,
    href_addr: u64,
)
    requires
        event.event_type != VsockEventType::ConnectionRequest,
        find_peer(conns, event.source, event.destination.port, 0) is None,
    ensures
        rx_start(f, conns, pending, event, href_addr) == (RxOutcome {
            conns,
            pending,
            step: done(),
        }),
{
}

/// An event that is put off is handled again after all events that were put off before it, and
/// nothing else happens to it or to the connection meanwhile.
pub proof fn law_put_off_events_are_kept(
    f: Features,
    conns: Seq<ConnectionView>,
    pending: Seq<VsockEvent>,
    event: VsockEvent,
    href_addr: u64,
)
    requires
        rx_start(f, conns, pending, event, href_addr).step == RxStep::Sleep,
    ensures
        rx_start(f, conns, pending, event, href_addr).pending == pending.push(event),
        rx_start(f, conns, pending, event, href_addr).conns == conns,
{
}

/// A request for a connection that exists, or else for a port without a service, is answered by a
/// reset for that reason and changes nothing.
pub proof fn law_refused_requests_are_reset(
    f: Features,
    conns: Seq<ConnectionView>,
    peer: VsockAddr,
    local_port: u32,
    href_addr: u64,
)
    requires
        port_name(f, local_port) is None || exists|i: int|
            0 <= i < conns.len() && is_between(#[trigger] conns[i], peer, local_port),
    ensures
        ({
            let exists_already = exists|i: int|
                0 <= i < conns.len() && is_between(#[trigger] conns[i], peer, local_port);
            let reason = if exists_already {
                LkError::AlreadyExists
            } else {
                LkError::OutOfRange
            };
            on_request(f, conns, peer, local_port, href_addr) == (
                conns,
                reset(peer, local_port, reason),
            )
        }),
{
    lemma_find_peer(conns, peer, local_port, 0);
}

/// A turn gives a reason exactly if it resets a connection.
pub open spec fn resets_have_reasons(step: RxStep) -> bool {
    step matches RxStep::Done(end) ==> (end.reset is Some <==> end.error is Some)
}

/// A connection is never reset without a reason.
pub proof fn law_resets_have_reasons(
    f: Features,
    conns: Seq<ConnectionView>,
    pending: Seq<VsockEvent>,
    event: VsockEvent,
    href_addr: u64,
    step: RxStep,
    input: RxInput,
)
    ensures
        resets_have_reasons(rx_start(f, conns, pending, event, href_addr).step),
        resets_have_reasons(rx_next(f, conns, step, input).1),
{
}

/// How far a turn is from its end, at most.
pub open spec fn steps_left(step: RxStep) -> nat {
    match step {
        RxStep::ReceiveData { .. } => 3,
        RxStep::ReceiveName { .. } => 2,
        RxStep::SendPending { .. } => 2,
        RxStep::Done(_) => 0,
        _ => 1,
    }
}

/// A turn ends: every step brings it closer to its end.
pub proof fn law_turns_end(
    f: Features,
    conns: Seq<ConnectionView>,
    step: RxStep,
    input: RxInput,
)
    requires
        !(step is Done),
    ensures
        steps_left(rx_next(f, conns, step, input).1) < steps_left(step),
{
}

} // verus!
