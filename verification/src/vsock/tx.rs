//! The transmit side.

use vstd::prelude::*;

use crate::error::LkError;
use crate::msg::PAGE_SIZE;
use crate::vsock::connection::{
    after_action, channel_to_close, find_cookie, lemma_find_cookie, vsock_connection_apply,
    vsock_connection_lookup_cookie, ConnectionStateAction, ConnectionView, VsockConnection,
    VsockConnectionState,
};
use crate::vsock::ports::{
    expects_name, port_expects_name, port_is_listening, port_name, Features, MappingView,
    TipcToVsockMapping, Uuid,
};
use crate::vsock::VsockDevice;

verus! {

// Events of a TIPC handle.
pub const IPC_HANDLE_POLL_READY: u32 = 1;

pub const IPC_HANDLE_POLL_HUP: u32 = 4;

pub const IPC_HANDLE_POLL_MSG: u32 = 8;

pub const IPC_HANDLE_POLL_SEND_UNBLOCKED: u32 = 16;

/// What the transmit loop does after it waited for an event of any handle.
#[derive(Clone, Copy, Debug, PartialEq, Eq, Structural)]
pub enum TxWait {
    /// Handle the event.
    Event,
    /// There are no handles: wait until there is one.
    WaitForHandle,
    /// Wait again.
    Retry,
    /// Nothing was sent for a while: wait again, without a time limit.
    Inactive,
    /// Waiting failed: sleep, then wait again.
    Sleep,
}

/// Decides what to do after the transmit loop waited for an event of its handles.
pub fn tx_after_set_wait(ret: Result<(), LkError>) -> (wait: TxWait)
    ensures
        wait == match ret {
            Ok(()) => TxWait::Event,
            Err(LkError::NotFound) => TxWait::WaitForHandle,
            Err(LkError::TimedOut) => TxWait::Inactive,
            Err(_) => TxWait::Sleep,
        },
{
    match ret {
        Ok(()) => TxWait::Event,
        Err(LkError::NotFound) => TxWait::WaitForHandle,
        Err(LkError::TimedOut) => TxWait::Inactive,
        Err(_) => TxWait::Sleep,
    }
}

/// Decides what to do after the transmit loop waited for a handle: the event that woke it is not the
/// one to handle, so it has to wait again.
pub fn tx_after_handle_wait(ret: Result<(), LkError>) -> (wait: TxWait)
    ensures
        wait == if ret == Err::<(), LkError>(LkError::TimedOut) {
            TxWait::Inactive
        } else {
            TxWait::Retry
        },
{
    match ret {
        Err(LkError::TimedOut) => TxWait::Inactive,
        _ => TxWait::Retry,
    }
}

/// An event of a handle.
#[derive(Clone, Copy, Debug, PartialEq, Eq, Structural)]
pub struct HandleEvent {
    pub handle: u64,
    pub cookie: u64,
    pub id: u32,
    pub emask: u32,
}

/// What an event of a handle is for.
#[derive(Clone, Copy, Debug, PartialEq, Eq, Structural)]
pub enum TxTarget {
    /// The transmit loop, which has to stop.
    Stop,
    /// The connection at this index.
    Connection(usize),
    /// A client wants to connect to the port at this index.
    Accept(usize),
    /// Nobody.
    Nobody,
}

/// Whether any bit of `flag` is set in `emask`.
pub open spec fn has_event(emask: u32, flag: u32) -> bool {
    emask & flag != 0
}

/// The first of `handles` at or after `i` that is `handle`.
pub open spec fn find_handle(handles: Seq<u64>, handle: u64, i: nat) -> Option<nat>
    decreases handles.len() - i,
{
    if i >= handles.len() {
        None
    } else if handles[i as int] == handle {
        Some(i)
    } else {
        find_handle(handles, handle, i + 1)
    }
}

/// What `event` is for: the loop is stopped by the handle `stop`, connections are found by the cookie
/// and ports by the handle.
pub open spec fn target_of(
    conns: Seq<ConnectionView>,
    event: HandleEvent,
    stop: Option<u64>,
    ports: Seq<u64>,
) -> TxTarget {
    if stop == Some(event.handle) {
        TxTarget::Stop
    } else {
        match find_cookie(conns, event.cookie, 0) {
            Some(i) => TxTarget::Connection(i as usize),
            None => match find_handle(ports, event.handle, 0) {
                Some(i) => if has_event(event.emask, IPC_HANDLE_POLL_READY) {
                    TxTarget::Accept(i as usize)
                } else {
                    TxTarget::Nobody
                },
                None => TxTarget::Nobody,
            },
        }
    }
}

/// What has to be done next in a turn.
#[derive(Clone, Copy, Debug, PartialEq, Eq, Structural)]
pub enum TxStep {
    /// Send a status byte of zero to the peer, which waits for it before it sends data.
    SendStatus,
    /// Look at the next message of the channel.
    GetMsg,
    /// Take the message that was looked at off the channel.
    ReadMsg { len: usize },
    /// Send the message to the peer.
    SendMsg { len: usize },
    /// Send the pending bytes of the connection to the channel.
    SendPending,
    /// Shut down the connection to the peer.
    Shutdown,
    /// End the turn, with this action for the connection.
    Done(ConnectionStateAction),
}

/// What a step returned.
#[derive(Clone, Copy, Debug, PartialEq, Eq, Structural)]
pub enum TxInput {
    /// The status code and the length of the message that was looked at.
    MsgInfo { ret: i32, len: usize },
    /// How many bytes of the message were taken, or an error.
    MsgRead { ret: i32 },
    /// The return value of sending the pending bytes.
    PendingSent { ret: i32 },
    /// Whether the connection could be shut down.
    ShutDown { ok: bool },
    /// Nothing that matters: the status byte or the message was sent, or the peer is not connected
    /// any more.
    Sent,
}

/// The rest of a turn from the check for a closed channel on.
pub open spec fn tx_from_hup(emask: u32) -> TxStep {
    if has_event(emask, IPC_HANDLE_POLL_HUP) {
        TxStep::Shutdown
    } else {
        TxStep::Done(ConnectionStateAction::Keep)
    }
}

/// The rest of a turn from the check for room in the channel on.
pub open spec fn tx_from_unblocked(emask: u32) -> TxStep {
    if has_event(emask, IPC_HANDLE_POLL_SEND_UNBLOCKED) {
        TxStep::SendPending
    } else {
        tx_from_hup(emask)
    }
}

/// The rest of a turn from the check for messages on.
pub open spec fn tx_from_msg(emask: u32) -> TxStep {
    if has_event(emask, IPC_HANDLE_POLL_MSG) {
        TxStep::GetMsg
    } else {
        tx_from_unblocked(emask)
    }
}

/// The connection after its channel became ready, if it did.
pub open spec fn after_ready(c: ConnectionView, emask: u32) -> ConnectionView {
    if has_event(emask, IPC_HANDLE_POLL_READY) {
        ConnectionView { state: VsockConnectionState::Active, ..c }
    } else {
        c
    }
}

/// The start of a turn with an event of connection `c`.
pub open spec fn tx_start(f: Features, c: ConnectionView, emask: u32) -> (ConnectionView, TxStep) {
    let step = if has_event(emask, IPC_HANDLE_POLL_READY) && expects_name(f, c.local_port) {
        TxStep::SendStatus
    } else {
        tx_from_msg(emask)
    };
    (after_ready(c, emask), step)
}

/// The connection after a message of the channel was taken.
pub open spec fn transmitted(c: ConnectionView) -> ConnectionView {
    ConnectionView {
        tx_count: (c.tx_count + 1) as u64,
        tx_since_rx: (c.tx_since_rx + 1) as u64,
        rx_since_tx: 0,
        ..c
    }
}

/// How a turn goes on after `step` returned `input`.
pub open spec fn tx_next(c: ConnectionView, emask: u32, step: TxStep, input: TxInput) -> (
    ConnectionView,
    TxStep,
) {
    match (step, input) {
        (TxStep::SendStatus, TxInput::Sent) => (c, tx_from_msg(emask)),
        (TxStep::GetMsg, TxInput::MsgInfo { ret, len }) => if ret == 0 {
            (c, TxStep::ReadMsg { len })
        } else {
            (c, tx_from_unblocked(emask))
        },
        (TxStep::ReadMsg { len }, TxInput::MsgRead { ret }) => if ret == len {
            (transmitted(c), TxStep::SendMsg { len })
        } else {
            (c, tx_from_unblocked(emask))
        },
        (TxStep::SendMsg { .. }, TxInput::Sent) => (c, tx_from_unblocked(emask)),
        (TxStep::SendPending, TxInput::PendingSent { ret }) => match c.try_send(ret) {
            Ok(after) => (after, tx_from_hup(emask)),
            Err(_) => (c, tx_from_hup(emask)),
        },
        (TxStep::Shutdown, TxInput::ShutDown { ok }) => (
            c,
            TxStep::Done(
                if ok {
                    ConnectionStateAction::Close
                } else {
                    ConnectionStateAction::Keep
                },
            ),
        ),
        _ => (c, TxStep::Done(ConnectionStateAction::Keep)),
    }
}

/// Whether connection `c` can take `step`: only a channel that was full gets room, and then there is
/// something to send.
pub open spec fn can_take(c: ConnectionView, step: TxStep) -> bool {
    step == TxStep::SendPending ==> c.state == VsockConnectionState::TipcSendBlocked && c.rx_pending
        != 0
}

/// Whether a turn can be started with an event of connection `c`: only a channel that was being
/// connected becomes ready.
pub open spec fn can_start(f: Features, c: ConnectionView, event: HandleEvent) -> bool {
    &&& event.id == c.href.id
    &&& has_event(event.emask, IPC_HANDLE_POLL_READY) ==> c.state
        == VsockConnectionState::TipcConnecting
    &&& can_take(after_ready(c, event.emask), tx_start(f, c, event.emask).1)
}

/// Whether `input` is what `step` returns. A message fits in the transmit buffer, and the counters
/// have not reached their limit.
pub open spec fn is_input_of(c: ConnectionView, step: TxStep, input: TxInput) -> bool {
    match step {
        TxStep::SendStatus => input == TxInput::Sent,
        TxStep::GetMsg => input is MsgInfo,
        TxStep::ReadMsg { len } => {
            &&& input matches TxInput::MsgRead { ret }
            &&& ret == len ==> len <= PAGE_SIZE && c.tx_count < u64::MAX && c.tx_since_rx
                < u64::MAX
        },
        TxStep::SendMsg { .. } => input == TxInput::Sent,
        TxStep::SendPending => input is PendingSent,
        TxStep::Shutdown => input is ShutDown,
        TxStep::Done(_) => false,
    }
}

/// Whether a turn can go on with what `step` returned.
pub open spec fn can_resume(c: ConnectionView, emask: u32, step: TxStep, input: TxInput) -> bool {
    &&& is_input_of(c, step, input)
    &&& can_take(tx_next(c, emask, step, input).0, tx_next(c, emask, step, input).1)
}

/// The rest of a turn from the check for a closed channel on.
fn step_from_hup(emask: u32) -> (step: TxStep)
    ensures
        step == tx_from_hup(emask),
{
    if emask & IPC_HANDLE_POLL_HUP != 0 {
        TxStep::Shutdown
    } else {
        TxStep::Done(ConnectionStateAction::Keep)
    }
}

/// The rest of a turn from the check for room in the channel on.
fn step_from_unblocked(emask: u32) -> (step: TxStep)
    ensures
        step == tx_from_unblocked(emask),
{
    if emask & IPC_HANDLE_POLL_SEND_UNBLOCKED != 0 {
        TxStep::SendPending
    } else {
        step_from_hup(emask)
    }
}

/// The rest of a turn from the check for messages on.
fn step_from_msg(emask: u32) -> (step: TxStep)
    ensures
        step == tx_from_msg(emask),
{
    if emask & IPC_HANDLE_POLL_MSG != 0 {
        TxStep::GetMsg
    } else {
        step_from_unblocked(emask)
    }
}

/// Whether an event counts as activity: if nothing is sent for a while after it, the statistics are
/// printed.
pub fn tx_is_activity(emask: u32) -> (res: bool)
    ensures
        res == (has_event(emask, IPC_HANDLE_POLL_MSG) || has_event(emask, IPC_HANDLE_POLL_HUP)),
{
    emask & IPC_HANDLE_POLL_MSG != 0 || emask & IPC_HANDLE_POLL_HUP != 0
}

impl VsockConnection {
    /// Starts a turn with an event of the channel of the connection.
    pub fn vsock_tx_start(&mut self, f: &Features, event: HandleEvent) -> (step: TxStep)
        requires
            old(self)@.wf(),
            can_start(*f, old(self)@, event),
        ensures
            (final(self)@, step) == tx_start(*f, old(self)@, event.emask),
            can_take(final(self)@, step),
            final(self)@.wf(),
    {
        if event.emask & IPC_HANDLE_POLL_READY != 0 {
            self.state = VsockConnectionState::Active;
            if port_expects_name(f, self.local_port) {
                return TxStep::SendStatus;
            }
        }
        step_from_msg(event.emask)
    }

    /// Goes on with a turn after a step returned.
    pub fn vsock_tx_resume(&mut self, emask: u32, step: TxStep, input: TxInput) -> (next: TxStep)
        requires
            old(self)@.wf(),
            can_resume(old(self)@, emask, step, input),
        ensures
            (final(self)@, next) == tx_next(old(self)@, emask, step, input),
            can_take(final(self)@, next),
            final(self)@.wf(),
    {
        match (step, input) {
            (TxStep::SendStatus, TxInput::Sent) => step_from_msg(emask),
            (TxStep::GetMsg, TxInput::MsgInfo { ret, len }) => {
                if ret == 0 {
                    TxStep::ReadMsg { len }
                } else {
                    step_from_unblocked(emask)
                }
            },
            (TxStep::ReadMsg { len }, TxInput::MsgRead { ret }) => {
                if ret >= 0 && ret as usize == len {
                    self.tx_count = self.tx_count + 1;
                    self.tx_since_rx = self.tx_since_rx + 1;
                    self.rx_since_tx = 0;
                    TxStep::SendMsg { len }
                } else {
                    step_from_unblocked(emask)
                }
            },
            (TxStep::SendMsg { .. }, TxInput::Sent) => step_from_unblocked(emask),
            (TxStep::SendPending, TxInput::PendingSent { ret }) => {
                let _ = self.tipc_try_send(ret);
                step_from_hup(emask)
            },
            (TxStep::Shutdown, TxInput::ShutDown { ok }) => {
                if ok {
                    TxStep::Done(ConnectionStateAction::Close)
                } else {
                    TxStep::Done(ConnectionStateAction::Keep)
                }
            },
            _ => TxStep::Done(ConnectionStateAction::Keep),
        }
    }
}

impl VsockConnection {
    /// Whether a turn can be started with an event (see [`can_start`]).
    pub fn tx_can_start(&self, f: &Features, event: HandleEvent) -> (res: bool)
        ensures
            res == can_start(*f, self@, event),
    {
        let ready: bool = event.emask & IPC_HANDLE_POLL_READY != 0;
        if event.id != self.href.id {
            return false;
        }
        if ready && self.state != VsockConnectionState::TipcConnecting {
            return false;
        }
        if ready && port_expects_name(f, self.local_port) {
            return true;
        }
        if step_from_msg(event.emask) == TxStep::SendPending {
            return !ready && self.state == VsockConnectionState::TipcSendBlocked && self.rx_pending
                != 0;
        }
        true
    }

    /// Whether a turn can go on with what a step returned (see [`can_resume`]).
    pub fn tx_can_resume(&self, emask: u32, step: TxStep, input: TxInput) -> (res: bool)
        ensures
            res == can_resume(self@, emask, step, input),
    {
        let blocked: bool = self.state == VsockConnectionState::TipcSendBlocked && self.rx_pending
            != 0;
        match (step, input) {
            (TxStep::SendStatus, TxInput::Sent) => step_from_msg(emask) != TxStep::SendPending
                || blocked,
            (TxStep::GetMsg, TxInput::MsgInfo { ret, .. }) => ret == 0 || step_from_unblocked(emask)
                != TxStep::SendPending || blocked,
            (TxStep::ReadMsg { len }, TxInput::MsgRead { ret }) => {
                if ret >= 0 && ret as usize == len {
                    len <= PAGE_SIZE && self.tx_count < u64::MAX && self.tx_since_rx < u64::MAX
                } else {
                    step_from_unblocked(emask) != TxStep::SendPending || blocked
                }
            },
            (TxStep::SendMsg { .. }, TxInput::Sent) => step_from_unblocked(emask)
                != TxStep::SendPending || blocked,
            (TxStep::SendPending, TxInput::PendingSent { .. }) => true,
            (TxStep::Shutdown, TxInput::ShutDown { .. }) => true,
            _ => false,
        }
    }
}

impl VsockDevice {
    /// Decides what an event of a handle is for.
    pub fn vsock_tx_target(&self, event: HandleEvent, stop: Option<u64>, ports: &Vec<u64>) -> (target:
        TxTarget)
        ensures
            target == target_of(self.conns(), event, stop, ports@),
            target matches TxTarget::Connection(i) ==> i < self.connections@.len(),
            target matches TxTarget::Accept(i) ==> i < ports@.len(),
    {
        if let Some(handle) = stop {
            if event.handle == handle {
                return TxTarget::Stop;
            }
        }
        if let Some(index) = vsock_connection_lookup_cookie(&self.connections, event.cookie) {
            return TxTarget::Connection(index);
        }
        let mut i: usize = 0;
        while i < ports.len()
            invariant
                i <= ports@.len(),
                stop != Some(event.handle),
                find_cookie(self.conns(), event.cookie, 0) is None,
                find_handle(ports@, event.handle, 0) == find_handle(
                    ports@,
                    event.handle,
                    i as nat,
                ),
            decreases ports@.len() - i,
        {
            if ports[i] == event.handle {
                if event.emask & IPC_HANDLE_POLL_READY != 0 {
                    return TxTarget::Accept(i);
                }
                return TxTarget::Nobody;
            }
            i = i + 1;
        }
        TxTarget::Nobody
    }

    /// Ends a turn with the connection at `index`. Returns the handle reference whose channel has to
    /// be detached and closed.
    pub fn vsock_tx_finish(&mut self, index: usize, action: ConnectionStateAction) -> (channel: Option<
        u64,
    >)
        requires
            old(self).wf(),
            index < old(self).connections@.len(),
        ensures
            final(self).conns() == after_action(old(self).conns(), index as int, action),
            channel == channel_to_close(old(self).conns(), index as int, action),
            final(self).wf(),
            final(self).features == old(self).features,
            final(self).rx_event == old(self).rx_event,
    {
        vsock_connection_apply(&mut self.connections, index, action)
    }
}

/// What has to be done next for a client that wants to connect to a port.
#[derive(Clone, Copy, Debug, PartialEq, Eq, Structural)]
pub enum AcceptStep {
    /// Pick a random local port.
    PickPort,
    /// Connect the local port to the peer.
    Connect { src_port: u32 },
    /// Accept the client.
    Accept { src_port: u32 },
    /// Nothing: the peer cannot be connected.
    GiveUp,
}

/// What connecting a local port to the peer came to.
#[derive(Clone, Copy, Debug, PartialEq, Eq, Structural)]
pub enum ConnectResult {
    Connected,
    /// The local port is connected to the peer already.
    Exists,
    Failed,
}

/// Decides about a random local port: ports that accept connections are not used for outgoing ones,
/// so that the two do not get in each other's way.
pub fn tipc_pick_port(f: &Features, src_port: u32) -> (step: AcceptStep)
    ensures
        step == if port_name(*f, src_port) is Some {
            AcceptStep::PickPort
        } else {
            AcceptStep::Connect { src_port }
        },
{
    if port_is_listening(f, src_port) {
        AcceptStep::PickPort
    } else {
        AcceptStep::Connect { src_port }
    }
}

/// Decides what to do after a local port was connected to the peer: a port that is connected already
/// means to try another one.
pub fn tipc_after_connect(src_port: u32, result: ConnectResult) -> (step: AcceptStep)
    ensures
        step == match result {
            ConnectResult::Connected => AcceptStep::Accept { src_port },
            ConnectResult::Exists => AcceptStep::PickPort,
            ConnectResult::Failed => AcceptStep::GiveUp,
        },
{
    match result {
        ConnectResult::Connected => AcceptStep::Accept { src_port },
        ConnectResult::Exists => AcceptStep::PickPort,
        ConnectResult::Failed => AcceptStep::GiveUp,
    }
}

/// Why a client was not accepted. The connection to the peer has to be closed.
#[derive(Clone, Copy, Debug, PartialEq, Eq, Structural)]
pub struct AcceptError {
    pub error: LkError,
    /// Whether the channel of the client has to be closed too.
    pub close_channel: bool,
}

/// The connection of a client that was accepted on port `m`.
pub open spec fn accepted(m: MappingView, src_port: u32, href_addr: u64) -> ConnectionView {
    (ConnectionView {
        tipc_port_name: Some(vstd::utf8::encode_utf8(m.name)),
        state: VsockConnectionState::TipcOnly,
        ..ConnectionView::fresh(m.addr, src_port, href_addr)
    }).with_cookie()
}

impl VsockDevice {
    /// Takes a client that wants to connect to a port, whose local port is connected to the peer
    /// already. `ret` is the return value of accepting the client, and `peer_uuid` is the id of the
    /// client, which only matters if the client was accepted.
    pub fn tipc_connect_vsock(
        &mut self,
        port: &TipcToVsockMapping,
        src_port: u32,
        href_addr: u64,
        ret: i32,
        peer_uuid: Uuid,
    ) -> (result: Result<(), AcceptError>)
        requires
            old(self).wf(),
        ensures
            if ret < 0 {
                &&& result == Err::<(), AcceptError>(
                    AcceptError { error: LkError::of_code(ret), close_channel: false },
                )
                &&& final(self).conns() == old(self).conns()
            } else if !port@.allows(peer_uuid) {
                &&& result == Err::<(), AcceptError>(
                    AcceptError { error: LkError::NotAllowed, close_channel: true },
                )
                &&& final(self).conns() == old(self).conns()
            } else {
                &&& result == Ok::<(), AcceptError>(())
                &&& final(self).conns() == old(self).conns().push(
                    accepted(port@, src_port, href_addr),
                )
            },
            final(self).wf(),
            final(self).features == old(self).features,
            final(self).rx_event == old(self).rx_event,
    {
        if ret < 0 {
            if let Err(error) = LkError::from_lk(ret) {
                return Err(AcceptError { error, close_channel: false });
            }
        }
        if !port.is_allowed(peer_uuid) {
            return Err(AcceptError { error: LkError::NotAllowed, close_channel: true });
        }
        let mut c = VsockConnection::new(port.addr, src_port, href_addr);
        let bytes = port.name.as_bytes();
        let copy = crate::vsock::rx::copy_bytes(bytes, bytes.len());
        assert(copy@ =~= bytes@);
        c.tipc_port_name = Some(copy);
        c.state = VsockConnectionState::TipcOnly;
        c.set_cookie();
        proof {
            crate::vsock::rx::lemma_push(self.connections@, c);
        }
        self.connections.push(c);
        Ok(())
    }
}

/// A connection of a client that was accepted is found by the events of its channel, unless an
/// earlier connection has the same handle reference.
pub proof fn law_accepted_connection_is_found(
    conns: Seq<ConnectionView>,
    m: MappingView,
    src_port: u32,
    href_addr: u64,
)
    requires
        forall|i: int| 0 <= i < conns.len() ==> (#[trigger] conns[i]).href.addr != href_addr,
    ensures
        find_cookie(conns.push(accepted(m, src_port, href_addr)), href_addr, 0) == Some(
            conns.len(),
        ),
        accepted(m, src_port, href_addr).href.cookie == href_addr,
{
    let after = conns.push(accepted(m, src_port, href_addr));
    lemma_find_cookie(after, href_addr, 0);
    assert(after[conns.len() as int].href.addr == href_addr);
    match find_cookie(after, href_addr, 0) {
        Some(k) => {
            if k < conns.len() {
                assert(after[k as int] == conns[k as int]);
            }
        },
        None => {},
    }
}

/// A port that lists its clients allows no client that is not on the list.
pub proof fn law_allowed_list_is_kept(m: MappingView, uuid: Uuid)
    requires
        m.allowed_uuids.len() > 0,
        !m.allowed_uuids.contains(uuid),
    ensures
        !m.allows(uuid),
{
}

/// A message of the channel is sent to the peer only if all of it was read, and it is counted then.
pub proof fn law_whole_messages_are_sent(
    c: ConnectionView,
    emask: u32,
    step: TxStep,
    input: TxInput,
    len: usize,
)
    requires
        can_resume(c, emask, step, input),
        tx_next(c, emask, step, input).1 == (TxStep::SendMsg { len }),
    ensures
        step == (TxStep::ReadMsg { len }),
        input matches TxInput::MsgRead { ret } && ret == len,
        tx_next(c, emask, step, input).0.tx_count == c.tx_count + 1,
{
}

/// A connection is closed only after the peer was told, and the peer is told only after the channel
/// was closed.
pub proof fn law_connection_closes_after_hup(
    f: Features,
    c: ConnectionView,
    emask: u32,
    step: TxStep,
    input: TxInput,
)
    ensures
        tx_next(c, emask, step, input).1 == TxStep::Done(ConnectionStateAction::Close) ==> {
            &&& step == TxStep::Shutdown
            &&& input == (TxInput::ShutDown { ok: true })
        },
        tx_next(c, emask, step, input).1 == TxStep::Shutdown ==> has_event(
            emask,
            IPC_HANDLE_POLL_HUP,
        ),
        tx_start(f, c, emask).1 == TxStep::Shutdown ==> has_event(emask, IPC_HANDLE_POLL_HUP),
{
}

/// How far a turn is from its end, at most.
pub open spec fn steps_left(step: TxStep) -> nat {
    match step {
        TxStep::SendStatus => 6,
        TxStep::GetMsg => 5,
        TxStep::ReadMsg { .. } => 4,
        TxStep::SendMsg { .. } => 3,
        TxStep::SendPending => 2,
        TxStep::Shutdown => 1,
        TxStep::Done(_) => 0,
    }
}

/// A turn ends: every step brings it closer to its end.
pub proof fn law_turns_end(c: ConnectionView, emask: u32, step: TxStep, input: TxInput)
    requires
        !(step is Done),
    ensures
        steps_left(tx_next(c, emask, step, input).1) < steps_left(step),
{
}

} // verus!
