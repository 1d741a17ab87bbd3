//! Connections between vsock peers and TIPC services.

use std::collections::VecDeque;

use vsock_virtio_msg::error::LkError;
use vsock_virtio_msg::vsock::connection::{
    vsock_connection_close, Closed, ConnectionStateAction, VsockConnection, VsockConnectionState,
};
use vsock_virtio_msg::vsock::ports::{
    create_tipc_port, create_tipc_port_next, get_port_name, listening_ports, port_expects_name,
    port_is_listening, tipc_to_vsock_mappings, Features, PortStep, TransportKind, Uuid, VsockAddr,
};
use vsock_virtio_msg::vsock::rx::{
    next_event, ResetTarget, RxDone, RxIdle, RxInput, RxStep, VsockEvent, VsockEventType,
};
use vsock_virtio_msg::vsock::tx::{
    tipc_after_connect, tipc_pick_port, tx_after_handle_wait, tx_after_set_wait, tx_is_activity,
    AcceptError, AcceptStep, ConnectResult, HandleEvent, TxInput, TxStep, TxTarget, TxWait,
};
use vsock_virtio_msg::vsock::VsockDevice;

const NONE: Features = Features {
    authmgr: false,
    widevine_aidl_comm: false,
    gatekeeper: false,
    keymint: false,
    vintf_ta: false,
    keymint_commservice: false,
    tipc_vsock_forwarder: false,
    tipc_vsock_authmgr: false,
};

const ALL: Features = Features {
    authmgr: true,
    widevine_aidl_comm: true,
    gatekeeper: true,
    keymint: true,
    vintf_ta: true,
    keymint_commservice: true,
    tipc_vsock_forwarder: true,
    tipc_vsock_authmgr: true,
};

const PEER: VsockAddr = VsockAddr { cid: 3, port: 1000 };

const END: RxStep = RxStep::Done(RxDone { reset: None, error: None, close_channel: None });

fn event(port: u32, event_type: VsockEventType) -> VsockEvent {
    VsockEvent {
        source: PEER,
        destination: VsockAddr { cid: 2, port },
        event_type,
        buffer_allocation: 4096,
        forward_count: 0,
    }
}

fn start(device: &mut VsockDevice, port: u32, event_type: VsockEventType, addr: u64) -> RxStep {
    let event = event(port, event_type);
    assert!(device.rx_can_start(&event));
    device.vsock_rx_start(&mut VecDeque::new(), event, addr)
}

fn reset(port: u32, error: LkError, close_channel: Option<u64>) -> RxStep {
    let reset = Some(ResetTarget { peer: PEER, local_port: port });
    RxStep::Done(RxDone { reset, error: Some(error), close_channel })
}

#[test]
fn ports_depend_on_the_build() {
    assert_eq!(listening_ports(&NONE), [0]);
    assert_eq!(listening_ports(&ALL), [0, 1, 6, 8, 9, 10, 11]);
    assert_eq!(get_port_name(&NONE, 0), Some(""));
    assert_eq!(get_port_name(&NONE, 9), None);
    let names = [
        (1, "ahss.authmgr.IAuthMgrAuthorization/default.bnd"),
        (6, "com.android.trusty.widevine.transact"),
        (8, "com.android.trusty.gatekeeper"),
        (9, "com.android.trusty.keymint"),
        (10, "com.android.trusty.vintf"),
        (11, "com.android.trusty.keymint.commservice"),
    ];
    for (port, name) in names {
        assert_eq!(get_port_name(&ALL, port), Some(name));
        assert!(!port_expects_name(&ALL, port));
    }
    assert!(port_expects_name(&ALL, 0));
    assert!(!port_expects_name(&ALL, 2));
    assert!(port_is_listening(&ALL, 11));
    assert!(!port_is_listening(&ALL, 12));
}

#[test]
fn mappings_depend_on_the_build() {
    assert!(tipc_to_vsock_mappings(&NONE).is_empty());
    let list = tipc_to_vsock_mappings(&ALL);
    assert_eq!(list.len(), 2);
    assert_eq!(list[0].name, "com.android.trusty.vsock.forwarder");
    assert_eq!(list[0].addr, VsockAddr { cid: 2, port: 0 });
    assert_eq!(list[0].transport_kind, TransportKind::DriverFFAMsg(0x8001));
    assert_eq!(list[1].addr, VsockAddr { cid: 2, port: 1 });
    let vintf = Uuid {
        time_low: 0xd2d10228,
        time_mid: 0x107c,
        time_hi_and_version: 0x4f7b,
        clock_seq_and_node: 0x9c5286dce8007049,
    };
    let other = Uuid { time_low: 0, ..vintf };
    assert!(list[0].is_allowed(other));
    assert!(list[1].is_allowed(vintf));
    assert!(!list[1].is_allowed(other));
}

#[test]
fn tipc_ports_are_opened_in_steps() {
    let list = tipc_to_vsock_mappings(&ALL);
    let kind = TransportKind::DriverFFAMsg(0x8001);
    assert_eq!(create_tipc_port(&list[0], TransportKind::DriverPCI), PortStep::Unused);
    assert_eq!(create_tipc_port(&list[0], TransportKind::DeviceFFAMsg(0x8001)), PortStep::Unused);
    let mut step = create_tipc_port(&list[0], kind);
    for next in [PortStep::Publish, PortStep::Attach, PortStep::Open] {
        step = create_tipc_port_next(step, Ok(()));
        assert_eq!(step, next);
    }
    let error = Err(LkError::Generic);
    assert_eq!(create_tipc_port_next(PortStep::Create, error), PortStep::Unused);
    assert_eq!(create_tipc_port_next(PortStep::Publish, error), PortStep::Close);
    assert_eq!(create_tipc_port_next(PortStep::Attach, error), PortStep::Close);
    assert_eq!(create_tipc_port_next(PortStep::Close, Ok(())), PortStep::Unused);
}

#[test]
fn requests_for_port_zero_wait_for_a_name() {
    let mut device = VsockDevice::new(ALL);
    assert_eq!(start(&mut device, 0, VsockEventType::ConnectionRequest, 7), END);
    let c = &device.connections[0];
    assert_eq!((c.peer, c.local_port), (PEER, 0));
    assert_eq!(c.state, VsockConnectionState::VsockOnly);
    assert_eq!(c.rx_buffer.len(), 8192);
    assert_eq!(c.href.addr, 7);
    // The same connection again, and a port that nobody listens to.
    let step = start(&mut device, 0, VsockEventType::ConnectionRequest, 8);
    assert_eq!(step, reset(0, LkError::AlreadyExists, None));
    let step = start(&mut device, 5, VsockEventType::ConnectionRequest, 8);
    assert_eq!(step, reset(5, LkError::OutOfRange, None));
    assert_eq!(device.connections.len(), 1);
}

#[test]
fn the_first_data_names_a_service() {
    let mut device = VsockDevice::new(NONE);
    start(&mut device, 0, VsockEventType::ConnectionRequest, 7);
    let step = start(&mut device, 0, VsockEventType::Received { length: 5 }, 0);
    assert_eq!(step, RxStep::ReceiveName { index: 0, length: 5 });
    assert!(device.rx_can_resume(step, &RxInput::Data(b"name\n".to_vec())));
    assert!(!device.rx_can_resume(step, &RxInput::Data(b"na\0e\n".to_vec())));
    assert!(!device.rx_can_resume(step, &RxInput::Data(b"name".to_vec())));
    assert!(!device.rx_can_resume(step, &RxInput::Sent(0)));
    let step = device.vsock_rx_resume(step, RxInput::Data(b"name\n".to_vec()));
    assert_eq!(step, RxStep::ConnectNamed { index: 0 });
    let c = &device.connections[0];
    assert_eq!(c.tipc_port_name.as_deref(), Some(&b"name"[..]));
    assert_eq!(c.state, VsockConnectionState::TipcConnecting);
    assert_eq!(c.href.cookie, 7);
    assert_eq!(c.href.emask, u32::MAX);
    assert_eq!(c.href.id, 1000);
    assert_eq!(device.vsock_rx_resume(step, RxInput::Attached(Ok(()))), END);
    // More data before the service is connected is an error.
    let step = start(&mut device, 0, VsockEventType::Received { length: 1 }, 0);
    assert_eq!(step, reset(0, LkError::BadState, Some(7)));
    assert!(device.connections.is_empty());
}

#[test]
fn bad_events_are_reported() {
    let mut device = VsockDevice::new(NONE);
    start(&mut device, 0, VsockEventType::ConnectionRequest, 7);
    for length in [0, 64] {
        assert!(!device.rx_can_start(&event(0, VsockEventType::Received { length })));
    }
    assert!(!device.rx_can_start(&event(0, VsockEventType::CreditRequest)));
    assert!(!device.rx_can_resume(END, &RxInput::Nothing));
    let mut c = VsockConnection::new(PEER, 9, 7);
    let event = |id, emask| HandleEvent { handle: 1, cookie: 7, id, emask };
    assert!(c.tx_can_start(&NONE, event(0, 8)));
    assert!(!c.tx_can_start(&NONE, event(1, 8)));
    assert!(!c.tx_can_start(&NONE, event(0, 1)));
    assert!(!c.tx_can_start(&NONE, event(0, 16)));
    assert!(c.tx_can_start(&NONE, event(0, 16 | 8)));
    assert!(!c.tx_can_resume(16 | 8, TxStep::GetMsg, TxInput::MsgInfo { ret: -1, len: 0 }));
    assert!(c.tx_can_resume(8, TxStep::GetMsg, TxInput::MsgInfo { ret: -1, len: 0 }));
    assert!(!c.tx_can_resume(8, TxStep::GetMsg, TxInput::Sent));
    c.state = VsockConnectionState::TipcSendBlocked;
    c.rx_pending = 1;
    assert!(c.tx_can_start(&NONE, event(0, 16)));
    c.state = VsockConnectionState::TipcConnecting;
    assert!(c.tx_can_start(&NONE, event(0, 1)));
    assert!(!c.tx_can_start(&NONE, event(0, 1 | 16)));
}

#[test]
fn a_service_that_cannot_be_attached_is_reset() {
    let mut device = VsockDevice::new(NONE);
    start(&mut device, 0, VsockEventType::ConnectionRequest, 7);
    let step = start(&mut device, 0, VsockEventType::Received { length: 4 }, 0);
    let step = device.vsock_rx_resume(step, RxInput::Data(b"name".to_vec()));
    let step = device.vsock_rx_resume(step, RxInput::Attached(Err(LkError::NoMemory)));
    assert_eq!(step, reset(0, LkError::NoMemory, Some(7)));
    assert!(device.connections.is_empty());
}

/// A device with an active connection to port 9.
fn active() -> VsockDevice {
    let mut device = VsockDevice::new(ALL);
    let step = start(&mut device, 9, VsockEventType::ConnectionRequest, 7);
    assert_eq!(step, RxStep::ConnectNew { peer: PEER, local_port: 9, href_addr: 7 });
    assert!(device.connections.is_empty());
    assert_eq!(device.vsock_rx_resume(step, RxInput::Attached(Ok(()))), END);
    let c = &mut device.connections[0];
    assert_eq!(c.tipc_port_name.as_deref(), Some(&b"com.android.trusty.keymint"[..]));
    assert_eq!(c.state, VsockConnectionState::TipcConnecting);
    let event = HandleEvent { handle: 1, cookie: 7, id: 1000, emask: 1 };
    let step = c.vsock_tx_start(&ALL, event);
    assert_eq!(step, TxStep::Done(ConnectionStateAction::Keep));
    assert_eq!(c.state, VsockConnectionState::Active);
    device
}

#[test]
fn a_service_port_is_connected_at_once() {
    active();
    let mut device = VsockDevice::new(ALL);
    let step = start(&mut device, 9, VsockEventType::ConnectionRequest, 7);
    let step = device.vsock_rx_resume(step, RxInput::Attached(Err(LkError::NoMemory)));
    assert_eq!(step, reset(9, LkError::NoMemory, None));
    assert!(device.connections.is_empty());
}

#[test]
fn data_is_forwarded_to_the_service() {
    let mut device = active();
    let step = start(&mut device, 9, VsockEventType::Received { length: 3 }, 0);
    assert_eq!(step, RxStep::ReceiveData { index: 0, length: 3 });
    let step = device.vsock_rx_resume(step, RxInput::Data(vec![1, 2, 3]));
    assert_eq!(step, RxStep::SendPending { index: 0 });
    assert_eq!(device.connections[0].pending_data(), [1, 2, 3]);
    assert_eq!(device.connections[0].rx_count, 1);
    let step = device.vsock_rx_resume(step, RxInput::Sent(3));
    assert_eq!(step, RxStep::UpdateCredit { index: 0 });
    assert_eq!(device.connections[0].rx_pending, 0);
    assert_eq!(device.vsock_rx_resume(step, RxInput::Nothing), END);
    assert!(!device.rx_can_start(&event(9, VsockEventType::Received { length: 8193 })));
}

#[test]
fn data_waits_while_the_service_is_full() {
    let mut device = active();
    let step = start(&mut device, 9, VsockEventType::Received { length: 3 }, 0);
    let step = device.vsock_rx_resume(step, RxInput::Data(vec![1, 2, 3]));
    let step = device.vsock_rx_resume(step, RxInput::Sent(-9));
    assert_eq!(step, RxStep::UpdateCredit { index: 0 });
    assert_eq!(device.connections[0].state, VsockConnectionState::TipcSendBlocked);
    assert_eq!(device.connections[0].pending_data(), [1, 2, 3]);
    // More data is put off, in order.
    let mut pending = VecDeque::new();
    let first = event(9, VsockEventType::Received { length: 4 });
    let second = event(9, VsockEventType::Received { length: 5 });
    assert_eq!(device.vsock_rx_start(&mut pending, first, 0), RxStep::Sleep);
    assert_eq!(device.vsock_rx_start(&mut pending, second, 0), RxStep::Sleep);
    assert_eq!(device.vsock_rx_resume(RxStep::Sleep, RxInput::Nothing), END);
    assert_eq!(next_event(&mut pending), Some(first));
    assert_eq!(next_event(&mut pending), Some(second));
    assert_eq!(next_event(&mut pending), None);
    // The service has room again.
    let c = &mut device.connections[0];
    let step =
        c.vsock_tx_start(&ALL, HandleEvent { handle: 1, cookie: 7, id: 1000, emask: 16 });
    assert_eq!(step, TxStep::SendPending);
    let step = c.vsock_tx_resume(16, step, TxInput::PendingSent { ret: 3 });
    assert_eq!(step, TxStep::Done(ConnectionStateAction::Keep));
    assert_eq!(c.state, VsockConnectionState::Active);
    assert_eq!(c.rx_pending, 0);
}

#[test]
fn a_send_error_resets_the_connection() {
    let cases = [
        (-1, LkError::Generic),
        (-2, LkError::NotFound),
        (2, LkError::BadLen),
        (4, LkError::BadLen),
    ];
    for (ret, error) in cases {
        let mut device = active();
        let step = start(&mut device, 9, VsockEventType::Received { length: 3 }, 0);
        let step = device.vsock_rx_resume(step, RxInput::Data(vec![1, 2, 3]));
        let step = device.vsock_rx_resume(step, RxInput::Sent(ret));
        assert_eq!(step, reset(9, error, Some(7)));
        assert!(device.connections.is_empty());
    }
}

#[test]
fn sending_reports_its_errors() {
    let mut c = VsockConnection::new(PEER, 9, 7);
    c.state = VsockConnectionState::Active;
    c.rx_pending = 3;
    assert_eq!(c.tipc_try_send(-2), Err(LkError::NotFound));
    assert_eq!(c.tipc_try_send(2), Err(LkError::BadLen));
    assert_eq!(c.rx_pending, 3);
    c.tx_since_rx = 5;
    assert_eq!(c.tipc_try_send(3), Ok(()));
    assert_eq!((c.rx_pending, c.tx_since_rx), (0, 0));
}

#[test]
fn a_peer_that_leaves_takes_its_connection_along() {
    let mut device = active();
    let step = start(&mut device, 9, VsockEventType::Disconnected, 0);
    assert_eq!(step, RxStep::Done(RxDone { reset: None, error: None, close_channel: Some(7) }));
    assert!(device.connections.is_empty());
    for event_type in [
        VsockEventType::Disconnected,
        VsockEventType::Connected,
        VsockEventType::Received { length: 1 },
        VsockEventType::CreditUpdate,
    ] {
        assert_eq!(start(&mut device, 9, event_type, 0), END);
    }
}

#[test]
fn closing_depends_on_the_state() {
    let close = |state, cookie, action| {
        let mut c = VsockConnection::new(PEER, 9, 7);
        c.state = state;
        c.href.cookie = cookie;
        let closed = vsock_connection_close(&mut c, action);
        (c.state, c.href.cookie, closed)
    };
    let kept = Closed { remove: false, close_channel: false };
    let gone = Closed { remove: true, close_channel: false };
    let (close_it, remove_it) = (ConnectionStateAction::Close, ConnectionStateAction::Remove);
    let waiting = VsockConnectionState::TipcClosed;
    let closed = VsockConnectionState::Closed;
    assert_eq!(close(VsockConnectionState::VsockOnly, 0, close_it), (waiting, 0, kept));
    assert_eq!(close(VsockConnectionState::VsockOnly, 0, remove_it), (closed, 0, gone));
    assert_eq!(
        close(VsockConnectionState::Active, 7, close_it),
        (waiting, 0, Closed { remove: false, close_channel: true })
    );
    assert_eq!(
        close(VsockConnectionState::Active, 7, remove_it),
        (closed, 0, Closed { remove: true, close_channel: true })
    );
    assert_eq!(close(waiting, 0, remove_it), (closed, 0, gone));
    assert_eq!(close(waiting, 7, remove_it), (closed, 7, kept));
    assert_eq!(close(VsockConnectionState::Invalid, 0, remove_it).2, kept);
}

#[test]
fn the_receive_loop_stops_when_it_is_told_to() {
    let mut device = active();
    assert!(matches!(device.vsock_rx_idle(Ok(())), RxIdle::Continue));
    assert!(matches!(device.vsock_rx_idle(Err(LkError::TimedOut)), RxIdle::Continue));
    start(&mut device, 0, VsockEventType::ConnectionRequest, 8);
    device.rx_event.signal_stop();
    assert!(matches!(device.vsock_rx_idle(Err(LkError::TimedOut)), RxIdle::Continue));
    match device.vsock_rx_idle(Ok(())) {
        RxIdle::Stop(closed) => assert_eq!(closed, [7]),
        other => panic!("{other:?}"),
    }
    assert!(device.connections.is_empty());
}

#[test]
fn the_transmit_loop_waits_for_events() {
    assert_eq!(tx_after_set_wait(Ok(())), TxWait::Event);
    assert_eq!(tx_after_set_wait(Err(LkError::NotFound)), TxWait::WaitForHandle);
    assert_eq!(tx_after_set_wait(Err(LkError::TimedOut)), TxWait::Inactive);
    assert_eq!(tx_after_set_wait(Err(LkError::Generic)), TxWait::Sleep);
    assert_eq!(tx_after_handle_wait(Ok(())), TxWait::Retry);
    assert_eq!(tx_after_handle_wait(Err(LkError::Generic)), TxWait::Retry);
    assert_eq!(tx_after_handle_wait(Err(LkError::TimedOut)), TxWait::Inactive);
}

#[test]
fn events_find_their_targets() {
    let device = active();
    let ports = vec![0, 55];
    let target = |handle, cookie, emask, stop| {
        device.vsock_tx_target(HandleEvent { handle, cookie, id: 0, emask }, stop, &ports)
    };
    assert_eq!(target(1, 7, 8, None), TxTarget::Connection(0));
    assert_eq!(target(1, 7, 8, Some(1)), TxTarget::Stop);
    assert_eq!(target(1, 7, 8, Some(2)), TxTarget::Connection(0));
    assert_eq!(target(55, 0, 1, None), TxTarget::Accept(1));
    assert_eq!(target(55, 0, 4, None), TxTarget::Nobody);
    assert_eq!(target(56, 0, 1, None), TxTarget::Nobody);
    assert!(tx_is_activity(8));
    assert!(tx_is_activity(4));
    assert!(!tx_is_activity(1 | 2 | 16));
}

#[test]
fn peers_that_sent_a_name_get_a_status_byte() {
    let mut c = VsockConnection::new(PEER, 0, 7);
    c.state = VsockConnectionState::TipcConnecting;
    let event = HandleEvent { handle: 1, cookie: 7, id: 0, emask: 1 | 8 };
    let step = c.vsock_tx_start(&NONE, event);
    assert_eq!(step, TxStep::SendStatus);
    assert_eq!(c.state, VsockConnectionState::Active);
    assert_eq!(c.vsock_tx_resume(9, step, TxInput::Sent), TxStep::GetMsg);
}

#[test]
fn messages_are_forwarded_to_the_peer() {
    let mut device = active();
    let c = &mut device.connections[0];
    c.rx_since_tx = 4;
    let emask = 8 | 4;
    let step = c.vsock_tx_start(&ALL, HandleEvent { handle: 1, cookie: 7, id: 1000, emask });
    assert_eq!(step, TxStep::GetMsg);
    let step = c.vsock_tx_resume(emask, step, TxInput::MsgInfo { ret: 0, len: 5 });
    assert_eq!(step, TxStep::ReadMsg { len: 5 });
    let step = c.vsock_tx_resume(emask, step, TxInput::MsgRead { ret: 5 });
    assert_eq!(step, TxStep::SendMsg { len: 5 });
    assert_eq!((c.tx_count, c.tx_since_rx, c.rx_since_tx), (1, 1, 0));
    let step = c.vsock_tx_resume(emask, step, TxInput::Sent);
    assert_eq!(step, TxStep::Shutdown);
    let step = c.vsock_tx_resume(emask, step, TxInput::ShutDown { ok: true });
    assert_eq!(step, TxStep::Done(ConnectionStateAction::Close));
    // The connection waits for the peer, and then it is removed.
    assert_eq!(device.vsock_tx_finish(0, ConnectionStateAction::Close), Some(7));
    assert_eq!(device.connections[0].state, VsockConnectionState::TipcClosed);
    let step = start(&mut device, 9, VsockEventType::Disconnected, 0);
    assert_eq!(step, END);
    assert!(device.connections.is_empty());
}

#[test]
fn broken_messages_are_dropped() {
    let mut device = active();
    let c = &mut device.connections[0];
    let step = c.vsock_tx_resume(8, TxStep::GetMsg, TxInput::MsgInfo { ret: -2, len: 5 });
    assert_eq!(step, TxStep::Done(ConnectionStateAction::Keep));
    for ret in [-1, 4] {
        let step = c.vsock_tx_resume(8, TxStep::ReadMsg { len: 5 }, TxInput::MsgRead { ret });
        assert_eq!(step, TxStep::Done(ConnectionStateAction::Keep));
    }
    assert_eq!(c.tx_count, 0);
    let step = c.vsock_tx_resume(4, TxStep::Shutdown, TxInput::ShutDown { ok: false });
    assert_eq!(step, TxStep::Done(ConnectionStateAction::Keep));
    assert_eq!(device.vsock_tx_finish(0, ConnectionStateAction::Keep), None);
    assert_eq!(device.connections.len(), 1);
}

#[test]
fn outgoing_connections_use_free_ports() {
    assert_eq!(tipc_pick_port(&ALL, 9), AcceptStep::PickPort);
    assert_eq!(tipc_pick_port(&NONE, 9), AcceptStep::Connect { src_port: 9 });
    assert_eq!(tipc_pick_port(&NONE, 0), AcceptStep::PickPort);
    let after = |result| tipc_after_connect(77, result);
    assert_eq!(after(ConnectResult::Connected), AcceptStep::Accept { src_port: 77 });
    assert_eq!(after(ConnectResult::Exists), AcceptStep::PickPort);
    assert_eq!(after(ConnectResult::Failed), AcceptStep::GiveUp);
}

#[test]
fn clients_of_a_forwarded_port_are_accepted() {
    let list = tipc_to_vsock_mappings(&ALL);
    let mut device = VsockDevice::new(ALL);
    let nobody =
        Uuid { time_low: 0, time_mid: 0, time_hi_and_version: 0, clock_seq_and_node: 0 };
    assert_eq!(
        device.tipc_connect_vsock(&list[0], 77, 9, -2, nobody),
        Err(AcceptError { error: LkError::NotFound, close_channel: false })
    );
    assert_eq!(
        device.tipc_connect_vsock(&list[1], 77, 9, 0, nobody),
        Err(AcceptError { error: LkError::NotAllowed, close_channel: true })
    );
    assert!(device.connections.is_empty());
    assert_eq!(device.tipc_connect_vsock(&list[0], 77, 9, 0, nobody), Ok(()));
    let c = &device.connections[0];
    assert_eq!((c.peer, c.local_port), (VsockAddr { cid: 2, port: 0 }, 77));
    assert_eq!(c.state, VsockConnectionState::TipcOnly);
    assert_eq!(c.tipc_port_name.as_deref(), Some(&b"com.android.trusty.vsock.forwarder"[..]));
    assert_eq!((c.href.cookie, c.href.id, c.href.emask), (9, 0, u32::MAX));
    // The peer accepts the connection.
    let connected = VsockEvent {
        source: VsockAddr { cid: 2, port: 0 },
        destination: VsockAddr { cid: 3, port: 77 },
        event_type: VsockEventType::Connected,
        buffer_allocation: 0,
        forward_count: 0,
    };
    let step = device.vsock_rx_start(&mut VecDeque::new(), connected, 0);
    assert_eq!(step, RxStep::Attach { index: 0 });
    assert_eq!(device.vsock_rx_resume(step, RxInput::Attached(Ok(()))), END);
    assert_eq!(device.connections[0].state, VsockConnectionState::Active);
}

#[test]
fn outgoing_and_incoming_connections_do_not_meet() {
    let list = tipc_to_vsock_mappings(&ALL);
    let mut device = VsockDevice::new(ALL);
    let nobody =
        Uuid { time_low: 0, time_mid: 0, time_hi_and_version: 0, clock_seq_and_node: 0 };
    assert_eq!(tipc_pick_port(&ALL, 77), AcceptStep::Connect { src_port: 77 });
    assert_eq!(device.tipc_connect_vsock(&list[0], 77, 9, 0, nobody), Ok(()));
    // Neither the same peer nor another one gets a connection to the port without a service.
    let request = |source, port| VsockEvent {
        source,
        destination: VsockAddr { cid: 3, port },
        event_type: VsockEventType::ConnectionRequest,
        buffer_allocation: 0,
        forward_count: 0,
    };
    let peer = device.connections[0].peer;
    for (source, error) in [(peer, LkError::AlreadyExists), (PEER, LkError::OutOfRange)] {
        let step = device.vsock_rx_start(&mut VecDeque::new(), request(source, 77), 10);
        let reset = Some(ResetTarget { peer: source, local_port: 77 });
        let done = RxDone { reset, error: Some(error), close_channel: None };
        assert_eq!(step, RxStep::Done(done));
    }
    assert_eq!(device.vsock_rx_start(&mut VecDeque::new(), request(peer, 0), 10), END);
    let ends: Vec<_> = device.connections.iter().map(|c| (c.peer, c.local_port)).collect();
    assert_eq!(ends, [(peer, 77), (peer, 0)]);
}
