//! The device end of the bus.

use vsock_virtio_msg::error::LkError;
use vsock_virtio_msg::msg::bus_address;
use vsock_virtio_msg::msg::device::hal::{
    memory_unmap, DmaError, DmaMap, MapRequest, MemoryUnmap, TrustyDeviceHal,
};
use vsock_virtio_msg::msg::device::handle_req::{can_handle_msg, handle_req_callback, Notify};
use vsock_virtio_msg::msg::device::requests::{VirtioMsgPayload, VirtioMsgReq, VirtioMsgResp};
use vsock_virtio_msg::msg::device::transport::FFAMsgTransport;
use vsock_virtio_msg::msg::device::{
    is_guest_cid, tx_event_name, DeviceState, MemObj, VirtQueue, VirtioMsgDevice,
    VirtioMsgTransport,
};
use vsock_virtio_msg::wire::{bytes_of_msg, msg_of_bytes};

/// A message buffer that starts with `start` and is zero otherwise.
fn message(start: &[u8]) -> [u64; 14] {
    let mut bytes = [0u8; 112];
    bytes[..start.len()].copy_from_slice(start);
    msg_of_bytes(&bytes)
}

fn start_of(buf: &[u64; 14], len: usize) -> Vec<u8> {
    bytes_of_msg(buf)[..len].to_vec()
}

#[test]
fn responses_are_no_requests() {
    let mut buf = message(&[1, 2]);
    assert_eq!(VirtioMsgReq::parse(&mut buf).err(), Some(LkError::InvalidArgs));
    let mut buf = message(&[0, 2]);
    assert!(VirtioMsgReq::parse(&mut buf).is_ok());
}

#[test]
fn requests_are_told_apart_by_type_and_id() {
    let mut buf = message(&[2, 0x80, 0, 0, 24, 0, 1, 0, 0, 0, 2, 0, 0, 0]);
    let req = VirtioMsgReq::parse(&mut buf).unwrap();
    assert!(req.is_bus_msg());
    match req.get_msg_payload() {
        VirtioMsgPayload::BusFFAVersion(v) => {
            assert_eq!(v.driver_version, 1);
            assert_eq!(v.vmsg_revision, 2);
        }
        other => panic!("{other:?}"),
    }
    let mut buf = message(&[0, 2]);
    let req = VirtioMsgReq::parse(&mut buf).unwrap();
    assert!(!req.is_bus_msg());
    assert!(matches!(req.get_msg_payload(), VirtioMsgPayload::GetDeviceInfo));
    let mut buf = message(&[2, 2, 0, 0, 10, 0, 8, 0, 16, 0]);
    let req = VirtioMsgReq::parse(&mut buf).unwrap();
    match req.get_msg_payload() {
        VirtioMsgPayload::BusGetDevices(g) => assert_eq!((g.offset, g.num), (8, 16)),
        other => panic!("{other:?}"),
    }
}

#[test]
fn every_kind_of_request_is_known() {
    let kinds: [(u8, u8, fn(&VirtioMsgPayload) -> bool); 18] = [
        (2, 0x80, |p| matches!(p, VirtioMsgPayload::BusFFAVersion(_))),
        (2, 0x02, |p| matches!(p, VirtioMsgPayload::BusGetDevices(_))),
        (2, 0x81, |p| matches!(p, VirtioMsgPayload::AreaShare(_))),
        (2, 0x82, |p| matches!(p, VirtioMsgPayload::AreaUnshare(_))),
        (2, 0x55, |p| matches!(p, VirtioMsgPayload::UnknownBusReq(0x55))),
        (0, 0x02, |p| matches!(p, VirtioMsgPayload::GetDeviceInfo)),
        (0, 0x08, |p| matches!(p, VirtioMsgPayload::SetDeviceStatus(_))),
        (0, 0x07, |p| matches!(p, VirtioMsgPayload::GetDeviceStatus)),
        (0, 0x03, |p| matches!(p, VirtioMsgPayload::GetFeatures(_))),
        (0, 0x04, |p| matches!(p, VirtioMsgPayload::SetFeatures(_))),
        (0, 0x09, |p| matches!(p, VirtioMsgPayload::GetVqueue(_))),
        (0, 0x0a, |p| matches!(p, VirtioMsgPayload::SetVqueue(_))),
        (0, 0x05, |p| matches!(p, VirtioMsgPayload::GetConfig(_))),
        (0, 0x41, |p| matches!(p, VirtioMsgPayload::EventAvail(_))),
        (0, 0x42, |p| matches!(p, VirtioMsgPayload::EventUsed(_))),
        (0, 0x40, |p| matches!(p, VirtioMsgPayload::EventConfig(_))),
        (0, 0x0b, |p| matches!(p, VirtioMsgPayload::ResetVqueue(_))),
        (0, 0x55, |p| matches!(p, VirtioMsgPayload::UnknownDeviceReq(0x55))),
    ];
    for (ty, id, is_kind) in kinds {
        let mut buf = message(&[ty, id]);
        let payload = VirtioMsgReq::parse(&mut buf).unwrap().get_msg_payload();
        assert!(is_kind(&payload), "{ty} {id} {payload:?}");
    }
}

#[test]
fn error_responses_have_no_payload() {
    let mut buf = message(&[2, 0x80, 0, 0, 24, 0, 1, 2, 3, 4]);
    let resp = VirtioMsgResp::new(VirtioMsgReq::parse(&mut buf).unwrap());
    resp.ffa_error();
    assert_eq!(start_of(&buf, 112), start_of(&message(&[3, 0]), 112));
}

#[test]
fn forty_byte_responses_keep_the_header() {
    let mut buf = message(&[2, 0x80, 7, 0]);
    let resp = VirtioMsgResp::new(VirtioMsgReq::parse(&mut buf).unwrap());
    resp.activate(1, 0x0203, 4);
    assert_eq!(
        start_of(&buf, 26),
        [3, 0x80, 7, 0, 1, 0, 0, 0, 3, 2, 0, 0, 0, 0, 0, 0, 4, 0, 0, 0, 0, 0, 0, 0, 0, 0]
    );
    let mut buf = message(&[2, 0x80, 7, 0, 9, 9]);
    let resp = VirtioMsgResp::new(VirtioMsgReq::parse(&mut buf).unwrap());
    resp.configure(0x0102);
    assert_eq!(start_of(&buf, 13), [3, 0x80, 7, 0, 2, 1, 0, 0, 0, 0, 0, 0, 0]);
}

#[test]
fn unshare_responses_tell_the_result() {
    let mut buf = message(&[2, 0x82, 0, 0, 8, 0, 0x1e, 0]);
    let resp = VirtioMsgResp::new(VirtioMsgReq::parse(&mut buf).unwrap());
    resp.write_bus_area_unshare(0x1e, false);
    assert_eq!(start_of(&buf, 11), [3, 0x82, 0, 0, 10, 0, 0x1e, 0, 1, 0, 0]);
}

#[test]
fn refused_messages_are_left_alone() {
    let mut device = VirtioMsgDevice::new(3);
    for start in [[1u8, 2, 0, 0], [0, 2, 1, 0], [0, 2, 0, 1]] {
        let mut buf = message(&start);
        let before = buf;
        assert!(can_handle_msg(&buf));
        assert_eq!(device.handle_req(&mut buf), Err(LkError::InvalidArgs));
        assert_eq!(buf, before);
    }
    // Bus messages do not have a device number.
    let mut buf = message(&[2, 0x55, 1, 0]);
    assert_eq!(device.handle_req(&mut buf), Ok(Notify::Nothing));
    assert_eq!(start_of(&buf, 4), [3, 0x55, 1, 0]);
}

#[test]
fn unsupported_messages_are_reported() {
    assert!(!can_handle_msg(&message(&[2, 0])));
    assert!(!can_handle_msg(&message(&[0, 1])));
    assert!(can_handle_msg(&message(&[2, 1])));
    assert!(can_handle_msg(&message(&[0, 0])));
    assert!(can_handle_msg(&message(&[2, 0x81, 0, 0, 0, 0, 255, 0])));
    assert!(can_handle_msg(&message(&[2, 0x82, 0, 0, 0, 0, 255, 0])));
}

fn set_status(device: &mut VirtioMsgDevice, status: u8) -> Result<Notify, LkError> {
    let mut buf = message(&[0, 8, 0, 0, 10, 0, status]);
    let result = device.handle_req(&mut buf);
    assert_eq!(start_of(&buf, 8), [1, 8, 0, 0, 10, 0, status, 0]);
    result
}

#[test]
fn drivers_initialize_the_device_in_order() {
    let mut device = VirtioMsgDevice::new(3);
    assert_eq!(set_status(&mut device, 2), Err(LkError::InvalidArgs));
    assert_eq!(device.state.status, 0);
    assert_eq!(set_status(&mut device, 1), Ok(Notify::Nothing));
    assert_eq!(set_status(&mut device, 1), Err(LkError::InvalidArgs));
    assert_eq!(set_status(&mut device, 3), Ok(Notify::Nothing));
    assert_eq!(set_status(&mut device, 7), Err(LkError::InvalidArgs));
    assert_eq!(set_status(&mut device, 11), Ok(Notify::Nothing));
    assert_eq!(set_status(&mut device, 15), Ok(Notify::DeviceInit));
    assert_eq!(device.state.status, 15);
    assert_eq!(set_status(&mut device, 15), Err(LkError::InvalidArgs));
    assert_eq!(device.state.status, 15);
}

#[test]
fn a_reset_clears_status_and_virtqueues() {
    let mut device = VirtioMsgDevice::new(3);
    device.state.status = 15;
    device.state.vqueues[1] =
        Some(VirtQueue { size: 8, desc_table: 1, avail_ring: 2, used_ring: 3 });
    assert_eq!(set_status(&mut device, 0x80), Ok(Notify::Nothing));
    assert_eq!(device.state.status, 0x80);
    assert!(device.state.vqueues[1].is_some());
    assert_eq!(set_status(&mut device, 0), Ok(Notify::Nothing));
    assert_eq!(device.state.status, 0);
    assert!(device.state.vqueues[1].is_none());
}

#[test]
fn failed_devices_need_a_reset() {
    for steps in [vec![], vec![1u8], vec![1, 3], vec![1, 3, 11], vec![1, 3, 11, 15]] {
        let mut device = VirtioMsgDevice::new(3);
        for status in &steps {
            assert!(set_status(&mut device, *status).is_ok());
        }
        let failed = steps.last().unwrap_or(&0) | 0x80;
        assert_eq!(set_status(&mut device, failed), Ok(Notify::Nothing));
        for status in [1, 3, 11, 15] {
            assert_eq!(set_status(&mut device, status), Err(LkError::InvalidArgs));
            assert_eq!(device.state.status, failed.into());
        }
        // Giving up once more is allowed, and a reset brings the device back.
        assert_eq!(set_status(&mut device, 0x80), Ok(Notify::Nothing));
        assert_eq!(set_status(&mut device, 1), Err(LkError::InvalidArgs));
        assert_eq!(set_status(&mut device, 0), Ok(Notify::Nothing));
        assert_eq!(set_status(&mut device, 1), Ok(Notify::Nothing));
    }
}

#[test]
fn areas_are_shared_once() {
    let mut device = VirtioMsgDevice::new(3);
    let request = [2, 0x81, 0, 0, 32, 0, 0x1e, 0, 0x77, 0, 0, 0, 0, 0, 0, 0];
    let mut buf = message(&request);
    assert_eq!(device.handle_req(&mut buf), Ok(Notify::Nothing));
    assert_eq!(start_of(&buf, 12), [3, 0x81, 0, 0, 10, 0, 0x1e, 0, 0, 0, 0, 0]);
    assert_eq!(device.state.share_requests[0x1e], Some(0x77));
    let mut buf = message(&request);
    assert_eq!(device.handle_req(&mut buf), Ok(Notify::Nothing));
    assert_eq!(start_of(&buf, 12), [3, 0x81, 0, 0, 10, 0, 0x1e, 0, 1, 0, 0, 0]);
    // The device has room for areas 0 to 254.
    for (low, high, result) in [(254, 0, 0), (255, 0, 1), (0, 1, 1)] {
        let before = device.state.share_requests.clone();
        let mut buf = message(&[2, 0x81, 0, 0, 32, 0, low, high, 7]);
        assert_eq!(device.handle_req(&mut buf), Ok(Notify::Nothing));
        assert_eq!(start_of(&buf, 10), [3, 0x81, 0, 0, 10, 0, low, high, result, 0]);
        assert_eq!(device.state.share_requests == before, result == 1);
    }
    assert_eq!(device.state.share_requests[254], Some(7));
}

#[test]
fn unshared_areas_wait_to_be_unmapped() {
    let mut device = VirtioMsgDevice::new(3);
    let obj = MemObj { token: 1, vaddr: 0x10000, size: 0x4000 };
    device.state.memory_map[7] = Some(obj);
    let mut buf = message(&[2, 0x82, 0, 0, 10, 0, 7, 0, 0, 0]);
    assert_eq!(device.handle_req(&mut buf), Ok(Notify::MemoryUnmap));
    assert_eq!(start_of(&buf, 11), [3, 0x82, 0, 0, 10, 0, 7, 0, 0, 0, 0]);
    assert_eq!(device.state.memory_map[7], None);
    assert_eq!(device.unshare_requests[7], Some(obj));
    // Nothing is mapped any more.
    let mut buf = message(&[2, 0x82, 0, 0, 10, 0, 7, 0, 0, 0]);
    assert_eq!(device.handle_req(&mut buf), Ok(Notify::MemoryUnmap));
    // The area was mapped again before the old object was unmapped.
    device.state.memory_map[7] = Some(obj);
    let mut buf = message(&[2, 0x82, 0, 0, 10, 0, 7, 0, 0, 0]);
    assert_eq!(device.handle_req(&mut buf), Err(LkError::BadState));
    assert_eq!(device.state.memory_map[7], None);
    // The device has room for areas 0 to 254, and the area id has 32 bits.
    for area_id in [255u32, 256, 0x0001_0005, 0x0100_0007] {
        let mut start = vec![2, 0x82, 0, 0, 10, 0];
        start.extend_from_slice(&area_id.to_le_bytes());
        let mut buf = message(&start);
        assert_eq!(device.handle_req(&mut buf), Err(LkError::InvalidArgs));
    }
    let other = MemObj { token: 2, vaddr: 0x20000, size: 0x1000 };
    let mut objects = vec![other];
    assert_eq!(memory_unmap(&mut device, &mut objects), MemoryUnmap::Unmap);
    assert_eq!(objects, [other, obj]);
    assert_eq!(device.unshare_requests[7], None);
    device.unshare_requests[7] = Some(obj);
    device.peer_dying = true;
    assert_eq!(memory_unmap(&mut device, &mut objects), MemoryUnmap::Stop);
    assert_eq!(objects, [other, obj]);
    assert_eq!(device.unshare_requests[7], Some(obj));
}

#[test]
fn configuration_space_is_the_guest_cid() {
    let mut device = VirtioMsgDevice::new(0x12345678);
    let cases: [(u8, u8, [u8; 8]); 5] = [
        (0, 8, [0x78, 0x56, 0x34, 0x12, 0, 0, 0, 0]),
        (0, 4, [0x78, 0x56, 0x34, 0x12, 0, 0, 0, 0]),
        (0, 1, [0x78, 0, 0, 0, 0, 0, 0, 0]),
        (8, 2, [0x56, 0x34, 0, 0, 0, 0, 0, 0]),
        (64, 8, [0; 8]),
    ];
    for (offset, size, data) in cases {
        let mut buf = message(&[0, 5, 0, 0, 14, 0, offset, 0, 0, 0, size, 0, 0, 0]);
        assert_eq!(device.handle_req(&mut buf), Ok(Notify::Nothing));
        let mut want = vec![1, 5, 0, 0, 26, 0, 0, 0, 0, 0, offset, 0, 0, 0, size, 0, 0, 0];
        want.extend_from_slice(&data);
        assert_eq!(start_of(&buf, 26), want);
    }
}

#[test]
fn driver_features_are_negotiated() {
    let mut device = VirtioMsgDevice::new(3);
    let mut buf = message(&[0, 4, 0, 0, 0, 0, 0, 0, 0xff, 0xff, 0xff, 0xff, 0xff, 0xff]);
    assert_eq!(device.handle_req(&mut buf), Ok(Notify::Nothing));
    assert_eq!(start_of(&buf, 16), [1, 4, 0, 0, 0, 0, 0, 0, 1, 0, 0, 0, 3, 0, 0, 0]);
    // Platform access is settled on even if the driver does not ask for it.
    let mut buf = message(&[0, 4, 0, 0, 0, 0, 0, 0, 1, 0, 0, 0, 1, 0, 0, 0]);
    assert_eq!(device.handle_req(&mut buf), Ok(Notify::Nothing));
    assert_eq!(start_of(&buf, 16), [1, 4, 0, 0, 0, 0, 0, 0, 1, 0, 0, 0, 3, 0, 0, 0]);
    let mut buf = message(&[0, 4]);
    assert_eq!(device.handle_req(&mut buf), Ok(Notify::Nothing));
    assert_eq!(start_of(&buf, 16), [1, 4, 0, 0, 0, 0, 0, 0, 0, 0, 0, 0, 2, 0, 0, 0]);
}

#[test]
fn ignored_requests_only_get_the_response_bit() {
    let mut device = VirtioMsgDevice::new(3);
    for id in [0x0b, 0x40, 0x41, 0x42, 0x55] {
        let mut buf = message(&[0, id, 0, 0, 14, 0, 1, 2, 3]);
        assert_eq!(device.handle_req(&mut buf), Ok(Notify::Nothing));
        assert_eq!(start_of(&buf, 112), start_of(&message(&[1, id, 0, 0, 14, 0, 1, 2, 3]), 112));
    }
}

#[test]
fn clients_keep_their_devices() {
    let mut transport = VirtioMsgTransport::new(2, 3);
    assert!(transport.can_register(5));
    transport.get_device(5).state.status = 1;
    transport.get_device(6).state.status = 2;
    assert_eq!(transport.vm_ids, [Some(5), Some(6)]);
    assert_eq!(transport.get_device(5).state.status, 1);
    assert_eq!(transport.get_device(6).state.status, 2);
    assert!(transport.can_register(6));
    assert!(!transport.can_register(7));
}

#[test]
fn callbacks_report_status_codes() {
    let mut transport = VirtioMsgTransport::new(1, 3);
    let mut buf = message(&[0, 8, 0, 0, 10, 0, 1]);
    assert_eq!(handle_req_callback(&mut transport, 9, &mut buf), (0, Notify::Nothing));
    assert_eq!(transport.vm_ids, [Some(9)]);
    assert_eq!(transport.devices[0].state.status, 1);
    let mut buf = message(&[0, 8, 0, 0, 10, 0, 8]);
    assert_eq!(handle_req_callback(&mut transport, 9, &mut buf), (-8, Notify::Nothing));
}

#[test]
fn threads_are_started_once() {
    let mut transport = VirtioMsgTransport::new(3, 3);
    transport.get_device(5).state.status = 15;
    transport.get_device(6).state.status = 11;
    assert_eq!(transport.virtio_msg_deferred_init(0), Some((0, 5)));
    assert_eq!(transport.virtio_msg_deferred_init(1), None);
    assert!(transport.devices[0].state.threads_started);
    assert_eq!(transport.virtio_msg_deferred_init(0), None);
    transport.get_device(6).state.status = 15;
    assert_eq!(transport.virtio_msg_deferred_init(0), Some((1, 6)));
}

#[test]
fn a_device_is_as_new_after_its_client_is_gone() {
    let mut transport = VirtioMsgTransport::new(2, 3);
    let a = MemObj { token: 1, vaddr: 0x1000, size: 0x1000 };
    let b = MemObj { token: 2, vaddr: 0x2000, size: 0x1000 };
    let c = MemObj { token: 3, vaddr: 0x3000, size: 0x1000 };
    let device = transport.get_device(5);
    device.state.status = 15;
    device.state.threads_started = true;
    device.state.share_requests[4] = Some(1);
    device.state.memory_map[2] = Some(b);
    device.unshare_requests[2] = Some(c);
    device.unshare_requests[1] = Some(a);
    device.set_vsock_evts();
    assert_eq!(transport.virtio_msg_vm_destroy(0x10005), 0);
    let device = transport.get_device(5);
    assert!(device.peer_dying);
    assert_eq!(device.virtio_msg_cleanup(), [a, b, c]);
    assert_eq!(format!("{device:?}"), format!("{:?}", VirtioMsgDevice::new(3)));
}

#[test]
fn resetting_a_state_keeps_the_memory_map() {
    let mut state = DeviceState::new();
    let obj = MemObj { token: 1, vaddr: 0x1000, size: 0x1000 };
    state.memory_map[0] = Some(obj);
    state.status = 15;
    state.share_requests[254] = Some(3);
    state.reset();
    assert_eq!(state.memory_map[0], Some(obj));
    assert_eq!(state.status, 0);
    assert_eq!(state.share_requests[254], None);
}

#[test]
fn an_area_is_mapped_when_it_is_first_used() {
    let mut device = VirtioMsgDevice::new(3);
    let addr = bus_address(0x1e, 0x2000);
    assert!(!TrustyDeviceHal::can_dma_map(&device, addr));
    device.state.share_requests[0x1e] = Some(0x77);
    assert!(TrustyDeviceHal::can_dma_map(&device, addr));
    assert_eq!(
        TrustyDeviceHal::dma_map(&mut device, addr, 9),
        DmaMap::MapObject(MapRequest {
            client_id: 9,
            mem_handle: 0x77,
            tag: 0,
            offset: 0,
            align_log2: 12,
            vmm_flags: 0,
            arch_mmu_flags: 16,
        })
    );
    assert_eq!(device.state.share_requests[0x1e], None);
    assert_eq!(
        TrustyDeviceHal::dma_map_object(&mut device, addr, Err(-5)),
        Err(DmaError::InvalidParam)
    );
    let obj = MemObj { token: 1, vaddr: 0x100000, size: 0xe000 };
    assert_eq!(TrustyDeviceHal::dma_map_object(&mut device, addr, Ok(obj)), Ok(0x102000));
    let other = bus_address(0x1e, 0xdfff);
    assert_eq!(TrustyDeviceHal::dma_map(&mut device, other, 9), DmaMap::Mapped(0x10dfff));
    assert!(!TrustyDeviceHal::can_dma_map(&device, bus_address(0x1e, 0xe000)));
    assert!(!TrustyDeviceHal::can_dma_map(&device, bus_address(255, 0)));
    assert_eq!(TrustyDeviceHal::dma_unmap(addr, 0x102000, 1), 0);
}

#[test]
fn the_transport_knows_the_virtqueues() {
    let transport = FFAMsgTransport::new(9);
    assert_eq!(transport.get_client_id(), 9);
    assert_eq!(transport.max_queue_size(0), 8);
    assert!(transport.requires_legacy_layout());
    let mut device = VirtioMsgDevice::new(3);
    let mut start = vec![0, 0x0a, 0, 0, 42, 0, 1, 0, 0, 0, 0, 0, 0, 0, 8, 0, 0, 0];
    for addr in [0x11u64, 0x22, 0x33] {
        start.extend_from_slice(&addr.to_le_bytes());
    }
    let mut buf = message(&start);
    assert_eq!(device.handle_req(&mut buf), Ok(Notify::Nothing));
    start[0] = 1;
    assert_eq!(buf, message(&start));
    assert!(transport.queue_is_configured(&device.state, 1));
    assert!(!transport.queue_is_configured(&device.state, 0));
    assert!(!transport.queue_is_configured(&device.state, 3));
    assert_eq!(transport.queue_get(&device.state, 1), [0x11, 0x22, 0x33]);
    let mut buf = message(&[0, 0x0a, 0, 0, 42, 0, 3]);
    assert_eq!(device.handle_req(&mut buf), Err(LkError::InvalidArgs));
}

#[test]
fn reserved_guest_cids_are_refused() {
    for cid in [0, 1, 2, u32::MAX] {
        assert!(!is_guest_cid(cid));
    }
    assert!(is_guest_cid(3));
    assert!(is_guest_cid(u32::MAX - 1));
}

#[test]
fn event_names_hold_the_client_id() {
    assert_eq!(tx_event_name(0), b"vsock-tx-loop-0");
    assert_eq!(tx_event_name(9), b"vsock-tx-loop-9");
    assert_eq!(tx_event_name(32769), b"vsock-tx-loop-32769");
    assert_ne!(tx_event_name(12), tx_event_name(1));
}
