//! The driver end of the bus.

use vsock_virtio_msg::error::LkError;
use vsock_virtio_msg::msg::driver::hal::{
    check_memory, BlockAddrs, BufferDirection, MsgHal, SharedBuffer, VsockMemAllocator,
};
use vsock_virtio_msg::msg::driver::init::{DriverInit, DriverInput, DriverStep};
use vsock_virtio_msg::msg::driver::requests::{VirtioMsgReq, VirtioMsgResp};
use vsock_virtio_msg::msg::driver::transport::FFAMsgTransport;
use vsock_virtio_msg::msg::driver::{
    check_reply_fits, driver_init, get_device_info, get_receiver_id, init_device, init_receiver_id,
    negotiate_version, shared_memory_size, DeviceEnumeration, FFAInitState, SharedHeap,
    INITIAL_AREA_ID,
};
use vsock_virtio_msg::msg::{bus_address, ArchMmuFlags};
use vsock_virtio_msg::wire::{bytes_of_msg, msg_of_bytes};

fn message(start: &[u8]) -> [u64; 14] {
    let mut bytes = [0u8; 112];
    bytes[..start.len()].copy_from_slice(start);
    msg_of_bytes(&bytes)
}

fn assert_bytes(req: &VirtioMsgReq, start: &[u8]) {
    assert_eq!(bytes_of_msg(req.get_buf()), bytes_of_msg(&message(start)));
}

#[test]
fn requests_have_the_layout_of_the_protocol() {
    assert_bytes(
        &VirtioMsgReq::new_bus_ffa_version(1, 2, 3),
        &[2, 0x80, 0, 0, 24, 0, 1, 0, 0, 0, 2, 0, 0, 0, 0, 0, 0, 0, 8, 0, 0, 0, 3, 0],
    );
    assert_bytes(
        &VirtioMsgReq::new_bus_get_devices(16, 8),
        &[2, 2, 0, 0, 10, 0, 16, 0, 8, 0],
    );
    assert_bytes(&VirtioMsgReq::new_get_device_info(0x0102), &[0, 2, 2, 1, 6, 0]);
    assert_bytes(
        &VirtioMsgReq::new_set_device_status(1, 0x0f),
        &[0, 8, 1, 0, 10, 0, 0x0f, 0, 0, 0],
    );
    assert_bytes(&VirtioMsgReq::new_get_device_status(0), &[0, 7, 0, 0, 6, 0]);
    assert_bytes(
        &VirtioMsgReq::new_get_device_features(0, 1, 2),
        &[0, 3, 0, 0, 14, 0, 1, 0, 0, 0, 2, 0, 0, 0],
    );
    assert_bytes(
        &VirtioMsgReq::new_set_driver_features(0, 0, 0x3_0000_0001),
        &[0, 4, 0, 0, 22, 0, 0, 0, 0, 0, 2, 0, 0, 0, 1, 0, 0, 0, 3, 0, 0, 0],
    );
    assert_bytes(
        &VirtioMsgReq::new_get_config(0, 4, 8),
        &[0, 5, 0, 0, 14, 0, 4, 0, 0, 0, 8, 0, 0, 0],
    );
    assert_bytes(&VirtioMsgReq::new_get_vqueue(0, 2), &[0, 9, 0, 0, 10, 0, 2, 0, 0, 0]);
    assert_bytes(
        &VirtioMsgReq::new_event_avail(3, 1),
        &[0, 0x41, 3, 0, 14, 0, 1, 0, 0, 0, 0, 0, 0, 0],
    );
}

#[test]
fn share_requests_describe_the_memory() {
    let flags = ArchMmuFlags { bits: ArchMmuFlags::PERM_NO_EXECUTE };
    let req = VirtioMsgReq::new_bus_area_share(0x1e, 0x0102030405060708, 14, flags);
    assert_bytes(
        &req,
        &[
            2, 0x81, 0, 0, 32, 0, 0x1e, 0, 8, 7, 6, 5, 4, 3, 2, 1, 0, 0, 0, 0, 0, 0, 0, 0, 14, 0,
            0, 0, 0xf4, 2, 0, 0,
        ],
    );
}

#[test]
fn vqueue_requests_hold_the_addresses() {
    let req = VirtioMsgReq::new_set_vqueue(0, 2, 8, 0x11, 0x22, 0x33);
    let mut start = vec![0, 0x0a, 0, 0, 42, 0, 2, 0, 0, 0, 0, 0, 0, 0, 8, 0, 0, 0];
    for addr in [0x11u64, 0x22, 0x33] {
        start.extend_from_slice(&addr.to_le_bytes());
    }
    assert_bytes(&req, &start);
}

#[test]
fn only_responses_are_read() {
    assert_eq!(VirtioMsgResp::new(message(&[0, 7])).err(), Some(LkError::InvalidArgs));
    let resp = VirtioMsgResp::new(message(&[1, 7, 0, 0, 10, 0, 5])).unwrap();
    assert_eq!(resp.read_get_device_status().unwrap().status, 5);
}

#[test]
fn responses_have_to_match_exactly() {
    // A wrong message id, a wrong size and a message with something behind its payload.
    for start in [
        vec![1u8, 8, 0, 0, 10, 0, 5],
        vec![1, 7, 0, 0, 11, 0, 5],
        vec![1, 7, 0, 0, 10, 0, 5, 0, 0, 0, 1],
    ] {
        let resp = VirtioMsgResp::new(message(&start)).unwrap();
        assert_eq!(resp.read_get_device_status(), Err(LkError::InvalidArgs));
    }
    let resp = VirtioMsgResp::new(message(&[1, 8, 0, 0, 10, 0, 9])).unwrap();
    assert_eq!(resp.read_set_device_status().unwrap().status, 9);
    let resp = VirtioMsgResp::new(message(&[3, 0x81, 0, 0, 10, 0, 0x1e, 0, 1, 0])).unwrap();
    let share = resp.read_bus_area_share().unwrap();
    assert_eq!((share.area_id, share.result), (0x1e, 1));
}

#[test]
fn variable_responses_end_where_they_say() {
    let resp =
        VirtioMsgResp::new(message(&[3, 2, 0, 0, 14, 0, 0, 0, 16, 0, 8, 0, 0x81, 0x02])).unwrap();
    assert!(resp.fits(2));
    let (page, bitmap) = resp.read_bus_get_devices().unwrap();
    assert_eq!((page.offset, page.num, page.next_offset), (0, 16, 8));
    assert_eq!(bitmap, [0x81, 0x02]);
    // Too small for the fixed part, and a message with something behind its payload.
    for start in [vec![3u8, 2, 0, 0, 11, 0], vec![3, 2, 0, 0, 12, 0, 0, 0, 0, 0, 0, 0, 1]] {
        let resp = VirtioMsgResp::new(message(&start)).unwrap();
        assert_eq!(resp.read_bus_get_devices().err(), Some(LkError::InvalidArgs));
    }
    // Larger than the buffer.
    let resp = VirtioMsgResp::new(message(&[3, 2, 0, 0, 113, 0])).unwrap();
    assert!(!resp.fits(2));
    assert!(resp.fits(3));
    assert!(!check_reply_fits(&Ok(message(&[3, 2, 0, 0, 113, 0])), 2));
    assert!(check_reply_fits(&Err(LkError::TimedOut), 2));
}

#[test]
fn the_receiver_is_the_only_partition() {
    assert_eq!(init_receiver_id(1, &vec![0x8001]), Ok(0x8001));
    assert_eq!(init_receiver_id(0, &vec![]), Err(LkError::Generic));
    assert_eq!(init_receiver_id(2, &vec![1, 2]), Err(LkError::Generic));
    assert_eq!(init_receiver_id(1, &vec![]), Err(LkError::Generic));
    assert_eq!(get_receiver_id(0x8001), 0x8001);
}

#[test]
fn version_negotiation_reads_the_answer() {
    let reply = message(&[3, 0x80, 0, 0, 24, 0, 1, 0, 0, 0, 1, 0, 0, 0, 0, 0, 0, 0, 4, 0, 0, 0, 7]);
    let version = negotiate_version(Ok(reply)).unwrap();
    assert_eq!(version.device_version, 1);
    assert_eq!(version.features, 4);
    assert_eq!(version.area_num, 7);
    assert_eq!(negotiate_version(Err(LkError::TimedOut)).err(), Some(LkError::TimedOut));
    assert_eq!(negotiate_version(Ok(message(&[2, 0x80]))).err(), Some(LkError::InvalidArgs));
}

fn page(offset: u8, num: u8, next: u8, bitmap: &[u8]) -> [u64; 14] {
    let size = 12 + bitmap.len() as u8;
    let mut start = vec![3, 2, 0, 0, size, 0, offset, 0, num, 0, next, 0];
    start.extend_from_slice(bitmap);
    message(&start)
}

#[test]
fn devices_are_enumerated_page_by_page() {
    let mut walk = DeviceEnumeration::new();
    assert_bytes(&walk.next_request(), &[2, 2, 0, 0, 10, 0, 0, 0, 8, 0]);
    let reply = Ok(page(0, 8, 16, &[0b1000_0001]));
    assert!(walk.can_take(&reply));
    assert_eq!(walk.enumerate_devices(reply), Ok(false));
    assert_bytes(&walk.next_request(), &[2, 2, 0, 0, 10, 0, 16, 0, 8, 0]);
    assert_eq!(walk.enumerate_devices(Ok(page(16, 16, 0, &[0b10, 0b100]))), Ok(true));
    assert_eq!(walk.device_ids, [0, 7, 17, 26]);
}

#[test]
fn a_walk_finds_every_device_once_in_order() {
    let mut walk = DeviceEnumeration::new();
    for (offset, next, bitmap) in [(0, 8, 0b1000_0000), (8, 24, 0b11), (24, 0xf8, 0)] {
        assert_eq!(walk.enumerate_devices(Ok(page(offset, 8, next, &[bitmap]))), Ok(false));
    }
    assert_eq!(walk.enumerate_devices(Ok(page(0xf8, 8, 0, &[0b1000_0001]))), Ok(true));
    assert_eq!(walk.device_ids, [7, 8, 9, 0xf8, 0xff]);
    // Device numbers without a device may leave the range.
    let mut walk = DeviceEnumeration::new();
    walk.next_bitmap_offset = 0xfff8;
    assert_eq!(walk.enumerate_devices(Ok(page(0, 16, 0, &[0b10, 0]))), Ok(true));
    assert_eq!(walk.device_ids, [0xfff9]);
}

#[test]
fn bad_pages_are_refused() {
    // A bitmap of the wrong size, an offset that is no multiple of eight, and one that goes back.
    for (num, next, bitmap) in [(16, 0, vec![1u8]), (8, 4, vec![1]), (8, 8, vec![1])] {
        let mut walk = DeviceEnumeration::new();
        walk.next_bitmap_offset = 8;
        let reply = Ok(page(8, num, next, &bitmap));
        assert!(walk.can_take(&reply));
        assert_eq!(walk.enumerate_devices(reply), Err(LkError::InvalidArgs));
        assert_eq!(walk.next_bitmap_offset, 8);
        assert!(walk.device_ids.is_empty());
    }
    let mut walk = DeviceEnumeration::new();
    assert_eq!(walk.enumerate_devices(Err(LkError::Generic)), Err(LkError::Generic));
    walk.next_bitmap_offset = 0xfff8;
    assert!(walk.can_take(&Ok(page(0, 8, 0, &[0x80]))));
    assert!(!walk.can_take(&Ok(page(0, 16, 0, &[0, 1]))));
    assert!(walk.can_take(&Ok(page(0, 16, 0, &[1, 0]))));
}

#[test]
fn the_driver_needs_ffa_1_2() {
    assert_eq!(driver_init(FFAInitState::Uninit), Err(LkError::NotConfigured));
    assert_eq!(driver_init(FFAInitState::InitFailed), Ok(false));
    let version = |major_version, minor_version| {
        driver_init(FFAInitState::InitSuccess { major_version, minor_version })
    };
    assert_eq!(version(1, 1), Ok(false));
    assert_eq!(version(1, 2), Ok(true));
    assert_eq!(version(1, 3), Ok(true));
    assert_eq!(version(2, 2), Ok(false));
}

#[test]
fn only_socket_devices_are_used() {
    let mut info = vec![1, 2, 0, 0, 30, 0, 19, 0, 0, 0];
    info.resize(30, 0);
    let reply = Ok(message(&info));
    assert_eq!(get_device_info(reply).unwrap().device_id, 19);
    assert_eq!(init_device(4, reply), Ok(Some(FFAMsgTransport { dev_id: 4 })));
    assert_eq!(FFAMsgTransport::device_type(reply), Ok(19));
    info[6] = 5;
    let reply = Ok(message(&info));
    assert_eq!(init_device(4, reply), Ok(None));
    assert_eq!(FFAMsgTransport::device_type(reply), Ok(13));
    info[6] = 14;
    assert_eq!(FFAMsgTransport::device_type(Ok(message(&info))), Ok(0));
    assert_eq!(init_device(4, Err(LkError::TimedOut)), Err(LkError::TimedOut));
}

#[test]
fn setting_up_the_driver_stops_at_the_first_error() {
    let success = FFAInitState::InitSuccess { major_version: 1, minor_version: 2 };
    let failed = |e| DriverStep::Done(Err(e));
    assert_eq!(DriverInit::new(FFAInitState::Uninit).1, failed(LkError::NotConfigured));
    assert_eq!(DriverInit::new(FFAInitState::InitFailed).1, DriverStep::Done(Ok(())));
    let after = |step, input| {
        let (mut init, _) = DriverInit::new(success);
        assert!(init.can_resume(step, &input));
        init.resume(step, input)
    };
    let e = LkError::TimedOut;
    assert_eq!(after(DriverStep::CountPartitions, DriverInput::Count(Err(e))), failed(e));
    assert_eq!(
        after(DriverStep::CountPartitions, DriverInput::Count(Ok(2))),
        failed(LkError::Generic)
    );
    assert_eq!(after(DriverStep::DescribePartitions, DriverInput::Partitions(Err(e))), failed(e));
    assert_eq!(
        after(DriverStep::DescribePartitions, DriverInput::Partitions(Ok(vec![]))),
        failed(LkError::Generic)
    );
    assert_eq!(after(DriverStep::NegotiateVersion, DriverInput::Reply(Err(e))), failed(e));
    assert_eq!(after(DriverStep::ShareHeap, DriverInput::Finished(Err(e))), failed(e));
    assert_eq!(after(DriverStep::EnumerateDevices, DriverInput::Reply(Err(e))), failed(e));
    let ask = DriverStep::GetDeviceInfo { dev_id: 3 };
    assert_eq!(after(ask, DriverInput::Reply(Err(e))), failed(e));
    let start = DriverStep::StartSocket { dev_id: 3 };
    assert_eq!(after(start, DriverInput::Finished(Err(e))), failed(LkError::Generic));
    let (init, _) = DriverInit::new(success);
    assert!(!init.can_resume(DriverStep::ShareHeap, &DriverInput::Count(Ok(1))));
    assert!(!init.can_resume(DriverStep::Done(Ok(())), &DriverInput::Finished(Ok(()))));
}

#[test]
fn every_device_is_asked_about() {
    let success = FFAInitState::InitSuccess { major_version: 1, minor_version: 3 };
    let (mut init, _) = DriverInit::new(success);
    let reply = DriverInput::Reply(Ok(page(0, 8, 16, &[0b10])));
    assert_eq!(init.resume(DriverStep::EnumerateDevices, reply), DriverStep::EnumerateDevices);
    let reply = DriverInput::Reply(Ok(page(16, 8, 0, &[0b1])));
    let first = init.resume(DriverStep::EnumerateDevices, reply);
    assert_eq!(first, DriverStep::GetDeviceInfo { dev_id: 1 });
    // The first device is no socket device.
    let mut info = vec![1, 2, 0, 0, 30, 0, 2, 0, 0, 0];
    info.resize(30, 0);
    let second = init.resume(first, DriverInput::Reply(Ok(message(&info))));
    assert_eq!(second, DriverStep::GetDeviceInfo { dev_id: 16 });
    info[6] = 19;
    let start = init.resume(second, DriverInput::Reply(Ok(message(&info))));
    assert_eq!(start, DriverStep::StartSocket { dev_id: 16 });
    assert_eq!(init.resume(start, DriverInput::Finished(Ok(()))), DriverStep::Done(Ok(())));
    // There are no devices at all.
    let (mut init, _) = DriverInit::new(success);
    let reply = DriverInput::Reply(Ok(page(0, 8, 0, &[0])));
    assert_eq!(init.resume(DriverStep::EnumerateDevices, reply), DriverStep::Done(Ok(())));
    assert_bytes(
        &DriverInit::version_request(),
        &[2, 0x80, 0, 0, 24, 0, 1, 0, 0, 0, 1, 0, 0, 0, 0, 0, 0, 0, 8, 0, 0, 0, 1, 0],
    );
}

#[test]
fn shared_memory_has_whole_pages() {
    assert_eq!(shared_memory_size(14 * 4096), Some(14 * 4096));
    assert_eq!(shared_memory_size(13 * 4096 + 1), Some(14 * 4096));
    assert_eq!(shared_memory_size(13 * 4096), None);
    assert_eq!(shared_memory_size(0), None);
    assert_eq!(shared_memory_size(usize::MAX), None);
    assert!(check_memory(14, 0x40000, 0x80000));
    assert!(check_memory(1, u64::MAX - 4096, 0));
    assert!(!check_memory(1, u64::MAX - 4095, 0));
    assert!(!check_memory(1, 0, u64::MAX));
    assert!(check_memory(1 << 36, 0, 0));
    assert!(!check_memory((1 << 36) + 1, 0, 0));
}

#[test]
fn the_allocator_has_double_and_single_blocks() {
    let mut allocator = VsockMemAllocator::new();
    assert_eq!(allocator.allocate(1), Err(LkError::NoMemory));
    assert_eq!(allocator.init(13), Err(LkError::NotEnoughBuffer));
    assert_eq!(allocator.init(14), Ok(()));
    assert_eq!(allocator.init(14), Err(LkError::AlreadyStarted));
    assert_eq!(allocator.free_double_blocks, [0, 2, 4]);
    assert_eq!(allocator.free_single_blocks, [6, 7, 8, 9, 10, 11, 12, 13]);
    assert_eq!(allocator.allocate(0), Err(LkError::NotSupported));
    assert_eq!(allocator.allocate(3), Err(LkError::NotSupported));
    assert_eq!(allocator.allocate(2), Ok(4));
    assert_eq!(allocator.allocate(1), Ok(13));
    assert_eq!(allocator.allocate(1), Ok(12));
    assert_eq!(allocator.deallocate(13), Ok(()));
    assert_eq!(allocator.deallocate(13), Err(LkError::InvalidArgs));
    assert_eq!(allocator.deallocate(14), Err(LkError::InvalidArgs));
    assert_eq!(allocator.deallocate(2), Err(LkError::InvalidArgs));
    assert_eq!(allocator.deallocate(4), Ok(()));
    assert_eq!(allocator.allocate(2), Ok(4));
    assert_eq!(allocator.allocate(2), Ok(2));
    assert_eq!(allocator.allocate(2), Ok(0));
    assert_eq!(allocator.allocate(2), Err(LkError::NoMemory));
}

fn heap() -> SharedHeap {
    let mut heap = SharedHeap::new();
    assert_eq!(heap.init_pages(14 * 4096), Ok(14));
    assert_eq!(heap.init_pages(14 * 4096 + 1), Err(LkError::InvalidArgs));
    let reply = message(&[3, 0x81, 0, 0, 10, 0, 0x1e, 0, 0, 0]);
    assert_eq!(heap.init(Ok(reply), 14, 0x40000, 0x80000), Ok(()));
    heap
}

#[test]
fn the_heap_is_initialized_once() {
    let mut empty = SharedHeap::new();
    assert_eq!(empty.init(Err(LkError::TimedOut), 14, 1, 2), Err(LkError::TimedOut));
    assert_eq!(empty.init(Ok(message(&[3])), 13, 1, 2), Err(LkError::NotEnoughBuffer));
    assert!(!empty.shared);
    let mut heap = heap();
    assert!(heap.shared);
    assert_eq!(heap.init_pages(14 * 4096), Err(LkError::AlreadyStarted));
    assert_eq!(heap.init(Ok(message(&[3])), 14, 1, 2), Err(LkError::AlreadyStarted));
    assert_eq!((heap.paddr, heap.vaddr), (0x40000, 0x80000));
    let req = SharedHeap::init_request(INITIAL_AREA_ID, 5, 14);
    let same = VirtioMsgReq::new_bus_area_share(0x1e, 5, 14, ArchMmuFlags { bits: 16 });
    assert_eq!(req.get_buf(), same.get_buf());
}

#[test]
fn blocks_have_three_addresses() {
    let mut heap = heap();
    assert!(MsgHal::check_allocate(&heap, 2));
    assert_eq!(
        MsgHal::allocate(&mut heap, 2),
        Some(BlockAddrs { paddr: 0x44000, vaddr: 0x84000, bus_addr: 0x001e_0000_0000_4000 })
    );
    assert_eq!(MsgHal::allocate(&mut heap, 3), None);
    assert!(MsgHal::check_deallocate(&heap, bus_address(0x1e, 0x4000)));
    assert!(!MsgHal::check_deallocate(&heap, bus_address(0x1e, 0x2000)));
    assert!(!MsgHal::check_deallocate(&heap, bus_address(0x1e, 0x4001)));
    assert!(!MsgHal::check_deallocate(&heap, bus_address(0x1e, 0xe000)));
    MsgHal::deallocate(&mut heap, bus_address(0x1e, 0x4000));
    assert_eq!(heap.allocator.free_double_blocks, [0, 2, 4]);
    // Page zero of a heap without memory has no address.
    let mut empty = SharedHeap::new();
    assert!(MsgHal::check_allocate(&empty, 2));
    empty.allocator.free_double_blocks.push(0);
    assert!(!MsgHal::check_allocate(&empty, 2));
}

#[test]
fn buffers_are_shared_and_unshared() {
    let mut heap = heap();
    assert_eq!(
        MsgHal::share(&mut heap, 100, BufferDirection::DriverToDevice),
        Some(SharedBuffer { bus_addr: 0x001e_0000_0000_d000, copy_to: Some(0x8d000) })
    );
    assert_eq!(
        MsgHal::share(&mut heap, 4096, BufferDirection::DeviceToDriver),
        Some(SharedBuffer { bus_addr: 0x001e_0000_0000_c000, copy_to: None })
    );
    assert_eq!(
        MsgHal::share(&mut heap, 4097, BufferDirection::Both),
        Some(SharedBuffer { bus_addr: 0x001e_0000_0000_4000, copy_to: None })
    );
    assert_eq!(MsgHal::share(&mut heap, 8193, BufferDirection::Both), None);
    let back = MsgHal::unshare(&mut heap, 0x001e_0000_0000_c000, BufferDirection::DeviceToDriver);
    assert_eq!(back, Some(0x8c000));
    let back = MsgHal::unshare(&mut heap, 0x001e_0000_0000_d000, BufferDirection::DriverToDevice);
    assert_eq!(back, None);
    assert_eq!(heap.allocator.free_single_blocks, [6, 7, 8, 9, 10, 11, 12, 13]);
}

#[test]
fn the_transport_asks_the_device() {
    let transport = FFAMsgTransport::new(5);
    assert!(transport.requires_legacy_layout());
    assert_bytes(&transport.device_type_request(), &[0, 2, 5, 0, 6, 0]);
    assert_bytes(&transport.get_status_request(), &[0, 7, 5, 0, 6, 0]);
    assert_bytes(&transport.set_status_request(3), &[0, 8, 5, 0, 10, 0, 3]);
    assert_bytes(&transport.get_vqueue_request(1), &[0, 9, 5, 0, 10, 0, 1]);
    assert_bytes(
        &transport.read_device_features_request(),
        &[0, 3, 5, 0, 14, 0, 0, 0, 0, 0, 2, 0, 0, 0],
    );
    assert_bytes(
        &transport.write_driver_features_request(0x3_0000_0001),
        &[0, 4, 5, 0, 0, 0, 0, 0, 1, 0, 0, 0, 3],
    );
    assert_bytes(
        &VirtioMsgReq::set_features(5, 6, [1, 2, 3, 4]),
        &[
            0, 4, 5, 0, 6, 0, 0, 0, 1, 0, 0, 0, 0, 0, 0, 0, 2, 0, 0, 0, 0, 0, 0, 0, 3, 0, 0, 0, 0,
            0, 0, 0, 4,
        ],
    );
    assert_bytes(&transport.read_config_generation_request(0x30), &[0, 0x30, 5]);
    assert_bytes(
        &transport.read_config_space_request(0, 8),
        &[0, 5, 5, 0, 14, 0, 0, 0, 0, 0, 8],
    );
    let req = transport.queue_set_request(0x40000, 1, 8, 0x40000, 0x41000, 0x42000);
    let same = VirtioMsgReq::new_set_vqueue(
        5,
        1,
        8,
        0x001e_0000_0000_0000,
        0x001e_0000_0000_1000,
        0x001e_0000_0000_2000,
    );
    assert_eq!(req.get_buf(), same.get_buf());
}

#[test]
fn the_transport_reads_the_replies() {
    let status = Ok(message(&[1, 7, 0, 0, 10, 0, 11]));
    assert_eq!(FFAMsgTransport::get_status(status), Ok(11));
    let mut vqueue = vec![1, 9, 0, 0, 42, 0, 1, 0, 0, 0, 8, 0, 0, 0];
    vqueue.resize(42, 0);
    assert_eq!(FFAMsgTransport::max_queue_size(Ok(message(&vqueue))), Ok(8));
    assert_eq!(FFAMsgTransport::queue_used(Ok(message(&vqueue))), Ok(false));
    vqueue[41] = 1;
    assert_eq!(FFAMsgTransport::queue_used(Ok(message(&vqueue))), Ok(true));
    assert_eq!(FFAMsgTransport::queue_used(status), Err(LkError::InvalidArgs));
    let features =
        [1, 3, 0, 0, 22, 0, 0, 0, 0, 0, 2, 0, 0, 0, 1, 0, 0, 0, 3, 0, 0, 0];
    assert_eq!(FFAMsgTransport::read_device_features(Ok(message(&features))), Ok(0x3_0000_0001));
    let short = [1, 3, 0, 0, 18, 0, 0, 0, 0, 0, 1, 0, 0, 0, 1, 0, 0, 0];
    assert_eq!(
        FFAMsgTransport::read_device_features(Ok(message(&short))),
        Err(LkError::InvalidArgs)
    );
    let config = Ok(message(&[
        1, 5, 0, 0, 26, 0, 7, 0, 0, 0, 0, 0, 0, 0, 8, 0, 0, 0, 1, 2, 3, 4, 5, 6, 7, 8,
    ]));
    assert_eq!(FFAMsgTransport::read_config_space(config, 4), Ok(vec![1, 2, 3, 4]));
    // What the answer does not hold is zero.
    let mut whole = vec![1, 2, 3, 4, 5, 6, 7, 8];
    whole.resize(32, 0);
    assert_eq!(FFAMsgTransport::read_config_space(config, 9), Ok(whole[..9].to_vec()));
    assert_eq!(FFAMsgTransport::read_config_space(config, 32), Ok(whole));
    assert_eq!(FFAMsgTransport::read_config_space(status, 8), Err(LkError::InvalidArgs));
    let generation = Ok(message(&[1, 0x30, 0, 0, 7, 0, 0, 1]));
    assert_eq!(FFAMsgTransport::read_config_generation(generation, 0x30), Ok(0x0100_0007));
    assert_eq!(
        FFAMsgTransport::read_config_generation(generation, 0x31),
        Err(LkError::InvalidArgs)
    );
    assert_eq!(
        FFAMsgTransport::read_config_generation(Err(LkError::NoMemory), 0x30),
        Err(LkError::NoMemory)
    );
}
