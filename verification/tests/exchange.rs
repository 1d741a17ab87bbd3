//! A driver and a device that talk to each other.

use vsock_virtio_msg::error::LkError;
use vsock_virtio_msg::msg::device::hal::{DmaMap, TrustyDeviceHal};
use vsock_virtio_msg::msg::device::handle_req::Notify;
use vsock_virtio_msg::msg::device::requests::{VirtioMsgPayload, VirtioMsgReq as DeviceReq};
use vsock_virtio_msg::msg::device::{MemObj, VirtioMsgDevice};
use vsock_virtio_msg::msg::driver::hal::MsgHal;
use vsock_virtio_msg::msg::driver::init::{DriverInit, DriverInput, DriverStep};
use vsock_virtio_msg::msg::driver::requests::{VirtioMsgReq, VirtioMsgResp};
use vsock_virtio_msg::msg::driver::transport::FFAMsgTransport;
use vsock_virtio_msg::msg::driver::{
    init_device, negotiate_version, DeviceEnumeration, FFAInitState, SharedHeap, INITIAL_AREA_ID,
};
use vsock_virtio_msg::wire::bytes_of_msg;

/// Sends a request to the device and returns its result and its response.
fn send(device: &mut VirtioMsgDevice, req: VirtioMsgReq) -> (Result<Notify, LkError>, [u64; 14]) {
    let mut buf = *req.get_buf();
    let result = device.handle_req(&mut buf);
    (result, buf)
}

#[test]
fn both_ends_agree_on_a_version() {
    let mut device = VirtioMsgDevice::new(3);
    for (offer, agreed) in [(0, 0), (1, 1), (7, 1)] {
        let (result, reply) = send(&mut device, VirtioMsgReq::new_bus_ffa_version(offer, offer, 9));
        assert_eq!(result, Ok(Notify::Nothing));
        let version = negotiate_version(Ok(reply)).unwrap();
        assert_eq!(version.device_version, agreed);
        assert_eq!(version.vmsg_revision, agreed);
        assert_eq!(version.vmsg_features, 0);
        assert_eq!(version.features, 4);
        assert_eq!(version.area_num, 9);
    }
}

#[test]
fn the_driver_finds_the_device() {
    let mut device = VirtioMsgDevice::new(3);
    let mut walk = DeviceEnumeration::new();
    let (_, reply) = send(&mut device, walk.next_request());
    assert_eq!(walk.enumerate_devices(Ok(reply)), Ok(true));
    assert_eq!(walk.device_ids, [0]);
    let (_, reply) = send(&mut device, VirtioMsgReq::new_get_device_info(0));
    assert_eq!(init_device(0, Ok(reply)), Ok(Some(FFAMsgTransport { dev_id: 0 })));
    let info = VirtioMsgResp::new(reply).unwrap().read_get_device_info().unwrap();
    assert_eq!(info.vendor_id, 0);
    assert_eq!(info.num_feature_bits, 64);
    assert_eq!(info.config_size, 8);
    assert_eq!(info.max_vq_count, 3);
    // There are no devices behind the first eight.
    let (_, reply) = send(&mut device, VirtioMsgReq::new_bus_get_devices(8, 8));
    let resp = VirtioMsgResp::new(reply).unwrap();
    assert_eq!(resp.read_bus_get_devices().unwrap().1, [0]);
}

#[test]
fn the_driver_is_set_up_step_by_step() {
    let mut device = VirtioMsgDevice::new(3);
    let state = FFAInitState::InitSuccess { major_version: 1, minor_version: 2 };
    let (mut init, mut step) = DriverInit::new(state);
    let mut steps = vec![];
    loop {
        steps.push(step);
        let input = match step {
            DriverStep::CountPartitions => DriverInput::Count(Ok(1)),
            DriverStep::DescribePartitions => DriverInput::Partitions(Ok(vec![0x8002])),
            DriverStep::NegotiateVersion => {
                DriverInput::Reply(Ok(send(&mut device, DriverInit::version_request()).1))
            }
            DriverStep::EnumerateDevices => {
                DriverInput::Reply(Ok(send(&mut device, init.walk.next_request()).1))
            }
            DriverStep::GetDeviceInfo { dev_id } => {
                let req = VirtioMsgReq::new_get_device_info(dev_id);
                DriverInput::Reply(Ok(send(&mut device, req).1))
            }
            DriverStep::ShareHeap | DriverStep::StartSocket { .. } => DriverInput::Finished(Ok(())),
            DriverStep::Done(_) => break,
        };
        assert!(init.can_resume(step, &input));
        step = init.resume(step, input);
    }
    assert_eq!(
        steps,
        [
            DriverStep::CountPartitions,
            DriverStep::DescribePartitions,
            DriverStep::NegotiateVersion,
            DriverStep::ShareHeap,
            DriverStep::EnumerateDevices,
            DriverStep::GetDeviceInfo { dev_id: 0 },
            DriverStep::StartSocket { dev_id: 0 },
            DriverStep::Done(Ok(())),
        ]
    );
    assert_eq!(init.receiver_id, 0x8002);
}

#[test]
fn other_device_numbers_are_refused() {
    let mut device = VirtioMsgDevice::new(3);
    let (result, reply) = send(&mut device, VirtioMsgReq::new_get_device_info(1));
    assert_eq!(result, Err(LkError::InvalidArgs));
    assert_eq!(VirtioMsgResp::new(reply).err(), Some(LkError::InvalidArgs));
}

#[test]
fn the_driver_reads_the_status_that_it_set() {
    let mut device = VirtioMsgDevice::new(3);
    let transport = FFAMsgTransport::new(0);
    for (status, notify) in
        [(1, Notify::Nothing), (3, Notify::Nothing), (11, Notify::Nothing), (15, Notify::DeviceInit)]
    {
        let (result, _) = send(&mut device, transport.set_status_request(status));
        assert_eq!(result, Ok(notify));
        let (_, reply) = send(&mut device, transport.get_status_request());
        assert_eq!(FFAMsgTransport::get_status(Ok(reply)), Ok(status));
    }
}

#[test]
fn a_failed_device_says_so() {
    let mut device = VirtioMsgDevice::new(3);
    let transport = FFAMsgTransport::new(0);
    let (result, _) = send(&mut device, transport.set_status_request(0x81));
    assert_eq!(result, Ok(Notify::Nothing));
    let (_, reply) = send(&mut device, transport.get_status_request());
    assert_eq!(FFAMsgTransport::get_status(Ok(reply)), Ok(0x81));
    let (result, _) = send(&mut device, transport.set_status_request(1));
    assert_eq!(result, Err(LkError::InvalidArgs));
}

#[test]
fn the_device_settles_on_the_features_of_the_driver() {
    let mut device = VirtioMsgDevice::new(3);
    let transport = FFAMsgTransport::new(0);
    for (features, settled) in [
        (0, 0x2_0000_0000u64),
        (1, 0x2_0000_0001),
        (0x1_0000_0001, 0x3_0000_0001),
        (0x3_0000_0001, 0x3_0000_0001),
        (u64::MAX, 0x3_0000_0001),
    ] {
        let req = transport.write_driver_features_request(features);
        let mut buf = *req.get_buf();
        match DeviceReq::parse(&mut buf).unwrap().get_msg_payload() {
            VirtioMsgPayload::SetFeatures(read) => {
                assert_eq!(read.index, 0);
                assert_eq!(read.features, (features, 0, 0, 0));
            }
            other => panic!("{other:?}"),
        }
        let (result, reply) = send(&mut device, req);
        assert_eq!(result, Ok(Notify::Nothing));
        assert_eq!(bytes_of_msg(&reply)[..8], [1, 4, 0, 0, 0, 0, 0, 0]);
        assert_eq!(bytes_of_msg(&reply)[8..16], settled.to_le_bytes());
    }
}

#[test]
fn the_driver_reads_features_and_configuration() {
    let mut device = VirtioMsgDevice::new(0x12345678);
    let transport = FFAMsgTransport::new(0);
    let (_, reply) = send(&mut device, transport.read_device_features_request());
    assert_eq!(FFAMsgTransport::read_device_features(Ok(reply)), Ok(0x3_0000_0001));
    let (_, reply) = send(&mut device, transport.read_config_space_request(0, 8));
    assert_eq!(
        FFAMsgTransport::read_config_space(Ok(reply), 8),
        Ok(vec![0x78, 0x56, 0x34, 0x12, 0, 0, 0, 0])
    );
    assert_eq!(
        FFAMsgTransport::read_config_space(Ok(reply), 10),
        Ok(vec![0x78, 0x56, 0x34, 0x12, 0, 0, 0, 0, 0, 0])
    );
    let (_, reply) = send(&mut device, transport.read_config_generation_request(0x30));
    assert_eq!(FFAMsgTransport::read_config_generation(Ok(reply), 0x30), Ok(0));
}

#[test]
fn the_driver_reads_the_virtqueue_that_it_configured() {
    let mut device = VirtioMsgDevice::new(3);
    let transport = FFAMsgTransport::new(0);
    let (_, reply) = send(&mut device, transport.get_vqueue_request(1));
    assert_eq!(FFAMsgTransport::queue_used(Ok(reply)), Ok(false));
    assert_eq!(FFAMsgTransport::max_queue_size(Ok(reply)), Ok(8));
    let req = transport.queue_set_request(0x40000, 1, 8, 0x40000, 0x41000, 0x42000);
    let (result, _) = send(&mut device, req);
    assert_eq!(result, Ok(Notify::Nothing));
    let (_, reply) = send(&mut device, transport.get_vqueue_request(1));
    assert_eq!(FFAMsgTransport::queue_used(Ok(reply)), Ok(true));
    let vqueue = VirtioMsgResp::new(reply).unwrap().read_get_vqueue().unwrap();
    assert_eq!((vqueue.index, vqueue.max_size, vqueue.size), (1, 8, 8));
    assert_eq!(vqueue.descriptor_addr, 0x001e_0000_0000_0000);
    assert_eq!(vqueue.driver_addr, 0x001e_0000_0000_1000);
    assert_eq!(vqueue.device_addr, 0x001e_0000_0000_2000);
    let (_, reply) = send(&mut device, transport.get_vqueue_request(0));
    assert_eq!(FFAMsgTransport::queue_used(Ok(reply)), Ok(false));
    let (result, _) = send(&mut device, transport.get_vqueue_request(3));
    assert_eq!(result, Err(LkError::InvalidArgs));
}

#[test]
fn blocks_of_the_driver_are_found_by_the_device() {
    let mut device = VirtioMsgDevice::new(3);
    let mut heap = SharedHeap::new();
    let (_, reply) = send(&mut device, SharedHeap::init_request(INITIAL_AREA_ID, 0x77, 14));
    let share = VirtioMsgResp::new(reply).unwrap().read_bus_area_share().unwrap();
    assert_eq!((share.area_id, share.result), (0x1e, 0));
    assert_eq!(heap.init(Ok(reply), 14, 0x40000, 0x80000), Ok(()));
    // A second request for the same area fails.
    let (_, again) = send(&mut device, SharedHeap::init_request(INITIAL_AREA_ID, 0x78, 14));
    let share = VirtioMsgResp::new(again).unwrap().read_bus_area_share().unwrap();
    assert_eq!(share.result, 1);
    let block = MsgHal::allocate(&mut heap, 2).unwrap();
    match TrustyDeviceHal::dma_map(&mut device, block.bus_addr, 9) {
        DmaMap::MapObject(req) => assert_eq!(req.mem_handle, 0x77),
        other => panic!("{other:?}"),
    }
    let obj = MemObj { token: 1, vaddr: 0x900000, size: 14 * 4096 };
    assert_eq!(
        TrustyDeviceHal::dma_map_object(&mut device, block.bus_addr, Ok(obj)),
        Ok(0x900000 + (block.vaddr - 0x80000))
    );
    let other = MsgHal::allocate(&mut heap, 1).unwrap();
    assert_eq!(
        TrustyDeviceHal::dma_map(&mut device, other.bus_addr, 9),
        DmaMap::Mapped(0x900000 + (other.vaddr - 0x80000))
    );
}
