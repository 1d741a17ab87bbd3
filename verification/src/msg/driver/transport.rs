//! What the vsock implementation asks of the transport on the driver end.
//!
//! Most questions are answered by the device: there is a function for the request to send, and a
//! function that takes the reply.

use vstd::prelude::*;

use crate::error::LkError;
use crate::message::{lemma_as_response, v1_payload_bytes};
use crate::msg::device::handle_req::{can_handle, handle, SUPPORTED_VIRTIO_FEATURES};
use crate::msg::device::requests::{device_request, vqueue_reply};
use crate::msg::device::{DeviceView, NUM_VQUEUES};
use crate::msg::driver::requests::{read_v1_resp, request_msg, v1_request_msg, VirtioMsgReq};
use crate::msg::driver::{
    get_device_info, receive_response, reply_fits, reply_payload, reply_payload_variable,
    response_of, Reply, INITIAL_AREA_ID,
};
use crate::msg::exchange::{
    law_answers_are_responses, law_features_exchange, lemma_request_msg, lemma_v1_request_msg,
};
use crate::msg::{bus_address, bus_address_of, BUS_ADDR_OFFSET_LIMIT};
use crate::payload::{
    GetConfig, GetConfigGenResp, GetConfigResp, GetDeviceInfoResp, GetDeviceStatusResp, GetFeatures,
    GetFeaturesResp, GetVqueue, GetVqueueResp, Payload, SetDeviceStatus, SetFeaturesV1, SetVqueue,
};
use crate::proto::{
    VIRTIO_MSG_DEVICE_INFO, VIRTIO_MSG_GET_CONFIG, VIRTIO_MSG_GET_DEVICE_STATUS,
    VIRTIO_MSG_GET_DEV_FEATURES, VIRTIO_MSG_GET_VQUEUE, VIRTIO_MSG_SET_DEVICE_STATUS,
    VIRTIO_MSG_SET_DRV_FEATURES, VIRTIO_MSG_SET_VQUEUE,
};
use crate::virtio::{device_type_from, device_type_of};
use crate::wire::{
    get_u64, le_at, le_bytes, lemma_le_at, lemma_le_bytes_len, lemma_le_bytes_of_zero,
    lemma_le_limits, msg_bytes, zeros,
};

verus! {

/// The transport of one device of the bus.
#[derive(Clone, Copy, Debug, PartialEq, Eq, Structural)]
pub struct FFAMsgTransport {
    pub dev_id: u16,
}

/// Feature bits come in blocks of 32.
pub const NUM_FEATURE_BLOCKS: u32 = 2;

/// The 64 feature bits in `data`, which follows the fixed part of an answer.
pub open spec fn features_in(data: Seq<u8>) -> Result<u64, LkError> {
    if data.len() >= 8 {
        Ok(le_at(data, 0, 8) as u64)
    } else {
        Err(LkError::InvalidArgs)
    }
}

/// Bytes of configuration data that can be read from one answer.
pub const CONFIG_DATA_SIZE: usize = 32;

/// The configuration data of an answer with `data` behind its fixed part: what is missing is zero.
pub open spec fn config_data(data: Seq<u8>) -> Seq<u8> {
    (data + zeros(CONFIG_DATA_SIZE as nat)).take(CONFIG_DATA_SIZE as int)
}

/// The generation of the configuration space in `reply`, which answers a request of kind `id`.
pub open spec fn generation_in(reply: Reply, id: u8) -> Result<u32, LkError> {
    match response_of(reply) {
        Ok(bytes) => match read_v1_resp::<GetConfigGenResp>(bytes, id) {
            Ok(resp) => Ok(resp.generation),
            Err(e) => Err(e),
        },
        Err(e) => Err(e),
    }
}

/// Whether a virtqueue with this answer is in use: one that was not configured is all zero.
pub open spec fn vqueue_in_use(resp: GetVqueueResp) -> bool {
    resp.size != 0 || resp.descriptor_addr != 0 || resp.driver_addr != 0 || resp.device_addr != 0
}

impl FFAMsgTransport {
    /// The transport of device number `dev_id`.
    pub fn new(dev_id: u16) -> (transport: FFAMsgTransport)
        ensures
            transport.dev_id == dev_id,
    {
        FFAMsgTransport { dev_id }
    }

    /// Asks for the device type.
    pub fn device_type_request(&self) -> (req: VirtioMsgReq)
        ensures
            req.bytes() == request_msg(VIRTIO_MSG_DEVICE_INFO, Some(self.dev_id), seq![]),
    {
        VirtioMsgReq::new_get_device_info(self.dev_id)
    }

    /// The number of the device type, which is zero for a device type that is not known.
    pub fn device_type(reply: Reply) -> (result: Result<u32, LkError>)
        ensures
            result == match reply_payload::<GetDeviceInfoResp>(reply, VIRTIO_MSG_DEVICE_INFO) {
                Ok(info) => Ok::<u32, LkError>(device_type_of(info.device_id)),
                Err(e) => Err(e),
            },
    {
        match get_device_info(reply) {
            Ok(info) => Ok(device_type_from(info.device_id)),
            Err(e) => Err(e),
        }
    }

    /// Asks for the features of the device.
    pub fn read_device_features_request(&self) -> (req: VirtioMsgReq)
        ensures
            req.bytes() == request_msg(
                VIRTIO_MSG_GET_DEV_FEATURES,
                Some(self.dev_id),
                (GetFeatures { index: 0, num: NUM_FEATURE_BLOCKS }).encode(),
            ),
    {
        VirtioMsgReq::new_get_device_features(self.dev_id, 0, NUM_FEATURE_BLOCKS)
    }

    /// The features of the device.
    pub fn read_device_features(reply: Reply) -> (result: Result<u64, LkError>)
        requires
            reply_fits(reply, VIRTIO_MSG_GET_DEV_FEATURES),
        ensures
            result == match reply_payload_variable::<GetFeaturesResp>(
                reply,
                VIRTIO_MSG_GET_DEV_FEATURES,
            ) {
                Ok((_, data)) => features_in(data),
                Err(e) => Err(e),
            },
    {
        let resp = match receive_response(reply) {
            Ok(resp) => resp,
            Err(e) => {
                return Err(e);
            },
        };
        let (_, data) = match resp.read_get_device_features() {
            Ok(parts) => parts,
            Err(e) => {
                return Err(e);
            },
        };
        if data.len() < 8 {
            return Err(LkError::InvalidArgs);
        }
        Ok(get_u64(data, 0))
    }

    /// Tells the device which features the driver wants.
    pub fn write_driver_features_request(&self, driver_features: u64) -> (req: VirtioMsgReq)
        ensures
            req.bytes() == v1_request_msg(
                VIRTIO_MSG_SET_DRV_FEATURES,
                Some(self.dev_id),
                (SetFeaturesV1 { index: 0, features: (driver_features, 0, 0, 0) }).encode(),
            ),
    {
        VirtioMsgReq::set_features(self.dev_id, 0, [driver_features, 0, 0, 0])
    }

    /// Asks for the configuration of a virtqueue.
    pub fn get_vqueue_request(&self, queue: u16) -> (req: VirtioMsgReq)
        ensures
            req.bytes() == request_msg(
                VIRTIO_MSG_GET_VQUEUE,
                Some(self.dev_id),
                (GetVqueue { index: queue as u32 }).encode(),
            ),
    {
        VirtioMsgReq::new_get_vqueue(self.dev_id, queue)
    }

    /// Most entries that a virtqueue may have, given the reply to
    /// [`FFAMsgTransport::get_vqueue_request`].
    pub fn max_queue_size(reply: Reply) -> (result: Result<u32, LkError>)
        ensures
            result == match reply_payload::<GetVqueueResp>(reply, VIRTIO_MSG_GET_VQUEUE) {
                Ok(resp) => Ok::<u32, LkError>(resp.max_size),
                Err(e) => Err(e),
            },
    {
        match receive_response(reply) {
            Ok(resp) => match resp.read_get_vqueue() {
                Ok(vqueue) => Ok(vqueue.max_size),
                Err(e) => Err(e),
            },
            Err(e) => Err(e),
        }
    }

    /// Whether a virtqueue is in use, given the reply to [`FFAMsgTransport::get_vqueue_request`].
    pub fn queue_used(reply: Reply) -> (result: Result<bool, LkError>)
        ensures
            result == match reply_payload::<GetVqueueResp>(reply, VIRTIO_MSG_GET_VQUEUE) {
                Ok(resp) => Ok::<bool, LkError>(vqueue_in_use(resp)),
                Err(e) => Err(e),
            },
    {
        match receive_response(reply) {
            Ok(resp) => match resp.read_get_vqueue() {
                Ok(vqueue) => {
                    let all_fields_zero: bool = vqueue.size == 0 && vqueue.descriptor_addr == 0
                        && vqueue.driver_addr == 0 && vqueue.device_addr == 0;
                    Ok(!all_fields_zero)
                },
                Err(e) => Err(e),
            },
            Err(e) => Err(e),
        }
    }

    /// Asks for the device status.
    pub fn get_status_request(&self) -> (req: VirtioMsgReq)
        ensures
            req.bytes() == request_msg(VIRTIO_MSG_GET_DEVICE_STATUS, Some(self.dev_id), seq![]),
    {
        VirtioMsgReq::new_get_device_status(self.dev_id)
    }

    /// The device status.
    pub fn get_status(reply: Reply) -> (result: Result<u32, LkError>)
        ensures
            result == match reply_payload::<GetDeviceStatusResp>(
                reply,
                VIRTIO_MSG_GET_DEVICE_STATUS,
            ) {
                Ok(resp) => Ok::<u32, LkError>(resp.status),
                Err(e) => Err(e),
            },
    {
        match receive_response(reply) {
            Ok(resp) => match resp.read_get_device_status() {
                Ok(payload) => Ok(payload.status),
                Err(e) => Err(e),
            },
            Err(e) => Err(e),
        }
    }

    /// Asks the device to change its status.
    pub fn set_status_request(&self, status: u32) -> (req: VirtioMsgReq)
        ensures
            req.bytes() == request_msg(
                VIRTIO_MSG_SET_DEVICE_STATUS,
                Some(self.dev_id),
                (SetDeviceStatus { status }).encode(),
            ),
    {
        VirtioMsgReq::new_set_device_status(self.dev_id, status)
    }

    /// The virtqueues always have the legacy layout.
    pub fn requires_legacy_layout(&self) -> (res: bool)
        ensures
            res,
    {
        true
    }

    /// Configures a virtqueue that lies in the shared memory, which starts at physical address
    /// `base_paddr`. The device is told bus addresses.
    pub fn queue_set_request(
        &self,
        base_paddr: u64,
        queue: u16,
        size: u32,
        desc_phys: u64,
        driver_area_phys: u64,
        device_area_phys: u64,
    ) -> (req: VirtioMsgReq)
        requires
            base_paddr <= desc_phys < base_paddr + BUS_ADDR_OFFSET_LIMIT,
            base_paddr <= driver_area_phys < base_paddr + BUS_ADDR_OFFSET_LIMIT,
            base_paddr <= device_area_phys < base_paddr + BUS_ADDR_OFFSET_LIMIT,
        ensures
            req.bytes() == request_msg(
                VIRTIO_MSG_SET_VQUEUE,
                Some(self.dev_id),
                (SetVqueue {
                    index: queue as u32,
                    unused: 0,
                    size,
                    descriptor_addr: heap_bus_address(base_paddr, desc_phys),
                    driver_addr: heap_bus_address(base_paddr, driver_area_phys),
                    device_addr: heap_bus_address(base_paddr, device_area_phys),
                }).encode(),
            ),
    {
        let desc_bus: u64 = bus_address(INITIAL_AREA_ID, desc_phys - base_paddr);
        let driver_area_bus: u64 = bus_address(INITIAL_AREA_ID, driver_area_phys - base_paddr);
        let device_area_bus: u64 = bus_address(INITIAL_AREA_ID, device_area_phys - base_paddr);
        VirtioMsgReq::new_set_vqueue(
            self.dev_id,
            queue,
            size,
            desc_bus,
            driver_area_bus,
            device_area_bus,
        )
    }

    /// Asks for `size` bytes of the configuration space.
    pub fn read_config_space_request(&self, offset: u32, size: u8) -> (req: VirtioMsgReq)
        ensures
            req.bytes() == request_msg(
                VIRTIO_MSG_GET_CONFIG,
                Some(self.dev_id),
                (GetConfig { offset, size: size as u32 }).encode(),
            ),
    {
        VirtioMsgReq::new_get_config(self.dev_id, offset, size)
    }

    /// Asks for the generation of the configuration space. The request has a kind of its own, which
    /// the revision of the protocol in [`crate::proto`] does not have: the caller knows its number.
    pub fn read_config_generation_request(&self, msg_id: u8) -> (req: VirtioMsgReq)
        ensures
            req.bytes() == v1_request_msg(msg_id, Some(self.dev_id), seq![]),
    {
        VirtioMsgReq::get_config_gen(msg_id, self.dev_id)
    }

    /// The generation of the configuration space, given the reply to
    /// [`FFAMsgTransport::read_config_generation_request`].
    pub fn read_config_generation(reply: Reply, msg_id: u8) -> (result: Result<u32, LkError>)
        ensures
            result == generation_in(reply, msg_id),
    {
        match receive_response(reply) {
            Ok(resp) => match resp.into_get_config_gen(msg_id) {
                Ok(payload) => Ok(payload.generation),
                Err(e) => Err(e),
            },
            Err(e) => Err(e),
        }
    }

    /// The first `size` bytes of the configuration data, given the reply to
    /// [`FFAMsgTransport::read_config_space_request`].
    pub fn read_config_space(reply: Reply, size: usize) -> (result: Result<Vec<u8>, LkError>)
        requires
            reply_fits(reply, VIRTIO_MSG_GET_CONFIG),
            size <= CONFIG_DATA_SIZE,
        ensures
            match reply_payload_variable::<GetConfigResp>(reply, VIRTIO_MSG_GET_CONFIG) {
                Ok((_, data)) => result matches Ok(bytes) && bytes@ == config_data(data).take(
                    size as int,
                ),
                Err(e) => result == Err::<Vec<u8>, LkError>(e),
            },
    {
        let resp = match receive_response(reply) {
            Ok(resp) => resp,
            Err(e) => {
                return Err(e);
            },
        };
        let (_, data) = match resp.read_get_config() {
            Ok(parts) => parts,
            Err(e) => {
                return Err(e);
            },
        };
        let mut bytes: Vec<u8> = Vec::new();
        let mut i: usize = 0;
        while i < size
            invariant
                i <= size <= CONFIG_DATA_SIZE,
                bytes@ == config_data(data@).take(i as int),
            decreases size - i,
        {
            let byte: u8 = if i < data.len() {
                data[i]
            } else {
                0
            };
            bytes.push(byte);
            i = i + 1;
            assert(bytes@ =~= config_data(data@).take(i as int));
        }
        Ok(bytes)
    }
}

/// The bus address of physical address `paddr` in the shared memory at `base_paddr`.
pub open spec fn heap_bus_address(base_paddr: u64, paddr: u64) -> u64 {
    bus_address_of(INITIAL_AREA_ID as nat, (paddr - base_paddr) as nat) as u64
}

/// A driver sees that a virtqueue that was never configured is not in use.
pub proof fn law_unconfigured_queue_is_not_in_use(d: DeviceView, queue: u16)
    requires
        queue < NUM_VQUEUES,
        d.state.vqueues[queue as int] is None,
    ensures
        !vqueue_in_use(vqueue_reply(queue as u32, d.state.vqueues[queue as int])),
{
}

/// A driver reads the features that the device supports.
pub proof fn law_features_are_read(d: DeviceView, reply: Reply)
    requires
        reply matches Ok(buf) && msg_bytes(buf@) == handle(
            d,
            request_msg(
                VIRTIO_MSG_GET_DEV_FEATURES,
                Some(0),
                (GetFeatures { index: 0, num: NUM_FEATURE_BLOCKS }).encode(),
            ),
        ).message,
    ensures
        reply_fits(reply, VIRTIO_MSG_GET_DEV_FEATURES),
        reply_payload_variable::<GetFeaturesResp>(reply, VIRTIO_MSG_GET_DEV_FEATURES) matches Ok(
            (_, data),
        ) && features_in(data) == Ok::<u64, LkError>(SUPPORTED_VIRTIO_FEATURES),
{
    broadcast use lemma_le_bytes_len;

    let req = GetFeatures { index: 0, num: NUM_FEATURE_BLOCKS };
    let m = request_msg(VIRTIO_MSG_GET_DEV_FEATURES, Some(0), req.encode());
    lemma_request_msg(VIRTIO_MSG_GET_DEV_FEATURES, Some(0), req.encode());
    law_answers_are_responses(d, m);
    law_features_exchange(d, 0, NUM_FEATURE_BLOCKS);
    let data = le_bytes(SUPPORTED_VIRTIO_FEATURES as nat, 8);
    lemma_le_limits();
    assert(data.subrange(0, 8) =~= data);
    lemma_le_at(data, 0, SUPPORTED_VIRTIO_FEATURES as nat, 8);
}

/// A device that does not know the kind of a generation request answers it all the same, and the
/// driver reads generation zero, as in the answers of the device to configuration requests.
pub proof fn law_generation_is_read(d: DeviceView, id: u8, reply: Reply)
    requires
        reply matches Ok(buf) && msg_bytes(buf@) == handle(
            d,
            v1_request_msg(id, Some(0), seq![]),
        ).message,
        can_handle(v1_request_msg(id, Some(0), seq![])),
        device_request(v1_request_msg(id, Some(0), seq![])) is UnknownDeviceReq,
    ensures
        generation_in(reply, id) == Ok::<u32, LkError>(0),
{
    let m = v1_request_msg(id, Some(0), seq![]);
    lemma_v1_request_msg(id, Some(0), seq![]);
    lemma_as_response(m);
    lemma_le_bytes_of_zero(4);
    lemma_le_limits();
    let payload = v1_payload_bytes(m);
    assert(payload.subrange(0, 4) =~= le_bytes(0, 4));
    lemma_le_at(payload, 0, 0, 4);
}

} // verus!
