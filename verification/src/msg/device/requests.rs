//! Requests that the device end receives, and the responses that it writes over them.

use vstd::prelude::*;

use crate::error::LkError;
use crate::message::{
    as_response, is_bus, is_response, msg_id, payload_bytes, read_msg_id, read_payload, read_type,
    read_v1_payload, set_response_bit, v1_payload_bytes, with_payload, with_payload_kept_tail,
    write_payload, write_payload_parts, write_v1_payload,
};
use crate::payload::{
    BusActivateResp, BusAreaShare, BusAreaShareResp, BusAreaUnshare, BusAreaUnshareResp,
    BusConfigureResp, BusFfaVersion, BusFfaVersionResp, BusGetDevices, BusGetDevicesResp, GetConfig,
    GetConfigResp, GetDeviceInfoResp, GetDeviceStatusResp, GetFeatures, GetFeaturesResp, GetVqueue,
    GetVqueueResp, Payload, RawPayload, SetDeviceStatus, SetFeaturesV1, SetVqueue,
};
use crate::proto::{
    VIRTIO_MSG_BUS_GET_DEVICES, VIRTIO_MSG_CONNECT, VIRTIO_MSG_DEVICE_INFO, VIRTIO_MSG_EVENT_AVAIL,
    VIRTIO_MSG_EVENT_CONFIG, VIRTIO_MSG_EVENT_USED, VIRTIO_MSG_FFA_BUS_AREA_SHARE,
    VIRTIO_MSG_FFA_BUS_AREA_UNSHARE, VIRTIO_MSG_FFA_BUS_VERSION, VIRTIO_MSG_FFA_ERROR,
    VIRTIO_MSG_GET_CONFIG, VIRTIO_MSG_GET_DEVICE_STATUS, VIRTIO_MSG_GET_DEV_FEATURES,
    VIRTIO_MSG_GET_VQUEUE, VIRTIO_MSG_RESET_VQUEUE, VIRTIO_MSG_SET_DEVICE_STATUS,
    VIRTIO_MSG_SET_DRV_FEATURES, VIRTIO_MSG_SET_VQUEUE, VIRTIO_MSG_TYPE_BUS,
    VIRTIO_MSG_TYPE_RESPONSE,
};
use crate::msg::device::{VirtQueue, VSOCK_QUEUE_SIZE};
use crate::wire::{
    bytes_of_msg, msg_bytes, msg_of_bytes, splice, zeros, ARM_FFA_MSG_EXTENDED_ARGS_COUNT,
};

verus! {

/// A request in the buffer that it came in.
pub struct VirtioMsgReq<'a> {
    pub buf: &'a mut [u64; ARM_FFA_MSG_EXTENDED_ARGS_COUNT],
}

/// What a request asks for.
#[derive(Debug)]
pub enum VirtioMsgPayload {
    BusFFAVersion(BusFfaVersion),
    BusGetDevices(BusGetDevices),
    GetDeviceInfo,
    SetDeviceStatus(SetDeviceStatus),
    GetDeviceStatus,
    GetFeatures(GetFeatures),
    SetFeatures(SetFeaturesV1),
    GetVqueue(GetVqueue),
    SetVqueue(SetVqueue),
    GetConfig(GetConfig),
    EventAvail(RawPayload),
    EventUsed(RawPayload),
    EventConfig(RawPayload),
    AreaShare(BusAreaShare),
    AreaUnshare(BusAreaUnshare),
    ResetVqueue(RawPayload),
    /// The id of a bus request that the protocol does not define.
    UnknownBusReq(u32),
    /// The id of a device request that the protocol does not define.
    UnknownDeviceReq(u32),
}

/// Whether the kind of `m` is one that can be told apart: the protocol has an error message for
/// buses and a connect message for devices, and the device end does not support either.
pub open spec fn is_supported_kind(m: Seq<u8>) -> bool {
    if is_bus(m) {
        msg_id(m) != VIRTIO_MSG_FFA_ERROR
    } else {
        msg_id(m) != VIRTIO_MSG_CONNECT
    }
}

/// What the bus request `m` asks for. The message id decides how its payload is read.
pub open spec fn bus_request(m: Seq<u8>) -> VirtioMsgPayload {
    let payload = payload_bytes(m);
    if msg_id(m) == VIRTIO_MSG_FFA_BUS_VERSION {
        VirtioMsgPayload::BusFFAVersion(BusFfaVersion::decode(payload))
    } else if msg_id(m) == VIRTIO_MSG_BUS_GET_DEVICES {
        VirtioMsgPayload::BusGetDevices(BusGetDevices::decode(payload))
    } else if msg_id(m) == VIRTIO_MSG_FFA_BUS_AREA_SHARE {
        VirtioMsgPayload::AreaShare(BusAreaShare::decode(payload))
    } else if msg_id(m) == VIRTIO_MSG_FFA_BUS_AREA_UNSHARE {
        VirtioMsgPayload::AreaUnshare(BusAreaUnshare::decode(payload))
    } else {
        VirtioMsgPayload::UnknownBusReq(msg_id(m) as u32)
    }
}

/// What the device request `m` asks for. Feature, event and virtqueue reset requests have the
/// 40-byte layout.
pub open spec fn device_request(m: Seq<u8>) -> VirtioMsgPayload {
    let payload = payload_bytes(m);
    let v1_payload = v1_payload_bytes(m);
    if msg_id(m) == VIRTIO_MSG_DEVICE_INFO {
        VirtioMsgPayload::GetDeviceInfo
    } else if msg_id(m) == VIRTIO_MSG_SET_DEVICE_STATUS {
        VirtioMsgPayload::SetDeviceStatus(SetDeviceStatus::decode(payload))
    } else if msg_id(m) == VIRTIO_MSG_GET_DEVICE_STATUS {
        VirtioMsgPayload::GetDeviceStatus
    } else if msg_id(m) == VIRTIO_MSG_GET_DEV_FEATURES {
        VirtioMsgPayload::GetFeatures(GetFeatures::decode(payload))
    } else if msg_id(m) == VIRTIO_MSG_SET_DRV_FEATURES {
        VirtioMsgPayload::SetFeatures(SetFeaturesV1::decode(v1_payload))
    } else if msg_id(m) == VIRTIO_MSG_GET_VQUEUE {
        VirtioMsgPayload::GetVqueue(GetVqueue::decode(payload))
    } else if msg_id(m) == VIRTIO_MSG_SET_VQUEUE {
        VirtioMsgPayload::SetVqueue(SetVqueue::decode(payload))
    } else if msg_id(m) == VIRTIO_MSG_GET_CONFIG {
        VirtioMsgPayload::GetConfig(GetConfig::decode(payload))
    } else if msg_id(m) == VIRTIO_MSG_EVENT_AVAIL {
        VirtioMsgPayload::EventAvail(RawPayload::decode(v1_payload))
    } else if msg_id(m) == VIRTIO_MSG_EVENT_USED {
        VirtioMsgPayload::EventUsed(RawPayload::decode(v1_payload))
    } else if msg_id(m) == VIRTIO_MSG_EVENT_CONFIG {
        VirtioMsgPayload::EventConfig(RawPayload::decode(v1_payload))
    } else if msg_id(m) == VIRTIO_MSG_RESET_VQUEUE {
        VirtioMsgPayload::ResetVqueue(RawPayload::decode(v1_payload))
    } else {
        VirtioMsgPayload::UnknownDeviceReq(msg_id(m) as u32)
    }
}

/// What request `m` asks for. One message id may stand for different requests, depending on whether
/// the message is for the bus or for a device.
pub open spec fn request_of(m: Seq<u8>) -> VirtioMsgPayload {
    if is_bus(m) {
        bus_request(m)
    } else {
        device_request(m)
    }
}

impl<'a> VirtioMsgReq<'a> {
    /// Takes the message in `buf` as a request, unless it is marked as a response.
    pub fn parse(buf: &'a mut [u64; ARM_FFA_MSG_EXTENDED_ARGS_COUNT]) -> (result: Result<
        VirtioMsgReq<'a>,
        LkError,
    >)
        ensures
            result is Err <==> is_response(msg_bytes(old(buf)@)),
            result matches Err(e) ==> e == LkError::InvalidArgs && *final(buf) == *old(buf),
            result matches Ok(req) ==> *req.buf == *old(buf) && *final(req.buf) == *final(buf),
    {
        let msg_ty: u8 = read_type(buf);
        if msg_ty & VIRTIO_MSG_TYPE_RESPONSE != 0 {
            return Err(LkError::InvalidArgs);
        }
        Ok(VirtioMsgReq { buf })
    }

    /// Whether the request is for the bus rather than for a device on it.
    pub fn is_bus_msg(&self) -> (res: bool)
        ensures
            res == is_bus(msg_bytes(old(self.buf)@)),
    {
        read_type(self.buf) & VIRTIO_MSG_TYPE_BUS != 0
    }

    /// What the request asks for.
    pub fn get_msg_payload(&self) -> (payload: VirtioMsgPayload)
        requires
            is_supported_kind(msg_bytes(old(self.buf)@)),
        ensures
            payload == request_of(msg_bytes(old(self.buf)@)),
    {
        let id: u8 = read_msg_id(self.buf);
        if self.is_bus_msg() {
            match id {
                VIRTIO_MSG_FFA_BUS_VERSION => VirtioMsgPayload::BusFFAVersion(
                    read_payload(self.buf),
                ),
                VIRTIO_MSG_BUS_GET_DEVICES => VirtioMsgPayload::BusGetDevices(
                    read_payload(self.buf),
                ),
                VIRTIO_MSG_FFA_BUS_AREA_SHARE => VirtioMsgPayload::AreaShare(
                    read_payload(self.buf),
                ),
                VIRTIO_MSG_FFA_BUS_AREA_UNSHARE => VirtioMsgPayload::AreaUnshare(
                    read_payload(self.buf),
                ),
                _ => VirtioMsgPayload::UnknownBusReq(id as u32),
            }
        } else {
            match id {
                VIRTIO_MSG_DEVICE_INFO => VirtioMsgPayload::GetDeviceInfo,
                VIRTIO_MSG_SET_DEVICE_STATUS => VirtioMsgPayload::SetDeviceStatus(
                    read_payload(self.buf),
                ),
                VIRTIO_MSG_GET_DEVICE_STATUS => VirtioMsgPayload::GetDeviceStatus,
                VIRTIO_MSG_GET_DEV_FEATURES => VirtioMsgPayload::GetFeatures(
                    read_payload(self.buf),
                ),
                VIRTIO_MSG_SET_DRV_FEATURES => VirtioMsgPayload::SetFeatures(
                    read_v1_payload(self.buf),
                ),
                VIRTIO_MSG_GET_VQUEUE => VirtioMsgPayload::GetVqueue(read_payload(self.buf)),
                VIRTIO_MSG_SET_VQUEUE => VirtioMsgPayload::SetVqueue(read_payload(self.buf)),
                VIRTIO_MSG_GET_CONFIG => VirtioMsgPayload::GetConfig(read_payload(self.buf)),
                VIRTIO_MSG_EVENT_AVAIL => VirtioMsgPayload::EventAvail(read_v1_payload(self.buf)),
                VIRTIO_MSG_EVENT_USED => VirtioMsgPayload::EventUsed(read_v1_payload(self.buf)),
                VIRTIO_MSG_EVENT_CONFIG => VirtioMsgPayload::EventConfig(
                    read_v1_payload(self.buf),
                ),
                VIRTIO_MSG_RESET_VQUEUE => VirtioMsgPayload::ResetVqueue(
                    read_v1_payload(self.buf),
                ),
                _ => VirtioMsgPayload::UnknownDeviceReq(id as u32),
            }
        }
    }
}

/// A response in the buffer that its request came in. Each of the methods that fill it in consumes
/// it.
pub struct VirtioMsgResp<'a> {
    pub buf: &'a mut [u64; ARM_FFA_MSG_EXTENDED_ARGS_COUNT],
}

/// The payload of the answer to a version offer. The two fields that the device does not set keep
/// what the request has in their place.
pub open spec fn version_reply(
    m: Seq<u8>,
    device_version: u32,
    vmsg_revision: u32,
    features: u32,
) -> BusFfaVersionResp {
    let old_payload = BusFfaVersionResp::decode(payload_bytes(m));
    BusFfaVersionResp { device_version, vmsg_revision, features, ..old_payload }
}

/// The payload of the answer to a virtqueue request: all fields but the index and the maximum size
/// are zero for a virtqueue that was not configured.
pub open spec fn vqueue_reply(index: u32, vqueue: Option<VirtQueue>) -> GetVqueueResp {
    match vqueue {
        Some(vq) => GetVqueueResp {
            index,
            max_size: VSOCK_QUEUE_SIZE,
            size: vq.size,
            descriptor_addr: vq.desc_table,
            driver_addr: vq.avail_ring,
            device_addr: vq.used_ring,
        },
        None => GetVqueueResp {
            index,
            max_size: VSOCK_QUEUE_SIZE,
            size: 0,
            descriptor_addr: 0,
            driver_addr: 0,
            device_addr: 0,
        },
    }
}

/// The payload of the answer to a device information request: 64 feature bits, eight bytes of
/// configuration space and three virtqueues.
pub open spec fn device_info_reply(device_id: u32, vendor_id: u32) -> GetDeviceInfoResp {
    GetDeviceInfoResp {
        device_id,
        vendor_id,
        num_feature_bits: 64,
        config_size: 8,
        max_vq_count: 3,
        admin_vq_start_idx: 0,
        admin_vq_count: 0,
    }
}

/// The fixed part of the answer to a request for device numbers: the bitmap holds eight devices.
pub open spec fn get_devices_reply(next_offset: u16) -> BusGetDevicesResp {
    BusGetDevicesResp { offset: 0, num: 8, next_offset }
}

/// The fixed part of the answer to a request for device features: two blocks of 32 bits.
pub open spec fn get_features_reply(index: u32) -> GetFeaturesResp {
    GetFeaturesResp { index, num: 2 }
}

/// The result field of an answer: zero on success, one on failure.
pub open spec fn result_field(success: bool) -> u16 {
    if success {
        0
    } else {
        1
    }
}

impl<'a> VirtioMsgResp<'a> {
    /// Sets the response bit in the buffer of `req`.
    pub fn new(req: VirtioMsgReq<'a>) -> (resp: VirtioMsgResp<'a>)
        ensures
            msg_bytes(resp.buf@) == as_response(msg_bytes(old(req.buf)@)),
            *final(resp.buf) == *final(req.buf),
    {
        let buf = req.buf;
        set_response_bit(buf);
        VirtioMsgResp { buf }
    }

    /// Answers a bus request with an error message.
    pub fn ffa_error(self)
        requires
            is_bus(msg_bytes(old(self.buf)@)),
        ensures
            msg_bytes(final(self.buf)@) == splice(
                msg_bytes(old(self.buf)@).update(1, VIRTIO_MSG_FFA_ERROR),
                4,
                zeros(36),
            ),
    {
        let mut bytes = bytes_of_msg(self.buf);
        let ghost start = bytes@;
        bytes[1] = VIRTIO_MSG_FFA_ERROR;
        let mut i: usize = 4;
        while i < 40
            invariant
                start.len() == 112,
                4 <= i <= 40,
                bytes@ == splice(start.update(1, VIRTIO_MSG_FFA_ERROR), 4, zeros((i - 4) as nat)),
            decreases 40 - i,
        {
            bytes[i] = 0;
            i = i + 1;
            assert(bytes@ =~= splice(
                start.update(1, VIRTIO_MSG_FFA_ERROR),
                4,
                zeros((i - 4) as nat),
            ));
        }
        *self.buf = msg_of_bytes(&bytes);
    }

    /// Answers a version offer.
    pub fn write_bus_ffa_version(self, device_version: u32, vmsg_revision: u32, features: u32)
        ensures
            msg_bytes(final(self.buf)@) == with_payload(
                msg_bytes(old(self.buf)@),
                version_reply(
                    msg_bytes(old(self.buf)@),
                    device_version,
                    vmsg_revision,
                    features,
                ).encode(),
            ),
    {
        let mut payload: BusFfaVersionResp = read_payload(self.buf);
        payload.device_version = device_version;
        payload.vmsg_revision = vmsg_revision;
        payload.features = features;
        write_payload(self.buf, &payload);
    }

    /// Answers an activation in the 40-byte layout.
    pub fn activate(self, device_version: u32, features: u64, num_dev: u64)
        ensures
            msg_bytes(final(self.buf)@) == splice(
                msg_bytes(old(self.buf)@),
                4,
                (BusActivateResp { device_version, features, num: num_dev }).encode(),
            ),
    {
        let payload = BusActivateResp { device_version, features, num: num_dev };
        write_v1_payload(self.buf, &payload);
    }

    /// Answers a configuration in the 40-byte layout.
    pub fn configure(self, features: u64)
        ensures
            msg_bytes(final(self.buf)@) == splice(
                msg_bytes(old(self.buf)@),
                4,
                (BusConfigureResp { features }).encode(),
            ),
    {
        let payload = BusConfigureResp { features };
        write_v1_payload(self.buf, &payload);
    }

    /// Answers a request for device numbers with a bitmap of eight of them.
    pub fn write_bus_get_devices(self, next_offset: u16, bitmap: u8)
        ensures
            msg_bytes(final(self.buf)@) == with_payload_kept_tail(
                msg_bytes(old(self.buf)@),
                get_devices_reply(next_offset).encode() + bitmap.encode(),
            ),
    {
        let payload = BusGetDevicesResp { offset: 0, num: 8, next_offset };
        write_payload_parts(self.buf, &payload, &bitmap);
    }

    /// Answers a device information request.
    pub fn write_device_info(self, device_id: u32, vendor_id: u32)
        ensures
            msg_bytes(final(self.buf)@) == with_payload(
                msg_bytes(old(self.buf)@),
                device_info_reply(device_id, vendor_id).encode(),
            ),
    {
        let payload = GetDeviceInfoResp {
            device_id,
            vendor_id,
            num_feature_bits: 64,
            config_size: 8,
            max_vq_count: 3,
            admin_vq_start_idx: 0,
            admin_vq_count: 0,
        };
        write_payload(self.buf, &payload);
    }

    /// Answers a device status request.
    pub fn write_get_device_status(self, status: u32)
        ensures
            msg_bytes(final(self.buf)@) == with_payload(
                msg_bytes(old(self.buf)@),
                (GetDeviceStatusResp { status }).encode(),
            ),
    {
        let payload = GetDeviceStatusResp { status };
        write_payload(self.buf, &payload);
    }

    /// Answers a request for device features.
    pub fn write_get_device_features(self, index: u32, features: u64)
        ensures
            msg_bytes(final(self.buf)@) == with_payload_kept_tail(
                msg_bytes(old(self.buf)@),
                get_features_reply(index).encode() + features.encode(),
            ),
    {
        let payload = GetFeaturesResp { index, num: 2 };
        write_payload_parts(self.buf, &payload, &features);
    }

    /// Answers a request to set driver features, in the 40-byte layout.
    pub fn set_features(self, index: u32, features: u64)
        ensures
            msg_bytes(final(self.buf)@) == splice(
                msg_bytes(old(self.buf)@),
                4,
                (SetFeaturesV1 { index, features: (features, 0, 0, 0) }).encode(),
            ),
    {
        let payload = SetFeaturesV1 { index, features: (features, 0, 0, 0) };
        write_v1_payload(self.buf, &payload);
    }

    /// Answers a virtqueue request.
    pub fn write_get_vqueue(self, index: u32, vqueue: Option<&VirtQueue>)
        ensures
            msg_bytes(final(self.buf)@) == with_payload(
                msg_bytes(old(self.buf)@),
                vqueue_reply(
                    index,
                    match vqueue {
                        Some(vq) => Some(*vq),
                        None => None,
                    },
                ).encode(),
            ),
    {
        let payload = match vqueue {
            Some(vq) => GetVqueueResp {
                index,
                max_size: VSOCK_QUEUE_SIZE,
                size: vq.size,
                descriptor_addr: vq.desc_table,
                driver_addr: vq.avail_ring,
                device_addr: vq.used_ring,
            },
            None => GetVqueueResp {
                index,
                max_size: VSOCK_QUEUE_SIZE,
                size: 0,
                descriptor_addr: 0,
                driver_addr: 0,
                device_addr: 0,
            },
        };
        write_payload(self.buf, &payload);
    }

    /// Answers a request to read the configuration space.
    pub fn write_get_config(self, generation: u32, offset: u32, size: u32, data: u64)
        ensures
            msg_bytes(final(self.buf)@) == with_payload_kept_tail(
                msg_bytes(old(self.buf)@),
                (GetConfigResp { generation, offset, size }).encode() + data.encode(),
            ),
    {
        let payload = GetConfigResp { generation, offset, size };
        write_payload_parts(self.buf, &payload, &data);
    }

    /// Answers a request to share an area.
    pub fn write_bus_area_share(self, area_id: u16, success: bool)
        ensures
            msg_bytes(final(self.buf)@) == with_payload(
                msg_bytes(old(self.buf)@),
                (BusAreaShareResp { area_id, result: result_field(success) }).encode(),
            ),
    {
        let result: u16 = if success {
            0
        } else {
            1
        };
        let payload = BusAreaShareResp { area_id, result };
        write_payload(self.buf, &payload);
    }

    /// Answers a request to stop sharing an area.
    pub fn write_bus_area_unshare(self, area_id: u16, success: bool)
        ensures
            msg_bytes(final(self.buf)@) == with_payload(
                msg_bytes(old(self.buf)@),
                (BusAreaUnshareResp { area_id, result: result_field(success) }).encode(),
            ),
    {
        let result: u16 = if success {
            0
        } else {
            1
        };
        let payload = BusAreaUnshareResp { area_id, result };
        write_payload(self.buf, &payload);
    }
}

} // verus!
