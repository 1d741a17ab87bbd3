//! Requests that the driver end sends, and the responses that it receives.

use vstd::prelude::*;
use vstd::slice::slice_subrange;

use crate::error::LkError;
use crate::message::{
    is_response, msg_id, msg_size, payload_bytes, v1_payload_bytes, with_payload, write_payload,
    write_payload_parts, write_v1_payload,
};
use crate::msg::{ArchMmuFlags, MemShareAttr};
use crate::payload::{
    BusAreaShare, BusAreaShareResp, BusFfaVersion, BusFfaVersionResp, BusGetDevices,
    BusGetDevicesResp, EventAvail, GetConfig, GetConfigGenResp, GetConfigResp, GetDeviceInfoResp,
    GetDeviceStatusResp, GetFeatures, GetFeaturesResp, GetVqueue, GetVqueueResp, Payload,
    SetDeviceStatus, SetDeviceStatusResp, SetFeatures, SetFeaturesV1, SetVqueue,
};
use crate::proto::{
    HEADER_SIZE, MSG_SIZE_OFFSET, V1_HEADER_SIZE, VIRTIO_MSG_BUS_GET_DEVICES,
    VIRTIO_MSG_DEVICE_INFO, VIRTIO_MSG_EVENT_AVAIL, VIRTIO_MSG_FFA_BUS_AREA_SHARE,
    VIRTIO_MSG_FFA_BUS_VERSION, VIRTIO_MSG_FFA_FEATURE_DIRECT_MSG_TX_SUPP, VIRTIO_MSG_GET_CONFIG,
    VIRTIO_MSG_GET_DEVICE_STATUS, VIRTIO_MSG_GET_DEV_FEATURES, VIRTIO_MSG_GET_VQUEUE,
    VIRTIO_MSG_SET_DEVICE_STATUS, VIRTIO_MSG_SET_DRV_FEATURES, VIRTIO_MSG_SET_VQUEUE,
    VIRTIO_MSG_TYPE_BUS, VIRTIO_MSG_TYPE_RESPONSE,
};
use crate::wire::{
    all_zero, bytes_of_msg, get_u16, le_bytes, lemma_le_bytes_len, msg_bytes, msg_of_bytes, put_u16,
    splice, zeros, ARM_FFA_MSG_EXTENDED_ARGS_COUNT, MSG_BYTES,
};

verus! {

/// A request to send.
#[derive(Debug)]
pub struct VirtioMsgReq(pub [u64; ARM_FFA_MSG_EXTENDED_ARGS_COUNT]);

/// A buffer with nothing but the type, the id and the device number of a request. Without a device
/// number it is a bus message.
pub open spec fn request_header(id: u8, dev_id: Option<u16>) -> Seq<u8> {
    match dev_id {
        Some(dev) => seq![0u8, id] + le_bytes(dev as nat, 2) + zeros(108),
        None => seq![VIRTIO_MSG_TYPE_BUS, id] + zeros(110),
    }
}

/// A request with payload `payload`; the rest of the buffer is zero.
pub open spec fn request_msg(id: u8, dev_id: Option<u16>, payload: Seq<u8>) -> Seq<u8> {
    with_payload(request_header(id, dev_id), payload)
}

/// A request in the 40-byte layout with payload `payload`; the rest of the buffer is zero.
pub open spec fn v1_request_msg(id: u8, dev_id: Option<u16>, payload: Seq<u8>) -> Seq<u8> {
    splice(request_header(id, dev_id), 4, payload)
}

/// The offer of a bus version: the driver can only send direct messages.
pub open spec fn version_offer(driver_version: u32, vmsg_revision: u32, num_shm: u16)
    -> BusFfaVersion {
    BusFfaVersion {
        driver_version,
        vmsg_revision,
        vmsg_features: 0,
        features: VIRTIO_MSG_FFA_FEATURE_DIRECT_MSG_TX_SUPP,
        area_num: num_shm,
    }
}

/// The request to share `num_pages` pages that are mapped with `flags`.
pub open spec fn share_request(
    area_id: u16,
    mem_handle: u64,
    num_pages: usize,
    flags: ArchMmuFlags,
) -> BusAreaShare {
    BusAreaShare {
        area_id,
        mem_handle,
        tag: 0,
        count: num_pages as u32,
        attr: MemShareAttr::of_lk_flags(flags).encode() as u32,
    }
}

impl VirtioMsgReq {
    /// The bytes of the request.
    pub open spec fn bytes(self) -> Seq<u8> {
        msg_bytes(self.0@)
    }

    /// A request without a payload.
    fn new_v2_req(msg_id: u8, dev_id: Option<u16>) -> (req: VirtioMsgReq)
        ensures
            req.bytes() == request_msg(msg_id, dev_id, seq![]),
    {
        Self::new_v2_req_with_payload(msg_id, dev_id, ())
    }

    /// A request with nothing but its header.
    fn new_header(msg_id: u8, dev_id: Option<u16>) -> (req: VirtioMsgReq)
        ensures
            req.bytes() == request_header(msg_id, dev_id),
    {
        broadcast use lemma_le_bytes_len;

        let mut bytes: [u8; MSG_BYTES] = [0;MSG_BYTES];
        bytes[1] = msg_id;
        match dev_id {
            Some(id) => {
                put_u16(&mut bytes, 2, id);
            },
            None => {
                bytes[0] = VIRTIO_MSG_TYPE_BUS;
            },
        }
        assert(bytes@ =~= request_header(msg_id, dev_id));
        VirtioMsgReq(msg_of_bytes(&bytes))
    }

    /// A request with a payload.
    fn new_v2_req_with_payload<T: Payload>(msg_id: u8, dev_id: Option<u16>, payload: T) -> (req:
        VirtioMsgReq)
        ensures
            req.bytes() == request_msg(msg_id, dev_id, payload.encode()),
    {
        let mut req = Self::new_header(msg_id, dev_id);
        write_payload(&mut req.0, &payload);
        req
    }

    /// A request in the 40-byte layout with a payload.
    fn new_v1_req_with_payload<T: Payload>(msg_id: u8, dev_id: Option<u16>, payload: T) -> (req:
        VirtioMsgReq)
        ensures
            req.bytes() == v1_request_msg(msg_id, dev_id, payload.encode()),
    {
        let mut req = Self::new_header(msg_id, dev_id);
        write_v1_payload(&mut req.0, &payload);
        req
    }

    /// Offers a bus version and a message revision.
    pub fn new_bus_ffa_version(driver_version: u32, vmsg_revision: u32, num_shm: u16) -> (req:
        VirtioMsgReq)
        ensures
            req.bytes() == request_msg(
                VIRTIO_MSG_FFA_BUS_VERSION,
                None,
                version_offer(driver_version, vmsg_revision, num_shm).encode(),
            ),
    {
        Self::new_v2_req_with_payload(
            VIRTIO_MSG_FFA_BUS_VERSION,
            None,
            BusFfaVersion {
                driver_version,
                vmsg_revision,
                vmsg_features: 0,
                features: VIRTIO_MSG_FFA_FEATURE_DIRECT_MSG_TX_SUPP,
                area_num: num_shm,
            },
        )
    }

    /// Asks which of the device numbers `offset..offset + num_devs` are in use.
    pub fn new_bus_get_devices(offset: u16, num_devs: u16) -> (req: VirtioMsgReq)
        requires
            offset % 8 == 0,
            num_devs % 8 == 0,
        ensures
            req.bytes() == request_msg(
                VIRTIO_MSG_BUS_GET_DEVICES,
                None,
                (BusGetDevices { offset, num: num_devs }).encode(),
            ),
    {
        Self::new_v2_req_with_payload(
            VIRTIO_MSG_BUS_GET_DEVICES,
            None,
            BusGetDevices { offset, num: num_devs },
        )
    }

    /// Asks for information about a device.
    pub fn new_get_device_info(dev_id: u16) -> (req: VirtioMsgReq)
        ensures
            req.bytes() == request_msg(VIRTIO_MSG_DEVICE_INFO, Some(dev_id), seq![]),
    {
        Self::new_v2_req(VIRTIO_MSG_DEVICE_INFO, Some(dev_id))
    }

    /// Asks a device to change its status.
    pub fn new_set_device_status(dev_id: u16, status: u32) -> (req: VirtioMsgReq)
        ensures
            req.bytes() == request_msg(
                VIRTIO_MSG_SET_DEVICE_STATUS,
                Some(dev_id),
                (SetDeviceStatus { status }).encode(),
            ),
    {
        Self::new_v2_req_with_payload(
            VIRTIO_MSG_SET_DEVICE_STATUS,
            Some(dev_id),
            SetDeviceStatus { status },
        )
    }

    /// Asks a device for its status.
    pub fn new_get_device_status(dev_id: u16) -> (req: VirtioMsgReq)
        ensures
            req.bytes() == request_msg(VIRTIO_MSG_GET_DEVICE_STATUS, Some(dev_id), seq![]),
    {
        Self::new_v2_req(VIRTIO_MSG_GET_DEVICE_STATUS, Some(dev_id))
    }

    /// Asks a device for its features.
    pub fn new_get_device_features(dev_id: u16, index: u32, num_blocks: u32) -> (req: VirtioMsgReq)
        ensures
            req.bytes() == request_msg(
                VIRTIO_MSG_GET_DEV_FEATURES,
                Some(dev_id),
                (GetFeatures { index, num: num_blocks }).encode(),
            ),
    {
        Self::new_v2_req_with_payload(
            VIRTIO_MSG_GET_DEV_FEATURES,
            Some(dev_id),
            GetFeatures { index, num: num_blocks },
        )
    }

    /// Tells a device which features the driver wants: two blocks of 32 bits.
    pub fn new_set_driver_features(dev_id: u16, index: u32, features: u64) -> (req: VirtioMsgReq)
        ensures
            req.bytes() == request_msg(
                VIRTIO_MSG_SET_DRV_FEATURES,
                Some(dev_id),
                (SetFeatures { index, num: 2 }).encode() + features.encode(),
            ),
    {
        broadcast use lemma_le_bytes_len;

        let mut req = Self::new_v2_req(VIRTIO_MSG_SET_DRV_FEATURES, Some(dev_id));
        let ghost header = request_header(VIRTIO_MSG_SET_DRV_FEATURES, Some(dev_id));
        let payload = SetFeatures { index, num: 2 };
        write_payload_parts(&mut req.0, &payload, &features);
        assert(req.bytes() =~= with_payload(header, payload.encode() + features.encode()));
        req
    }

    /// Tells a device which features the driver wants, in the 40-byte layout.
    pub fn set_features(dev_id: u16, index: u32, features: [u64; 4]) -> (req: VirtioMsgReq)
        ensures
            req.bytes() == v1_request_msg(
                VIRTIO_MSG_SET_DRV_FEATURES,
                Some(dev_id),
                (SetFeaturesV1 {
                    index,
                    features: (features@[0], features@[1], features@[2], features@[3]),
                }).encode(),
            ),
    {
        Self::new_v1_req_with_payload(
            VIRTIO_MSG_SET_DRV_FEATURES,
            Some(dev_id),
            SetFeaturesV1 {
                index,
                features: (features[0], features[1], features[2], features[3]),
            },
        )
    }

    /// Asks a device for the generation of its configuration space, in the 40-byte layout. The kind
    /// of the request is `msg_id`.
    pub fn get_config_gen(msg_id: u8, dev_id: u16) -> (req: VirtioMsgReq)
        ensures
            req.bytes() == v1_request_msg(msg_id, Some(dev_id), seq![]),
    {
        Self::new_v1_req_with_payload(msg_id, Some(dev_id), ())
    }

    /// Asks a device for `size` bytes of its configuration space.
    pub fn new_get_config(dev_id: u16, offset: u32, size: u8) -> (req: VirtioMsgReq)
        ensures
            req.bytes() == request_msg(
                VIRTIO_MSG_GET_CONFIG,
                Some(dev_id),
                (GetConfig { offset, size: size as u32 }).encode(),
            ),
    {
        Self::new_v2_req_with_payload(
            VIRTIO_MSG_GET_CONFIG,
            Some(dev_id),
            GetConfig { offset, size: size as u32 },
        )
    }

    /// Asks a device for the configuration of a virtqueue.
    pub fn new_get_vqueue(dev_id: u16, queue: u16) -> (req: VirtioMsgReq)
        ensures
            req.bytes() == request_msg(
                VIRTIO_MSG_GET_VQUEUE,
                Some(dev_id),
                (GetVqueue { index: queue as u32 }).encode(),
            ),
    {
        Self::new_v2_req_with_payload(
            VIRTIO_MSG_GET_VQUEUE,
            Some(dev_id),
            GetVqueue { index: queue as u32 },
        )
    }

    /// Configures a virtqueue of a device.
    pub fn new_set_vqueue(
        dev_id: u16,
        queue: u16,
        size: u32,
        descriptor_addr: u64,
        driver_addr: u64,
        device_addr: u64,
    ) -> (req: VirtioMsgReq)
        ensures
            req.bytes() == request_msg(
                VIRTIO_MSG_SET_VQUEUE,
                Some(dev_id),
                (SetVqueue {
                    index: queue as u32,
                    unused: 0,
                    size,
                    descriptor_addr,
                    driver_addr,
                    device_addr,
                }).encode(),
            ),
    {
        Self::new_v2_req_with_payload(
            VIRTIO_MSG_SET_VQUEUE,
            Some(dev_id),
            SetVqueue {
                index: queue as u32,
                unused: 0,
                size,
                descriptor_addr,
                driver_addr,
                device_addr,
            },
        )
    }

    /// Shares memory as an area.
    pub fn new_bus_area_share(
        area_id: u16,
        mem_handle: u64,
        num_pages: usize,
        arch_mmu_flags: ArchMmuFlags,
    ) -> (req: VirtioMsgReq)
        requires
            num_pages <= u32::MAX,
        ensures
            req.bytes() == request_msg(
                VIRTIO_MSG_FFA_BUS_AREA_SHARE,
                None,
                share_request(area_id, mem_handle, num_pages, arch_mmu_flags).encode(),
            ),
    {
        let attr = MemShareAttr::from_lk_flags(arch_mmu_flags);
        Self::new_v2_req_with_payload(
            VIRTIO_MSG_FFA_BUS_AREA_SHARE,
            None,
            BusAreaShare {
                area_id,
                mem_handle,
                tag: 0,
                count: num_pages as u32,
                attr: u32::from(attr),
            },
        )
    }

    /// Tells a device that a virtqueue has available buffers.
    pub fn new_event_avail(dev_id: u16, queue: u16) -> (req: VirtioMsgReq)
        ensures
            req.bytes() == request_msg(
                VIRTIO_MSG_EVENT_AVAIL,
                Some(dev_id),
                (EventAvail { index: queue as u32, next_offset_wrap: 0 }).encode(),
            ),
    {
        Self::new_v2_req_with_payload(
            VIRTIO_MSG_EVENT_AVAIL,
            Some(dev_id),
            EventAvail { index: queue as u32, next_offset_wrap: 0 },
        )
    }

    /// The buffer to send.
    pub fn get_buf(&self) -> (buf: &[u64; ARM_FFA_MSG_EXTENDED_ARGS_COUNT])
        ensures
            *buf == self.0,
    {
        &self.0
    }
}

/// A response that came in.
#[derive(Debug)]
pub struct VirtioMsgResp {
    pub bytes: [u8; MSG_BYTES],
}

/// The payload of response `m` to a request with message id `id`: the message id, the size and the
/// unused rest of the buffer have to be right.
pub open spec fn read_resp<T: Payload>(m: Seq<u8>, id: u8) -> Result<T, LkError> {
    if msg_id(m) == id && msg_size(m) == 6 + T::size_spec() && all_zero(
        payload_bytes(m).skip(T::size_spec() as int),
    ) {
        Ok(T::decode(payload_bytes(m)))
    } else {
        Err(LkError::InvalidArgs)
    }
}

/// The payload of response `m` to a request with message id `id`, where the payload has a fixed part
/// and a part of variable size.
pub open spec fn read_resp_variable<T: Payload>(m: Seq<u8>, id: u8) -> Result<
    (T, Seq<u8>),
    LkError,
> {
    let size = msg_size(m) as int;
    if msg_id(m) == id && size >= 6 + T::size_spec() && all_zero(m.skip(size)) {
        Ok((T::decode(payload_bytes(m)), m.subrange(6 + T::size_spec() as int, size)))
    } else {
        Err(LkError::InvalidArgs)
    }
}

/// The payload of response `m` in the 40-byte layout to a request with message id `id`.
pub open spec fn read_v1_resp<T: Payload>(m: Seq<u8>, id: u8) -> Result<T, LkError> {
    if msg_id(m) == id {
        Ok(T::decode(v1_payload_bytes(m)))
    } else {
        Err(LkError::InvalidArgs)
    }
}

/// Whether response `m` may be read as a response of variable size to a request with message id
/// `id`: the size that it gives for itself is not larger than the buffer.
pub open spec fn size_fits(m: Seq<u8>, id: u8) -> bool {
    msg_id(m) == id ==> msg_size(m) <= MSG_BYTES
}

impl VirtioMsgResp {
    /// Takes `buf` as a response, unless it is not marked as one.
    pub fn new(buf: [u64; ARM_FFA_MSG_EXTENDED_ARGS_COUNT]) -> (result: Result<
        VirtioMsgResp,
        LkError,
    >)
        ensures
            !is_response(msg_bytes(buf@)) ==> result == Err::<VirtioMsgResp, LkError>(
                LkError::InvalidArgs,
            ),
            is_response(msg_bytes(buf@)) ==> (result matches Ok(resp) && resp.bytes@ == msg_bytes(
                buf@,
            )),
    {
        let bytes = bytes_of_msg(&buf);
        if bytes[0] & VIRTIO_MSG_TYPE_RESPONSE == 0 {
            return Err(LkError::InvalidArgs);
        }
        Ok(VirtioMsgResp { bytes })
    }

    /// Whether all bytes from offset `start` are zero.
    fn is_zero_from(&self, start: usize) -> (res: bool)
        requires
            start <= 112,
        ensures
            res == all_zero(self.bytes@.skip(start as int)),
    {
        let mut i: usize = start;
        while i < MSG_BYTES
            invariant
                start <= i <= 112,
                forall|j: int| start <= j < i ==> self.bytes@[j] == 0,
            decreases 112 - i,
        {
            if self.bytes[i] != 0 {
                assert(self.bytes@.skip(start as int)[i - start] != 0);
                return false;
            }
            i = i + 1;
        }
        true
    }

    /// Reads a payload of fixed size.
    fn read_v2_resp<T: Payload>(self, msg_id: u8) -> (result: Result<T, LkError>)
        ensures
            result == read_resp::<T>(self.bytes@, msg_id),
    {
        if self.bytes[1] != msg_id {
            return Err(LkError::InvalidArgs);
        }
        proof {
            T::lemma_size_bound();
        }
        let size: usize = T::size();
        let total_size: usize = HEADER_SIZE + size;
        if get_u16(&self.bytes, MSG_SIZE_OFFSET) as usize != total_size {
            return Err(LkError::InvalidArgs);
        }
        assert(payload_bytes(self.bytes@).skip(size as int) =~= self.bytes@.skip(
            total_size as int,
        ));
        if !self.is_zero_from(total_size) {
            return Err(LkError::InvalidArgs);
        }
        let payload = slice_subrange(&self.bytes, HEADER_SIZE, MSG_BYTES);
        assert(payload@ =~= payload_bytes(self.bytes@));
        Ok(T::read(payload))
    }

    /// Whether the response may be read as one of variable size (see [`size_fits`]).
    pub fn fits(&self, msg_id: u8) -> (res: bool)
        ensures
            res == size_fits(self.bytes@, msg_id),
    {
        self.bytes[1] != msg_id || get_u16(&self.bytes, MSG_SIZE_OFFSET) as usize <= MSG_BYTES
    }

    /// Reads a payload that has a fixed part and a part of variable size.
    pub fn read_v2_resp_variable_size<T: Payload>(&self, msg_id: u8) -> (result: Result<
        (T, &[u8]),
        LkError,
    >)
        requires
            size_fits(self.bytes@, msg_id),
        ensures
            match read_resp_variable::<T>(self.bytes@, msg_id) {
                Ok((fixed, data)) => result matches Ok(r) && r.0 == fixed && r.1@ == data,
                Err(e) => result == Err::<(T, &[u8]), LkError>(e),
            },
    {
        if self.bytes[1] != msg_id {
            return Err(LkError::InvalidArgs);
        }
        proof {
            T::lemma_size_bound();
        }
        let fixed_size: usize = T::size();
        let size: usize = get_u16(&self.bytes, MSG_SIZE_OFFSET) as usize;
        if size < HEADER_SIZE + fixed_size {
            return Err(LkError::InvalidArgs);
        }
        if !self.is_zero_from(size) {
            return Err(LkError::InvalidArgs);
        }
        let payload = slice_subrange(&self.bytes, HEADER_SIZE, MSG_BYTES);
        assert(payload@ =~= payload_bytes(self.bytes@));
        let fixed: T = T::read(payload);
        let data = slice_subrange(&self.bytes, HEADER_SIZE + fixed_size, size);
        Ok((fixed, data))
    }

    pub fn read_bus_ffa_version(self) -> (result: Result<BusFfaVersionResp, LkError>)
        ensures
            result == read_resp::<BusFfaVersionResp>(self.bytes@, VIRTIO_MSG_FFA_BUS_VERSION),
    {
        self.read_v2_resp(VIRTIO_MSG_FFA_BUS_VERSION)
    }

    pub fn read_bus_get_devices(&self) -> (result: Result<(BusGetDevicesResp, &[u8]), LkError>)
        requires
            size_fits(self.bytes@, VIRTIO_MSG_BUS_GET_DEVICES),
        ensures
            match read_resp_variable::<BusGetDevicesResp>(self.bytes@, VIRTIO_MSG_BUS_GET_DEVICES) {
                Ok((fixed, data)) => result matches Ok(r) && r.0 == fixed && r.1@ == data,
                Err(e) => result == Err::<(BusGetDevicesResp, &[u8]), LkError>(e),
            },
    {
        self.read_v2_resp_variable_size(VIRTIO_MSG_BUS_GET_DEVICES)
    }

    pub fn read_get_device_info(self) -> (result: Result<GetDeviceInfoResp, LkError>)
        ensures
            result == read_resp::<GetDeviceInfoResp>(self.bytes@, VIRTIO_MSG_DEVICE_INFO),
    {
        self.read_v2_resp(VIRTIO_MSG_DEVICE_INFO)
    }

    pub fn read_get_device_features(&self) -> (result: Result<(GetFeaturesResp, &[u8]), LkError>)
        requires
            size_fits(self.bytes@, VIRTIO_MSG_GET_DEV_FEATURES),
        ensures
            match read_resp_variable::<GetFeaturesResp>(self.bytes@, VIRTIO_MSG_GET_DEV_FEATURES) {
                Ok((fixed, data)) => result matches Ok(r) && r.0 == fixed && r.1@ == data,
                Err(e) => result == Err::<(GetFeaturesResp, &[u8]), LkError>(e),
            },
    {
        self.read_v2_resp_variable_size(VIRTIO_MSG_GET_DEV_FEATURES)
    }

    pub fn read_get_device_status(self) -> (result: Result<GetDeviceStatusResp, LkError>)
        ensures
            result == read_resp::<GetDeviceStatusResp>(self.bytes@, VIRTIO_MSG_GET_DEVICE_STATUS),
    {
        self.read_v2_resp(VIRTIO_MSG_GET_DEVICE_STATUS)
    }

    pub fn read_set_device_status(self) -> (result: Result<SetDeviceStatusResp, LkError>)
        ensures
            result == read_resp::<SetDeviceStatusResp>(self.bytes@, VIRTIO_MSG_SET_DEVICE_STATUS),
    {
        self.read_v2_resp(VIRTIO_MSG_SET_DEVICE_STATUS)
    }

    pub fn read_get_config(&self) -> (result: Result<(GetConfigResp, &[u8]), LkError>)
        requires
            size_fits(self.bytes@, VIRTIO_MSG_GET_CONFIG),
        ensures
            match read_resp_variable::<GetConfigResp>(self.bytes@, VIRTIO_MSG_GET_CONFIG) {
                Ok((fixed, data)) => result matches Ok(r) && r.0 == fixed && r.1@ == data,
                Err(e) => result == Err::<(GetConfigResp, &[u8]), LkError>(e),
            },
    {
        self.read_v2_resp_variable_size(VIRTIO_MSG_GET_CONFIG)
    }

    /// Reads the generation of the configuration space, which answers a request of kind `msg_id`.
    pub fn into_get_config_gen(self, msg_id: u8) -> (result: Result<GetConfigGenResp, LkError>)
        ensures
            result == read_v1_resp::<GetConfigGenResp>(self.bytes@, msg_id),
    {
        if self.bytes[1] != msg_id {
            return Err(LkError::InvalidArgs);
        }
        let payload = slice_subrange(&self.bytes, V1_HEADER_SIZE, MSG_BYTES);
        assert(payload@ =~= v1_payload_bytes(self.bytes@));
        Ok(GetConfigGenResp::read(payload))
    }

    pub fn read_get_vqueue(self) -> (result: Result<GetVqueueResp, LkError>)
        ensures
            result == read_resp::<GetVqueueResp>(self.bytes@, VIRTIO_MSG_GET_VQUEUE),
    {
        self.read_v2_resp(VIRTIO_MSG_GET_VQUEUE)
    }

    pub fn read_bus_area_share(self) -> (result: Result<BusAreaShareResp, LkError>)
        ensures
            result == read_resp::<BusAreaShareResp>(self.bytes@, VIRTIO_MSG_FFA_BUS_AREA_SHARE),
    {
        self.read_v2_resp(VIRTIO_MSG_FFA_BUS_AREA_SHARE)
    }
}

} // verus!
