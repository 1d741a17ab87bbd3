//! How a device answers requests.

use vstd::prelude::*;

use crate::error::{LkError, NO_ERROR};
use crate::message::{
    as_response, dev_id, is_bus, is_response, read_dev_id, read_msg_id, read_type, with_payload,
    with_payload_kept_tail,
};
use crate::msg::device::requests::{
    device_info_reply, get_devices_reply, get_features_reply, is_supported_kind, request_of,
    result_field, version_reply, vqueue_reply, VirtioMsgPayload, VirtioMsgReq, VirtioMsgResp,
};
use crate::msg::device::{
    no_vqueues, objects_in, DeviceStateView, DeviceView, FFAClientId, VirtQueue, VirtioMsgDevice,
    VirtioMsgTransport, NUM_VQUEUES,
};
use crate::msg::MAX_NUM_SHM;
use crate::payload::{
    BusAreaShare, BusAreaShareResp, BusAreaUnshare, GetConfig, GetConfigResp, GetDeviceStatusResp,
    GetVqueue, Payload, SetFeaturesV1, SetVqueue,
};
use crate::proto::{
    VIRTIO_CONFIG_S_ACKNOWLEDGE, VIRTIO_CONFIG_S_DRIVER, VIRTIO_CONFIG_S_DRIVER_OK,
    VIRTIO_CONFIG_S_FAILED, VIRTIO_CONFIG_S_FEATURES_OK, VIRTIO_MSG_CONNECT,
    VIRTIO_MSG_FFA_BUS_VERSION_1_0, VIRTIO_MSG_FFA_ERROR, VIRTIO_MSG_FFA_FEATURE_DIRECT_MSG_RX_SUPP,
    VIRTIO_MSG_REVISION_1, VIRTIO_MSG_TYPE_BUS, VIRTIO_MSG_TYPE_RESPONSE,
};
use crate::virtio::{socket_device_type, VIRTIO_ID_VSOCK};
use crate::wire::{msg_bytes, splice, ARM_FFA_MSG_EXTENDED_ARGS_COUNT};

verus! {

/// The feature bits that the device supports: stream sockets (bit 0), version 1 (bit 32) and
/// platform access (bit 33).
pub const SUPPORTED_VIRTIO_FEATURES: u64 = 0x3_0000_0001;

/// The number of the platform access feature bit.
pub const VIRTIO_F_ACCESS_PLATFORM: u64 = 33;

/// Which thread has to be woken after a request was handled.
#[derive(Clone, Copy, Debug, PartialEq, Eq, Structural)]
pub enum Notify {
    /// None.
    Nothing,
    /// The thread that starts the threads of a device: a driver finished its setup.
    DeviceInit,
    /// The thread that unmaps memory: a client stopped sharing an area.
    MemoryUnmap,
}

/// What handling a request comes to.
pub struct Handled {
    pub device: DeviceView,
    pub message: Seq<u8>,
    pub result: Result<Notify, LkError>,
}

/// The version or revision that an end which supports `ours` agrees to when `offer` is offered:
/// zero if none.
pub open spec fn agreed(offer: u32, ours: u32) -> u32 {
    if offer < ours {
        0
    } else {
        ours
    }
}

/// Whether `status` has any bit of `flag` set.
pub open spec fn has_flag(status: u32, flag: u32) -> bool {
    status & flag != 0
}

/// Whether a driver may move a device from `status` to `requested`, where `requested` neither
/// resets the device nor gives up on it. Status bits stay set, so the furthest one decides: the
/// driver has to set ACKNOWLEDGE, DRIVER, FEATURES_OK and DRIVER_OK in this order.
pub open spec fn transition_allowed(status: u32, requested: u32) -> bool {
    if has_flag(status, VIRTIO_CONFIG_S_FAILED) || has_flag(status, VIRTIO_CONFIG_S_DRIVER_OK) {
        false
    } else if has_flag(status, VIRTIO_CONFIG_S_FEATURES_OK) {
        has_flag(requested, VIRTIO_CONFIG_S_DRIVER_OK)
    } else if has_flag(status, VIRTIO_CONFIG_S_DRIVER) {
        has_flag(requested, VIRTIO_CONFIG_S_FEATURES_OK)
    } else if has_flag(status, VIRTIO_CONFIG_S_ACKNOWLEDGE) {
        has_flag(requested, VIRTIO_CONFIG_S_DRIVER)
    } else {
        has_flag(requested, VIRTIO_CONFIG_S_ACKNOWLEDGE)
    }
}

/// The state after a request for `requested`, and what follows from it. Status zero resets the
/// device, and FAILED gives up on it: both are allowed in any state. A device that the driver gave up
/// on stays that way until it is reset.
pub open spec fn status_change(state: DeviceStateView, requested: u32) -> (
    DeviceStateView,
    Result<Notify, LkError>,
) {
    if requested == 0 {
        (DeviceStateView { status: 0, vqueues: no_vqueues(), ..state }, Ok(Notify::Nothing))
    } else if has_flag(requested, VIRTIO_CONFIG_S_FAILED) {
        (DeviceStateView { status: requested, ..state }, Ok(Notify::Nothing))
    } else if !transition_allowed(state.status, requested) {
        (state, Err(LkError::InvalidArgs))
    } else {
        (
            DeviceStateView { status: requested, ..state },
            Ok(
                if has_flag(state.status, VIRTIO_CONFIG_S_FEATURES_OK) {
                    Notify::DeviceInit
                } else {
                    Notify::Nothing
                },
            ),
        )
    }
}

/// The `size` low-order bytes of the guest CID, shifted right by `offset` bits.
pub open spec fn config_value(guest_cid: u32, offset: u32, size: u32) -> u64 {
    let shifted = if offset < 64 {
        (guest_cid as u64) >> offset
    } else {
        0
    };
    if size < 8 {
        shifted & (((1u64 << (size * 8) as u64) - 1) as u64)
    } else {
        shifted
    }
}

/// The features that the device settles on when the driver asks for `requested`: those that it
/// supports, and platform access in any case.
pub open spec fn negotiated_features(requested: u64) -> u64 {
    (requested & SUPPORTED_VIRTIO_FEATURES) | (1u64 << VIRTIO_F_ACCESS_PLATFORM)
}

/// Whether area `area_id` can be shared: it is one that the device has room for, and it has no
/// pending share request.
pub open spec fn can_share(d: DeviceView, area_id: u16) -> bool {
    area_id < MAX_NUM_SHM && d.state.share_requests[area_id as int] is None
}

/// What comes of a request to share an area: it is recorded until the memory is mapped.
pub open spec fn area_share(d: DeviceView, req: BusAreaShare) -> DeviceView {
    if can_share(d, req.area_id) {
        DeviceView {
            state: DeviceStateView {
                share_requests: d.state.share_requests.update(
                    req.area_id as int,
                    Some(req.mem_handle),
                ),
                ..d.state
            },
            ..d
        }
    } else {
        d
    }
}

/// What comes of a request to stop sharing an area, which has to be one that the device has room
/// for. A mapped object moves from the memory map to the objects that are to be unmapped; there is
/// room for one of each area.
pub open spec fn area_unshare(d: DeviceView, req: BusAreaUnshare) -> (
    DeviceView,
    Result<Notify, LkError>,
) {
    let i = req.area_id as int;
    let unmapped = DeviceView {
        state: DeviceStateView { memory_map: d.state.memory_map.update(i, None), ..d.state },
        ..d
    };
    if req.area_id >= MAX_NUM_SHM {
        (d, Err(LkError::InvalidArgs))
    } else if d.state.memory_map[i] is None {
        (d, Ok(Notify::MemoryUnmap))
    } else if d.unshare_requests[i] is Some {
        (unmapped, Err(LkError::BadState))
    } else {
        (
            DeviceView {
                unshare_requests: d.unshare_requests.update(i, d.state.memory_map[i]),
                ..unmapped
            },
            Ok(Notify::MemoryUnmap),
        )
    }
}

/// The virtqueue that a request configures.
pub open spec fn requested_vqueue(req: SetVqueue) -> VirtQueue {
    VirtQueue {
        size: req.size,
        desc_table: req.descriptor_addr,
        avail_ring: req.driver_addr,
        used_ring: req.device_addr,
    }
}

/// `d` after virtqueue `req.index` was configured.
pub open spec fn set_vqueue(d: DeviceView, req: SetVqueue) -> DeviceView {
    DeviceView {
        state: DeviceStateView {
            vqueues: d.state.vqueues.update(req.index as int, Some(requested_vqueue(req))),
            ..d.state
        },
        ..d
    }
}

/// The bitmap of the device numbers from `offset`: there is one device, number zero.
pub open spec fn device_bitmap(offset: u16) -> u8 {
    if offset == 0 {
        1
    } else {
        0
    }
}

/// How `d` handles request `req`, which came in message `r` (the response bit is set already).
/// Requests that the device ignores are answered by the response bit alone.
pub open spec fn answer(d: DeviceView, r: Seq<u8>, req: VirtioMsgPayload) -> Handled {
    let nothing = Ok::<Notify, LkError>(Notify::Nothing);
    match req {
        VirtioMsgPayload::BusFFAVersion(v) => Handled {
            device: d,
            message: with_payload(
                r,
                version_reply(
                    r,
                    agreed(v.driver_version, VIRTIO_MSG_FFA_BUS_VERSION_1_0),
                    agreed(v.vmsg_revision, VIRTIO_MSG_REVISION_1),
                    VIRTIO_MSG_FFA_FEATURE_DIRECT_MSG_RX_SUPP,
                ).encode(),
            ),
            result: nothing,
        },
        VirtioMsgPayload::BusGetDevices(g) => Handled {
            device: d,
            message: with_payload_kept_tail(
                r,
                get_devices_reply(0).encode() + device_bitmap(g.offset).encode(),
            ),
            result: nothing,
        },
        VirtioMsgPayload::GetDeviceInfo => Handled {
            device: d,
            message: with_payload(r, device_info_reply(VIRTIO_ID_VSOCK, 0).encode()),
            result: nothing,
        },
        VirtioMsgPayload::SetDeviceStatus(s) => {
            let (state, result) = status_change(d.state, s.status);
            Handled { device: DeviceView { state, ..d }, message: r, result }
        },
        VirtioMsgPayload::GetDeviceStatus => Handled {
            device: d,
            message: with_payload(r, (GetDeviceStatusResp { status: d.state.status }).encode()),
            result: nothing,
        },
        VirtioMsgPayload::GetFeatures(g) => Handled {
            device: d,
            message: with_payload_kept_tail(
                r,
                get_features_reply(g.index).encode() + SUPPORTED_VIRTIO_FEATURES.encode(),
            ),
            result: nothing,
        },
        VirtioMsgPayload::SetFeatures(s) => Handled {
            device: d,
            message: splice(
                r,
                4,
                (SetFeaturesV1 {
                    index: 0,
                    features: (negotiated_features(s.features.0), 0, 0, 0),
                }).encode(),
            ),
            result: nothing,
        },
        VirtioMsgPayload::GetVqueue(g) => if g.index < NUM_VQUEUES {
            Handled {
                device: d,
                message: with_payload(
                    r,
                    vqueue_reply(g.index, d.state.vqueues[g.index as int]).encode(),
                ),
                result: nothing,
            }
        } else {
            Handled { device: d, message: r, result: Err(LkError::InvalidArgs) }
        },
        VirtioMsgPayload::AreaShare(s) => Handled {
            device: area_share(d, s),
            message: with_payload(
                r,
                (BusAreaShareResp {
                    area_id: s.area_id,
                    result: result_field(can_share(d, s.area_id)),
                }).encode(),
            ),
            result: nothing,
        },
        VirtioMsgPayload::SetVqueue(s) => if s.index < NUM_VQUEUES {
            Handled { device: set_vqueue(d, s), message: r, result: nothing }
        } else {
            Handled { device: d, message: r, result: Err(LkError::InvalidArgs) }
        },
        VirtioMsgPayload::AreaUnshare(u) => {
            let (device, result) = area_unshare(d, u);
            Handled { device, message: r, result }
        },
        VirtioMsgPayload::GetConfig(g) => Handled {
            device: d,
            message: with_payload_kept_tail(
                r,
                (GetConfigResp { generation: 0, offset: g.offset, size: g.size }).encode()
                    + config_value(d.guest_cid, g.offset, g.size).encode(),
            ),
            result: nothing,
        },
        _ => Handled { device: d, message: r, result: nothing },
    }
}

/// Whether message `m` is refused before it is looked at: it is no request, or it is for a device
/// other than number zero.
pub open spec fn is_refused(m: Seq<u8>) -> bool {
    is_response(m) || (!is_bus(m) && dev_id(m) != 0)
}

/// How `d` handles the request in message `m`.
pub open spec fn handle(d: DeviceView, m: Seq<u8>) -> Handled {
    if is_refused(m) {
        Handled { device: d, message: m, result: Err(LkError::InvalidArgs) }
    } else {
        answer(d, as_response(m), request_of(m))
    }
}

/// Whether the device can handle message `m`: it is refused, or it is of a supported kind.
pub open spec fn can_handle(m: Seq<u8>) -> bool {
    is_refused(m) || is_supported_kind(m)
}

impl VirtioMsgDevice {
    /// Changes the device status as the driver asks.
    fn set_device_status(&mut self, requested: u32) -> (result: Result<Notify, LkError>)
        requires
            old(self)@.wf(),
        ensures
            final(self)@ == (DeviceView {
                state: status_change(old(self)@.state, requested).0,
                ..old(self)@
            }),
            result == status_change(old(self)@.state, requested).1,
            final(self)@.wf(),
    {
        if requested == 0 {
            self.state.status = 0;
            self.state.vqueues = [None, None, None];
            assert(self@.state.vqueues =~= no_vqueues());
            return Ok(Notify::Nothing);
        }
        if requested & VIRTIO_CONFIG_S_FAILED != 0 {
            self.state.status = requested;
            return Ok(Notify::Nothing);
        }
        let status: u32 = self.state.status;
        let mut notify = Notify::Nothing;
        let valid_transition: bool = if status & VIRTIO_CONFIG_S_FAILED != 0 {
            false
        } else if status & VIRTIO_CONFIG_S_DRIVER_OK != 0 {
            false
        } else if status & VIRTIO_CONFIG_S_FEATURES_OK != 0 {
            notify = Notify::DeviceInit;
            requested & VIRTIO_CONFIG_S_DRIVER_OK != 0
        } else if status & VIRTIO_CONFIG_S_DRIVER != 0 {
            requested & VIRTIO_CONFIG_S_FEATURES_OK != 0
        } else if status & VIRTIO_CONFIG_S_ACKNOWLEDGE != 0 {
            requested & VIRTIO_CONFIG_S_DRIVER != 0
        } else {
            requested & VIRTIO_CONFIG_S_ACKNOWLEDGE != 0
        };
        if !valid_transition {
            return Err(LkError::InvalidArgs);
        }
        self.state.status = requested;
        Ok(notify)
    }

    /// Records a request to share an area, and says whether there was room for it.
    fn record_area_share(&mut self, req: BusAreaShare) -> (success: bool)
        requires
            old(self)@.wf(),
        ensures
            final(self)@ == area_share(old(self)@, req),
            success == can_share(old(self)@, req.area_id),
            final(self)@.wf(),
    {
        let idx: usize = req.area_id as usize;
        if idx >= MAX_NUM_SHM {
            return false;
        }
        if self.state.share_requests[idx].is_some() {
            return false;
        }
        self.state.share_requests[idx] = Some(req.mem_handle);
        true
    }

    /// Hands the object of an area over to be unmapped.
    fn record_area_unshare(&mut self, req: BusAreaUnshare) -> (result: Result<Notify, LkError>)
        requires
            old(self)@.wf(),
        ensures
            final(self)@ == area_unshare(old(self)@, req).0,
            result == area_unshare(old(self)@, req).1,
            final(self)@.wf(),
    {
        let idx: usize = req.area_id as usize;
        if idx >= MAX_NUM_SHM {
            return Err(LkError::InvalidArgs);
        }
        let mapped_mem = self.state.memory_map[idx];
        if mapped_mem.is_some() {
            self.state.memory_map[idx] = None;
            if self.unshare_requests[idx].is_some() {
                return Err(LkError::BadState);
            }
            self.unshare_requests[idx] = mapped_mem;
        }
        Ok(Notify::MemoryUnmap)
    }

    /// What the driver reads from the configuration space, which holds the guest CID.
    fn read_config(&self, req: GetConfig) -> (config: u64)
        ensures
            config == config_value(self.guest_cid, req.offset, req.size),
    {
        let cid: u64 = self.guest_cid as u64;
        let mut config: u64 = if req.offset < 64 {
            cid >> req.offset
        } else {
            0
        };
        if req.size < 8 {
            let bits: u64 = (req.size * 8) as u64;
            assert((1u64 << bits) >= 1) by (bit_vector)
                requires
                    bits < 64,
            ;
            let mask: u64 = (1u64 << bits) - 1;
            config = config & mask;
        }
        config
    }

    /// Handles the request in `buf_ref` and writes the response over it. The result says which
    /// thread has to be woken.
    pub fn handle_req(&mut self, buf_ref: &mut [u64; ARM_FFA_MSG_EXTENDED_ARGS_COUNT]) -> (result:
        Result<Notify, LkError>)
        requires
            old(self)@.wf(),
            can_handle(msg_bytes(old(buf_ref)@)),
        ensures
            final(self)@ == handle(old(self)@, msg_bytes(old(buf_ref)@)).device,
            msg_bytes(final(buf_ref)@) == handle(old(self)@, msg_bytes(old(buf_ref)@)).message,
            result == handle(old(self)@, msg_bytes(old(buf_ref)@)).result,
            final(self)@.wf(),
    {
        let ghost m = msg_bytes(buf_ref@);
        let dev_id: u16 = read_dev_id(buf_ref);
        let req = match VirtioMsgReq::parse(buf_ref) {
            Ok(req) => req,
            Err(e) => {
                return Err(e);
            },
        };
        if !req.is_bus_msg() && dev_id != 0 {
            return Err(LkError::InvalidArgs);
        }
        let req_payload = req.get_msg_payload();
        let resp = VirtioMsgResp::new(req);
        match req_payload {
            VirtioMsgPayload::BusFFAVersion(req) => {
                let device_version: u32 = if req.driver_version < VIRTIO_MSG_FFA_BUS_VERSION_1_0 {
                    0
                } else {
                    VIRTIO_MSG_FFA_BUS_VERSION_1_0
                };
                let revision: u32 = if req.vmsg_revision < VIRTIO_MSG_REVISION_1 {
                    0
                } else {
                    VIRTIO_MSG_REVISION_1
                };
                resp.write_bus_ffa_version(
                    device_version,
                    revision,
                    VIRTIO_MSG_FFA_FEATURE_DIRECT_MSG_RX_SUPP,
                );
                Ok(Notify::Nothing)
            },
            VirtioMsgPayload::BusGetDevices(req) => {
                let bitmap: u8 = if req.offset == 0 {
                    1
                } else {
                    0
                };
                resp.write_bus_get_devices(0, bitmap);
                Ok(Notify::Nothing)
            },
            VirtioMsgPayload::GetDeviceInfo => {
                let device_type: u32 = socket_device_type();
                resp.write_device_info(device_type, 0);
                Ok(Notify::Nothing)
            },
            VirtioMsgPayload::SetDeviceStatus(req) => self.set_device_status(req.status),
            VirtioMsgPayload::GetDeviceStatus => {
                resp.write_get_device_status(self.state.status);
                Ok(Notify::Nothing)
            },
            VirtioMsgPayload::GetFeatures(req) => {
                resp.write_get_device_features(req.index, SUPPORTED_VIRTIO_FEATURES);
                Ok(Notify::Nothing)
            },
            VirtioMsgPayload::SetFeatures(req) => {
                let negotiated: u64 = (req.features.0 & SUPPORTED_VIRTIO_FEATURES)
                    | (1u64 << VIRTIO_F_ACCESS_PLATFORM);
                resp.set_features(0, negotiated);
                Ok(Notify::Nothing)
            },
            VirtioMsgPayload::GetVqueue(req) => {
                if req.index as usize >= NUM_VQUEUES {
                    return Err(LkError::InvalidArgs);
                }
                let vqueue = &self.state.vqueues[req.index as usize];
                resp.write_get_vqueue(req.index, vqueue.as_ref());
                Ok(Notify::Nothing)
            },
            VirtioMsgPayload::AreaShare(req) => {
                let success: bool = self.record_area_share(req);
                resp.write_bus_area_share(req.area_id, success);
                Ok(Notify::Nothing)
            },
            VirtioMsgPayload::SetVqueue(req) => {
                if req.index as usize >= NUM_VQUEUES {
                    return Err(LkError::InvalidArgs);
                }
                self.state.vqueues[req.index as usize] = Some(
                    VirtQueue {
                        size: req.size,
                        desc_table: req.descriptor_addr,
                        avail_ring: req.driver_addr,
                        used_ring: req.device_addr,
                    },
                );
                assert(self@ =~= set_vqueue(old(self)@, req));
                Ok(Notify::Nothing)
            },
            VirtioMsgPayload::AreaUnshare(req) => self.record_area_unshare(req),
            VirtioMsgPayload::GetConfig(req) => {
                let config: u64 = self.read_config(req);
                resp.write_get_config(0, req.offset, req.size, config);
                Ok(Notify::Nothing)
            },
            VirtioMsgPayload::ResetVqueue(_) => Ok(Notify::Nothing),
            VirtioMsgPayload::EventAvail(_) => Ok(Notify::Nothing),
            VirtioMsgPayload::EventUsed(_) => Ok(Notify::Nothing),
            VirtioMsgPayload::EventConfig(_) => Ok(Notify::Nothing),
            VirtioMsgPayload::UnknownBusReq(_) => Ok(Notify::Nothing),
            VirtioMsgPayload::UnknownDeviceReq(_) => Ok(Notify::Nothing),
        }
    }
}

/// Whether a device can handle the message in `buf` (see [`can_handle`]).
pub fn can_handle_msg(buf: &[u64; ARM_FFA_MSG_EXTENDED_ARGS_COUNT]) -> (res: bool)
    ensures
        res == can_handle(msg_bytes(buf@)),
{
    let ty: u8 = read_type(buf);
    let bus: bool = ty & VIRTIO_MSG_TYPE_BUS != 0;
    if ty & VIRTIO_MSG_TYPE_RESPONSE != 0 || (!bus && read_dev_id(buf) != 0) {
        return true;
    }
    let id: u8 = read_msg_id(buf);
    if bus {
        id != VIRTIO_MSG_FFA_ERROR
    } else {
        id != VIRTIO_MSG_CONNECT
    }
}

/// The status code that reports `result` to the kernel.
pub open spec fn status_of(result: Result<Notify, LkError>) -> int {
    match result {
        Ok(_) => 0,
        Err(e) => e.code_spec(),
    }
}

/// The thread that `result` asks to wake.
pub open spec fn notify_of(result: Result<Notify, LkError>) -> Notify {
    match result {
        Ok(notify) => notify,
        Err(_) => Notify::Nothing,
    }
}

/// Handles a request of client `client_id`. Returns the status code for the kernel, and which
/// thread has to be woken.
pub fn handle_req_callback(
    transport: &mut VirtioMsgTransport,
    client_id: FFAClientId,
    buf_ref: &mut [u64; ARM_FFA_MSG_EXTENDED_ARGS_COUNT],
) -> (outcome: (i32, Notify))
    requires
        old(transport)@.wf(),
        old(transport)@.has_slot(client_id),
        can_handle(msg_bytes(old(buf_ref)@)),
    ensures
        ({
            let device = old(transport)@.device_of(client_id);
            let handled = handle(device, msg_bytes(old(buf_ref)@));
            &&& final(transport)@ == old(transport)@.with_device(client_id, handled.device)
            &&& msg_bytes(final(buf_ref)@) == handled.message
            &&& outcome.0 == status_of(handled.result)
            &&& outcome.1 == notify_of(handled.result)
        }),
        final(transport)@.wf(),
{
    let device = transport.get_device(client_id);
    match device.handle_req(buf_ref) {
        Ok(notify) => (NO_ERROR, notify),
        Err(e) => (e.code(), Notify::Nothing),
    }
}

/// Once a driver finished the setup, only a reset or giving up changes the status.
pub proof fn law_driver_ok_is_final(state: DeviceStateView, requested: u32)
    requires
        has_flag(state.status, VIRTIO_CONFIG_S_DRIVER_OK),
        requested != 0,
        !has_flag(requested, VIRTIO_CONFIG_S_FAILED),
    ensures
        status_change(state, requested).0 == state,
        status_change(state, requested).1 == Err::<Notify, LkError>(LkError::InvalidArgs),
{
}

/// The thread that starts devices is only woken when the setup is finished, and the device then
/// cannot wake it again without a reset.
pub proof fn law_device_init_means_driver_ok(state: DeviceStateView, requested: u32, next: u32)
    requires
        status_change(state, requested).1 == Ok::<Notify, LkError>(Notify::DeviceInit),
    ensures
        !has_flag(state.status, VIRTIO_CONFIG_S_DRIVER_OK),
        has_flag(status_change(state, requested).0.status, VIRTIO_CONFIG_S_DRIVER_OK),
        status_change(status_change(state, requested).0, next).1 != Ok::<Notify, LkError>(
            Notify::DeviceInit,
        ),
{
}

/// A driver that resets a device and then sets the status bits one after the other always gets
/// through, whatever state the device was in, and its last step has the device started.
pub proof fn law_initialization_succeeds(state: DeviceStateView)
    ensures
        ({
            let nothing = Ok::<Notify, LkError>(Notify::Nothing);
            let s0 = status_change(state, 0);
            let s1 = status_change(s0.0, 0b0001);
            let s2 = status_change(s1.0, 0b0011);
            let s3 = status_change(s2.0, 0b1011);
            let s4 = status_change(s3.0, 0b1111);
            &&& s0.1 == nothing && s1.1 == nothing && s2.1 == nothing && s3.1 == nothing
            &&& s4.1 == Ok::<Notify, LkError>(Notify::DeviceInit)
            &&& s4.0 == (DeviceStateView { status: 0b1111, vqueues: no_vqueues(), ..state })
        }),
{
    assert(0u32 & 0x80 == 0 && 0u32 & 4 == 0 && 0u32 & 8 == 0 && 0u32 & 2 == 0 && 0u32 & 1 == 0)
        by (bit_vector);
    assert(1u32 & 0x80 == 0 && 1u32 & 4 == 0 && 1u32 & 8 == 0 && 1u32 & 2 == 0 && 1u32 & 1 != 0)
        by (bit_vector);
    assert(3u32 & 0x80 == 0 && 3u32 & 4 == 0 && 3u32 & 8 == 0 && 3u32 & 2 != 0) by (bit_vector);
    assert(11u32 & 0x80 == 0 && 11u32 & 4 == 0 && 11u32 & 8 != 0) by (bit_vector);
    assert(15u32 & 0x80 == 0 && 15u32 & 4 != 0) by (bit_vector);
}

/// A driver can give up on a device in any state, and only a reset brings the device back: after
/// that, every request that neither resets the device nor gives up on it again is refused and changes
/// nothing.
pub proof fn law_failed_device_needs_reset(state: DeviceStateView, requested: u32, next: u32)
    requires
        has_flag(requested, VIRTIO_CONFIG_S_FAILED),
    ensures
        ({
            let (failed, result) = status_change(state, requested);
            &&& result == Ok::<Notify, LkError>(Notify::Nothing)
            &&& failed.status == requested
            &&& next != 0 && !has_flag(next, VIRTIO_CONFIG_S_FAILED) ==> status_change(failed, next)
                == (failed, Err::<Notify, LkError>(LkError::InvalidArgs))
            &&& next != 0 ==> has_flag(
                status_change(failed, next).0.status,
                VIRTIO_CONFIG_S_FAILED,
            )
            &&& status_change(failed, 0).0.status == 0
        }),
{
    assert(0u32 & 0x80u32 == 0u32) by (bit_vector);
}

/// The device never settles on a feature that it does not support, and always on platform access.
pub proof fn law_negotiated_features_are_supported(requested: u64)
    ensures
        negotiated_features(requested) & !SUPPORTED_VIRTIO_FEATURES == 0,
        negotiated_features(requested) & (1u64 << VIRTIO_F_ACCESS_PLATFORM) != 0,
        requested & SUPPORTED_VIRTIO_FEATURES & !negotiated_features(requested) == 0,
{
    assert(((requested & 0x3_0000_0001u64) | (1u64 << 33u64)) & !0x3_0000_0001u64 == 0)
        by (bit_vector);
    assert(((requested & 0x3_0000_0001u64) | (1u64 << 33u64)) & (1u64 << 33u64) != 0)
        by (bit_vector);
    assert(requested & 0x3_0000_0001u64 & !((requested & 0x3_0000_0001u64) | (1u64 << 33u64)) == 0)
        by (bit_vector);
}

/// A refused status change leaves the device as it is.
pub proof fn law_refused_status_changes_nothing(state: DeviceStateView, requested: u32)
    requires
        status_change(state, requested).1 is Err,
    ensures
        status_change(state, requested).0 == state,
{
}

/// A second request to share an area is refused until the first one was taken up, and a refused
/// request leaves the device as it is.
pub proof fn law_area_is_shared_once(d: DeviceView, first: BusAreaShare, second: BusAreaShare)
    requires
        d.wf(),
        first.area_id == second.area_id,
    ensures
        !can_share(area_share(d, first), second.area_id),
        area_share(area_share(d, first), second) == area_share(d, first),
{
}

/// A request that is answered with an error, other than one to stop sharing an area, leaves the
/// device as it is.
pub proof fn law_errors_change_nothing(d: DeviceView, m: Seq<u8>)
    requires
        handle(d, m).result is Err,
        !(request_of(m) is AreaUnshare),
    ensures
        handle(d, m).device == d,
{
}

/// An area that the client stops sharing keeps its memory object until it is unmapped: the objects
/// of the device, in the order in which they are unmapped, stay the same.
pub proof fn law_unshare_keeps_objects(d: DeviceView, req: BusAreaUnshare)
    requires
        d.wf(),
        req.area_id < MAX_NUM_SHM,
        area_unshare(d, req).1 is Ok,
    ensures
        ({
            let after = area_unshare(d, req).0;
            objects_in(after.state.memory_map, after.unshare_requests, MAX_NUM_SHM as nat)
                == objects_in(d.state.memory_map, d.unshare_requests, MAX_NUM_SHM as nat)
        }),
{
    lemma_unshare_objects(d, req, MAX_NUM_SHM as nat);
}

proof fn lemma_unshare_objects(d: DeviceView, req: BusAreaUnshare, n: nat)
    requires
        d.wf(),
        req.area_id < MAX_NUM_SHM,
        n <= MAX_NUM_SHM,
        area_unshare(d, req).1 is Ok,
    ensures
        ({
            let after = area_unshare(d, req).0;
            objects_in(after.state.memory_map, after.unshare_requests, n) == objects_in(
                d.state.memory_map,
                d.unshare_requests,
                n,
            )
        }),
    decreases n,
{
    if n > 0 {
        lemma_unshare_objects(d, req, (n - 1) as nat);
        let after = area_unshare(d, req).0;
        assert(objects_in(after.state.memory_map, after.unshare_requests, n) =~= objects_in(
            d.state.memory_map,
            d.unshare_requests,
            n,
        ));
    }
}

} // verus!
