//! What a driver reads from the answers of a device.
//!
//! The laws here put the two ends of the bus together: the driver builds a request (see
//! [`crate::msg::driver::requests`]), the device handles it (see
//! [`crate::msg::device::handle_req`]), and the driver reads the response.

use vstd::prelude::*;

use crate::error::LkError;
use crate::message::{
    as_response, dev_id, is_bus, is_response, lemma_as_response, lemma_with_payload,
    lemma_with_payload_kept_tail, msg_id, payload_bytes, v1_payload_bytes, with_payload,
    with_payload_kept_tail,
};
use crate::msg::device::handle_req::{
    agreed, area_share, can_handle, can_share, config_value, device_bitmap, handle, is_refused,
    law_negotiated_features_are_supported, negotiated_features, requested_vqueue, set_vqueue,
    status_change, Notify, SUPPORTED_VIRTIO_FEATURES, VIRTIO_F_ACCESS_PLATFORM,
};
use crate::msg::device::requests::{
    device_info_reply, get_devices_reply, get_features_reply, request_of, result_field,
    version_reply, vqueue_reply, VirtioMsgPayload,
};
use crate::msg::device::hal::{dma_lookup, law_mapped_area_is_found, with_object, DmaMap};
use crate::msg::device::{DeviceView, FFAClientId, MemObj, NUM_VQUEUES};
use crate::msg::driver::hal::{law_bus_address_finds_block, page_offset, PageIdx};
use crate::msg::driver::{SharedHeap, INITIAL_AREA_ID};
use crate::msg::driver::requests::{
    read_resp, read_resp_variable, read_v1_resp, request_header, request_msg, share_request,
    size_fits, v1_request_msg, version_offer,
};
use crate::msg::{area_id_of, ArchMmuFlags, BusAddress};
use crate::payload::{
    BusAreaShareResp, BusFfaVersionResp, BusGetDevices, BusGetDevicesResp, GetConfig, GetConfigResp,
    GetDeviceInfoResp, GetDeviceStatusResp, GetFeatures, GetFeaturesResp, GetVqueue, GetVqueueResp,
    Payload, SetDeviceStatus, SetFeatures, SetFeaturesV1, SetVqueue,
};
use crate::proto::{
    VIRTIO_MSG_BUS_GET_DEVICES, VIRTIO_MSG_DEVICE_INFO, VIRTIO_MSG_FFA_BUS_AREA_SHARE,
    VIRTIO_MSG_FFA_BUS_VERSION, VIRTIO_MSG_FFA_BUS_VERSION_1_0,
    VIRTIO_MSG_FFA_FEATURE_DIRECT_MSG_RX_SUPP, VIRTIO_MSG_GET_CONFIG, VIRTIO_MSG_GET_DEVICE_STATUS,
    VIRTIO_MSG_GET_DEV_FEATURES, VIRTIO_MSG_GET_VQUEUE, VIRTIO_MSG_REVISION_1,
    VIRTIO_MSG_SET_DEVICE_STATUS, VIRTIO_MSG_SET_DRV_FEATURES, VIRTIO_MSG_SET_VQUEUE,
};
use crate::wire::{
    all_zero, le_bytes, lemma_le_at, lemma_le_bytes_len, lemma_le_limits, splice, zeros,
};

verus! {

/// What a device sees of a request that a driver built.
pub proof fn lemma_request_msg(id: u8, dev: Option<u16>, payload: Seq<u8>)
    requires
        payload.len() <= 106,
    ensures
        request_msg(id, dev, payload).len() == 112,
        !is_response(request_msg(id, dev, payload)),
        is_bus(request_msg(id, dev, payload)) == (dev is None),
        msg_id(request_msg(id, dev, payload)) == id,
        dev matches Some(n) ==> dev_id(request_msg(id, dev, payload)) == n,
        payload_bytes(request_msg(id, dev, payload)) == payload + zeros(
            (106 - payload.len()) as nat,
        ),
        request_msg(id, dev, payload).skip(6 + payload.len() as int) == zeros(
            (106 - payload.len()) as nat,
        ),
{
    broadcast use lemma_le_bytes_len;

    let header = request_header(id, dev);
    let m = request_msg(id, dev, payload);
    assert(header.len() == 112);
    assert(0u8 & 1u8 == 0 && 2u8 & 1u8 == 0 && 0u8 & 2u8 == 0 && 2u8 & 2u8 != 0) by (bit_vector);
    lemma_with_payload(header, payload);
    if let Some(n) = dev {
        lemma_le_limits();
        lemma_le_at(header, 2, n as nat, 2);
    }
    assert(m.skip(6 + payload.len() as int) =~= zeros((106 - payload.len()) as nat));
}

/// What a device sees of a request in the 40-byte layout that a driver built.
pub proof fn lemma_v1_request_msg(id: u8, dev: Option<u16>, payload: Seq<u8>)
    requires
        payload.len() <= 108,
    ensures
        v1_request_msg(id, dev, payload).len() == 112,
        !is_response(v1_request_msg(id, dev, payload)),
        is_bus(v1_request_msg(id, dev, payload)) == (dev is None),
        msg_id(v1_request_msg(id, dev, payload)) == id,
        dev matches Some(n) ==> dev_id(v1_request_msg(id, dev, payload)) == n,
        v1_payload_bytes(v1_request_msg(id, dev, payload)) == payload + zeros(
            (108 - payload.len()) as nat,
        ),
{
    broadcast use lemma_le_bytes_len;

    let header = request_header(id, dev);
    let m = v1_request_msg(id, dev, payload);
    assert(header.len() == 112);
    assert(0u8 & 1u8 == 0 && 2u8 & 1u8 == 0 && 0u8 & 2u8 == 0 && 2u8 & 2u8 != 0) by (bit_vector);
    if let Some(n) = dev {
        lemma_le_limits();
        lemma_le_at(header, 2, n as nat, 2);
        assert(m.subrange(2, 4) =~= header.subrange(2, 4));
    }
    assert(m.skip(4) =~= payload + zeros((108 - payload.len()) as nat));
}

/// A payload of fixed size is read back from a message that was written with it.
pub proof fn lemma_read_written<T: Payload>(m: Seq<u8>, payload: T)
    requires
        m.len() == 112,
        T::size_spec() <= 106,
    ensures
        read_resp::<T>(with_payload(m, payload.encode()), msg_id(m)) == Ok::<T, LkError>(payload),
{
    payload.lemma_decode_encode(zeros((106 - T::size_spec()) as nat));
    lemma_with_payload(m, payload.encode());
    let r = with_payload(m, payload.encode());
    assert(payload_bytes(r).skip(T::size_spec() as int) =~= zeros((106 - T::size_spec()) as nat));
}

/// A payload with a part of variable size is read back from a message that was written with it, as
/// long as the rest of the message was zero.
pub proof fn lemma_read_written_variable<T: Payload>(m: Seq<u8>, fixed: T, data: Seq<u8>)
    requires
        m.len() == 112,
        T::size_spec() + data.len() <= 106,
        all_zero(m.skip((6 + T::size_spec() + data.len()) as int)),
    ensures
        read_resp_variable::<T>(with_payload_kept_tail(m, fixed.encode() + data), msg_id(m)) == Ok::<
            (T, Seq<u8>),
            LkError,
        >((fixed, data)),
        size_fits(with_payload_kept_tail(m, fixed.encode() + data), msg_id(m)),
{
    let payload = fixed.encode() + data;
    let tail = m.skip(6 + payload.len() as int);
    fixed.lemma_decode_encode(data + tail);
    lemma_with_payload_kept_tail(m, payload);
    let r = with_payload_kept_tail(m, payload);
    let size = 6 + payload.len() as int;
    assert(payload + tail =~= fixed.encode() + (data + tail));
    assert(r.skip(6).skip(payload.len() as int) =~= tail);
    assert(r.skip(size) =~= r.skip(6).skip(payload.len() as int));
    assert(r.subrange(6 + T::size_spec() as int, size) =~= data) by {
        assert forall|i: int| 0 <= i < data.len() implies r.subrange(
            6 + T::size_spec() as int,
            size,
        )[i] == data[i] by {
            assert(r[6 + T::size_spec() + i] == r.skip(6)[T::size_spec() + i]);
        }
    }
}

/// A request that the device can handle and does not refuse is answered by a response with the same
/// message id: it has the response bit, and it is a bus message exactly if the request is one.
pub proof fn law_answers_are_responses(d: DeviceView, m: Seq<u8>)
    requires
        m.len() == 112,
        !is_refused(m),
    ensures
        handle(d, m).message.len() == 112,
        is_response(handle(d, m).message),
        is_bus(handle(d, m).message) == is_bus(m),
        msg_id(handle(d, m).message) == msg_id(m),
{
    broadcast use lemma_le_bytes_len;

    lemma_as_response(m);
    let r = as_response(m);
    match request_of(m) {
        VirtioMsgPayload::BusFFAVersion(v) => {
            let reply = version_reply(
                r,
                agreed(v.driver_version, VIRTIO_MSG_FFA_BUS_VERSION_1_0),
                agreed(v.vmsg_revision, VIRTIO_MSG_REVISION_1),
                VIRTIO_MSG_FFA_FEATURE_DIRECT_MSG_RX_SUPP,
            );
            lemma_with_payload(r, reply.encode());
        },
        VirtioMsgPayload::BusGetDevices(g) => {
            lemma_with_payload_kept_tail(
                r,
                get_devices_reply(0).encode() + device_bitmap(g.offset).encode(),
            );
        },
        VirtioMsgPayload::GetDeviceInfo => {
            lemma_with_payload(
                r,
                device_info_reply(crate::virtio::VIRTIO_ID_VSOCK, 0).encode(),
            );
        },
        VirtioMsgPayload::GetDeviceStatus => {
            lemma_with_payload(r, (GetDeviceStatusResp { status: d.state.status }).encode());
        },
        VirtioMsgPayload::GetFeatures(g) => {
            lemma_with_payload_kept_tail(
                r,
                get_features_reply(g.index).encode() + SUPPORTED_VIRTIO_FEATURES.encode(),
            );
        },
        VirtioMsgPayload::GetVqueue(g) => {
            lemma_with_payload(r, vqueue_reply(g.index, d.state.vqueues[g.index as int]).encode());
        },
        VirtioMsgPayload::AreaShare(s) => {
            lemma_with_payload(
                r,
                (BusAreaShareResp {
                    area_id: s.area_id,
                    result: result_field(can_share(d, s.area_id)),
                }).encode(),
            );
        },
        VirtioMsgPayload::GetConfig(g) => {
            lemma_with_payload_kept_tail(
                r,
                (GetConfigResp { generation: 0, offset: g.offset, size: g.size }).encode()
                    + config_value(d.guest_cid, g.offset, g.size).encode(),
            );
        },
        _ => {},
    }
}

/// A refused message is answered with an error, and neither the message nor the device changes.
pub proof fn law_refused_messages_change_nothing(d: DeviceView, m: Seq<u8>)
    requires
        is_refused(m),
    ensures
        handle(d, m).result == Err::<Notify, LkError>(LkError::InvalidArgs),
        handle(d, m).message == m,
        handle(d, m).device == d,
{
}

/// A device only answers requests for device number zero.
pub proof fn law_other_devices_are_refused(id: u8, dev: u16, payload: Seq<u8>)
    requires
        payload.len() <= 106,
    ensures
        is_refused(request_msg(id, Some(dev), payload)) == (dev != 0),
        !is_refused(request_msg(id, None, payload)),
{
    lemma_request_msg(id, Some(dev), payload);
    lemma_request_msg(id, None, payload);
}

/// The parts of a request that a device looks at, once the response bit is set.
proof fn lemma_received<T: Payload>(id: u8, dev: Option<u16>, payload: T)
    requires
        T::size_spec() <= 106,
    ensures
        ({
            let m = request_msg(id, dev, payload.encode());
            &&& m.len() == 112
            &&& as_response(m).len() == 112
            &&& msg_id(m) == id
            &&& msg_id(as_response(m)) == id
            &&& is_bus(m) == (dev is None)
            &&& (dev == Some(0u16) || dev is None ==> !is_refused(m))
            &&& T::decode(payload_bytes(m)) == payload
            &&& payload_bytes(as_response(m)) == payload.encode() + zeros(
                (106 - T::size_spec()) as nat,
            )
            &&& forall|i: int|
                6 + T::size_spec() <= i < 112 ==> #[trigger] as_response(m)[i] == 0
        }),
{
    let m = request_msg(id, dev, payload.encode());
    payload.lemma_decode_encode(zeros((106 - T::size_spec()) as nat));
    lemma_request_msg(id, dev, payload.encode());
    lemma_as_response(m);
    assert forall|i: int| 6 + T::size_spec() <= i < 112 implies #[trigger] as_response(m)[i]
        == 0 by {
        assert(m[i] == m.skip(6 + T::size_spec() as int)[i - 6 - T::size_spec()]);
    }
}

/// Version negotiation: the driver learns the version and the revision that both ends support, or
/// zero where there is none, and that the device can receive direct messages.
pub proof fn law_version_exchange(
    d: DeviceView,
    driver_version: u32,
    vmsg_revision: u32,
    num_shm: u16,
)
    ensures
        ({
            let offer = version_offer(driver_version, vmsg_revision, num_shm);
            let m = request_msg(VIRTIO_MSG_FFA_BUS_VERSION, None, offer.encode());
            let h = handle(d, m);
            &&& can_handle(m)
            &&& h.result == Ok::<Notify, LkError>(Notify::Nothing)
            &&& h.device == d
            &&& read_resp::<BusFfaVersionResp>(h.message, VIRTIO_MSG_FFA_BUS_VERSION) == Ok::<
                BusFfaVersionResp,
                LkError,
            >(
                BusFfaVersionResp {
                    device_version: agreed(driver_version, VIRTIO_MSG_FFA_BUS_VERSION_1_0),
                    vmsg_revision: agreed(vmsg_revision, VIRTIO_MSG_REVISION_1),
                    vmsg_features: 0,
                    features: VIRTIO_MSG_FFA_FEATURE_DIRECT_MSG_RX_SUPP,
                    area_num: num_shm,
                },
            )
        }),
{
    broadcast use lemma_le_bytes_len;

    let offer = version_offer(driver_version, vmsg_revision, num_shm);
    let m = request_msg(VIRTIO_MSG_FFA_BUS_VERSION, None, offer.encode());
    lemma_received(VIRTIO_MSG_FFA_BUS_VERSION, None, offer);
    let r = as_response(m);
    let reply = version_reply(
        r,
        agreed(driver_version, VIRTIO_MSG_FFA_BUS_VERSION_1_0),
        agreed(vmsg_revision, VIRTIO_MSG_REVISION_1),
        VIRTIO_MSG_FFA_FEATURE_DIRECT_MSG_RX_SUPP,
    );
    lemma_read_written(r, reply);
    let p = payload_bytes(r);
    lemma_le_limits();
    lemma_le_at(p, 8, 0, 4);
    lemma_le_at(p, 16, num_shm as nat, 2);
}

/// Device enumeration: the bitmap that the driver reads has eight device numbers, of which only
/// number zero is in use, and there are no more to ask for.
pub proof fn law_get_devices_exchange(d: DeviceView, offset: u16, num: u16)
    ensures
        ({
            let req = BusGetDevices { offset, num };
            let m = request_msg(VIRTIO_MSG_BUS_GET_DEVICES, None, req.encode());
            let h = handle(d, m);
            &&& can_handle(m)
            &&& h.result == Ok::<Notify, LkError>(Notify::Nothing)
            &&& h.device == d
            &&& size_fits(h.message, VIRTIO_MSG_BUS_GET_DEVICES)
            &&& read_resp_variable::<BusGetDevicesResp>(h.message, VIRTIO_MSG_BUS_GET_DEVICES)
                == Ok::<(BusGetDevicesResp, Seq<u8>), LkError>(
                (
                    BusGetDevicesResp { offset: 0, num: 8, next_offset: 0 },
                    seq![device_bitmap(offset)],
                ),
            )
        }),
{
    let req = BusGetDevices { offset, num };
    let m = request_msg(VIRTIO_MSG_BUS_GET_DEVICES, None, req.encode());
    lemma_received(VIRTIO_MSG_BUS_GET_DEVICES, None, req);
    lemma_read_written_variable(
        as_response(m),
        get_devices_reply(0),
        device_bitmap(offset).encode(),
    );
}

/// Device information: the driver learns that the device is a socket device, with 64 feature bits,
/// eight bytes of configuration space and three virtqueues.
pub proof fn law_device_info_exchange(d: DeviceView)
    ensures
        ({
            let m = request_msg(VIRTIO_MSG_DEVICE_INFO, Some(0), seq![]);
            let h = handle(d, m);
            &&& can_handle(m)
            &&& h.result == Ok::<Notify, LkError>(Notify::Nothing)
            &&& h.device == d
            &&& read_resp::<GetDeviceInfoResp>(h.message, VIRTIO_MSG_DEVICE_INFO) == Ok::<
                GetDeviceInfoResp,
                LkError,
            >(device_info_reply(crate::virtio::VIRTIO_ID_VSOCK, 0))
        }),
{
    let m = request_msg(VIRTIO_MSG_DEVICE_INFO, Some(0), seq![]);
    lemma_received(VIRTIO_MSG_DEVICE_INFO, Some(0), ());
    lemma_read_written(as_response(m), device_info_reply(crate::virtio::VIRTIO_ID_VSOCK, 0));
}

/// Device status: the driver reads the status that the device is in.
pub proof fn law_get_status_exchange(d: DeviceView)
    ensures
        ({
            let m = request_msg(VIRTIO_MSG_GET_DEVICE_STATUS, Some(0), seq![]);
            let h = handle(d, m);
            &&& can_handle(m)
            &&& h.result == Ok::<Notify, LkError>(Notify::Nothing)
            &&& h.device == d
            &&& read_resp::<GetDeviceStatusResp>(h.message, VIRTIO_MSG_GET_DEVICE_STATUS) == Ok::<
                GetDeviceStatusResp,
                LkError,
            >(GetDeviceStatusResp { status: d.state.status })
        }),
{
    let m = request_msg(VIRTIO_MSG_GET_DEVICE_STATUS, Some(0), seq![]);
    lemma_received(VIRTIO_MSG_GET_DEVICE_STATUS, Some(0), ());
    lemma_read_written(as_response(m), GetDeviceStatusResp { status: d.state.status });
}

/// Device status: a status that the driver asks for changes the device as [`status_change`] says.
pub proof fn law_set_status_exchange(d: DeviceView, status: u32)
    ensures
        ({
            let m = request_msg(
                VIRTIO_MSG_SET_DEVICE_STATUS,
                Some(0),
                (SetDeviceStatus { status }).encode(),
            );
            let h = handle(d, m);
            &&& can_handle(m)
            &&& h.result == status_change(d.state, status).1
            &&& h.device == (DeviceView { state: status_change(d.state, status).0, ..d })
        }),
{
    lemma_received(VIRTIO_MSG_SET_DEVICE_STATUS, Some(0), SetDeviceStatus { status });
}

/// A status that the device accepted is the status that the driver reads next.
pub proof fn law_accepted_status_is_read_back(d: DeviceView, status: u32)
    requires
        status_change(d.state, status).1 is Ok,
    ensures
        ({
            let set = request_msg(
                VIRTIO_MSG_SET_DEVICE_STATUS,
                Some(0),
                (SetDeviceStatus { status }).encode(),
            );
            let get = request_msg(VIRTIO_MSG_GET_DEVICE_STATUS, Some(0), seq![]);
            let reply = handle(handle(d, set).device, get).message;
            read_resp::<GetDeviceStatusResp>(reply, VIRTIO_MSG_GET_DEVICE_STATUS) == Ok::<
                GetDeviceStatusResp,
                LkError,
            >(GetDeviceStatusResp { status })
        }),
{
    let set = request_msg(
        VIRTIO_MSG_SET_DEVICE_STATUS,
        Some(0),
        (SetDeviceStatus { status }).encode(),
    );
    law_set_status_exchange(d, status);
    law_get_status_exchange(handle(d, set).device);
}

/// Device features: the driver reads the features that the device supports.
pub proof fn law_features_exchange(d: DeviceView, index: u32, num: u32)
    ensures
        ({
            let req = GetFeatures { index, num };
            let m = request_msg(VIRTIO_MSG_GET_DEV_FEATURES, Some(0), req.encode());
            let h = handle(d, m);
            &&& can_handle(m)
            &&& h.result == Ok::<Notify, LkError>(Notify::Nothing)
            &&& h.device == d
            &&& size_fits(h.message, VIRTIO_MSG_GET_DEV_FEATURES)
            &&& read_resp_variable::<GetFeaturesResp>(h.message, VIRTIO_MSG_GET_DEV_FEATURES)
                == Ok::<(GetFeaturesResp, Seq<u8>), LkError>(
                (
                    GetFeaturesResp { index, num: 2 },
                    le_bytes(SUPPORTED_VIRTIO_FEATURES as nat, 8),
                ),
            )
        }),
{
    broadcast use lemma_le_bytes_len;

    let req = GetFeatures { index, num };
    let m = request_msg(VIRTIO_MSG_GET_DEV_FEATURES, Some(0), req.encode());
    lemma_received(VIRTIO_MSG_GET_DEV_FEATURES, Some(0), req);
    lemma_read_written_variable(
        as_response(m),
        get_features_reply(index),
        SUPPORTED_VIRTIO_FEATURES.encode(),
    );
}

/// Configuration space: the driver reads the part of the guest CID that it asks for.
pub proof fn law_config_exchange(d: DeviceView, offset: u32, size: u8)
    ensures
        ({
            let req = GetConfig { offset, size: size as u32 };
            let m = request_msg(VIRTIO_MSG_GET_CONFIG, Some(0), req.encode());
            let h = handle(d, m);
            &&& can_handle(m)
            &&& h.result == Ok::<Notify, LkError>(Notify::Nothing)
            &&& h.device == d
            &&& size_fits(h.message, VIRTIO_MSG_GET_CONFIG)
            &&& read_resp_variable::<GetConfigResp>(h.message, VIRTIO_MSG_GET_CONFIG) == Ok::<
                (GetConfigResp, Seq<u8>),
                LkError,
            >(
                (
                    GetConfigResp { generation: 0, offset, size: size as u32 },
                    le_bytes(config_value(d.guest_cid, offset, size as u32) as nat, 8),
                ),
            )
        }),
{
    broadcast use lemma_le_bytes_len;

    let req = GetConfig { offset, size: size as u32 };
    let m = request_msg(VIRTIO_MSG_GET_CONFIG, Some(0), req.encode());
    lemma_received(VIRTIO_MSG_GET_CONFIG, Some(0), req);
    lemma_read_written_variable(
        as_response(m),
        GetConfigResp { generation: 0, offset, size: size as u32 },
        config_value(d.guest_cid, offset, size as u32).encode(),
    );
}

/// The whole configuration space is the guest CID.
pub proof fn law_whole_config_is_guest_cid(guest_cid: u32)
    ensures
        config_value(guest_cid, 0, 8) == guest_cid,
{
    let cid = guest_cid as u64;
    assert(cid >> 0u32 == cid) by (bit_vector);
}

/// Virtqueues: the driver reads the configuration of a virtqueue, or an error if the device has no
/// such virtqueue.
pub proof fn law_get_vqueue_exchange(d: DeviceView, queue: u16)
    ensures
        ({
            let req = GetVqueue { index: queue as u32 };
            let m = request_msg(VIRTIO_MSG_GET_VQUEUE, Some(0), req.encode());
            let h = handle(d, m);
            &&& can_handle(m)
            &&& h.device == d
            &&& if queue < NUM_VQUEUES {
                &&& h.result == Ok::<Notify, LkError>(Notify::Nothing)
                &&& read_resp::<GetVqueueResp>(h.message, VIRTIO_MSG_GET_VQUEUE) == Ok::<
                    GetVqueueResp,
                    LkError,
                >(vqueue_reply(queue as u32, d.state.vqueues[queue as int]))
            } else {
                h.result == Err::<Notify, LkError>(LkError::InvalidArgs)
            }
        }),
{
    let req = GetVqueue { index: queue as u32 };
    let m = request_msg(VIRTIO_MSG_GET_VQUEUE, Some(0), req.encode());
    lemma_received(VIRTIO_MSG_GET_VQUEUE, Some(0), req);
    lemma_read_written(
        as_response(m),
        vqueue_reply(queue as u32, d.state.vqueues[queue as int]),
    );
}

/// Virtqueues: configuring a virtqueue records it in the device, or is an error if the device has no
/// such virtqueue.
pub proof fn law_set_vqueue_exchange(d: DeviceView, req: SetVqueue)
    ensures
        ({
            let m = request_msg(VIRTIO_MSG_SET_VQUEUE, Some(0), req.encode());
            let h = handle(d, m);
            &&& can_handle(m)
            &&& if req.index < NUM_VQUEUES {
                &&& h.result == Ok::<Notify, LkError>(Notify::Nothing)
                &&& h.device == set_vqueue(d, req)
            } else {
                &&& h.result == Err::<Notify, LkError>(LkError::InvalidArgs)
                &&& h.device == d
            }
        }),
{
    lemma_received(VIRTIO_MSG_SET_VQUEUE, Some(0), req);
}

/// A driver reads back the virtqueue that it configured, and configuring one virtqueue leaves the
/// others as they are.
pub proof fn law_configured_vqueue_is_read_back(d: DeviceView, req: SetVqueue, queue: u16)
    requires
        d.wf(),
        req.index < NUM_VQUEUES,
        queue < NUM_VQUEUES,
    ensures
        ({
            let set = request_msg(VIRTIO_MSG_SET_VQUEUE, Some(0), req.encode());
            let get = request_msg(
                VIRTIO_MSG_GET_VQUEUE,
                Some(0),
                (GetVqueue { index: queue as u32 }).encode(),
            );
            let reply = handle(handle(d, set).device, get).message;
            let read = read_resp::<GetVqueueResp>(reply, VIRTIO_MSG_GET_VQUEUE);
            read == Ok::<GetVqueueResp, LkError>(
                vqueue_reply(
                    queue as u32,
                    if queue == req.index {
                        Some(requested_vqueue(req))
                    } else {
                        d.state.vqueues[queue as int]
                    },
                ),
            )
        }),
{
    let set = request_msg(VIRTIO_MSG_SET_VQUEUE, Some(0), req.encode());
    law_set_vqueue_exchange(d, req);
    law_get_vqueue_exchange(handle(d, set).device, queue);
}

/// Shared memory: the driver learns whether the device took note of the area.
pub proof fn law_area_share_exchange(
    d: DeviceView,
    area_id: u16,
    mem_handle: u64,
    num_pages: usize,
    flags: ArchMmuFlags,
)
    ensures
        ({
            let req = share_request(area_id, mem_handle, num_pages, flags);
            let m = request_msg(VIRTIO_MSG_FFA_BUS_AREA_SHARE, None, req.encode());
            let h = handle(d, m);
            &&& can_handle(m)
            &&& h.result == Ok::<Notify, LkError>(Notify::Nothing)
            &&& h.device == area_share(d, req)
            &&& read_resp::<BusAreaShareResp>(h.message, VIRTIO_MSG_FFA_BUS_AREA_SHARE) == Ok::<
                BusAreaShareResp,
                LkError,
            >(BusAreaShareResp { area_id, result: result_field(can_share(d, area_id)) })
        }),
{
    let req = share_request(area_id, mem_handle, num_pages, flags);
    let m = request_msg(VIRTIO_MSG_FFA_BUS_AREA_SHARE, None, req.encode());
    lemma_received(VIRTIO_MSG_FFA_BUS_AREA_SHARE, None, req);
    lemma_read_written(
        as_response(m),
        BusAreaShareResp { area_id, result: result_field(can_share(d, area_id)) },
    );
}

/// Driver features in the 40-byte layout: the device answers with the features that it settled on.
pub proof fn law_set_features_v1_exchange(d: DeviceView, m: Seq<u8>, req: SetFeaturesV1)
    requires
        m.len() == 112,
        !is_refused(m),
        !is_bus(m),
        msg_id(m) == VIRTIO_MSG_SET_DRV_FEATURES,
        SetFeaturesV1::decode(v1_payload_bytes(m)) == req,
    ensures
        can_handle(m),
        handle(d, m).device == d,
        handle(d, m).result == Ok::<Notify, LkError>(Notify::Nothing),
        SetFeaturesV1::decode(v1_payload_bytes(handle(d, m).message)) == (SetFeaturesV1 {
            index: 0,
            features: (negotiated_features(req.features.0), 0, 0, 0),
        }),
        negotiated_features(req.features.0) & !SUPPORTED_VIRTIO_FEATURES == 0,
{
    law_negotiated_features_are_supported(req.features.0);
    let r = as_response(m);
    lemma_as_response(m);
    let reply = SetFeaturesV1 {
        index: 0,
        features: (negotiated_features(req.features.0), 0, 0, 0),
    };
    let h = splice(r, 4, reply.encode());
    reply.lemma_decode_encode(r.skip(40));
    assert(v1_payload_bytes(h) =~= reply.encode() + r.skip(40));
}

/// Driver features as the driver sends them: the device reads what the driver wants and answers with
/// the features that it settled on, which are those of the wanted ones that it supports, and platform
/// access.
pub proof fn law_set_features_exchange(d: DeviceView, req: SetFeaturesV1)
    ensures
        ({
            let m = v1_request_msg(VIRTIO_MSG_SET_DRV_FEATURES, Some(0), req.encode());
            let h = handle(d, m);
            let wanted = req.features.0;
            &&& can_handle(m)
            &&& request_of(m) == VirtioMsgPayload::SetFeatures(req)
            &&& h.device == d
            &&& h.result == Ok::<Notify, LkError>(Notify::Nothing)
            &&& is_response(h.message)
            &&& read_v1_resp::<SetFeaturesV1>(h.message, VIRTIO_MSG_SET_DRV_FEATURES) == Ok::<
                SetFeaturesV1,
                LkError,
            >(SetFeaturesV1 { index: 0, features: (negotiated_features(wanted), 0, 0, 0) })
            &&& wanted & !SUPPORTED_VIRTIO_FEATURES == 0 && wanted & (1u64
                << VIRTIO_F_ACCESS_PLATFORM) != 0 ==> negotiated_features(wanted) == wanted
        }),
{
    let m = v1_request_msg(VIRTIO_MSG_SET_DRV_FEATURES, Some(0), req.encode());
    let wanted = req.features.0;
    req.lemma_decode_encode(zeros(72));
    lemma_v1_request_msg(VIRTIO_MSG_SET_DRV_FEATURES, Some(0), req.encode());
    law_set_features_v1_exchange(d, m, req);
    law_answers_are_responses(d, m);
    assert(wanted & !0x3_0000_0001u64 == 0 && wanted & (1u64 << 33u64) != 0 ==> (wanted
        & 0x3_0000_0001u64) | (1u64 << 33u64) == wanted) by (bit_vector);
}

/// Both ends mean the same byte by a bus address: once the device has mapped the shared memory of
/// the driver, it finds a block of the driver at the offset that the block has in that memory.
pub proof fn law_bus_address_reaches_block(
    heap: SharedHeap,
    page: PageIdx,
    d: DeviceView,
    first: BusAddress,
    obj: MemObj,
    client_id: FFAClientId,
)
    requires
        heap.wf(),
        page < heap.page_limit(),
        d.wf(),
        area_id_of(first) == INITIAL_AREA_ID,
        page_offset(page) < obj.size,
    ensures
        dma_lookup(with_object(d, first, obj), heap.addrs(page).bus_addr, client_id)
            == DmaMap::Mapped((obj.vaddr + page_offset(page)) as u64),
{
    law_bus_address_finds_block(heap, page);
    law_mapped_area_is_found(d, first, obj, heap.addrs(page).bus_addr, client_id);
}

} // verus!
