//! Where the fields of the payloads lie, byte by byte.

use vstd::prelude::*;

use crate::payload::{
    BusActivateResp, BusAreaShare, BusAreaShareResp, BusAreaUnshare, BusAreaUnshareResp,
    BusConfigureResp, BusFfaVersion, BusFfaVersionResp, BusGetDevices, BusGetDevicesResp,
    EventAvail, GetConfig, GetConfigGenResp, GetConfigResp, GetDeviceInfoResp, GetDeviceStatusResp,
    GetFeatures, GetFeaturesResp, GetVqueue, GetVqueueResp, Payload, RawPayload, SetDeviceStatus,
    SetDeviceStatusResp, SetFeatures, SetFeaturesV1, SetVqueue,
};
use crate::wire::{le_at, le_value};

verus! {

/// The two bytes of `b` from offset `at` as a number, the least significant one first.
pub open spec fn u16_at(b: Seq<u8>, at: int) -> int {
    b[at] + 0x100 * b[at + 1]
}

/// The four bytes of `b` from offset `at` as a number, the least significant one first.
pub open spec fn u32_at(b: Seq<u8>, at: int) -> int {
    b[at] + 0x100 * b[at + 1] + 0x1_0000 * b[at + 2] + 0x100_0000 * b[at + 3]
}

/// The eight bytes of `b` from offset `at` as a number, the least significant one first.
pub open spec fn u64_at(b: Seq<u8>, at: int) -> int {
    b[at] + 0x100 * b[at + 1] + 0x1_0000 * b[at + 2] + 0x100_0000 * b[at + 3] + 0x1_0000_0000 * b[at
        + 4] + 0x100_0000_0000 * b[at + 5] + 0x1_0000_0000_0000 * b[at + 6]
        + 0x100_0000_0000_0000 * b[at + 7]
}

/// A number in little-endian order is read from the least significant byte on.
pub proof fn law_numbers_are_little_endian(b: Seq<u8>, at: int)
    requires
        0 <= at,
    ensures
        at + 2 <= b.len() ==> le_at(b, at, 2) == u16_at(b, at),
        at + 4 <= b.len() ==> le_at(b, at, 4) == u32_at(b, at),
        at + 8 <= b.len() ==> le_at(b, at, 8) == u64_at(b, at),
{
    reveal_with_fuel(le_value, 9);
    if at + 2 <= b.len() {
        let s = b.subrange(at, at + 2);
        assert(s.drop_first()[0] == b[at + 1]);
    }
    if at + 4 <= b.len() {
        let s = b.subrange(at, at + 4);
        let s1 = s.drop_first();
        let s2 = s1.drop_first();
        let s3 = s2.drop_first();
        assert(s1[0] == b[at + 1] && s2[0] == b[at + 2] && s3[0] == b[at + 3]);
    }
    if at + 8 <= b.len() {
        let s = b.subrange(at, at + 8);
        let s1 = s.drop_first();
        let s2 = s1.drop_first();
        let s3 = s2.drop_first();
        let s4 = s3.drop_first();
        let s5 = s4.drop_first();
        let s6 = s5.drop_first();
        let s7 = s6.drop_first();
        assert(s1[0] == b[at + 1] && s2[0] == b[at + 2] && s3[0] == b[at + 3]);
        assert(s4[0] == b[at + 4] && s5[0] == b[at + 5] && s6[0] == b[at + 6] && s7[0] == b[at
            + 7]);
        assert(le_value(s7) == b[at + 7]);
        assert(le_value(s6) == b[at + 6] + 0x100 * le_value(s7));
        assert(le_value(s5) == b[at + 5] + 0x100 * le_value(s6));
        assert(le_value(s4) == b[at + 4] + 0x100 * le_value(s5));
        assert(le_value(s3) == b[at + 3] + 0x100 * le_value(s4));
        assert(le_value(s2) == b[at + 2] + 0x100 * le_value(s3));
        assert(le_value(s1) == b[at + 1] + 0x100 * le_value(s2));
    }
}

/// Where the fields of the bus messages lie.
pub proof fn law_bus_messages_layout(b: Seq<u8>)
    requires
        b.len() >= 36,
    ensures
        ({
            let p = BusFfaVersion::decode(b);
            &&& BusFfaVersion::size_spec() == 18
            &&& p.driver_version == u32_at(b, 0)
            &&& p.vmsg_revision == u32_at(b, 4)
            &&& p.vmsg_features == u32_at(b, 8)
            &&& p.features == u32_at(b, 12)
            &&& p.area_num == u16_at(b, 16)
        }),
        ({
            let p = BusFfaVersionResp::decode(b);
            &&& BusFfaVersionResp::size_spec() == 18
            &&& p.device_version == u32_at(b, 0)
            &&& p.vmsg_revision == u32_at(b, 4)
            &&& p.vmsg_features == u32_at(b, 8)
            &&& p.features == u32_at(b, 12)
            &&& p.area_num == u16_at(b, 16)
        }),
        ({
            let p = BusGetDevices::decode(b);
            &&& BusGetDevices::size_spec() == 4
            &&& p.offset == u16_at(b, 0)
            &&& p.num == u16_at(b, 2)
        }),
        ({
            let p = BusGetDevicesResp::decode(b);
            &&& BusGetDevicesResp::size_spec() == 6
            &&& p.offset == u16_at(b, 0)
            &&& p.num == u16_at(b, 2)
            &&& p.next_offset == u16_at(b, 4)
        }),
        ({
            let p = BusAreaShare::decode(b);
            &&& BusAreaShare::size_spec() == 26
            &&& p.area_id == u16_at(b, 0)
            &&& p.mem_handle == u64_at(b, 2)
            &&& p.tag == u64_at(b, 10)
            &&& p.count == u32_at(b, 18)
            &&& p.attr == u32_at(b, 22)
        }),
        ({
            let p = BusAreaShareResp::decode(b);
            &&& BusAreaShareResp::size_spec() == 4
            &&& p.area_id == u16_at(b, 0)
            &&& p.result == u16_at(b, 2)
        }),
        ({
            let p = BusAreaUnshare::decode(b);
            &&& BusAreaUnshare::size_spec() == 4
            &&& p.area_id == u32_at(b, 0)
        }),
        ({
            let p = BusAreaUnshareResp::decode(b);
            &&& BusAreaUnshareResp::size_spec() == 4
            &&& p.area_id == u16_at(b, 0)
            &&& p.result == u16_at(b, 2)
        }),
{
    law_numbers_are_little_endian(b, 0);
    law_numbers_are_little_endian(b, 2);
    law_numbers_are_little_endian(b, 4);
    law_numbers_are_little_endian(b, 8);
    law_numbers_are_little_endian(b, 10);
    law_numbers_are_little_endian(b, 12);
    law_numbers_are_little_endian(b, 16);
    law_numbers_are_little_endian(b, 18);
    law_numbers_are_little_endian(b, 22);
}

/// Where the fields of the device messages lie.
pub proof fn law_device_messages_layout(b: Seq<u8>)
    requires
        b.len() >= 36,
    ensures
        ({
            let p = GetDeviceInfoResp::decode(b);
            &&& GetDeviceInfoResp::size_spec() == 24
            &&& p.device_id == u32_at(b, 0)
            &&& p.vendor_id == u32_at(b, 4)
            &&& p.num_feature_bits == u32_at(b, 8)
            &&& p.config_size == u32_at(b, 12)
            &&& p.max_vq_count == u32_at(b, 16)
            &&& p.admin_vq_start_idx == u16_at(b, 20)
            &&& p.admin_vq_count == u16_at(b, 22)
        }),
        ({
            let p = GetDeviceStatusResp::decode(b);
            &&& GetDeviceStatusResp::size_spec() == 4
            &&& p.status == u32_at(b, 0)
        }),
        ({
            let p = SetDeviceStatus::decode(b);
            &&& SetDeviceStatus::size_spec() == 4
            &&& p.status == u32_at(b, 0)
        }),
        ({
            let p = SetDeviceStatusResp::decode(b);
            &&& SetDeviceStatusResp::size_spec() == 4
            &&& p.status == u32_at(b, 0)
        }),
        ({
            let p = GetFeatures::decode(b);
            &&& GetFeatures::size_spec() == 8
            &&& p.index == u32_at(b, 0)
            &&& p.num == u32_at(b, 4)
        }),
        ({
            let p = GetFeaturesResp::decode(b);
            &&& GetFeaturesResp::size_spec() == 8
            &&& p.index == u32_at(b, 0)
            &&& p.num == u32_at(b, 4)
        }),
        ({
            let p = SetFeatures::decode(b);
            &&& SetFeatures::size_spec() == 8
            &&& p.index == u32_at(b, 0)
            &&& p.num == u32_at(b, 4)
        }),
        ({
            let p = GetConfig::decode(b);
            &&& GetConfig::size_spec() == 8
            &&& p.offset == u32_at(b, 0)
            &&& p.size == u32_at(b, 4)
        }),
        ({
            let p = GetConfigResp::decode(b);
            &&& GetConfigResp::size_spec() == 12
            &&& p.generation == u32_at(b, 0)
            &&& p.offset == u32_at(b, 4)
            &&& p.size == u32_at(b, 8)
        }),
        ({
            let p = EventAvail::decode(b);
            &&& EventAvail::size_spec() == 8
            &&& p.index == u32_at(b, 0)
            &&& p.next_offset_wrap == u32_at(b, 4)
        }),
{
    law_numbers_are_little_endian(b, 0);
    law_numbers_are_little_endian(b, 4);
    law_numbers_are_little_endian(b, 8);
    law_numbers_are_little_endian(b, 12);
    law_numbers_are_little_endian(b, 16);
    law_numbers_are_little_endian(b, 20);
    law_numbers_are_little_endian(b, 22);
}

/// Where the fields of the messages about virtqueues lie.
pub proof fn law_virtqueue_messages_layout(b: Seq<u8>)
    requires
        b.len() >= 36,
    ensures
        ({
            let p = GetVqueue::decode(b);
            &&& GetVqueue::size_spec() == 4
            &&& p.index == u32_at(b, 0)
        }),
        ({
            let p = GetVqueueResp::decode(b);
            &&& GetVqueueResp::size_spec() == 36
            &&& p.index == u32_at(b, 0)
            &&& p.max_size == u32_at(b, 4)
            &&& p.size == u32_at(b, 8)
            &&& p.descriptor_addr == u64_at(b, 12)
            &&& p.driver_addr == u64_at(b, 20)
            &&& p.device_addr == u64_at(b, 28)
        }),
        ({
            let p = SetVqueue::decode(b);
            &&& SetVqueue::size_spec() == 36
            &&& p.index == u32_at(b, 0)
            &&& p.unused == u32_at(b, 4)
            &&& p.size == u32_at(b, 8)
            &&& p.descriptor_addr == u64_at(b, 12)
            &&& p.driver_addr == u64_at(b, 20)
            &&& p.device_addr == u64_at(b, 28)
        }),
{
    law_numbers_are_little_endian(b, 0);
    law_numbers_are_little_endian(b, 4);
    law_numbers_are_little_endian(b, 8);
    law_numbers_are_little_endian(b, 12);
    law_numbers_are_little_endian(b, 20);
    law_numbers_are_little_endian(b, 28);
}

/// Where the fields of the messages in the 40-byte layout lie.
pub proof fn law_short_messages_layout(b: Seq<u8>)
    requires
        b.len() >= 36,
    ensures
        ({
            let p = SetFeaturesV1::decode(b);
            &&& SetFeaturesV1::size_spec() == 36
            &&& p.index == u32_at(b, 0)
            &&& p.features.0 == u64_at(b, 4)
            &&& p.features.1 == u64_at(b, 12)
            &&& p.features.2 == u64_at(b, 20)
            &&& p.features.3 == u64_at(b, 28)
        }),
        ({
            let p = RawPayload::decode(b);
            &&& RawPayload::size_spec() == 36
            &&& p.head == u32_at(b, 0)
            &&& p.body.0 == u64_at(b, 4)
            &&& p.body.1 == u64_at(b, 12)
            &&& p.body.2 == u64_at(b, 20)
            &&& p.body.3 == u64_at(b, 28)
        }),
        ({
            let p = BusActivateResp::decode(b);
            &&& BusActivateResp::size_spec() == 20
            &&& p.device_version == u32_at(b, 0)
            &&& p.features == u64_at(b, 4)
            &&& p.num == u64_at(b, 12)
        }),
        ({
            let p = BusConfigureResp::decode(b);
            &&& BusConfigureResp::size_spec() == 8
            &&& p.features == u64_at(b, 0)
        }),
        ({
            let p = GetConfigGenResp::decode(b);
            &&& GetConfigGenResp::size_spec() == 4
            &&& p.generation == u32_at(b, 0)
        }),
{
    law_numbers_are_little_endian(b, 0);
    law_numbers_are_little_endian(b, 4);
    law_numbers_are_little_endian(b, 12);
    law_numbers_are_little_endian(b, 20);
    law_numbers_are_little_endian(b, 28);
}

} // verus!
