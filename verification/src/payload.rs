//! The payloads of virtio-msg messages.

use vstd::prelude::*;

use crate::proto::MAX_PAYLOAD_SIZE;
use crate::wire::{
    get_u16, get_u32, get_u64, le_at, le_bytes, lemma_le_at, lemma_le_bytes_len,
    lemma_le_bytes_of_value, lemma_le_limits, put_u16, put_u32, put_u64, splice,
};

verus! {

/// A message payload: a fixed sequence of little-endian numbers without padding.
pub trait Payload: Sized {
    /// Bytes in the payload.
    spec fn size_spec() -> nat;

    /// The bytes that stand for this payload.
    spec fn encode(self) -> Seq<u8>;

    /// The payload at the start of `bytes`.
    spec fn decode(bytes: Seq<u8>) -> Self;

    /// A payload is read back from its own bytes, whatever follows them.
    proof fn lemma_decode_encode(self, rest: Seq<u8>)
        ensures
            self.encode().len() == Self::size_spec(),
            Self::decode(self.encode() + rest) == self,
    ;

    /// Every payload that is read stands for the bytes that it was read from.
    proof fn lemma_encode_decode(bytes: Seq<u8>)
        requires
            bytes.len() >= Self::size_spec(),
        ensures
            Self::decode(bytes).encode() == bytes.take(Self::size_spec() as int),
    ;

    /// A payload fits in a message.
    proof fn lemma_size_bound()
        ensures
            Self::size_spec() <= MAX_PAYLOAD_SIZE,
    ;

    /// Bytes in the payload.
    fn size() -> (n: usize)
        ensures
            n == Self::size_spec(),
    ;

    /// Reads the payload at the start of `src`.
    fn read(src: &[u8]) -> (payload: Self)
        requires
            src@.len() >= Self::size_spec(),
        ensures
            payload == Self::decode(src@),
    ;

    /// Writes the payload to the start of `dst`.
    fn write(&self, dst: &mut [u8])
        requires
            old(dst)@.len() >= Self::size_spec(),
        ensures
            final(dst)@ == splice(old(dst)@, 0, self.encode()),
    ;
}

impl Payload for () {
    open spec fn size_spec() -> nat {
        0
    }

    open spec fn encode(self) -> Seq<u8> {
        seq![]
    }

    open spec fn decode(bytes: Seq<u8>) -> Self {
        ()
    }

    proof fn lemma_decode_encode(self, rest: Seq<u8>) {
    }

    proof fn lemma_encode_decode(bytes: Seq<u8>) {
        assert(bytes.take(0) =~= seq![]);
    }

    proof fn lemma_size_bound() {
    }

    fn size() -> (n: usize) {
        0
    }

    fn read(src: &[u8]) -> (payload: Self) {
        ()
    }

    fn write(&self, dst: &mut [u8]) {
        assert(dst@ =~= splice(old(dst)@, 0, self.encode()));
    }
}

impl Payload for u8 {
    open spec fn size_spec() -> nat {
        1
    }

    open spec fn encode(self) -> Seq<u8> {
        seq![self]
    }

    open spec fn decode(bytes: Seq<u8>) -> Self {
        bytes[0]
    }

    proof fn lemma_decode_encode(self, rest: Seq<u8>) {
    }

    proof fn lemma_encode_decode(bytes: Seq<u8>) {
        assert(bytes.take(1) =~= seq![bytes[0]]);
    }

    proof fn lemma_size_bound() {
    }

    fn size() -> (n: usize) {
        1
    }

    fn read(src: &[u8]) -> (payload: Self) {
        src[0]
    }

    fn write(&self, dst: &mut [u8]) {
        dst[0] = *self;
        assert(dst@ =~= splice(old(dst)@, 0, self.encode()));
    }
}

impl Payload for u64 {
    open spec fn size_spec() -> nat {
        8
    }

    open spec fn encode(self) -> Seq<u8> {
        le_bytes(self as nat, 8)
    }

    open spec fn decode(bytes: Seq<u8>) -> Self {
        le_at(bytes, 0, 8) as u64
    }

    proof fn lemma_decode_encode(self, rest: Seq<u8>) {
        broadcast use lemma_le_bytes_len;

        lemma_le_limits();
        lemma_le_at(self.encode() + rest, 0, self as nat, 8);
    }

    proof fn lemma_encode_decode(bytes: Seq<u8>) {
        lemma_le_limits();
        lemma_le_bytes_of_value(bytes.subrange(0, 8));
        assert(bytes.take(8) =~= bytes.subrange(0, 8));
    }

    proof fn lemma_size_bound() {
    }

    fn size() -> (n: usize) {
        8
    }

    fn read(src: &[u8]) -> (payload: Self) {
        get_u64(src, 0)
    }

    fn write(&self, dst: &mut [u8]) {
        put_u64(dst, 0, *self);
    }
}

/// A driver's offer of bus version, message revision and features.
#[derive(Clone, Copy, Debug, PartialEq, Eq, Structural)]
pub struct BusFfaVersion {
    pub driver_version: u32,
    pub vmsg_revision: u32,
    pub vmsg_features: u32,
    pub features: u32,
    pub area_num: u16,
}

impl Payload for BusFfaVersion {
    open spec fn size_spec() -> nat {
        18
    }

    open spec fn encode(self) -> Seq<u8> {
        le_bytes(self.driver_version as nat, 4)
            + le_bytes(self.vmsg_revision as nat, 4)
            + le_bytes(self.vmsg_features as nat, 4)
            + le_bytes(self.features as nat, 4)
            + le_bytes(self.area_num as nat, 2)
    }

    open spec fn decode(bytes: Seq<u8>) -> Self {
        BusFfaVersion {
            driver_version: le_at(bytes, 0, 4) as u32,
            vmsg_revision: le_at(bytes, 4, 4) as u32,
            vmsg_features: le_at(bytes, 8, 4) as u32,
            features: le_at(bytes, 12, 4) as u32,
            area_num: le_at(bytes, 16, 2) as u16,
        }
    }

    proof fn lemma_decode_encode(self, rest: Seq<u8>) {
        broadcast use lemma_le_bytes_len;

        lemma_le_limits();
        let s = self.encode() + rest;
        lemma_le_at(s, 0, self.driver_version as nat, 4);
        lemma_le_at(s, 4, self.vmsg_revision as nat, 4);
        lemma_le_at(s, 8, self.vmsg_features as nat, 4);
        lemma_le_at(s, 12, self.features as nat, 4);
        lemma_le_at(s, 16, self.area_num as nat, 2);
    }

    proof fn lemma_encode_decode(bytes: Seq<u8>) {
        broadcast use lemma_le_bytes_len;

        lemma_le_limits();
        lemma_le_bytes_of_value(bytes.subrange(0, 4));
        lemma_le_bytes_of_value(bytes.subrange(4, 8));
        lemma_le_bytes_of_value(bytes.subrange(8, 12));
        lemma_le_bytes_of_value(bytes.subrange(12, 16));
        lemma_le_bytes_of_value(bytes.subrange(16, 18));
        assert(Self::decode(bytes).encode() =~= bytes.take(18));
    }

    proof fn lemma_size_bound() {
    }

    fn size() -> (n: usize) {
        18
    }

    fn read(src: &[u8]) -> (payload: Self) {
        BusFfaVersion {
            driver_version: get_u32(src, 0),
            vmsg_revision: get_u32(src, 4),
            vmsg_features: get_u32(src, 8),
            features: get_u32(src, 12),
            area_num: get_u16(src, 16),
        }
    }

    fn write(&self, dst: &mut [u8]) {
        broadcast use lemma_le_bytes_len;

        put_u32(dst, 0, self.driver_version);
        put_u32(dst, 4, self.vmsg_revision);
        put_u32(dst, 8, self.vmsg_features);
        put_u32(dst, 12, self.features);
        put_u16(dst, 16, self.area_num);
        assert(dst@ =~= splice(old(dst)@, 0, self.encode()));
    }
}

/// The answer to [`BusFfaVersion`].
#[derive(Clone, Copy, Debug, PartialEq, Eq, Structural)]
pub struct BusFfaVersionResp {
    pub device_version: u32,
    pub vmsg_revision: u32,
    pub vmsg_features: u32,
    pub features: u32,
    pub area_num: u16,
}

impl Payload for BusFfaVersionResp {
    open spec fn size_spec() -> nat {
        18
    }

    open spec fn encode(self) -> Seq<u8> {
        le_bytes(self.device_version as nat, 4)
            + le_bytes(self.vmsg_revision as nat, 4)
            + le_bytes(self.vmsg_features as nat, 4)
            + le_bytes(self.features as nat, 4)
            + le_bytes(self.area_num as nat, 2)
    }

    open spec fn decode(bytes: Seq<u8>) -> Self {
        BusFfaVersionResp {
            device_version: le_at(bytes, 0, 4) as u32,
            vmsg_revision: le_at(bytes, 4, 4) as u32,
            vmsg_features: le_at(bytes, 8, 4) as u32,
            features: le_at(bytes, 12, 4) as u32,
            area_num: le_at(bytes, 16, 2) as u16,
        }
    }

    proof fn lemma_decode_encode(self, rest: Seq<u8>) {
        broadcast use lemma_le_bytes_len;

        lemma_le_limits();
        let s = self.encode() + rest;
        lemma_le_at(s, 0, self.device_version as nat, 4);
        lemma_le_at(s, 4, self.vmsg_revision as nat, 4);
        lemma_le_at(s, 8, self.vmsg_features as nat, 4);
        lemma_le_at(s, 12, self.features as nat, 4);
        lemma_le_at(s, 16, self.area_num as nat, 2);
    }

    proof fn lemma_encode_decode(bytes: Seq<u8>) {
        broadcast use lemma_le_bytes_len;

        lemma_le_limits();
        lemma_le_bytes_of_value(bytes.subrange(0, 4));
        lemma_le_bytes_of_value(bytes.subrange(4, 8));
        lemma_le_bytes_of_value(bytes.subrange(8, 12));
        lemma_le_bytes_of_value(bytes.subrange(12, 16));
        lemma_le_bytes_of_value(bytes.subrange(16, 18));
        assert(Self::decode(bytes).encode() =~= bytes.take(18));
    }

    proof fn lemma_size_bound() {
    }

    fn size() -> (n: usize) {
        18
    }

    fn read(src: &[u8]) -> (payload: Self) {
        BusFfaVersionResp {
            device_version: get_u32(src, 0),
            vmsg_revision: get_u32(src, 4),
            vmsg_features: get_u32(src, 8),
            features: get_u32(src, 12),
            area_num: get_u16(src, 16),
        }
    }

    fn write(&self, dst: &mut [u8]) {
        broadcast use lemma_le_bytes_len;

        put_u32(dst, 0, self.device_version);
        put_u32(dst, 4, self.vmsg_revision);
        put_u32(dst, 8, self.vmsg_features);
        put_u32(dst, 12, self.features);
        put_u16(dst, 16, self.area_num);
        assert(dst@ =~= splice(old(dst)@, 0, self.encode()));
    }
}

/// A request for the bitmap of device numbers `offset..offset + num`.
#[derive(Clone, Copy, Debug, PartialEq, Eq, Structural)]
pub struct BusGetDevices {
    pub offset: u16,
    pub num: u16,
}

impl Payload for BusGetDevices {
    open spec fn size_spec() -> nat {
        4
    }

    open spec fn encode(self) -> Seq<u8> {
        le_bytes(self.offset as nat, 2) + le_bytes(self.num as nat, 2)
    }

    open spec fn decode(bytes: Seq<u8>) -> Self {
        BusGetDevices {
            offset: le_at(bytes, 0, 2) as u16,
            num: le_at(bytes, 2, 2) as u16,
        }
    }

    proof fn lemma_decode_encode(self, rest: Seq<u8>) {
        broadcast use lemma_le_bytes_len;

        lemma_le_limits();
        let s = self.encode() + rest;
        lemma_le_at(s, 0, self.offset as nat, 2);
        lemma_le_at(s, 2, self.num as nat, 2);
    }

    proof fn lemma_encode_decode(bytes: Seq<u8>) {
        broadcast use lemma_le_bytes_len;

        lemma_le_limits();
        lemma_le_bytes_of_value(bytes.subrange(0, 2));
        lemma_le_bytes_of_value(bytes.subrange(2, 4));
        assert(Self::decode(bytes).encode() =~= bytes.take(4));
    }

    proof fn lemma_size_bound() {
    }

    fn size() -> (n: usize) {
        4
    }

    fn read(src: &[u8]) -> (payload: Self) {
        BusGetDevices {
            offset: get_u16(src, 0),
            num: get_u16(src, 2),
        }
    }

    fn write(&self, dst: &mut [u8]) {
        broadcast use lemma_le_bytes_len;

        put_u16(dst, 0, self.offset);
        put_u16(dst, 2, self.num);
        assert(dst@ =~= splice(old(dst)@, 0, self.encode()));
    }
}

/// The fixed part of the answer to [`BusGetDevices`]; the bitmap follows it.
#[derive(Clone, Copy, Debug, PartialEq, Eq, Structural)]
pub struct BusGetDevicesResp {
    pub offset: u16,
    pub num: u16,
    pub next_offset: u16,
}

impl Payload for BusGetDevicesResp {
    open spec fn size_spec() -> nat {
        6
    }

    open spec fn encode(self) -> Seq<u8> {
        le_bytes(self.offset as nat, 2)
            + le_bytes(self.num as nat, 2)
            + le_bytes(self.next_offset as nat, 2)
    }

    open spec fn decode(bytes: Seq<u8>) -> Self {
        BusGetDevicesResp {
            offset: le_at(bytes, 0, 2) as u16,
            num: le_at(bytes, 2, 2) as u16,
            next_offset: le_at(bytes, 4, 2) as u16,
        }
    }

    proof fn lemma_decode_encode(self, rest: Seq<u8>) {
        broadcast use lemma_le_bytes_len;

        lemma_le_limits();
        let s = self.encode() + rest;
        lemma_le_at(s, 0, self.offset as nat, 2);
        lemma_le_at(s, 2, self.num as nat, 2);
        lemma_le_at(s, 4, self.next_offset as nat, 2);
    }

    proof fn lemma_encode_decode(bytes: Seq<u8>) {
        broadcast use lemma_le_bytes_len;

        lemma_le_limits();
        lemma_le_bytes_of_value(bytes.subrange(0, 2));
        lemma_le_bytes_of_value(bytes.subrange(2, 4));
        lemma_le_bytes_of_value(bytes.subrange(4, 6));
        assert(Self::decode(bytes).encode() =~= bytes.take(6));
    }

    proof fn lemma_size_bound() {
    }

    fn size() -> (n: usize) {
        6
    }

    fn read(src: &[u8]) -> (payload: Self) {
        BusGetDevicesResp {
            offset: get_u16(src, 0),
            num: get_u16(src, 2),
            next_offset: get_u16(src, 4),
        }
    }

    fn write(&self, dst: &mut [u8]) {
        broadcast use lemma_le_bytes_len;

        put_u16(dst, 0, self.offset);
        put_u16(dst, 2, self.num);
        put_u16(dst, 4, self.next_offset);
        assert(dst@ =~= splice(old(dst)@, 0, self.encode()));
    }
}

/// The answer to a device information request.
#[derive(Clone, Copy, Debug, PartialEq, Eq, Structural)]
pub struct GetDeviceInfoResp {
    pub device_id: u32,
    pub vendor_id: u32,
    pub num_feature_bits: u32,
    pub config_size: u32,
    pub max_vq_count: u32,
    pub admin_vq_start_idx: u16,
    pub admin_vq_count: u16,
}

impl Payload for GetDeviceInfoResp {
    open spec fn size_spec() -> nat {
        24
    }

    open spec fn encode(self) -> Seq<u8> {
        le_bytes(self.device_id as nat, 4)
            + le_bytes(self.vendor_id as nat, 4)
            + le_bytes(self.num_feature_bits as nat, 4)
            + le_bytes(self.config_size as nat, 4)
            + le_bytes(self.max_vq_count as nat, 4)
            + le_bytes(self.admin_vq_start_idx as nat, 2)
            + le_bytes(self.admin_vq_count as nat, 2)
    }

    open spec fn decode(bytes: Seq<u8>) -> Self {
        GetDeviceInfoResp {
            device_id: le_at(bytes, 0, 4) as u32,
            vendor_id: le_at(bytes, 4, 4) as u32,
            num_feature_bits: le_at(bytes, 8, 4) as u32,
            config_size: le_at(bytes, 12, 4) as u32,
            max_vq_count: le_at(bytes, 16, 4) as u32,
            admin_vq_start_idx: le_at(bytes, 20, 2) as u16,
            admin_vq_count: le_at(bytes, 22, 2) as u16,
        }
    }

    proof fn lemma_decode_encode(self, rest: Seq<u8>) {
        broadcast use lemma_le_bytes_len;

        lemma_le_limits();
        let s = self.encode() + rest;
        lemma_le_at(s, 0, self.device_id as nat, 4);
        lemma_le_at(s, 4, self.vendor_id as nat, 4);
        lemma_le_at(s, 8, self.num_feature_bits as nat, 4);
        lemma_le_at(s, 12, self.config_size as nat, 4);
        lemma_le_at(s, 16, self.max_vq_count as nat, 4);
        lemma_le_at(s, 20, self.admin_vq_start_idx as nat, 2);
        lemma_le_at(s, 22, self.admin_vq_count as nat, 2);
    }

    proof fn lemma_encode_decode(bytes: Seq<u8>) {
        broadcast use lemma_le_bytes_len;

        lemma_le_limits();
        lemma_le_bytes_of_value(bytes.subrange(0, 4));
        lemma_le_bytes_of_value(bytes.subrange(4, 8));
        lemma_le_bytes_of_value(bytes.subrange(8, 12));
        lemma_le_bytes_of_value(bytes.subrange(12, 16));
        lemma_le_bytes_of_value(bytes.subrange(16, 20));
        lemma_le_bytes_of_value(bytes.subrange(20, 22));
        lemma_le_bytes_of_value(bytes.subrange(22, 24));
        assert(Self::decode(bytes).encode() =~= bytes.take(24));
    }

    proof fn lemma_size_bound() {
    }

    fn size() -> (n: usize) {
        24
    }

    fn read(src: &[u8]) -> (payload: Self) {
        GetDeviceInfoResp {
            device_id: get_u32(src, 0),
            vendor_id: get_u32(src, 4),
            num_feature_bits: get_u32(src, 8),
            config_size: get_u32(src, 12),
            max_vq_count: get_u32(src, 16),
            admin_vq_start_idx: get_u16(src, 20),
            admin_vq_count: get_u16(src, 22),
        }
    }

    fn write(&self, dst: &mut [u8]) {
        broadcast use lemma_le_bytes_len;

        put_u32(dst, 0, self.device_id);
        put_u32(dst, 4, self.vendor_id);
        put_u32(dst, 8, self.num_feature_bits);
        put_u32(dst, 12, self.config_size);
        put_u32(dst, 16, self.max_vq_count);
        put_u16(dst, 20, self.admin_vq_start_idx);
        put_u16(dst, 22, self.admin_vq_count);
        assert(dst@ =~= splice(old(dst)@, 0, self.encode()));
    }
}

/// A request for `num` 32-bit blocks of device features from block `index`.
#[derive(Clone, Copy, Debug, PartialEq, Eq, Structural)]
pub struct GetFeatures {
    pub index: u32,
    pub num: u32,
}

impl Payload for GetFeatures {
    open spec fn size_spec() -> nat {
        8
    }

    open spec fn encode(self) -> Seq<u8> {
        le_bytes(self.index as nat, 4) + le_bytes(self.num as nat, 4)
    }

    open spec fn decode(bytes: Seq<u8>) -> Self {
        GetFeatures {
            index: le_at(bytes, 0, 4) as u32,
            num: le_at(bytes, 4, 4) as u32,
        }
    }

    proof fn lemma_decode_encode(self, rest: Seq<u8>) {
        broadcast use lemma_le_bytes_len;

        lemma_le_limits();
        let s = self.encode() + rest;
        lemma_le_at(s, 0, self.index as nat, 4);
        lemma_le_at(s, 4, self.num as nat, 4);
    }

    proof fn lemma_encode_decode(bytes: Seq<u8>) {
        broadcast use lemma_le_bytes_len;

        lemma_le_limits();
        lemma_le_bytes_of_value(bytes.subrange(0, 4));
        lemma_le_bytes_of_value(bytes.subrange(4, 8));
        assert(Self::decode(bytes).encode() =~= bytes.take(8));
    }

    proof fn lemma_size_bound() {
    }

    fn size() -> (n: usize) {
        8
    }

    fn read(src: &[u8]) -> (payload: Self) {
        GetFeatures {
            index: get_u32(src, 0),
            num: get_u32(src, 4),
        }
    }

    fn write(&self, dst: &mut [u8]) {
        broadcast use lemma_le_bytes_len;

        put_u32(dst, 0, self.index);
        put_u32(dst, 4, self.num);
        assert(dst@ =~= splice(old(dst)@, 0, self.encode()));
    }
}

/// The fixed part of the answer to [`GetFeatures`]; the feature bits follow it.
#[derive(Clone, Copy, Debug, PartialEq, Eq, Structural)]
pub struct GetFeaturesResp {
    pub index: u32,
    pub num: u32,
}

impl Payload for GetFeaturesResp {
    open spec fn size_spec() -> nat {
        8
    }

    open spec fn encode(self) -> Seq<u8> {
        le_bytes(self.index as nat, 4) + le_bytes(self.num as nat, 4)
    }

    open spec fn decode(bytes: Seq<u8>) -> Self {
        GetFeaturesResp {
            index: le_at(bytes, 0, 4) as u32,
            num: le_at(bytes, 4, 4) as u32,
        }
    }

    proof fn lemma_decode_encode(self, rest: Seq<u8>) {
        broadcast use lemma_le_bytes_len;

        lemma_le_limits();
        let s = self.encode() + rest;
        lemma_le_at(s, 0, self.index as nat, 4);
        lemma_le_at(s, 4, self.num as nat, 4);
    }

    proof fn lemma_encode_decode(bytes: Seq<u8>) {
        broadcast use lemma_le_bytes_len;

        lemma_le_limits();
        lemma_le_bytes_of_value(bytes.subrange(0, 4));
        lemma_le_bytes_of_value(bytes.subrange(4, 8));
        assert(Self::decode(bytes).encode() =~= bytes.take(8));
    }

    proof fn lemma_size_bound() {
    }

    fn size() -> (n: usize) {
        8
    }

    fn read(src: &[u8]) -> (payload: Self) {
        GetFeaturesResp {
            index: get_u32(src, 0),
            num: get_u32(src, 4),
        }
    }

    fn write(&self, dst: &mut [u8]) {
        broadcast use lemma_le_bytes_len;

        put_u32(dst, 0, self.index);
        put_u32(dst, 4, self.num);
        assert(dst@ =~= splice(old(dst)@, 0, self.encode()));
    }
}

/// The fixed part of a request to set driver features; the feature bits follow it.
#[derive(Clone, Copy, Debug, PartialEq, Eq, Structural)]
pub struct SetFeatures {
    pub index: u32,
    pub num: u32,
}

impl Payload for SetFeatures {
    open spec fn size_spec() -> nat {
        8
    }

    open spec fn encode(self) -> Seq<u8> {
        le_bytes(self.index as nat, 4) + le_bytes(self.num as nat, 4)
    }

    open spec fn decode(bytes: Seq<u8>) -> Self {
        SetFeatures {
            index: le_at(bytes, 0, 4) as u32,
            num: le_at(bytes, 4, 4) as u32,
        }
    }

    proof fn lemma_decode_encode(self, rest: Seq<u8>) {
        broadcast use lemma_le_bytes_len;

        lemma_le_limits();
        let s = self.encode() + rest;
        lemma_le_at(s, 0, self.index as nat, 4);
        lemma_le_at(s, 4, self.num as nat, 4);
    }

    proof fn lemma_encode_decode(bytes: Seq<u8>) {
        broadcast use lemma_le_bytes_len;

        lemma_le_limits();
        lemma_le_bytes_of_value(bytes.subrange(0, 4));
        lemma_le_bytes_of_value(bytes.subrange(4, 8));
        assert(Self::decode(bytes).encode() =~= bytes.take(8));
    }

    proof fn lemma_size_bound() {
    }

    fn size() -> (n: usize) {
        8
    }

    fn read(src: &[u8]) -> (payload: Self) {
        SetFeatures {
            index: get_u32(src, 0),
            num: get_u32(src, 4),
        }
    }

    fn write(&self, dst: &mut [u8]) {
        broadcast use lemma_le_bytes_len;

        put_u32(dst, 0, self.index);
        put_u32(dst, 4, self.num);
        assert(dst@ =~= splice(old(dst)@, 0, self.encode()));
    }
}

/// A request for `size` bytes of the configuration space from `offset`.
#[derive(Clone, Copy, Debug, PartialEq, Eq, Structural)]
pub struct GetConfig {
    pub offset: u32,
    pub size: u32,
}

impl Payload for GetConfig {
    open spec fn size_spec() -> nat {
        8
    }

    open spec fn encode(self) -> Seq<u8> {
        le_bytes(self.offset as nat, 4) + le_bytes(self.size as nat, 4)
    }

    open spec fn decode(bytes: Seq<u8>) -> Self {
        GetConfig {
            offset: le_at(bytes, 0, 4) as u32,
            size: le_at(bytes, 4, 4) as u32,
        }
    }

    proof fn lemma_decode_encode(self, rest: Seq<u8>) {
        broadcast use lemma_le_bytes_len;

        lemma_le_limits();
        let s = self.encode() + rest;
        lemma_le_at(s, 0, self.offset as nat, 4);
        lemma_le_at(s, 4, self.size as nat, 4);
    }

    proof fn lemma_encode_decode(bytes: Seq<u8>) {
        broadcast use lemma_le_bytes_len;

        lemma_le_limits();
        lemma_le_bytes_of_value(bytes.subrange(0, 4));
        lemma_le_bytes_of_value(bytes.subrange(4, 8));
        assert(Self::decode(bytes).encode() =~= bytes.take(8));
    }

    proof fn lemma_size_bound() {
    }

    fn size() -> (n: usize) {
        8
    }

    fn read(src: &[u8]) -> (payload: Self) {
        GetConfig {
            offset: get_u32(src, 0),
            size: get_u32(src, 4),
        }
    }

    fn write(&self, dst: &mut [u8]) {
        broadcast use lemma_le_bytes_len;

        put_u32(dst, 0, self.offset);
        put_u32(dst, 4, self.size);
        assert(dst@ =~= splice(old(dst)@, 0, self.encode()));
    }
}

/// The fixed part of the answer to [`GetConfig`]; the configuration data follows it.
#[derive(Clone, Copy, Debug, PartialEq, Eq, Structural)]
pub struct GetConfigResp {
    pub generation: u32,
    pub offset: u32,
    pub size: u32,
}

impl Payload for GetConfigResp {
    open spec fn size_spec() -> nat {
        12
    }

    open spec fn encode(self) -> Seq<u8> {
        le_bytes(self.generation as nat, 4)
            + le_bytes(self.offset as nat, 4)
            + le_bytes(self.size as nat, 4)
    }

    open spec fn decode(bytes: Seq<u8>) -> Self {
        GetConfigResp {
            generation: le_at(bytes, 0, 4) as u32,
            offset: le_at(bytes, 4, 4) as u32,
            size: le_at(bytes, 8, 4) as u32,
        }
    }

    proof fn lemma_decode_encode(self, rest: Seq<u8>) {
        broadcast use lemma_le_bytes_len;

        lemma_le_limits();
        let s = self.encode() + rest;
        lemma_le_at(s, 0, self.generation as nat, 4);
        lemma_le_at(s, 4, self.offset as nat, 4);
        lemma_le_at(s, 8, self.size as nat, 4);
    }

    proof fn lemma_encode_decode(bytes: Seq<u8>) {
        broadcast use lemma_le_bytes_len;

        lemma_le_limits();
        lemma_le_bytes_of_value(bytes.subrange(0, 4));
        lemma_le_bytes_of_value(bytes.subrange(4, 8));
        lemma_le_bytes_of_value(bytes.subrange(8, 12));
        assert(Self::decode(bytes).encode() =~= bytes.take(12));
    }

    proof fn lemma_size_bound() {
    }

    fn size() -> (n: usize) {
        12
    }

    fn read(src: &[u8]) -> (payload: Self) {
        GetConfigResp {
            generation: get_u32(src, 0),
            offset: get_u32(src, 4),
            size: get_u32(src, 8),
        }
    }

    fn write(&self, dst: &mut [u8]) {
        broadcast use lemma_le_bytes_len;

        put_u32(dst, 0, self.generation);
        put_u32(dst, 4, self.offset);
        put_u32(dst, 8, self.size);
        assert(dst@ =~= splice(old(dst)@, 0, self.encode()));
    }
}

/// The generation of the configuration space, in the 40-byte layout.
#[derive(Clone, Copy, Debug, PartialEq, Eq, Structural)]
pub struct GetConfigGenResp {
    pub generation: u32,
}

impl Payload for GetConfigGenResp {
    open spec fn size_spec() -> nat {
        4
    }

    open spec fn encode(self) -> Seq<u8> {
        le_bytes(self.generation as nat, 4)
    }

    open spec fn decode(bytes: Seq<u8>) -> Self {
        GetConfigGenResp {
            generation: le_at(bytes, 0, 4) as u32,
        }
    }

    proof fn lemma_decode_encode(self, rest: Seq<u8>) {
        broadcast use lemma_le_bytes_len;

        lemma_le_limits();
        let s = self.encode() + rest;
        lemma_le_at(s, 0, self.generation as nat, 4);
    }

    proof fn lemma_encode_decode(bytes: Seq<u8>) {
        broadcast use lemma_le_bytes_len;

        lemma_le_limits();
        lemma_le_bytes_of_value(bytes.subrange(0, 4));
        assert(Self::decode(bytes).encode() =~= bytes.take(4));
    }

    proof fn lemma_size_bound() {
    }

    fn size() -> (n: usize) {
        4
    }

    fn read(src: &[u8]) -> (payload: Self) {
        GetConfigGenResp {
            generation: get_u32(src, 0),
        }
    }

    fn write(&self, dst: &mut [u8]) {
        broadcast use lemma_le_bytes_len;

        put_u32(dst, 0, self.generation);
        assert(dst@ =~= splice(old(dst)@, 0, self.encode()));
    }
}

/// The answer to a device status request.
#[derive(Clone, Copy, Debug, PartialEq, Eq, Structural)]
pub struct GetDeviceStatusResp {
    pub status: u32,
}

impl Payload for GetDeviceStatusResp {
    open spec fn size_spec() -> nat {
        4
    }

    open spec fn encode(self) -> Seq<u8> {
        le_bytes(self.status as nat, 4)
    }

    open spec fn decode(bytes: Seq<u8>) -> Self {
        GetDeviceStatusResp {
            status: le_at(bytes, 0, 4) as u32,
        }
    }

    proof fn lemma_decode_encode(self, rest: Seq<u8>) {
        broadcast use lemma_le_bytes_len;

        lemma_le_limits();
        let s = self.encode() + rest;
        lemma_le_at(s, 0, self.status as nat, 4);
    }

    proof fn lemma_encode_decode(bytes: Seq<u8>) {
        broadcast use lemma_le_bytes_len;

        lemma_le_limits();
        lemma_le_bytes_of_value(bytes.subrange(0, 4));
        assert(Self::decode(bytes).encode() =~= bytes.take(4));
    }

    proof fn lemma_size_bound() {
    }

    fn size() -> (n: usize) {
        4
    }

    fn read(src: &[u8]) -> (payload: Self) {
        GetDeviceStatusResp {
            status: get_u32(src, 0),
        }
    }

    fn write(&self, dst: &mut [u8]) {
        broadcast use lemma_le_bytes_len;

        put_u32(dst, 0, self.status);
        assert(dst@ =~= splice(old(dst)@, 0, self.encode()));
    }
}

/// A request to move the device to `status`.
#[derive(Clone, Copy, Debug, PartialEq, Eq, Structural)]
pub struct SetDeviceStatus {
    pub status: u32,
}

impl Payload for SetDeviceStatus {
    open spec fn size_spec() -> nat {
        4
    }

    open spec fn encode(self) -> Seq<u8> {
        le_bytes(self.status as nat, 4)
    }

    open spec fn decode(bytes: Seq<u8>) -> Self {
        SetDeviceStatus {
            status: le_at(bytes, 0, 4) as u32,
        }
    }

    proof fn lemma_decode_encode(self, rest: Seq<u8>) {
        broadcast use lemma_le_bytes_len;

        lemma_le_limits();
        let s = self.encode() + rest;
        lemma_le_at(s, 0, self.status as nat, 4);
    }

    proof fn lemma_encode_decode(bytes: Seq<u8>) {
        broadcast use lemma_le_bytes_len;

        lemma_le_limits();
        lemma_le_bytes_of_value(bytes.subrange(0, 4));
        assert(Self::decode(bytes).encode() =~= bytes.take(4));
    }

    proof fn lemma_size_bound() {
    }

    fn size() -> (n: usize) {
        4
    }

    fn read(src: &[u8]) -> (payload: Self) {
        SetDeviceStatus {
            status: get_u32(src, 0),
        }
    }

    fn write(&self, dst: &mut [u8]) {
        broadcast use lemma_le_bytes_len;

        put_u32(dst, 0, self.status);
        assert(dst@ =~= splice(old(dst)@, 0, self.encode()));
    }
}

/// The answer to [`SetDeviceStatus`].
#[derive(Clone, Copy, Debug, PartialEq, Eq, Structural)]
pub struct SetDeviceStatusResp {
    pub status: u32,
}

impl Payload for SetDeviceStatusResp {
    open spec fn size_spec() -> nat {
        4
    }

    open spec fn encode(self) -> Seq<u8> {
        le_bytes(self.status as nat, 4)
    }

    open spec fn decode(bytes: Seq<u8>) -> Self {
        SetDeviceStatusResp {
            status: le_at(bytes, 0, 4) as u32,
        }
    }

    proof fn lemma_decode_encode(self, rest: Seq<u8>) {
        broadcast use lemma_le_bytes_len;

        lemma_le_limits();
        let s = self.encode() + rest;
        lemma_le_at(s, 0, self.status as nat, 4);
    }

    proof fn lemma_encode_decode(bytes: Seq<u8>) {
        broadcast use lemma_le_bytes_len;

        lemma_le_limits();
        lemma_le_bytes_of_value(bytes.subrange(0, 4));
        assert(Self::decode(bytes).encode() =~= bytes.take(4));
    }

    proof fn lemma_size_bound() {
    }

    fn size() -> (n: usize) {
        4
    }

    fn read(src: &[u8]) -> (payload: Self) {
        SetDeviceStatusResp {
            status: get_u32(src, 0),
        }
    }

    fn write(&self, dst: &mut [u8]) {
        broadcast use lemma_le_bytes_len;

        put_u32(dst, 0, self.status);
        assert(dst@ =~= splice(old(dst)@, 0, self.encode()));
    }
}

/// A request for the configuration of virtqueue `index`.
#[derive(Clone, Copy, Debug, PartialEq, Eq, Structural)]
pub struct GetVqueue {
    pub index: u32,
}

impl Payload for GetVqueue {
    open spec fn size_spec() -> nat {
        4
    }

    open spec fn encode(self) -> Seq<u8> {
        le_bytes(self.index as nat, 4)
    }

    open spec fn decode(bytes: Seq<u8>) -> Self {
        GetVqueue {
            index: le_at(bytes, 0, 4) as u32,
        }
    }

    proof fn lemma_decode_encode(self, rest: Seq<u8>) {
        broadcast use lemma_le_bytes_len;

        lemma_le_limits();
        let s = self.encode() + rest;
        lemma_le_at(s, 0, self.index as nat, 4);
    }

    proof fn lemma_encode_decode(bytes: Seq<u8>) {
        broadcast use lemma_le_bytes_len;

        lemma_le_limits();
        lemma_le_bytes_of_value(bytes.subrange(0, 4));
        assert(Self::decode(bytes).encode() =~= bytes.take(4));
    }

    proof fn lemma_size_bound() {
    }

    fn size() -> (n: usize) {
        4
    }

    fn read(src: &[u8]) -> (payload: Self) {
        GetVqueue {
            index: get_u32(src, 0),
        }
    }

    fn write(&self, dst: &mut [u8]) {
        broadcast use lemma_le_bytes_len;

        put_u32(dst, 0, self.index);
        assert(dst@ =~= splice(old(dst)@, 0, self.encode()));
    }
}

/// The answer to [`GetVqueue`].
#[derive(Clone, Copy, Debug, PartialEq, Eq, Structural)]
pub struct GetVqueueResp {
    pub index: u32,
    pub max_size: u32,
    pub size: u32,
    pub descriptor_addr: u64,
    pub driver_addr: u64,
    pub device_addr: u64,
}

impl Payload for GetVqueueResp {
    open spec fn size_spec() -> nat {
        36
    }

    open spec fn encode(self) -> Seq<u8> {
        le_bytes(self.index as nat, 4)
            + le_bytes(self.max_size as nat, 4)
            + le_bytes(self.size as nat, 4)
            + le_bytes(self.descriptor_addr as nat, 8)
            + le_bytes(self.driver_addr as nat, 8)
            + le_bytes(self.device_addr as nat, 8)
    }

    open spec fn decode(bytes: Seq<u8>) -> Self {
        GetVqueueResp {
            index: le_at(bytes, 0, 4) as u32,
            max_size: le_at(bytes, 4, 4) as u32,
            size: le_at(bytes, 8, 4) as u32,
            descriptor_addr: le_at(bytes, 12, 8) as u64,
            driver_addr: le_at(bytes, 20, 8) as u64,
            device_addr: le_at(bytes, 28, 8) as u64,
        }
    }

    proof fn lemma_decode_encode(self, rest: Seq<u8>) {
        broadcast use lemma_le_bytes_len;

        lemma_le_limits();
        let s = self.encode() + rest;
        lemma_le_at(s, 0, self.index as nat, 4);
        lemma_le_at(s, 4, self.max_size as nat, 4);
        lemma_le_at(s, 8, self.size as nat, 4);
        lemma_le_at(s, 12, self.descriptor_addr as nat, 8);
        lemma_le_at(s, 20, self.driver_addr as nat, 8);
        lemma_le_at(s, 28, self.device_addr as nat, 8);
    }

    proof fn lemma_encode_decode(bytes: Seq<u8>) {
        broadcast use lemma_le_bytes_len;

        lemma_le_limits();
        lemma_le_bytes_of_value(bytes.subrange(0, 4));
        lemma_le_bytes_of_value(bytes.subrange(4, 8));
        lemma_le_bytes_of_value(bytes.subrange(8, 12));
        lemma_le_bytes_of_value(bytes.subrange(12, 20));
        lemma_le_bytes_of_value(bytes.subrange(20, 28));
        lemma_le_bytes_of_value(bytes.subrange(28, 36));
        assert(Self::decode(bytes).encode() =~= bytes.take(36));
    }

    proof fn lemma_size_bound() {
    }

    fn size() -> (n: usize) {
        36
    }

    fn read(src: &[u8]) -> (payload: Self) {
        GetVqueueResp {
            index: get_u32(src, 0),
            max_size: get_u32(src, 4),
            size: get_u32(src, 8),
            descriptor_addr: get_u64(src, 12),
            driver_addr: get_u64(src, 20),
            device_addr: get_u64(src, 28),
        }
    }

    fn write(&self, dst: &mut [u8]) {
        broadcast use lemma_le_bytes_len;

        put_u32(dst, 0, self.index);
        put_u32(dst, 4, self.max_size);
        put_u32(dst, 8, self.size);
        put_u64(dst, 12, self.descriptor_addr);
        put_u64(dst, 20, self.driver_addr);
        put_u64(dst, 28, self.device_addr);
        assert(dst@ =~= splice(old(dst)@, 0, self.encode()));
    }
}

/// A request to configure virtqueue `index`.
#[derive(Clone, Copy, Debug, PartialEq, Eq, Structural)]
pub struct SetVqueue {
    pub index: u32,
    pub unused: u32,
    pub size: u32,
    pub descriptor_addr: u64,
    pub driver_addr: u64,
    pub device_addr: u64,
}

impl Payload for SetVqueue {
    open spec fn size_spec() -> nat {
        36
    }

    open spec fn encode(self) -> Seq<u8> {
        le_bytes(self.index as nat, 4)
            + le_bytes(self.unused as nat, 4)
            + le_bytes(self.size as nat, 4)
            + le_bytes(self.descriptor_addr as nat, 8)
            + le_bytes(self.driver_addr as nat, 8)
            + le_bytes(self.device_addr as nat, 8)
    }

    open spec fn decode(bytes: Seq<u8>) -> Self {
        SetVqueue {
            index: le_at(bytes, 0, 4) as u32,
            unused: le_at(bytes, 4, 4) as u32,
            size: le_at(bytes, 8, 4) as u32,
            descriptor_addr: le_at(bytes, 12, 8) as u64,
            driver_addr: le_at(bytes, 20, 8) as u64,
            device_addr: le_at(bytes, 28, 8) as u64,
        }
    }

    proof fn lemma_decode_encode(self, rest: Seq<u8>) {
        broadcast use lemma_le_bytes_len;

        lemma_le_limits();
        let s = self.encode() + rest;
        lemma_le_at(s, 0, self.index as nat, 4);
        lemma_le_at(s, 4, self.unused as nat, 4);
        lemma_le_at(s, 8, self.size as nat, 4);
        lemma_le_at(s, 12, self.descriptor_addr as nat, 8);
        lemma_le_at(s, 20, self.driver_addr as nat, 8);
        lemma_le_at(s, 28, self.device_addr as nat, 8);
    }

    proof fn lemma_encode_decode(bytes: Seq<u8>) {
        broadcast use lemma_le_bytes_len;

        lemma_le_limits();
        lemma_le_bytes_of_value(bytes.subrange(0, 4));
        lemma_le_bytes_of_value(bytes.subrange(4, 8));
        lemma_le_bytes_of_value(bytes.subrange(8, 12));
        lemma_le_bytes_of_value(bytes.subrange(12, 20));
        lemma_le_bytes_of_value(bytes.subrange(20, 28));
        lemma_le_bytes_of_value(bytes.subrange(28, 36));
        assert(Self::decode(bytes).encode() =~= bytes.take(36));
    }

    proof fn lemma_size_bound() {
    }

    fn size() -> (n: usize) {
        36
    }

    fn read(src: &[u8]) -> (payload: Self) {
        SetVqueue {
            index: get_u32(src, 0),
            unused: get_u32(src, 4),
            size: get_u32(src, 8),
            descriptor_addr: get_u64(src, 12),
            driver_addr: get_u64(src, 20),
            device_addr: get_u64(src, 28),
        }
    }

    fn write(&self, dst: &mut [u8]) {
        broadcast use lemma_le_bytes_len;

        put_u32(dst, 0, self.index);
        put_u32(dst, 4, self.unused);
        put_u32(dst, 8, self.size);
        put_u64(dst, 12, self.descriptor_addr);
        put_u64(dst, 20, self.driver_addr);
        put_u64(dst, 28, self.device_addr);
        assert(dst@ =~= splice(old(dst)@, 0, self.encode()));
    }
}

/// The notification that virtqueue `index` has available buffers.
#[derive(Clone, Copy, Debug, PartialEq, Eq, Structural)]
pub struct EventAvail {
    pub index: u32,
    pub next_offset_wrap: u32,
}

impl Payload for EventAvail {
    open spec fn size_spec() -> nat {
        8
    }

    open spec fn encode(self) -> Seq<u8> {
        le_bytes(self.index as nat, 4) + le_bytes(self.next_offset_wrap as nat, 4)
    }

    open spec fn decode(bytes: Seq<u8>) -> Self {
        EventAvail {
            index: le_at(bytes, 0, 4) as u32,
            next_offset_wrap: le_at(bytes, 4, 4) as u32,
        }
    }

    proof fn lemma_decode_encode(self, rest: Seq<u8>) {
        broadcast use lemma_le_bytes_len;

        lemma_le_limits();
        let s = self.encode() + rest;
        lemma_le_at(s, 0, self.index as nat, 4);
        lemma_le_at(s, 4, self.next_offset_wrap as nat, 4);
    }

    proof fn lemma_encode_decode(bytes: Seq<u8>) {
        broadcast use lemma_le_bytes_len;

        lemma_le_limits();
        lemma_le_bytes_of_value(bytes.subrange(0, 4));
        lemma_le_bytes_of_value(bytes.subrange(4, 8));
        assert(Self::decode(bytes).encode() =~= bytes.take(8));
    }

    proof fn lemma_size_bound() {
    }

    fn size() -> (n: usize) {
        8
    }

    fn read(src: &[u8]) -> (payload: Self) {
        EventAvail {
            index: get_u32(src, 0),
            next_offset_wrap: get_u32(src, 4),
        }
    }

    fn write(&self, dst: &mut [u8]) {
        broadcast use lemma_le_bytes_len;

        put_u32(dst, 0, self.index);
        put_u32(dst, 4, self.next_offset_wrap);
        assert(dst@ =~= splice(old(dst)@, 0, self.encode()));
    }
}

/// A request to share the memory behind `mem_handle` as area `area_id`.
#[derive(Clone, Copy, Debug, PartialEq, Eq, Structural)]
pub struct BusAreaShare {
    pub area_id: u16,
    pub mem_handle: u64,
    pub tag: u64,
    pub count: u32,
    pub attr: u32,
}

impl Payload for BusAreaShare {
    open spec fn size_spec() -> nat {
        26
    }

    open spec fn encode(self) -> Seq<u8> {
        le_bytes(self.area_id as nat, 2)
            + le_bytes(self.mem_handle as nat, 8)
            + le_bytes(self.tag as nat, 8)
            + le_bytes(self.count as nat, 4)
            + le_bytes(self.attr as nat, 4)
    }

    open spec fn decode(bytes: Seq<u8>) -> Self {
        BusAreaShare {
            area_id: le_at(bytes, 0, 2) as u16,
            mem_handle: le_at(bytes, 2, 8) as u64,
            tag: le_at(bytes, 10, 8) as u64,
            count: le_at(bytes, 18, 4) as u32,
            attr: le_at(bytes, 22, 4) as u32,
        }
    }

    proof fn lemma_decode_encode(self, rest: Seq<u8>) {
        broadcast use lemma_le_bytes_len;

        lemma_le_limits();
        let s = self.encode() + rest;
        lemma_le_at(s, 0, self.area_id as nat, 2);
        lemma_le_at(s, 2, self.mem_handle as nat, 8);
        lemma_le_at(s, 10, self.tag as nat, 8);
        lemma_le_at(s, 18, self.count as nat, 4);
        lemma_le_at(s, 22, self.attr as nat, 4);
    }

    proof fn lemma_encode_decode(bytes: Seq<u8>) {
        broadcast use lemma_le_bytes_len;

        lemma_le_limits();
        lemma_le_bytes_of_value(bytes.subrange(0, 2));
        lemma_le_bytes_of_value(bytes.subrange(2, 10));
        lemma_le_bytes_of_value(bytes.subrange(10, 18));
        lemma_le_bytes_of_value(bytes.subrange(18, 22));
        lemma_le_bytes_of_value(bytes.subrange(22, 26));
        assert(Self::decode(bytes).encode() =~= bytes.take(26));
    }

    proof fn lemma_size_bound() {
    }

    fn size() -> (n: usize) {
        26
    }

    fn read(src: &[u8]) -> (payload: Self) {
        BusAreaShare {
            area_id: get_u16(src, 0),
            mem_handle: get_u64(src, 2),
            tag: get_u64(src, 10),
            count: get_u32(src, 18),
            attr: get_u32(src, 22),
        }
    }

    fn write(&self, dst: &mut [u8]) {
        broadcast use lemma_le_bytes_len;

        put_u16(dst, 0, self.area_id);
        put_u64(dst, 2, self.mem_handle);
        put_u64(dst, 10, self.tag);
        put_u32(dst, 18, self.count);
        put_u32(dst, 22, self.attr);
        assert(dst@ =~= splice(old(dst)@, 0, self.encode()));
    }
}

/// The answer to [`BusAreaShare`]; `result` is zero on success.
#[derive(Clone, Copy, Debug, PartialEq, Eq, Structural)]
pub struct BusAreaShareResp {
    pub area_id: u16,
    pub result: u16,
}

impl Payload for BusAreaShareResp {
    open spec fn size_spec() -> nat {
        4
    }

    open spec fn encode(self) -> Seq<u8> {
        le_bytes(self.area_id as nat, 2) + le_bytes(self.result as nat, 2)
    }

    open spec fn decode(bytes: Seq<u8>) -> Self {
        BusAreaShareResp {
            area_id: le_at(bytes, 0, 2) as u16,
            result: le_at(bytes, 2, 2) as u16,
        }
    }

    proof fn lemma_decode_encode(self, rest: Seq<u8>) {
        broadcast use lemma_le_bytes_len;

        lemma_le_limits();
        let s = self.encode() + rest;
        lemma_le_at(s, 0, self.area_id as nat, 2);
        lemma_le_at(s, 2, self.result as nat, 2);
    }

    proof fn lemma_encode_decode(bytes: Seq<u8>) {
        broadcast use lemma_le_bytes_len;

        lemma_le_limits();
        lemma_le_bytes_of_value(bytes.subrange(0, 2));
        lemma_le_bytes_of_value(bytes.subrange(2, 4));
        assert(Self::decode(bytes).encode() =~= bytes.take(4));
    }

    proof fn lemma_size_bound() {
    }

    fn size() -> (n: usize) {
        4
    }

    fn read(src: &[u8]) -> (payload: Self) {
        BusAreaShareResp {
            area_id: get_u16(src, 0),
            result: get_u16(src, 2),
        }
    }

    fn write(&self, dst: &mut [u8]) {
        broadcast use lemma_le_bytes_len;

        put_u16(dst, 0, self.area_id);
        put_u16(dst, 2, self.result);
        assert(dst@ =~= splice(old(dst)@, 0, self.encode()));
    }
}

/// A request to stop sharing area `area_id`.
#[derive(Clone, Copy, Debug, PartialEq, Eq, Structural)]
pub struct BusAreaUnshare {
    pub area_id: u32,
}

impl Payload for BusAreaUnshare {
    open spec fn size_spec() -> nat {
        4
    }

    open spec fn encode(self) -> Seq<u8> {
        le_bytes(self.area_id as nat, 4)
    }

    open spec fn decode(bytes: Seq<u8>) -> Self {
        BusAreaUnshare {
            area_id: le_at(bytes, 0, 4) as u32,
        }
    }

    proof fn lemma_decode_encode(self, rest: Seq<u8>) {
        broadcast use lemma_le_bytes_len;

        lemma_le_limits();
        let s = self.encode() + rest;
        lemma_le_at(s, 0, self.area_id as nat, 4);
    }

    proof fn lemma_encode_decode(bytes: Seq<u8>) {
        broadcast use lemma_le_bytes_len;

        lemma_le_limits();
        lemma_le_bytes_of_value(bytes.subrange(0, 4));
        assert(Self::decode(bytes).encode() =~= bytes.take(4));
    }

    proof fn lemma_size_bound() {
    }

    fn size() -> (n: usize) {
        4
    }

    fn read(src: &[u8]) -> (payload: Self) {
        BusAreaUnshare {
            area_id: get_u32(src, 0),
        }
    }

    fn write(&self, dst: &mut [u8]) {
        broadcast use lemma_le_bytes_len;

        put_u32(dst, 0, self.area_id);
        assert(dst@ =~= splice(old(dst)@, 0, self.encode()));
    }
}

/// The answer to [`BusAreaUnshare`]; `result` is zero on success.
#[derive(Clone, Copy, Debug, PartialEq, Eq, Structural)]
pub struct BusAreaUnshareResp {
    pub area_id: u16,
    pub result: u16,
}

impl Payload for BusAreaUnshareResp {
    open spec fn size_spec() -> nat {
        4
    }

    open spec fn encode(self) -> Seq<u8> {
        le_bytes(self.area_id as nat, 2) + le_bytes(self.result as nat, 2)
    }

    open spec fn decode(bytes: Seq<u8>) -> Self {
        BusAreaUnshareResp {
            area_id: le_at(bytes, 0, 2) as u16,
            result: le_at(bytes, 2, 2) as u16,
        }
    }

    proof fn lemma_decode_encode(self, rest: Seq<u8>) {
        broadcast use lemma_le_bytes_len;

        lemma_le_limits();
        let s = self.encode() + rest;
        lemma_le_at(s, 0, self.area_id as nat, 2);
        lemma_le_at(s, 2, self.result as nat, 2);
    }

    proof fn lemma_encode_decode(bytes: Seq<u8>) {
        broadcast use lemma_le_bytes_len;

        lemma_le_limits();
        lemma_le_bytes_of_value(bytes.subrange(0, 2));
        lemma_le_bytes_of_value(bytes.subrange(2, 4));
        assert(Self::decode(bytes).encode() =~= bytes.take(4));
    }

    proof fn lemma_size_bound() {
    }

    fn size() -> (n: usize) {
        4
    }

    fn read(src: &[u8]) -> (payload: Self) {
        BusAreaUnshareResp {
            area_id: get_u16(src, 0),
            result: get_u16(src, 2),
        }
    }

    fn write(&self, dst: &mut [u8]) {
        broadcast use lemma_le_bytes_len;

        put_u16(dst, 0, self.area_id);
        put_u16(dst, 2, self.result);
        assert(dst@ =~= splice(old(dst)@, 0, self.encode()));
    }
}

/// The 36-byte payload of a feature request or answer in the 40-byte message layout.
#[derive(Clone, Copy, Debug, PartialEq, Eq)]
pub struct SetFeaturesV1 {
    pub index: u32,
    pub features: (u64, u64, u64, u64),
}

impl Payload for SetFeaturesV1 {
    open spec fn size_spec() -> nat {
        36
    }

    open spec fn encode(self) -> Seq<u8> {
        le_bytes(self.index as nat, 4)
            + le_bytes(self.features.0 as nat, 8)
            + le_bytes(self.features.1 as nat, 8)
            + le_bytes(self.features.2 as nat, 8)
            + le_bytes(self.features.3 as nat, 8)
    }

    open spec fn decode(bytes: Seq<u8>) -> Self {
        SetFeaturesV1 {
            index: le_at(bytes, 0, 4) as u32,
            features: (
                le_at(bytes, 4, 8) as u64,
                le_at(bytes, 12, 8) as u64,
                le_at(bytes, 20, 8) as u64,
                le_at(bytes, 28, 8) as u64,
            ),
        }
    }

    proof fn lemma_decode_encode(self, rest: Seq<u8>) {
        broadcast use lemma_le_bytes_len;

        lemma_le_limits();
        let s = self.encode() + rest;
        lemma_le_at(s, 0, self.index as nat, 4);
        lemma_le_at(s, 4, self.features.0 as nat, 8);
        lemma_le_at(s, 12, self.features.1 as nat, 8);
        lemma_le_at(s, 20, self.features.2 as nat, 8);
        lemma_le_at(s, 28, self.features.3 as nat, 8);
    }

    proof fn lemma_encode_decode(bytes: Seq<u8>) {
        broadcast use lemma_le_bytes_len;

        lemma_le_limits();
        lemma_le_bytes_of_value(bytes.subrange(0, 4));
        lemma_le_bytes_of_value(bytes.subrange(4, 12));
        lemma_le_bytes_of_value(bytes.subrange(12, 20));
        lemma_le_bytes_of_value(bytes.subrange(20, 28));
        lemma_le_bytes_of_value(bytes.subrange(28, 36));
        assert(Self::decode(bytes).encode() =~= bytes.take(36));
    }

    proof fn lemma_size_bound() {
    }

    fn size() -> (n: usize) {
        36
    }

    fn read(src: &[u8]) -> (payload: Self) {
        SetFeaturesV1 {
            index: get_u32(src, 0),
            features: (
                get_u64(src, 4),
                get_u64(src, 12),
                get_u64(src, 20),
                get_u64(src, 28),
            ),
        }
    }

    fn write(&self, dst: &mut [u8]) {
        broadcast use lemma_le_bytes_len;

        put_u32(dst, 0, self.index);
        put_u64(dst, 4, self.features.0);
        put_u64(dst, 12, self.features.1);
        put_u64(dst, 20, self.features.2);
        put_u64(dst, 28, self.features.3);
        assert(dst@ =~= splice(old(dst)@, 0, self.encode()));
    }
}

/// The answer to a bus activation in the 40-byte message layout.
#[derive(Clone, Copy, Debug, PartialEq, Eq, Structural)]
pub struct BusActivateResp {
    pub device_version: u32,
    pub features: u64,
    pub num: u64,
}

impl Payload for BusActivateResp {
    open spec fn size_spec() -> nat {
        20
    }

    open spec fn encode(self) -> Seq<u8> {
        le_bytes(self.device_version as nat, 4)
            + le_bytes(self.features as nat, 8)
            + le_bytes(self.num as nat, 8)
    }

    open spec fn decode(bytes: Seq<u8>) -> Self {
        BusActivateResp {
            device_version: le_at(bytes, 0, 4) as u32,
            features: le_at(bytes, 4, 8) as u64,
            num: le_at(bytes, 12, 8) as u64,
        }
    }

    proof fn lemma_decode_encode(self, rest: Seq<u8>) {
        broadcast use lemma_le_bytes_len;

        lemma_le_limits();
        let s = self.encode() + rest;
        lemma_le_at(s, 0, self.device_version as nat, 4);
        lemma_le_at(s, 4, self.features as nat, 8);
        lemma_le_at(s, 12, self.num as nat, 8);
    }

    proof fn lemma_encode_decode(bytes: Seq<u8>) {
        broadcast use lemma_le_bytes_len;

        lemma_le_limits();
        lemma_le_bytes_of_value(bytes.subrange(0, 4));
        lemma_le_bytes_of_value(bytes.subrange(4, 12));
        lemma_le_bytes_of_value(bytes.subrange(12, 20));
        assert(Self::decode(bytes).encode() =~= bytes.take(20));
    }

    proof fn lemma_size_bound() {
    }

    fn size() -> (n: usize) {
        20
    }

    fn read(src: &[u8]) -> (payload: Self) {
        BusActivateResp {
            device_version: get_u32(src, 0),
            features: get_u64(src, 4),
            num: get_u64(src, 12),
        }
    }

    fn write(&self, dst: &mut [u8]) {
        broadcast use lemma_le_bytes_len;

        put_u32(dst, 0, self.device_version);
        put_u64(dst, 4, self.features);
        put_u64(dst, 12, self.num);
        assert(dst@ =~= splice(old(dst)@, 0, self.encode()));
    }
}

/// The answer to a bus configuration in the 40-byte message layout.
#[derive(Clone, Copy, Debug, PartialEq, Eq, Structural)]
pub struct BusConfigureResp {
    pub features: u64,
}

impl Payload for BusConfigureResp {
    open spec fn size_spec() -> nat {
        8
    }

    open spec fn encode(self) -> Seq<u8> {
        le_bytes(self.features as nat, 8)
    }

    open spec fn decode(bytes: Seq<u8>) -> Self {
        BusConfigureResp {
            features: le_at(bytes, 0, 8) as u64,
        }
    }

    proof fn lemma_decode_encode(self, rest: Seq<u8>) {
        broadcast use lemma_le_bytes_len;

        lemma_le_limits();
        let s = self.encode() + rest;
        lemma_le_at(s, 0, self.features as nat, 8);
    }

    proof fn lemma_encode_decode(bytes: Seq<u8>) {
        broadcast use lemma_le_bytes_len;

        lemma_le_limits();
        lemma_le_bytes_of_value(bytes.subrange(0, 8));
        assert(Self::decode(bytes).encode() =~= bytes.take(8));
    }

    proof fn lemma_size_bound() {
    }

    fn size() -> (n: usize) {
        8
    }

    fn read(src: &[u8]) -> (payload: Self) {
        BusConfigureResp {
            features: get_u64(src, 0),
        }
    }

    fn write(&self, dst: &mut [u8]) {
        broadcast use lemma_le_bytes_len;

        put_u64(dst, 0, self.features);
        assert(dst@ =~= splice(old(dst)@, 0, self.encode()));
    }
}

/// The 36 payload bytes of a message in the 40-byte layout, as numbers.
#[derive(Clone, Copy, Debug, PartialEq, Eq)]
pub struct RawPayload {
    pub head: u32,
    pub body: (u64, u64, u64, u64),
}

impl Payload for RawPayload {
    open spec fn size_spec() -> nat {
        36
    }

    open spec fn encode(self) -> Seq<u8> {
        le_bytes(self.head as nat, 4)
            + le_bytes(self.body.0 as nat, 8)
            + le_bytes(self.body.1 as nat, 8)
            + le_bytes(self.body.2 as nat, 8)
            + le_bytes(self.body.3 as nat, 8)
    }

    open spec fn decode(bytes: Seq<u8>) -> Self {
        RawPayload {
            head: le_at(bytes, 0, 4) as u32,
            body: (
                le_at(bytes, 4, 8) as u64,
                le_at(bytes, 12, 8) as u64,
                le_at(bytes, 20, 8) as u64,
                le_at(bytes, 28, 8) as u64,
            ),
        }
    }

    proof fn lemma_decode_encode(self, rest: Seq<u8>) {
        broadcast use lemma_le_bytes_len;

        lemma_le_limits();
        let s = self.encode() + rest;
        lemma_le_at(s, 0, self.head as nat, 4);
        lemma_le_at(s, 4, self.body.0 as nat, 8);
        lemma_le_at(s, 12, self.body.1 as nat, 8);
        lemma_le_at(s, 20, self.body.2 as nat, 8);
        lemma_le_at(s, 28, self.body.3 as nat, 8);
    }

    proof fn lemma_encode_decode(bytes: Seq<u8>) {
        broadcast use lemma_le_bytes_len;

        lemma_le_limits();
        lemma_le_bytes_of_value(bytes.subrange(0, 4));
        lemma_le_bytes_of_value(bytes.subrange(4, 12));
        lemma_le_bytes_of_value(bytes.subrange(12, 20));
        lemma_le_bytes_of_value(bytes.subrange(20, 28));
        lemma_le_bytes_of_value(bytes.subrange(28, 36));
        assert(Self::decode(bytes).encode() =~= bytes.take(36));
    }

    proof fn lemma_size_bound() {
    }

    fn size() -> (n: usize) {
        36
    }

    fn read(src: &[u8]) -> (payload: Self) {
        RawPayload {
            head: get_u32(src, 0),
            body: (
                get_u64(src, 4),
                get_u64(src, 12),
                get_u64(src, 20),
                get_u64(src, 28),
            ),
        }
    }

    fn write(&self, dst: &mut [u8]) {
        broadcast use lemma_le_bytes_len;

        put_u32(dst, 0, self.head);
        put_u64(dst, 4, self.body.0);
        put_u64(dst, 12, self.body.1);
        put_u64(dst, 20, self.body.2);
        put_u64(dst, 28, self.body.3);
        assert(dst@ =~= splice(old(dst)@, 0, self.encode()));
    }
}

} // verus!
