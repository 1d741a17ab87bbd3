//! Messages inside message buffers.
//!
//! The specifications speak of the bytes of a message buffer (see [`crate::wire::msg_bytes`]).

use vstd::prelude::*;

use crate::payload::Payload;
use crate::proto::{
    HEADER_SIZE, MAX_PAYLOAD_SIZE, MSG_SIZE_OFFSET, V1_HEADER_SIZE, VIRTIO_MSG_TYPE_BUS,
    VIRTIO_MSG_TYPE_RESPONSE,
};
use crate::wire::{
    bytes_of_msg, get_u16, le_at, le_bytes, lemma_le_at, lemma_le_bytes_len, lemma_le_limits,
    msg_bytes, msg_of_bytes, put_u16, splice, zeros, ARM_FFA_MSG_EXTENDED_ARGS_COUNT, MSG_BYTES,
};

verus! {

/// Whether message `m` is a response.
pub open spec fn is_response(m: Seq<u8>) -> bool {
    m[0] & VIRTIO_MSG_TYPE_RESPONSE != 0
}

/// Whether message `m` is for the bus rather than for a device on it.
pub open spec fn is_bus(m: Seq<u8>) -> bool {
    m[0] & VIRTIO_MSG_TYPE_BUS != 0
}

/// The message id of `m`.
pub open spec fn msg_id(m: Seq<u8>) -> u8 {
    m[1]
}

/// The device number in `m`.
pub open spec fn dev_id(m: Seq<u8>) -> nat {
    le_at(m, 2, 2)
}

/// The size that `m` gives for itself.
pub open spec fn msg_size(m: Seq<u8>) -> nat {
    le_at(m, 4, 2)
}

/// What follows the header of `m`.
pub open spec fn payload_bytes(m: Seq<u8>) -> Seq<u8> {
    m.skip(6)
}

/// What follows the header of `m` in the 40-byte layout.
pub open spec fn v1_payload_bytes(m: Seq<u8>) -> Seq<u8> {
    m.skip(4)
}

/// `m` with the response bit set.
pub open spec fn as_response(m: Seq<u8>) -> Seq<u8> {
    m.update(0, m[0] | VIRTIO_MSG_TYPE_RESPONSE)
}

/// `m` with the size field set for a payload of `payload` bytes, and that payload. What follows the
/// payload stays.
pub open spec fn with_payload_kept_tail(m: Seq<u8>, payload: Seq<u8>) -> Seq<u8> {
    m.take(4) + le_bytes(6 + payload.len(), 2) + payload + m.skip(6 + payload.len() as int)
}

/// `m` with the size field set for a payload of `payload` bytes, and that payload. What follows the
/// payload is zero.
pub open spec fn with_payload(m: Seq<u8>, payload: Seq<u8>) -> Seq<u8> {
    m.take(4) + le_bytes(6 + payload.len(), 2) + payload + zeros(
        (m.len() - 6 - payload.len()) as nat,
    )
}

/// Setting the response bit sets it, and changes neither the bus bit nor anything else.
pub proof fn lemma_as_response(m: Seq<u8>)
    requires
        m.len() == 112,
    ensures
        as_response(m).len() == 112,
        is_response(as_response(m)),
        is_bus(as_response(m)) == is_bus(m),
        msg_id(as_response(m)) == msg_id(m),
        dev_id(as_response(m)) == dev_id(m),
        payload_bytes(as_response(m)) == payload_bytes(m),
        v1_payload_bytes(as_response(m)) == v1_payload_bytes(m),
{
    let t = m[0];
    assert((t | 1) & 1 != 0 && (t | 1) & 2 == t & 2) by (bit_vector);
    assert(as_response(m).subrange(2, 4) =~= m.subrange(2, 4));
    assert(as_response(m).skip(6) =~= m.skip(6));
    assert(as_response(m).skip(4) =~= m.skip(4));
}

/// What can be read from a message after its payload was set.
pub proof fn lemma_with_payload(m: Seq<u8>, payload: Seq<u8>)
    requires
        m.len() == 112,
        payload.len() <= 106,
    ensures
        with_payload(m, payload).len() == 112,
        is_response(with_payload(m, payload)) == is_response(m),
        is_bus(with_payload(m, payload)) == is_bus(m),
        msg_id(with_payload(m, payload)) == msg_id(m),
        dev_id(with_payload(m, payload)) == dev_id(m),
        msg_size(with_payload(m, payload)) == 6 + payload.len(),
        payload_bytes(with_payload(m, payload)) == payload + zeros((106 - payload.len()) as nat),
{
    broadcast use lemma_le_bytes_len;

    let r = with_payload(m, payload);
    assert(r.subrange(2, 4) =~= m.subrange(2, 4));
    lemma_le_limits();
    lemma_le_at(r, 4, 6 + payload.len(), 2);
    assert(r.skip(6) =~= payload + zeros((106 - payload.len()) as nat));
}

/// What can be read from a message after its payload was set and its tail was kept.
pub proof fn lemma_with_payload_kept_tail(m: Seq<u8>, payload: Seq<u8>)
    requires
        m.len() == 112,
        payload.len() <= 106,
    ensures
        with_payload_kept_tail(m, payload).len() == 112,
        is_response(with_payload_kept_tail(m, payload)) == is_response(m),
        is_bus(with_payload_kept_tail(m, payload)) == is_bus(m),
        msg_id(with_payload_kept_tail(m, payload)) == msg_id(m),
        dev_id(with_payload_kept_tail(m, payload)) == dev_id(m),
        msg_size(with_payload_kept_tail(m, payload)) == 6 + payload.len(),
        payload_bytes(with_payload_kept_tail(m, payload)) == payload + m.skip(
            6 + payload.len() as int,
        ),
{
    broadcast use lemma_le_bytes_len;

    let r = with_payload_kept_tail(m, payload);
    assert(r.subrange(2, 4) =~= m.subrange(2, 4));
    lemma_le_limits();
    lemma_le_at(r, 4, 6 + payload.len(), 2);
    assert(r.skip(6) =~= payload + m.skip(6 + payload.len() as int));
}

/// Reads the message type.
pub fn read_type(buf: &[u64; ARM_FFA_MSG_EXTENDED_ARGS_COUNT]) -> (ty: u8)
    ensures
        ty == msg_bytes(buf@)[0],
{
    let bytes = bytes_of_msg(buf);
    bytes[0]
}

/// Reads the message id.
pub fn read_msg_id(buf: &[u64; ARM_FFA_MSG_EXTENDED_ARGS_COUNT]) -> (id: u8)
    ensures
        id == msg_id(msg_bytes(buf@)),
{
    let bytes = bytes_of_msg(buf);
    bytes[1]
}

/// Reads the device number.
pub fn read_dev_id(buf: &[u64; ARM_FFA_MSG_EXTENDED_ARGS_COUNT]) -> (id: u16)
    ensures
        id == dev_id(msg_bytes(buf@)),
{
    let bytes = bytes_of_msg(buf);
    get_u16(&bytes, 2)
}

/// Reads the payload behind the header.
pub fn read_payload<T: Payload>(buf: &[u64; ARM_FFA_MSG_EXTENDED_ARGS_COUNT]) -> (payload: T)
    ensures
        payload == T::decode(payload_bytes(msg_bytes(buf@))),
{
    let bytes = bytes_of_msg(buf);
    let whole: &[u8] = &bytes;
    let (_, tail) = whole.split_at(HEADER_SIZE);
    proof {
        T::lemma_size_bound();
        assert(tail@ =~= payload_bytes(bytes@));
    }
    T::read(tail)
}

/// Reads the payload behind the header of the 40-byte layout.
pub fn read_v1_payload<T: Payload>(buf: &[u64; ARM_FFA_MSG_EXTENDED_ARGS_COUNT]) -> (payload: T)
    ensures
        payload == T::decode(v1_payload_bytes(msg_bytes(buf@))),
{
    let bytes = bytes_of_msg(buf);
    let whole: &[u8] = &bytes;
    let (_, tail) = whole.split_at(V1_HEADER_SIZE);
    proof {
        T::lemma_size_bound();
        assert(tail@ =~= v1_payload_bytes(bytes@));
    }
    T::read(tail)
}

/// Sets the response bit.
pub fn set_response_bit(buf: &mut [u64; ARM_FFA_MSG_EXTENDED_ARGS_COUNT])
    ensures
        msg_bytes(final(buf)@) == as_response(msg_bytes(old(buf)@)),
{
    let mut bytes = bytes_of_msg(buf);
    bytes[0] = bytes[0] | VIRTIO_MSG_TYPE_RESPONSE;
    *buf = msg_of_bytes(&bytes);
}

/// Overwrites `bytes` from offset `at` with `payload`.
fn overwrite<T: Payload>(bytes: &mut [u8; MSG_BYTES], at: usize, payload: &T)
    requires
        at + T::size_spec() <= 112,
    ensures
        final(bytes)@ == splice(old(bytes)@, at as int, payload.encode()),
{
    proof {
        payload.lemma_decode_encode(seq![]);
    }
    let whole: &mut [u8] = bytes;
    let (_, tail) = whole.split_at_mut(at);
    payload.write(tail);
}

/// Replaces the payload behind the header of the 40-byte layout. What follows it stays.
pub fn write_v1_payload<T: Payload>(buf: &mut [u64; ARM_FFA_MSG_EXTENDED_ARGS_COUNT], payload: &T)
    ensures
        msg_bytes(final(buf)@) == splice(msg_bytes(old(buf)@), 4, payload.encode()),
{
    proof {
        T::lemma_size_bound();
    }
    let mut bytes = bytes_of_msg(buf);
    overwrite(&mut bytes, V1_HEADER_SIZE, payload);
    *buf = msg_of_bytes(&bytes);
}

/// Writes the payload and the size field, and zeroes what follows the payload.
pub fn write_payload<T: Payload>(buf: &mut [u64; ARM_FFA_MSG_EXTENDED_ARGS_COUNT], payload: &T)
    ensures
        msg_bytes(final(buf)@) == with_payload(msg_bytes(old(buf)@), payload.encode()),
{
    broadcast use lemma_le_bytes_len;

    proof {
        payload.lemma_decode_encode(seq![]);
        T::lemma_size_bound();
    }
    let size: usize = T::size();
    let mut bytes = bytes_of_msg(buf);
    let ghost start = bytes@;
    put_u16(&mut bytes, MSG_SIZE_OFFSET, (HEADER_SIZE + size) as u16);
    overwrite(&mut bytes, HEADER_SIZE, payload);
    let ghost filled = bytes@;
    assert(filled =~= with_payload_kept_tail(start, payload.encode()));
    let mut i: usize = HEADER_SIZE + size;
    while i < MSG_BYTES
        invariant
            size == T::size_spec(),
            size <= MAX_PAYLOAD_SIZE,
            filled.len() == 112,
            6 + size <= i <= 112,
            forall|j: int| 0 <= j < 6 + size ==> bytes@[j] == filled[j],
            forall|j: int| 6 + size <= j < i ==> bytes@[j] == 0,
        decreases 112 - i,
    {
        bytes[i] = 0;
        i = i + 1;
    }
    let ghost want = with_payload(start, payload.encode());
    assert(forall|j: int| 0 <= j < 6 + size ==> filled[j] == want[j]);
    assert(bytes@ =~= want);
    *buf = msg_of_bytes(&bytes);
}

/// Writes a payload of two parts and the size field. What follows the payload stays.
pub fn write_payload_parts<T: Payload, U: Payload>(
    buf: &mut [u64; ARM_FFA_MSG_EXTENDED_ARGS_COUNT],
    fixed: &T,
    data: &U,
)
    requires
        T::size_spec() + U::size_spec() <= 106,
    ensures
        msg_bytes(final(buf)@) == with_payload_kept_tail(
            msg_bytes(old(buf)@),
            fixed.encode() + data.encode(),
        ),
{
    broadcast use lemma_le_bytes_len;

    proof {
        fixed.lemma_decode_encode(seq![]);
        data.lemma_decode_encode(seq![]);
    }
    let fixed_size: usize = T::size();
    let data_size: usize = U::size();
    let mut bytes = bytes_of_msg(buf);
    let ghost start = bytes@;
    put_u16(&mut bytes, MSG_SIZE_OFFSET, (HEADER_SIZE + fixed_size + data_size) as u16);
    overwrite(&mut bytes, HEADER_SIZE, fixed);
    overwrite(&mut bytes, HEADER_SIZE + fixed_size, data);
    assert(bytes@ =~= with_payload_kept_tail(start, fixed.encode() + data.encode()));
    *buf = msg_of_bytes(&bytes);
}

} // verus!
