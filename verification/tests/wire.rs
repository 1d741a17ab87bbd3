//! Bytes, fields and payloads.

use vsock_virtio_msg::error::{status_code, LkError, NO_ERROR};
use vsock_virtio_msg::payload::{BusAreaShare, GetVqueueResp, Payload, SetFeaturesV1};
use vsock_virtio_msg::proto::{HEADER_SIZE, MAX_PAYLOAD_SIZE, MAX_VIRTIO_MSG_SIZE};
use vsock_virtio_msg::wire::{
    bytes_of_msg, get_u16, get_u32, get_u64, msg_of_bytes, put_u16, put_u32, put_u64,
};

#[test]
fn fields_are_little_endian() {
    let bytes: [u8; 12] = [0, 0x34, 0x12, 0x78, 0x56, 0x34, 0x12, 0xef, 0xcd, 0xab, 0x89, 0x67];
    assert_eq!(get_u16(&bytes, 1), 0x1234);
    assert_eq!(get_u32(&bytes, 3), 0x12345678);
    assert_eq!(get_u64(&bytes, 4), 0x6789abcdef123456);
}

#[test]
fn writing_a_field_keeps_the_rest() {
    let mut bytes: [u8; 12] = [0xaa; 12];
    put_u16(&mut bytes, 1, 0x1234);
    put_u32(&mut bytes, 4, 0x89abcdef);
    assert_eq!(bytes, [0xaa, 0x34, 0x12, 0xaa, 0xef, 0xcd, 0xab, 0x89, 0xaa, 0xaa, 0xaa, 0xaa]);
    put_u64(&mut bytes, 3, 0x0102030405060708);
    assert_eq!(bytes, [0xaa, 0x34, 0x12, 8, 7, 6, 5, 4, 3, 2, 1, 0xaa]);
}

#[test]
fn registers_and_bytes_convert_both_ways() {
    let mut words: [u64; 14] = [0; 14];
    words[0] = 0x0807060504030201;
    words[13] = 0xff00000000000080;
    let bytes = bytes_of_msg(&words);
    assert_eq!(bytes[..9], [1, 2, 3, 4, 5, 6, 7, 8, 0]);
    assert_eq!(bytes[104], 0x80);
    assert_eq!(bytes[111], 0xff);
    assert_eq!(msg_of_bytes(&bytes), words);
}

#[test]
fn payloads_are_packed() {
    let share = BusAreaShare {
        area_id: 0x1e,
        mem_handle: 0x1122334455667788,
        tag: 0,
        count: 14,
        attr: 756,
    };
    assert_eq!(BusAreaShare::size(), 26);
    let mut bytes: [u8; 28] = [0xff; 28];
    share.write(&mut bytes);
    assert_eq!(
        bytes,
        [
            0x1e, 0, 0x88, 0x77, 0x66, 0x55, 0x44, 0x33, 0x22, 0x11, 0, 0, 0, 0, 0, 0, 0, 0, 14, 0,
            0, 0, 0xf4, 2, 0, 0, 0xff, 0xff
        ]
    );
    assert_eq!(BusAreaShare::read(&bytes), share);
}

#[test]
fn payload_sizes_are_those_of_the_protocol() {
    assert_eq!(GetVqueueResp::size(), 36);
    assert_eq!(SetFeaturesV1::size(), 36);
    assert_eq!(<() as Payload>::size(), 0);
    assert_eq!(<u8 as Payload>::size(), 1);
    assert_eq!(<u64 as Payload>::size(), 8);
}

#[test]
fn error_codes_are_those_of_the_kernel() {
    let table = [
        (LkError::Generic, -1),
        (LkError::NotFound, -2),
        (LkError::NoMemory, -5),
        (LkError::AlreadyStarted, -6),
        (LkError::InvalidArgs, -8),
        (LkError::NotEnoughBuffer, -9),
        (LkError::TimedOut, -13),
        (LkError::AlreadyExists, -14),
        (LkError::NotAllowed, -17),
        (LkError::NotSupported, -24),
        (LkError::BadState, -31),
        (LkError::BadLen, -32),
        (LkError::OutOfRange, -37),
        (LkError::NotConfigured, -38),
        (LkError::Unknown(-100), -100),
    ];
    for (error, code) in table {
        assert_eq!(error.code(), code);
        assert_eq!(LkError::from_lk(code), Err(error));
        assert_eq!(status_code(Err(error)), code);
    }
    assert_eq!(LkError::from_lk(NO_ERROR), Ok(()));
    assert_eq!(status_code(Ok(())), 0);
}

#[test]
fn the_longest_payload_fills_a_message() {
    assert_eq!(MAX_PAYLOAD_SIZE, 90);
    assert_eq!(HEADER_SIZE + MAX_PAYLOAD_SIZE, MAX_VIRTIO_MSG_SIZE);
}
