//! The virtio-msg protocol: message ids, sizes and flags.
//!
//! A message starts with a six-byte header: the message type, the message id, the device number and
//! the size of the whole message. The payload follows it. An earlier form of the protocol has a
//! four-byte header, without the size, and always 36 bytes of payload.

use vstd::prelude::*;

verus! {

/// Type bit of a response.
pub const VIRTIO_MSG_TYPE_RESPONSE: u8 = 1;

/// Type bit of a bus message.
pub const VIRTIO_MSG_TYPE_BUS: u8 = 2;

/// Bytes in the header of a message.
pub const HEADER_SIZE: usize = 6;

/// Offset of the message size in the header.
pub const MSG_SIZE_OFFSET: usize = 4;

/// Bytes in the header of the 40-byte message layout.
pub const V1_HEADER_SIZE: usize = 4;

/// Most bytes that a message may have, header included.
pub const MAX_VIRTIO_MSG_SIZE: usize = 96;

/// Most bytes that a payload may have.
pub const MAX_PAYLOAD_SIZE: usize = MAX_VIRTIO_MSG_SIZE - HEADER_SIZE;

// Device messages.
pub const VIRTIO_MSG_CONNECT: u8 = 0x01;

pub const VIRTIO_MSG_DEVICE_INFO: u8 = 0x02;

pub const VIRTIO_MSG_GET_DEV_FEATURES: u8 = 0x03;

pub const VIRTIO_MSG_SET_DRV_FEATURES: u8 = 0x04;

pub const VIRTIO_MSG_GET_CONFIG: u8 = 0x05;

pub const VIRTIO_MSG_GET_DEVICE_STATUS: u8 = 0x07;

pub const VIRTIO_MSG_SET_DEVICE_STATUS: u8 = 0x08;

pub const VIRTIO_MSG_GET_VQUEUE: u8 = 0x09;

pub const VIRTIO_MSG_SET_VQUEUE: u8 = 0x0a;

pub const VIRTIO_MSG_RESET_VQUEUE: u8 = 0x0b;

pub const VIRTIO_MSG_EVENT_CONFIG: u8 = 0x40;

pub const VIRTIO_MSG_EVENT_AVAIL: u8 = 0x41;

pub const VIRTIO_MSG_EVENT_USED: u8 = 0x42;

// Bus messages.
pub const VIRTIO_MSG_FFA_ERROR: u8 = 0x00;

pub const VIRTIO_MSG_BUS_GET_DEVICES: u8 = 0x02;

pub const VIRTIO_MSG_FFA_BUS_VERSION: u8 = 0x80;

pub const VIRTIO_MSG_FFA_BUS_AREA_SHARE: u8 = 0x81;

pub const VIRTIO_MSG_FFA_BUS_AREA_UNSHARE: u8 = 0x82;

/// The bus version that this library speaks.
pub const VIRTIO_MSG_FFA_BUS_VERSION_1_0: u32 = 1;

/// The message revision that this library speaks.
pub const VIRTIO_MSG_REVISION_1: u32 = 1;

pub const VIRTIO_MSG_FFA_FEATURE_DIRECT_MSG_RX_SUPP: u32 = 4;

pub const VIRTIO_MSG_FFA_FEATURE_DIRECT_MSG_TX_SUPP: u32 = 8;

// Device status bits.
pub const VIRTIO_CONFIG_S_ACKNOWLEDGE: u32 = 1;

pub const VIRTIO_CONFIG_S_DRIVER: u32 = 2;

pub const VIRTIO_CONFIG_S_DRIVER_OK: u32 = 4;

pub const VIRTIO_CONFIG_S_FEATURES_OK: u32 = 8;

pub const VIRTIO_CONFIG_S_FAILED: u32 = 0x80;

} // verus!
