//! Device types of the `virtio-drivers-and-devices` crate, as plain numbers.

use virtio_drivers_and_devices::transport::DeviceType;
use vstd::prelude::*;

verus! {

/// The number of the virtio device type for sockets.
pub const VIRTIO_ID_VSOCK: u32 = 19;

/// The number of the device type that virtio device id `id` stands for: ids 1 to 13 and 16 to 25
/// are device types, except that 5 is an alias of 13. Any other id is invalid, which is number 0.
pub open spec fn device_type_of(id: u32) -> u32 {
    if id == 5 {
        13
    } else if 1 <= id <= 13 || 16 <= id <= 25 {
        id
    } else {
        0
    }
}

/// The enumerator `DeviceType::Socket` as a number, which is that of socket devices on a virtio bus.
#[verifier::external_body]
pub(crate) fn socket_device_type() -> (number: u32)
    ensures
        number == VIRTIO_ID_VSOCK,
{
    DeviceType::Socket as u32
}

/// The conversion `DeviceType::from`, which maps a virtio device id to a device type and every id
/// without one to `DeviceType::Invalid`.
#[verifier::external_body]
pub(crate) fn device_type_from(id: u32) -> (number: u32)
    ensures
        number == device_type_of(id),
{
    DeviceType::from(id) as u32
}

} // verus!
