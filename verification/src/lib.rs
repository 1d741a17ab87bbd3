//! The verified core of a vsock transport over virtio-msg.

pub mod device_tree;
pub mod error;
pub mod layout;
pub mod log;
pub mod message;
pub mod msg;
pub mod payload;
pub mod proto;
pub mod region_alloc;
pub mod virtio;
pub mod vsock;
pub mod wire;
