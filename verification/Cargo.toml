[package]
name = "vsock_virtio_msg"
version = "0.1.0"
edition = "2021"
publish = false

[dependencies]
zerocopy = "=0.8.63"
log = "=0.4.35"
lazy_static = "=1.5.1"
static_assertions = "=1.1.0"
virtio-drivers-and-devices = "=0.2.7"
