# vsock_virtio_msg

A verified vsock service for a kernel whose virtual machines exchange virtio messages over FF-A. It
holds both ends of the bus, the forwarding between vsock peers and TIPC services, and two small
allocators. The logic is written in Verus: every function of `src/` has a contract, which a method of a
trait impl inherits from the trait, and the public proof functions whose names start with `law_` state
what holds of several functions together.

## Layout

- `src/wire.rs`, `src/payload.rs`, `src/message.rs`, `src/proto.rs`: numbers in bytes, the payloads of
  the messages, the messages themselves, and the constants of the protocol.
- `src/msg.rs`: bus addresses and memory attributes.
- `src/msg/device.rs` and below: the device end, which answers requests, keeps the memory that clients
  share, and hands virtqueues to the vsock device.
- `src/msg/driver.rs` and below: the driver end, which is set up step by step, builds requests, reads
  replies, and allocates out of the heap that it shares.
- `src/msg/exchange.rs`: laws about a driver and a device that talk to each other.
- `src/vsock.rs` and below: the ports, the connections, the receive side and the transmit side.
- `src/region_alloc.rs`, `src/device_tree.rs`, `src/log.rs`: an allocator for a region of physical
  memory, the DMA pools in a device tree, and what the kernel logger writes.
- `tests/`: the library on concrete values.
- `app/`: the threads, system calls and trait implementations around the library. It needs the crates
  of the kernel, so it only builds inside the kernel.

## How the library is called

Where the work alternates between decisions and calls into the kernel, the library names the next call
and is told what the call returned: receive turns, transmit turns, opening TIPC ports, accepting
clients, and setting up the driver all work that way. Where a function has a condition on its
arguments that its caller cannot know, there is a function beside it that tests the condition.

The only outside functions whose contracts are taken on trust are the readers and writers of
little-endian numbers of `zerocopy` (in `src/wire.rs`) and the device type numbers of
`virtio-drivers-and-devices` (in `src/virtio.rs`).
