//! What the vsock implementation asks of the transport on the device end.

use vstd::prelude::*;

use crate::msg::device::handle_req::{requested_vqueue, set_vqueue};
use crate::msg::device::{DeviceState, DeviceView, FFAClientId, NUM_VQUEUES, VSOCK_QUEUE_SIZE};
use crate::msg::BusAddress;
use crate::payload::SetVqueue;

verus! {

/// The transport of one client.
#[derive(Clone, Copy, Debug, PartialEq, Eq, Structural)]
pub struct FFAMsgTransport {
    pub client_id: u16,
}

impl FFAMsgTransport {
    /// The transport of client `client_id`.
    pub fn new(client_id: FFAClientId) -> (transport: FFAMsgTransport)
        ensures
            transport.client_id == client_id,
    {
        FFAMsgTransport { client_id }
    }

    /// The client that uses the transport.
    pub fn get_client_id(&self) -> (id: u16)
        ensures
            id == self.client_id,
    {
        self.client_id
    }

    /// Most entries that a virtqueue may have.
    pub fn max_queue_size(&self, queue: u16) -> (size: u32)
        ensures
            size == VSOCK_QUEUE_SIZE,
    {
        VSOCK_QUEUE_SIZE
    }

    /// The virtqueues always have the legacy layout.
    pub fn requires_legacy_layout(&self) -> (res: bool)
        ensures
            res,
    {
        true
    }

    /// Whether virtqueue `queue` exists and the driver configured it.
    pub fn queue_is_configured(&self, state: &DeviceState, queue: u16) -> (res: bool)
        ensures
            res == (queue < NUM_VQUEUES && state@.vqueues[queue as int] is Some),
    {
        (queue as usize) < NUM_VQUEUES && state.vqueues[queue as usize].is_some()
    }

    /// The bus addresses of the descriptor table, the available ring and the used ring of a
    /// virtqueue.
    pub fn queue_get(&self, state: &DeviceState, queue: u16) -> (addrs: [BusAddress; 3])
        requires
            queue < NUM_VQUEUES,
            state@.vqueues[queue as int] is Some,
        ensures
            addrs@ == queue_addresses(state@.vqueues[queue as int].unwrap()),
    {
        let vq = state.vqueues[queue as usize].unwrap();
        let addrs: [BusAddress; 3] = [vq.desc_table, vq.avail_ring, vq.used_ring];
        assert(addrs@ =~= queue_addresses(vq));
        addrs
    }
}

/// The bus addresses of the three parts of a virtqueue.
pub open spec fn queue_addresses(vq: crate::msg::device::VirtQueue) -> Seq<BusAddress> {
    seq![vq.desc_table, vq.avail_ring, vq.used_ring]
}

/// The device uses the addresses that the driver configured a virtqueue with.
pub proof fn law_configured_addresses_are_used(d: DeviceView, req: SetVqueue)
    requires
        d.wf(),
        req.index < NUM_VQUEUES,
    ensures
        set_vqueue(d, req).state.vqueues[req.index as int] == Some(requested_vqueue(req)),
        queue_addresses(requested_vqueue(req)) == seq![
            req.descriptor_addr,
            req.driver_addr,
            req.device_addr,
        ],
{
}

} // verus!
