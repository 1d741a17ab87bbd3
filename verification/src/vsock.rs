//! Connections between vsock peers and TIPC services.
//!
//! The receive side (see [`rx`]) takes events of vsock peers and forwards their data to TIPC. The
//! transmit side (see [`tx`]) takes events of TIPC channels and forwards their data to vsock peers.
//! Both work in turns: a turn starts with an event, and as long as it is not over it names the next
//! call into the kernel or the vsock driver and is continued with what that call returned.

use vstd::prelude::*;

use crate::vsock::connection::{all_wf, views, ConnectionView, VsockConnection};
use crate::vsock::ports::Features;

pub mod connection;
pub mod invariants;
pub mod laws;
pub mod ports;
pub mod rx;
pub mod tx;

verus! {

/// Why the receive loop was woken.
#[derive(Clone, Copy, Debug, PartialEq, Eq, Structural)]
pub struct VsockRxEvent {
    pub wake_reason: u32,
}

impl VsockRxEvent {
    /// No reason.
    pub const NONE: u32 = 0;

    /// The receive loop has to stop.
    pub const TERMINATE: u32 = 1;

    /// Whether the receive loop has to stop.
    pub open spec fn stops(self) -> bool {
        self.wake_reason & VsockRxEvent::TERMINATE != 0
    }

    /// Tells the receive loop to stop. The caller has to wake it then.
    pub fn signal_stop(&mut self)
        ensures
            final(self).wake_reason == old(self).wake_reason | VsockRxEvent::TERMINATE,
            final(self).stops(),
    {
        let reason: u32 = self.wake_reason;
        assert((reason | 1) & 1 != 0) by (bit_vector);
        self.wake_reason = reason | VsockRxEvent::TERMINATE;
    }
}

/// A vsock device or driver with its connections.
#[derive(Debug)]
pub struct VsockDevice {
    pub connections: Vec<VsockConnection>,
    pub features: Features,
    pub rx_event: VsockRxEvent,
}

impl VsockDevice {
    /// The connections.
    pub open spec fn conns(self) -> Seq<ConnectionView> {
        views(self.connections@)
    }

    pub open spec fn wf(self) -> bool {
        all_wf(self.conns())
    }

    /// A device without connections.
    pub fn new(features: Features) -> (device: VsockDevice)
        ensures
            device.wf(),
            device.conns() == Seq::<ConnectionView>::empty(),
            device.features == features,
            device.rx_event.wake_reason == VsockRxEvent::NONE,
            !device.rx_event.stops(),
    {
        assert(0u32 & 1 == 0) by (bit_vector);
        let device = VsockDevice {
            connections: Vec::new(),
            features,
            rx_event: VsockRxEvent { wake_reason: VsockRxEvent::NONE },
        };
        assert(device.conns() =~= Seq::<ConnectionView>::empty());
        device
    }
}

} // verus!
