//! The device end of the bus.
//!
//! A transport keeps one vsock device for each client VM. The devices answer virtio-msg requests
//! (see [`handle_req`]) and keep track of the memory that their clients share (see [`hal`]).

use vstd::prelude::*;

use crate::msg::{BusAddress, MAX_NUM_SHM};
use crate::proto::VIRTIO_CONFIG_S_DRIVER_OK;

pub mod hal;
pub mod handle_req;
pub mod requests;
pub mod transport;

verus! {

/// Identifies a client VM.
pub type FFAClientId = u16;

/// Identifies memory that a client shared over FF-A.
pub type FFAMemHandle = u64;

/// Most entries that a virtqueue of the device may have.
pub const VSOCK_QUEUE_SIZE: u32 = 8;

/// Virtqueues of a vsock device.
pub const NUM_VQUEUES: usize = 3;

/// A virtqueue that the driver configured.
#[derive(Clone, Copy, Debug, PartialEq, Eq, Structural)]
pub struct VirtQueue {
    pub size: u32,
    pub desc_table: BusAddress,
    pub avail_ring: BusAddress,
    pub used_ring: BusAddress,
}

/// A memory object of a client that is mapped into the kernel.
#[derive(Clone, Copy, Debug, PartialEq, Eq, Structural)]
pub struct MemObj {
    /// Tells the mapped objects apart.
    pub token: u64,
    /// First virtual address of the mapping.
    pub vaddr: u64,
    /// Bytes in the mapping.
    pub size: u64,
}

impl MemObj {
    /// A mapping does not start at address zero and does not reach past the last address.
    pub open spec fn wf(self) -> bool {
        &&& self.vaddr != 0
        &&& self.vaddr + self.size <= 0x1_0000_0000_0000_0000
    }
}

/// What the driver set up of a device.
#[derive(Debug)]
pub struct DeviceState {
    pub status: u32,
    pub memory_map: Vec<Option<MemObj>>,
    pub share_requests: Vec<Option<FFAMemHandle>>,
    pub vqueues: [Option<VirtQueue>; NUM_VQUEUES],
    pub threads_started: bool,
}

/// The abstract value of a [`DeviceState`].
#[verifier::ext_equal]
pub struct DeviceStateView {
    pub status: u32,
    pub memory_map: Seq<Option<MemObj>>,
    pub share_requests: Seq<Option<FFAMemHandle>>,
    pub vqueues: Seq<Option<VirtQueue>>,
    pub threads_started: bool,
}

impl View for DeviceState {
    type V = DeviceStateView;

    open spec fn view(&self) -> DeviceStateView {
        DeviceStateView {
            status: self.status,
            memory_map: self.memory_map@,
            share_requests: self.share_requests@,
            vqueues: self.vqueues@,
            threads_started: self.threads_started,
        }
    }
}

/// A table with an empty entry for each area.
pub open spec fn empty_table<T>() -> Seq<Option<T>> {
    Seq::new(MAX_NUM_SHM as nat, |i: int| None)
}

/// The virtqueues of a device before the driver configures any.
pub open spec fn no_vqueues() -> Seq<Option<VirtQueue>> {
    seq![None, None, None]
}

/// Whether a table of memory objects has an entry for each area, all of them valid.
pub open spec fn mem_table_wf(table: Seq<Option<MemObj>>) -> bool {
    &&& table.len() == MAX_NUM_SHM
    &&& forall|i: int|
        0 <= i < table.len() ==> match #[trigger] table[i] {
            Some(obj) => obj.wf(),
            None => true,
        }
}

impl DeviceStateView {
    pub open spec fn wf(self) -> bool {
        &&& mem_table_wf(self.memory_map)
        &&& self.share_requests.len() == MAX_NUM_SHM
        &&& self.vqueues.len() == NUM_VQUEUES
    }

    /// The state of a device that no client has used.
    pub open spec fn fresh() -> DeviceStateView {
        DeviceStateView {
            status: 0,
            memory_map: empty_table(),
            share_requests: empty_table(),
            vqueues: no_vqueues(),
            threads_started: false,
        }
    }
}

/// A table with an empty entry for each area.
fn new_mem_table() -> (table: Vec<Option<MemObj>>)
    ensures
        table@ == empty_table::<MemObj>(),
{
    let mut table: Vec<Option<MemObj>> = Vec::new();
    while table.len() < MAX_NUM_SHM
        invariant
            table@.len() <= MAX_NUM_SHM,
            forall|i: int| 0 <= i < table@.len() ==> table@[i] is None,
        decreases MAX_NUM_SHM - table@.len(),
    {
        table.push(None);
    }
    assert(table@ =~= empty_table::<MemObj>());
    table
}

impl DeviceState {
    /// The state of a device that no client has used.
    pub fn new() -> (state: DeviceState)
        ensures
            state@ == DeviceStateView::fresh(),
            state@.wf(),
    {
        let mut share_requests: Vec<Option<FFAMemHandle>> = Vec::new();
        while share_requests.len() < MAX_NUM_SHM
            invariant
                share_requests@.len() <= MAX_NUM_SHM,
                forall|i: int| 0 <= i < share_requests@.len() ==> share_requests@[i] is None,
            decreases MAX_NUM_SHM - share_requests@.len(),
        {
            share_requests.push(None);
        }
        let state = DeviceState {
            status: 0,
            memory_map: new_mem_table(),
            share_requests,
            vqueues: [None, None, None],
            threads_started: false,
        };
        assert(state@ =~= DeviceStateView::fresh());
        state
    }

    /// Resets everything but the memory map, for another client. The mapped objects have to be
    /// unmapped one by one (see [`VirtioMsgDevice::unmap_memory`]).
    pub fn reset(&mut self)
        requires
            old(self)@.wf(),
        ensures
            final(self)@ == (DeviceStateView {
                memory_map: old(self)@.memory_map,
                ..DeviceStateView::fresh()
            }),
    {
        self.status = 0;
        let mut n: usize = 0;
        while n < MAX_NUM_SHM
            invariant
                n <= MAX_NUM_SHM,
                self.share_requests@.len() == MAX_NUM_SHM,
                self.memory_map@ == old(self)@.memory_map,
                self.status == 0,
                forall|i: int| 0 <= i < n ==> self.share_requests@[i] is None,
            decreases MAX_NUM_SHM - n,
        {
            self.share_requests[n] = None;
            n = n + 1;
        }
        self.vqueues = [None, None, None];
        self.threads_started = false;
        assert(self@ =~= (DeviceStateView {
            memory_map: old(self)@.memory_map,
            ..DeviceStateView::fresh()
        }));
    }
}

/// The vsock device of one client.
#[derive(Debug)]
pub struct VirtioMsgDevice {
    pub guest_cid: u32,
    pub state: DeviceState,
    /// Mapped objects that the client no longer shares, until they are unmapped.
    pub unshare_requests: Vec<Option<MemObj>>,
    /// Whether the client is being torn down.
    pub peer_dying: bool,
    /// Whether the threads of the device have events by which they can be stopped.
    pub vsock_evts: bool,
}

/// The abstract value of a [`VirtioMsgDevice`].
#[verifier::ext_equal]
pub struct DeviceView {
    pub guest_cid: u32,
    pub state: DeviceStateView,
    pub unshare_requests: Seq<Option<MemObj>>,
    pub peer_dying: bool,
    pub vsock_evts: bool,
}

impl View for VirtioMsgDevice {
    type V = DeviceView;

    open spec fn view(&self) -> DeviceView {
        DeviceView {
            guest_cid: self.guest_cid,
            state: self.state@,
            unshare_requests: self.unshare_requests@,
            peer_dying: self.peer_dying,
            vsock_evts: self.vsock_evts,
        }
    }
}

impl DeviceView {
    pub open spec fn wf(self) -> bool {
        &&& self.state.wf()
        &&& mem_table_wf(self.unshare_requests)
    }

    /// A device that no client has used.
    pub open spec fn fresh(guest_cid: u32) -> DeviceView {
        DeviceView {
            guest_cid,
            state: DeviceStateView::fresh(),
            unshare_requests: empty_table(),
            peer_dying: false,
            vsock_evts: false,
        }
    }

    /// Whether the driver finished the setup of the device.
    pub open spec fn driver_ok(self) -> bool {
        self.state.status & VIRTIO_CONFIG_S_DRIVER_OK != 0
    }
}

/// The objects in the first `n` entries of two tables, entry by entry, those of `mapped` first.
pub open spec fn objects_in(
    mapped: Seq<Option<MemObj>>,
    unshared: Seq<Option<MemObj>>,
    n: nat,
) -> Seq<MemObj>
    decreases n,
{
    if n == 0 {
        seq![]
    } else {
        let i = n - 1;
        objects_in(mapped, unshared, i as nat) + option_seq(mapped[i]) + option_seq(unshared[i])
    }
}

/// The value in an option, if there is one, as a sequence.
pub open spec fn option_seq<T>(value: Option<T>) -> Seq<T> {
    match value {
        Some(v) => seq![v],
        None => seq![],
    }
}

impl VirtioMsgDevice {
    /// A device that no client has used.
    pub fn new(guest_cid: u32) -> (device: VirtioMsgDevice)
        ensures
            device@ == DeviceView::fresh(guest_cid),
            device@.wf(),
    {
        VirtioMsgDevice {
            guest_cid,
            state: DeviceState::new(),
            unshare_requests: new_mem_table(),
            peer_dying: false,
            vsock_evts: false,
        }
    }

    /// Takes every memory object out of the device: those that are in use, and those that the
    /// client stopped sharing but that were not unmapped yet. The caller has to unmap them.
    pub fn unmap_memory(&mut self) -> (objects: Vec<MemObj>)
        requires
            old(self)@.wf(),
        ensures
            objects@ == objects_in(
                old(self)@.state.memory_map,
                old(self)@.unshare_requests,
                MAX_NUM_SHM as nat,
            ),
            final(self)@ == (DeviceView {
                state: DeviceStateView { memory_map: empty_table(), ..old(self)@.state },
                unshare_requests: empty_table(),
                ..old(self)@
            }),
    {
        let mut objects: Vec<MemObj> = Vec::new();
        let ghost start = self@;
        let mut n: usize = 0;
        while n < MAX_NUM_SHM
            invariant
                n <= MAX_NUM_SHM,
                start == old(self)@,
                start.wf(),
                objects@ == objects_in(start.state.memory_map, start.unshare_requests, n as nat),
                self@ == (DeviceView {
                    state: DeviceStateView { memory_map: self@.state.memory_map, ..start.state },
                    unshare_requests: self@.unshare_requests,
                    ..start
                }),
                self@.state.memory_map.len() == MAX_NUM_SHM,
                self@.unshare_requests.len() == MAX_NUM_SHM,
                forall|i: int| 0 <= i < n ==> self@.state.memory_map[i] is None,
                forall|i: int| 0 <= i < n ==> self@.unshare_requests[i] is None,
                forall|i: int|
                    n <= i < MAX_NUM_SHM ==> self@.state.memory_map[i]
                        == start.state.memory_map[i],
                forall|i: int|
                    n <= i < MAX_NUM_SHM ==> self@.unshare_requests[i]
                        == start.unshare_requests[i],
            decreases MAX_NUM_SHM - n,
        {
            let ghost before = objects@;
            let mapped = self.state.memory_map[n];
            self.state.memory_map[n] = None;
            if let Some(obj) = mapped {
                objects.push(obj);
            }
            assert(objects@ =~= before + option_seq(start.state.memory_map[n as int]));
            let unshared = self.unshare_requests[n];
            self.unshare_requests[n] = None;
            if let Some(obj) = unshared {
                objects.push(obj);
            }
            assert(objects@ =~= before + option_seq(start.state.memory_map[n as int]) + option_seq(
                start.unshare_requests[n as int],
            ));
            n = n + 1;
        }
        assert(self@.state.memory_map =~= empty_table::<MemObj>());
        assert(self@.unshare_requests =~= empty_table::<MemObj>());
        objects
    }

    /// Marks the threads of a device as started if its driver finished the setup. Says whether the
    /// threads have to be started now.
    pub fn set_threads_started_if_ready(&mut self) -> (start: bool)
        requires
            old(self)@.wf(),
        ensures
            start == (old(self)@.driver_ok() && !old(self)@.state.threads_started),
            final(self)@ == old(self)@.after_start(),
            final(self)@.wf(),
    {
        if self.state.status & VIRTIO_CONFIG_S_DRIVER_OK == 0 {
            return false;
        }
        let threads_started: bool = self.state.threads_started;
        self.state.threads_started = true;
        !threads_started
    }
}

impl DeviceView {
    /// The device after its threads were started, if its driver finished the setup.
    pub open spec fn after_start(self) -> DeviceView {
        DeviceView {
            state: DeviceStateView {
                threads_started: self.state.threads_started || self.driver_ok(),
                ..self.state
            },
            ..self
        }
    }

    /// Whether the threads of the device have to be started.
    pub open spec fn needs_start(self) -> bool {
        self.driver_ok() && !self.state.threads_started
    }
}

/// The devices of all client VMs. Each client has one vsock device.
#[derive(Debug)]
pub struct VirtioMsgTransport {
    pub devices: Vec<VirtioMsgDevice>,
    pub vm_ids: Vec<Option<FFAClientId>>,
}

/// The abstract value of a [`VirtioMsgTransport`].
#[verifier::ext_equal]
pub struct TransportView {
    pub devices: Seq<DeviceView>,
    pub vm_ids: Seq<Option<FFAClientId>>,
}

impl View for VirtioMsgTransport {
    type V = TransportView;

    open spec fn view(&self) -> TransportView {
        TransportView {
            devices: Seq::new(self.devices@.len(), |i: int| self.devices@[i]@),
            vm_ids: self.vm_ids@,
        }
    }
}

/// Whether slot `n` belongs to client `client_id` or to nobody.
pub open spec fn slot_fits(
    vm_ids: Seq<Option<FFAClientId>>,
    client_id: FFAClientId,
    n: int,
) -> bool {
    vm_ids[n] is None || vm_ids[n] == Some(client_id)
}

/// The first slot at or after `n` that belongs to client `client_id` or to nobody, or the number
/// of slots if there is none.
pub open spec fn slot_from(
    vm_ids: Seq<Option<FFAClientId>>,
    client_id: FFAClientId,
    n: nat,
) -> nat
    decreases vm_ids.len() - n,
{
    if n >= vm_ids.len() {
        vm_ids.len()
    } else if slot_fits(vm_ids, client_id, n as int) {
        n
    } else {
        slot_from(vm_ids, client_id, n + 1)
    }
}

/// The slot of client `client_id`.
pub open spec fn slot_of(vm_ids: Seq<Option<FFAClientId>>, client_id: FFAClientId) -> nat {
    slot_from(vm_ids, client_id, 0)
}

pub proof fn lemma_slot_from(vm_ids: Seq<Option<FFAClientId>>, client_id: FFAClientId, n: nat)
    requires
        n <= vm_ids.len(),
    ensures
        n <= slot_from(vm_ids, client_id, n) <= vm_ids.len(),
        slot_from(vm_ids, client_id, n) < vm_ids.len() ==> slot_fits(
            vm_ids,
            client_id,
            slot_from(vm_ids, client_id, n) as int,
        ),
        forall|i: int|
            n <= i < slot_from(vm_ids, client_id, n) ==> !slot_fits(vm_ids, client_id, i),
    decreases vm_ids.len() - n,
{
    if n < vm_ids.len() && !slot_fits(vm_ids, client_id, n as int) {
        lemma_slot_from(vm_ids, client_id, n + 1);
    }
}

impl TransportView {
    /// Slots are taken in order, no client has two of them, and a device whose slot is free is as
    /// new.
    pub open spec fn wf(self) -> bool {
        &&& self.devices.len() == self.vm_ids.len()
        &&& forall|i: int| 0 <= i < self.devices.len() ==> #[trigger] self.devices[i].wf()
        &&& forall|i: int, j: int|
            #![trigger self.vm_ids[i], self.vm_ids[j]]
            0 <= i < j < self.vm_ids.len() && self.vm_ids[j] is Some ==> self.vm_ids[i] is Some
                && self.vm_ids[i] != self.vm_ids[j]
        &&& forall|i: int|
            0 <= i < self.devices.len() && self.vm_ids[i] is None ==> #[trigger] self.devices[i]
                == DeviceView::fresh(self.devices[i].guest_cid)
    }

    /// Whether client `client_id` has a device, or can get one.
    pub open spec fn has_slot(self, client_id: FFAClientId) -> bool {
        slot_of(self.vm_ids, client_id) < self.vm_ids.len()
    }

    /// The transport with client `client_id` registered and its device replaced by `device`.
    pub open spec fn with_device(self, client_id: FFAClientId, device: DeviceView) -> TransportView {
        let n = slot_of(self.vm_ids, client_id) as int;
        TransportView {
            devices: self.devices.update(n, device),
            vm_ids: self.vm_ids.update(n, Some(client_id)),
        }
    }

    /// The device of client `client_id`.
    pub open spec fn device_of(self, client_id: FFAClientId) -> DeviceView {
        self.devices[slot_of(self.vm_ids, client_id) as int]
    }

    /// The first slot at or after `n` whose device needs its threads started, or the number of slots
    /// if there is none.
    pub open spec fn next_start(self, n: nat) -> nat
        decreases self.devices.len() - n,
    {
        if n >= self.devices.len() {
            self.devices.len()
        } else if self.devices[n as int].needs_start() {
            n
        } else {
            self.next_start(n + 1)
        }
    }

    /// The transport after the threads of the device in slot `n` were started.
    pub open spec fn with_started(self, n: nat) -> TransportView {
        TransportView {
            devices: self.devices.update(n as int, self.devices[n as int].after_start()),
            ..self
        }
    }
}

/// Replacing the device of a registered client keeps the transport valid.
pub proof fn lemma_with_device_wf(t: TransportView, client_id: FFAClientId, device: DeviceView)
    requires
        t.wf(),
        t.has_slot(client_id),
        device.wf(),
    ensures
        t.with_device(client_id, device).wf(),
        slot_of(t.with_device(client_id, device).vm_ids, client_id) == slot_of(
            t.vm_ids,
            client_id,
        ),
{
    let n = slot_of(t.vm_ids, client_id);
    let after = t.with_device(client_id, device);
    lemma_slot_from(t.vm_ids, client_id, 0);
    lemma_slot_from(after.vm_ids, client_id, 0);
    let n2 = slot_of(after.vm_ids, client_id);
    assert(slot_fits(after.vm_ids, client_id, n as int));
    if n2 < n {
        assert(after.vm_ids[n2 as int] == t.vm_ids[n2 as int]);
        assert(!slot_fits(t.vm_ids, client_id, n2 as int));
        assert(slot_fits(after.vm_ids, client_id, n2 as int));
    }
    assert(n2 == n);
    assert forall|i: int, j: int|
        #![trigger after.vm_ids[i], after.vm_ids[j]]
        0 <= i < j < after.vm_ids.len() && after.vm_ids[j] is Some implies after.vm_ids[i] is Some
        && after.vm_ids[i] != after.vm_ids[j] by {
        if i < n {
            assert(!slot_fits(t.vm_ids, client_id, i));
        }
        assert(t.vm_ids[i] == t.vm_ids[i] && t.vm_ids[j] == t.vm_ids[j]);
    }
}

/// A client always gets the same device: registering any client leaves the slots of all
/// registered clients as they are.
pub proof fn law_registration_is_stable(
    t: TransportView,
    client_id: FFAClientId,
    other: FFAClientId,
    device: DeviceView,
)
    requires
        t.wf(),
        t.has_slot(client_id),
        t.vm_ids.contains(Some(other)),
    ensures
        slot_of(t.with_device(client_id, device).vm_ids, other) == slot_of(t.vm_ids, other),
        other != client_id ==> t.with_device(client_id, device).device_of(other) == t.device_of(
            other,
        ),
{
    let after = t.with_device(client_id, device);
    let n = slot_of(t.vm_ids, client_id) as int;
    let k = t.vm_ids.index_of(Some(other));
    lemma_slot_from(t.vm_ids, client_id, 0);
    lemma_slot_from(t.vm_ids, other, 0);
    lemma_slot_from(after.vm_ids, other, 0);
    assert forall|i: int| 0 <= i < k implies !slot_fits(t.vm_ids, other, i) by {
        assert(t.vm_ids[i] is Some && t.vm_ids[i] != t.vm_ids[k]);
    }
    assert(slot_fits(t.vm_ids, other, k));
    assert(slot_of(t.vm_ids, other) == k);
    if other == client_id {
        assert(after.vm_ids =~= t.vm_ids);
    } else {
        assert(n != k);
        assert forall|i: int| 0 <= i < k implies !slot_fits(after.vm_ids, other, i) by {
            assert(!slot_fits(t.vm_ids, other, i));
        }
        assert(slot_fits(after.vm_ids, other, k));
    }
}

/// Two clients never share a device.
pub proof fn law_clients_have_devices_of_their_own(
    t: TransportView,
    client_id: FFAClientId,
    other: FFAClientId,
    device: DeviceView,
)
    requires
        t.wf(),
        t.has_slot(client_id),
        t.with_device(client_id, device).has_slot(other),
        client_id != other,
    ensures
        slot_of(t.with_device(client_id, device).vm_ids, other) != slot_of(
            t.with_device(client_id, device).vm_ids,
            client_id,
        ),
{
    let after = t.with_device(client_id, device);
    lemma_slot_from(t.vm_ids, client_id, 0);
    lemma_slot_from(after.vm_ids, other, 0);
    lemma_slot_from(after.vm_ids, client_id, 0);
    let n = slot_of(t.vm_ids, client_id) as int;
    assert(!slot_fits(after.vm_ids, other, n));
    let n2 = slot_of(after.vm_ids, client_id) as int;
    if n2 < n {
        assert(!slot_fits(t.vm_ids, client_id, n2));
    }
    assert(slot_fits(after.vm_ids, client_id, n));
}

impl VirtioMsgTransport {
    /// A transport for `num_vms` clients.
    pub fn new(num_vms: usize, guest_cid: u32) -> (transport: VirtioMsgTransport)
        ensures
            transport@.wf(),
            transport@.devices.len() == num_vms,
            forall|i: int|
                0 <= i < num_vms ==> #[trigger] transport@.devices[i] == DeviceView::fresh(
                    guest_cid,
                ),
            forall|i: int| 0 <= i < num_vms ==> #[trigger] transport@.vm_ids[i] is None,
    {
        let mut devices: Vec<VirtioMsgDevice> = Vec::new();
        let mut vm_ids: Vec<Option<FFAClientId>> = Vec::new();
        while devices.len() < num_vms
            invariant
                devices@.len() <= num_vms,
                vm_ids@.len() == devices@.len(),
                forall|i: int|
                    0 <= i < devices@.len() ==> (#[trigger] devices@[i])@ == DeviceView::fresh(
                        guest_cid,
                    ),
                forall|i: int| 0 <= i < devices@.len() ==> (#[trigger] devices@[i])@.wf(),
                forall|i: int| 0 <= i < vm_ids@.len() ==> #[trigger] vm_ids@[i] is None,
            decreases num_vms - devices@.len(),
        {
            devices.push(VirtioMsgDevice::new(guest_cid));
            vm_ids.push(None);
        }
        let transport = VirtioMsgTransport { devices, vm_ids };
        assert forall|i: int| 0 <= i < num_vms implies (#[trigger] transport@.devices[i]).wf()
            && transport@.devices[i] == DeviceView::fresh(guest_cid) by {
            assert(transport.devices@[i]@.wf());
        }
        transport
    }

    /// Finds the slot of a client, and registers the client if it is new.
    pub fn register(&mut self, client_id: FFAClientId) -> (n: usize)
        requires
            old(self)@.wf(),
            old(self)@.has_slot(client_id),
        ensures
            n == slot_of(old(self)@.vm_ids, client_id),
            n < final(self).devices@.len(),
            final(self).devices == old(self).devices,
            final(self)@.vm_ids == old(self)@.vm_ids.update(n as int, Some(client_id)),
            final(self)@.wf(),
    {
        let len: usize = self.vm_ids.len();
        let mut n: usize = 0;
        loop
            invariant
                *self == *old(self),
                len == self.vm_ids@.len(),
                self@.wf(),
                self@.has_slot(client_id),
                n < self.vm_ids@.len(),
                slot_from(self.vm_ids@, client_id, n as nat) == slot_of(self.vm_ids@, client_id),
            decreases self.vm_ids@.len() - n,
        {
            match self.vm_ids[n] {
                Some(registered_id) if registered_id == client_id => {
                    assert(self.vm_ids@.update(n as int, Some(client_id)) =~= self.vm_ids@);
                    return n;
                },
                Some(_) => {},
                None => {
                    self.vm_ids[n] = Some(client_id);
                    proof {
                        let start = old(self)@;
                        assert(start.devices[n as int].wf());
                        lemma_with_device_wf(start, client_id, start.devices[n as int]);
                        assert(self@ =~= start.with_device(client_id, start.devices[n as int]));
                    }
                    return n;
                },
            }
            proof {
                lemma_slot_from(self.vm_ids@, client_id, (n + 1) as nat);
            }
            n = n + 1;
        }
    }

    /// The device of a client. A client that is not known yet gets the first free one.
    pub fn get_device(&mut self, client_id: FFAClientId) -> (device: &mut VirtioMsgDevice)
        requires
            old(self)@.wf(),
            old(self)@.has_slot(client_id),
        ensures
            device@ == old(self)@.device_of(client_id),
            device@.wf(),
            final(self)@ == old(self)@.with_device(client_id, final(device)@),
            final(device)@.wf() ==> final(self)@.wf(),
    {
        let n: usize = self.register(client_id);
        proof {
            assert(old(self)@.devices[n as int].wf());
            assert forall|d: DeviceView| d.wf() implies #[trigger] old(self)@.with_device(
                client_id,
                d,
            ).wf() by {
                lemma_with_device_wf(old(self)@, client_id, d);
            }
        }
        let device = &mut self.devices[n];
        device
    }
}

impl VirtioMsgTransport {
    /// Whether a client has a device, or can get one.
    pub fn can_register(&self, client_id: FFAClientId) -> (res: bool)
        ensures
            res == self@.has_slot(client_id),
    {
        let len: usize = self.vm_ids.len();
        let mut n: usize = 0;
        while n < len
            invariant
                n <= len,
                len == self.vm_ids@.len(),
                slot_from(self.vm_ids@, client_id, n as nat) == slot_of(self.vm_ids@, client_id),
            decreases len - n,
        {
            match self.vm_ids[n] {
                Some(registered_id) => {
                    if registered_id == client_id {
                        return true;
                    }
                },
                None => {
                    return true;
                },
            }
            n = n + 1;
        }
        false
    }

    /// Goes through the devices from slot `from` on after a driver finished its setup. Returns the
    /// next slot whose threads have to be started now, with the client that owns it.
    pub fn virtio_msg_deferred_init(&mut self, from: usize) -> (next: Option<(usize, FFAClientId)>)
        requires
            old(self)@.wf(),
        ensures
            ({
                let k = old(self)@.next_start(from as nat);
                if k < old(self)@.devices.len() {
                    &&& next matches Some((n, client_id))
                    &&& n == k
                    &&& old(self)@.vm_ids[n as int] == Some(client_id)
                    &&& final(self)@ == old(self)@.with_started(k)
                } else {
                    next is None && final(self)@ == old(self)@
                }
            }),
            final(self)@.wf(),
    {
        let ghost start = self@;
        let len: usize = self.devices.len();
        let mut n: usize = from;
        while n < len
            invariant
                start == old(self)@,
                start.wf(),
                len == start.devices.len(),
                len == self.devices@.len(),
                self@ == start,
                start.next_start(from as nat) == start.next_start(n as nat),
            decreases len - n,
        {
            let ghost before = start.devices[n as int];
            proof {
                assert(before.wf());
                if start.vm_ids[n as int] is None {
                    lemma_fresh_is_not_ready(before);
                }
            }
            let device = &mut self.devices[n];
            let started: bool = device.set_threads_started_if_ready();
            assert(self@ =~= start.with_started(n as nat));
            if started {
                proof {
                    lemma_started_wf(start, n as nat);
                }
                if let Some(client_id) = self.vm_ids[n] {
                    return Some((n, client_id));
                }
            }
            assert(before.after_start() == before);
            assert(start.with_started(n as nat) =~= start);
            n = n + 1;
        }
        None
    }

    /// Tells the device of a client that the client is being torn down. The caller then has to wake
    /// the threads of that device, whose slot is returned. The low 16 bits of `client_id` identify
    /// the client.
    pub fn virtio_msg_vm_destroy(&mut self, client_id: u64) -> (n: usize)
        requires
            old(self)@.wf(),
            old(self)@.has_slot(client_id as FFAClientId),
            old(self)@.device_of(client_id as FFAClientId).vsock_evts,
        ensures
            n == slot_of(old(self)@.vm_ids, client_id as FFAClientId),
            final(self)@ == old(self)@.with_device(
                client_id as FFAClientId,
                (DeviceView {
                    peer_dying: true,
                    ..old(self)@.device_of(client_id as FFAClientId)
                }),
            ),
            final(self)@.wf(),
    {
        let id: FFAClientId = #[verifier::truncate]
        (client_id as FFAClientId);
        proof {
            let n = slot_of(self@.vm_ids, id) as int;
            lemma_slot_from(self@.vm_ids, id, 0);
            assert(self@.devices[n].wf());
            lemma_with_device_wf(
                self@,
                id,
                DeviceView { peer_dying: true, ..self@.device_of(id) },
            );
        }
        let n: usize = self.register(id);
        let device = &mut self.devices[n];
        device.peer_dying = true;
        assert(self@ =~= old(self)@.with_device(
            id,
            DeviceView { peer_dying: true, ..old(self)@.device_of(id) },
        ));
        n
    }
}

/// A device that no client has used is not ready to be started.
proof fn lemma_fresh_is_not_ready(d: DeviceView)
    requires
        d == DeviceView::fresh(d.guest_cid),
    ensures
        !d.driver_ok(),
        !d.needs_start(),
        d.after_start() == d,
{
    assert(0u32 & 4u32 == 0u32) by (bit_vector);
}

/// Starting the threads of a device that a client owns keeps the transport valid.
proof fn lemma_started_wf(t: TransportView, n: nat)
    requires
        t.wf(),
        n < t.devices.len(),
        t.devices[n as int].needs_start(),
    ensures
        t.vm_ids[n as int] is Some,
        t.with_started(n).wf(),
{
    if t.vm_ids[n as int] is None {
        lemma_fresh_is_not_ready(t.devices[n as int]);
    }
    let after = t.with_started(n);
    assert forall|i: int| 0 <= i < after.devices.len() implies (#[trigger] after.devices[i]).wf() by {
        assert(t.devices[i].wf());
    }
}

/// The threads of a device are started once its driver finished the setup, and only once: going
/// through the devices leaves out none that is ready, and a device that was started is not found
/// again.
pub proof fn law_ready_devices_are_started_once(t: TransportView, from: nat)
    requires
        from <= t.devices.len(),
    ensures
        from <= t.next_start(from) <= t.devices.len(),
        forall|i: int| from <= i < t.next_start(from) ==> !(#[trigger] t.devices[i]).needs_start(),
        t.next_start(from) < t.devices.len() ==> {
            &&& t.devices[t.next_start(from) as int].needs_start()
            &&& !t.with_started(t.next_start(from)).devices[t.next_start(
                from,
            ) as int].needs_start()
        },
    decreases t.devices.len() - from,
{
    if from < t.devices.len() && !t.devices[from as int].needs_start() {
        law_ready_devices_are_started_once(t, from + 1);
    }
}

impl VirtioMsgDevice {
    /// Records that the threads of the device have events by which they can be stopped.
    pub fn set_vsock_evts(&mut self)
        ensures
            final(self)@ == (DeviceView { vsock_evts: true, ..old(self)@ }),
    {
        self.vsock_evts = true;
    }

    /// Resets a device whose threads have stopped, so that it is as new. Returns the memory objects
    /// that the caller has to unmap.
    pub fn virtio_msg_cleanup(&mut self) -> (objects: Vec<MemObj>)
        requires
            old(self)@.wf(),
            old(self)@.vsock_evts,
        ensures
            objects@ == objects_in(
                old(self)@.state.memory_map,
                old(self)@.unshare_requests,
                MAX_NUM_SHM as nat,
            ),
            final(self)@ == DeviceView::fresh(old(self)@.guest_cid),
            final(self)@.wf(),
    {
        let objects = self.unmap_memory();
        self.state.reset();
        self.peer_dying = false;
        self.vsock_evts = false;
        assert(self@ =~= DeviceView::fresh(old(self)@.guest_cid));
        objects
    }
}

/// Whether `cid` may be the context id of a guest: 0, 1, 2 and the largest number are reserved.
pub open spec fn guest_cid_allowed(cid: u32) -> bool {
    2 < cid < u32::MAX
}

/// Whether `cid` may be the context id of a guest.
pub fn is_guest_cid(cid: u32) -> (res: bool)
    ensures
        res == guest_cid_allowed(cid),
{
    !(cid <= 2 || cid == u32::MAX)
}

/// The decimal digits of `n`, as ASCII.
pub open spec fn decimal(n: nat) -> Seq<u8>
    decreases n,
{
    if n < 10 {
        seq![(48 + n) as u8]
    } else {
        decimal(n / 10).push((48 + n % 10) as u8)
    }
}

/// The number that `digits` are the decimal digits of.
pub open spec fn decimal_value(digits: Seq<u8>) -> nat
    decreases digits.len(),
{
    if digits.len() == 0 {
        0
    } else {
        10 * decimal_value(digits.drop_last()) + (digits.last() - 48) as nat
    }
}

proof fn lemma_decimal_value(n: nat)
    ensures
        decimal_value(decimal(n)) == n,
        forall|i: int| 0 <= i < decimal(n).len() ==> 48 <= #[trigger] decimal(n)[i] <= 57,
    decreases n,
{
    if n < 10 {
        assert(decimal(n).drop_last() =~= seq![]);
        assert(decimal_value(Seq::<u8>::empty()) == 0);
    } else {
        lemma_decimal_value(n / 10);
        assert(decimal(n).drop_last() =~= decimal(n / 10));
    }
}

/// The bytes of `vsock-tx-loop-`.
pub open spec fn tx_event_prefix() -> Seq<u8> {
    seq![118, 115, 111, 99, 107, 45, 116, 120, 45, 108, 111, 111, 112, 45]
}

/// The name of the event that stops the transmit loop of client `client_id`.
pub open spec fn tx_event_name_of(client_id: FFAClientId) -> Seq<u8> {
    tx_event_prefix() + decimal(client_id as nat)
}

/// Each client has an event name of its own.
pub proof fn law_tx_event_names_are_unique(a: FFAClientId, b: FFAClientId)
    requires
        tx_event_name_of(a) == tx_event_name_of(b),
    ensures
        a == b,
{
    lemma_decimal_value(a as nat);
    lemma_decimal_value(b as nat);
    let (na, nb) = (tx_event_name_of(a), tx_event_name_of(b));
    assert(na.skip(14) =~= decimal(a as nat));
    assert(nb.skip(14) =~= decimal(b as nat));
}

/// An event name has no zero byte, so it can be handed over as a C string.
pub proof fn law_tx_event_name_has_no_zero_byte(client_id: FFAClientId)
    ensures
        forall|i: int|
            0 <= i < tx_event_name_of(client_id).len() ==> #[trigger] tx_event_name_of(
                client_id,
            )[i] != 0,
{
    lemma_decimal_value(client_id as nat);
}

/// Appends the decimal digits of `n`.
fn push_decimal(name: &mut Vec<u8>, n: u16)
    ensures
        final(name)@ == old(name)@ + decimal(n as nat),
    decreases n,
{
    if n >= 10 {
        push_decimal(name, n / 10);
    }
    name.push((48 + n % 10) as u8);
    assert(name@ =~= old(name)@ + decimal(n as nat));
}

/// The name of the event that stops the transmit loop of a client.
pub fn tx_event_name(client_id: FFAClientId) -> (name: Vec<u8>)
    ensures
        name@ == tx_event_name_of(client_id),
{
    let mut name: Vec<u8> = vec![118, 115, 111, 99, 107, 45, 116, 120, 45, 108, 111, 111, 112, 45];
    assert(name@ =~= tx_event_prefix());
    push_decimal(&mut name, client_id);
    name
}

} // verus!
