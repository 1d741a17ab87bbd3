//! Memory that clients share with their devices.
//!
//! A client first asks to share an area (see [`crate::msg::device::handle_req`]). The area is mapped
//! when the device first uses an address in it, and it stays mapped until the client stops sharing
//! it.

use vstd::prelude::*;

use crate::msg::device::handle_req::{area_share, area_unshare, can_share};
use crate::msg::device::{
    empty_table, objects_in, option_seq, DeviceStateView, DeviceView, FFAClientId, FFAMemHandle,
    MemObj, VirtioMsgDevice,
};
use crate::msg::{area_id_and_offset, area_id_of, offset_of, ArchMmuFlags, BusAddress, MAX_NUM_SHM};
use crate::payload::{BusAreaShare, BusAreaUnshare};

verus! {

/// Alignment of a mapping: its address is a multiple of two to this power.
pub const PAGE_SIZE_SHIFT: u8 = 12;

/// Gives the device access to the memory of its clients.
pub struct TrustyDeviceHal;

/// How an area has to be mapped. The whole object is mapped.
#[derive(Clone, Copy, Debug, PartialEq, Eq, Structural)]
pub struct MapRequest {
    pub client_id: u64,
    pub mem_handle: FFAMemHandle,
    pub tag: u64,
    pub offset: u64,
    pub align_log2: u8,
    pub vmm_flags: u32,
    pub arch_mmu_flags: u32,
}

/// What a bus address comes to.
#[derive(Clone, Copy, Debug, PartialEq, Eq, Structural)]
pub enum DmaMap {
    /// It is mapped at this virtual address.
    Mapped(u64),
    /// Its area has to be mapped first.
    MapObject(MapRequest),
}

/// Why a bus address could not be mapped.
#[derive(Clone, Copy, Debug, PartialEq, Eq, Structural)]
pub enum DmaError {
    InvalidParam,
}

/// How the memory behind `mem_handle` has to be mapped for client `client_id`: page aligned and not
/// executable.
pub open spec fn map_request(client_id: FFAClientId, mem_handle: FFAMemHandle) -> MapRequest {
    MapRequest {
        client_id: client_id as u64,
        mem_handle,
        tag: 0,
        offset: 0,
        align_log2: PAGE_SIZE_SHIFT,
        vmm_flags: 0,
        arch_mmu_flags: ArchMmuFlags::PERM_NO_EXECUTE,
    }
}

/// Whether `bus_addr` can be used: it lies inside an area that is mapped, or in an area that the
/// client asked to share.
pub open spec fn can_map(d: DeviceView, bus_addr: BusAddress) -> bool {
    let i = area_id_of(bus_addr) as int;
    &&& i < MAX_NUM_SHM
    &&& match d.state.memory_map[i] {
        Some(obj) => offset_of(bus_addr) < obj.size,
        None => d.state.share_requests[i] is Some,
    }
}

/// What `bus_addr` comes to.
pub open spec fn dma_lookup(d: DeviceView, bus_addr: BusAddress, client_id: FFAClientId) -> DmaMap {
    let i = area_id_of(bus_addr) as int;
    match d.state.memory_map[i] {
        Some(obj) => DmaMap::Mapped((obj.vaddr + offset_of(bus_addr)) as u64),
        None => DmaMap::MapObject(map_request(client_id, d.state.share_requests[i].unwrap())),
    }
}

/// The device after `bus_addr` was looked up: a share request is taken up only once.
pub open spec fn after_lookup(d: DeviceView, bus_addr: BusAddress) -> DeviceView {
    let i = area_id_of(bus_addr) as int;
    match d.state.memory_map[i] {
        Some(_) => d,
        None => DeviceView {
            state: DeviceStateView {
                share_requests: d.state.share_requests.update(i, None),
                ..d.state
            },
            ..d
        },
    }
}

/// The device after the area of `bus_addr` was mapped as `obj`.
pub open spec fn with_object(d: DeviceView, bus_addr: BusAddress, obj: MemObj) -> DeviceView {
    DeviceView {
        state: DeviceStateView {
            memory_map: d.state.memory_map.update(area_id_of(bus_addr) as int, Some(obj)),
            ..d.state
        },
        ..d
    }
}

impl TrustyDeviceHal {
    /// Whether a bus address can be used (see [`can_map`]).
    pub fn can_dma_map(device: &VirtioMsgDevice, bus_addr: BusAddress) -> (res: bool)
        requires
            device@.wf(),
        ensures
            res == can_map(device@, bus_addr),
    {
        let (area_id, area_offset) = area_id_and_offset(bus_addr);
        let i: usize = area_id as usize;
        if i >= MAX_NUM_SHM {
            return false;
        }
        match device.state.memory_map[i] {
            Some(obj) => area_offset < obj.size,
            None => device.state.share_requests[i].is_some(),
        }
    }

    /// Looks up a bus address. If its area is not mapped yet, the share request for the area is
    /// taken, and the caller has to map the object and hand it to
    /// [`TrustyDeviceHal::dma_map_object`].
    pub fn dma_map(device: &mut VirtioMsgDevice, bus_addr: BusAddress, client_id: FFAClientId) -> (
    res: DmaMap)
        requires
            old(device)@.wf(),
            can_map(old(device)@, bus_addr),
        ensures
            res == dma_lookup(old(device)@, bus_addr, client_id),
            final(device)@ == after_lookup(old(device)@, bus_addr),
            final(device)@.wf(),
    {
        let (area_id, area_offset) = area_id_and_offset(bus_addr);
        let i: usize = area_id as usize;
        match device.state.memory_map[i] {
            Some(obj) => {
                assert(obj.wf());
                DmaMap::Mapped(obj.vaddr + area_offset)
            },
            None => {
                let req = device.state.share_requests[i];
                device.state.share_requests[i] = None;
                DmaMap::MapObject(
                    MapRequest {
                        client_id: client_id as u64,
                        mem_handle: req.unwrap(),
                        tag: 0,
                        offset: 0,
                        align_log2: PAGE_SIZE_SHIFT,
                        vmm_flags: 0,
                        arch_mmu_flags: ArchMmuFlags::PERM_NO_EXECUTE,
                    },
                )
            },
        }
    }

    /// Records the object that an area was mapped as, and returns the virtual address of the bus
    /// address. An object that could not be mapped is an error, whatever the reason.
    pub fn dma_map_object(
        device: &mut VirtioMsgDevice,
        bus_addr: BusAddress,
        mapped: Result<MemObj, i32>,
    ) -> (res: Result<u64, DmaError>)
        requires
            old(device)@.wf(),
            area_id_of(bus_addr) < MAX_NUM_SHM,
            mapped matches Ok(obj) ==> obj.wf() && offset_of(bus_addr) < obj.size,
        ensures
            mapped is Err ==> {
                &&& res == Err::<u64, DmaError>(DmaError::InvalidParam)
                &&& final(device)@ == old(device)@
            },
            mapped matches Ok(obj) ==> {
                &&& res == Ok::<u64, DmaError>((obj.vaddr + offset_of(bus_addr)) as u64)
                &&& final(device)@ == with_object(old(device)@, bus_addr, obj)
            },
            res matches Ok(addr) ==> addr != 0,
            final(device)@.wf(),
    {
        let (area_id, area_offset) = area_id_and_offset(bus_addr);
        match mapped {
            Ok(obj) => {
                device.state.memory_map[area_id as usize] = Some(obj);
                Ok(obj.vaddr + area_offset)
            },
            Err(_) => Err(DmaError::InvalidParam),
        }
    }

    /// Does nothing and reports success: several bus addresses may lie in one object, so an object
    /// is only unmapped once the client stops sharing its area.
    pub fn dma_unmap(bus_addr: BusAddress, vaddr: u64, pages: usize) -> (status: i32)
        ensures
            status == 0,
    {
        0
    }
}

/// What the thread that unmaps memory has to do when it was woken.
#[derive(Clone, Copy, Debug, PartialEq, Eq, Structural)]
pub enum MemoryUnmap {
    /// The client is gone: wait for the other threads, clean up the device and stop.
    Stop,
    /// Unmap the objects that were taken.
    Unmap,
}

/// One round of the thread that unmaps memory: takes all objects that are to be unmapped out of the
/// device, unless the client is gone. The objects are put behind those in `ext_mem_objs`, for which
/// the caller can reserve space before it locks the device.
pub fn memory_unmap(device: &mut VirtioMsgDevice, ext_mem_objs: &mut Vec<MemObj>) -> (action:
    MemoryUnmap)
    requires
        old(device)@.wf(),
    ensures
        old(device)@.peer_dying ==> {
            &&& action == MemoryUnmap::Stop
            &&& final(ext_mem_objs)@ == old(ext_mem_objs)@
            &&& final(device)@ == old(device)@
        },
        !old(device)@.peer_dying ==> {
            &&& action == MemoryUnmap::Unmap
            &&& final(ext_mem_objs)@ == old(ext_mem_objs)@ + objects_in(
                empty_table(),
                old(device)@.unshare_requests,
                MAX_NUM_SHM as nat,
            )
            &&& final(device)@ == (DeviceView { unshare_requests: empty_table(), ..old(device)@ })
        },
        final(device)@.wf(),
{
    if device.peer_dying {
        return MemoryUnmap::Stop;
    }
    let ghost start = device@;
    let ghost found = ext_mem_objs@;
    let mut n: usize = 0;
    while n < MAX_NUM_SHM
        invariant
            n <= MAX_NUM_SHM,
            start == old(device)@,
            start.wf(),
            ext_mem_objs@ == found + objects_in(empty_table(), start.unshare_requests, n as nat),
            device@ == (DeviceView { unshare_requests: device@.unshare_requests, ..start }),
            device@.unshare_requests.len() == MAX_NUM_SHM,
            forall|i: int| 0 <= i < n ==> device@.unshare_requests[i] is None,
            forall|i: int|
                n <= i < MAX_NUM_SHM ==> device@.unshare_requests[i] == start.unshare_requests[i],
        decreases MAX_NUM_SHM - n,
    {
        let ghost before = objects_in(empty_table(), start.unshare_requests, n as nat);
        let unshared = device.unshare_requests[n];
        device.unshare_requests[n] = None;
        if let Some(obj) = unshared {
            ext_mem_objs.push(obj);
        }
        assert(ext_mem_objs@ =~= found + (before + option_seq::<MemObj>(
            empty_table::<MemObj>()[n as int],
        ) + option_seq(start.unshare_requests[n as int])));
        n = n + 1;
    }
    assert(device@.unshare_requests =~= empty_table::<MemObj>());
    MemoryUnmap::Unmap
}

/// An area is mapped once: after that, every address inside the object is found without mapping
/// anything, at its offset from the start of the object.
pub proof fn law_mapped_area_is_found(
    d: DeviceView,
    first: BusAddress,
    obj: MemObj,
    addr: BusAddress,
    client_id: FFAClientId,
)
    requires
        d.wf(),
        area_id_of(first) < MAX_NUM_SHM,
        area_id_of(addr) == area_id_of(first),
        offset_of(addr) < obj.size,
    ensures
        can_map(with_object(d, first, obj), addr),
        dma_lookup(with_object(d, first, obj), addr, client_id) == DmaMap::Mapped(
            (obj.vaddr + offset_of(addr)) as u64,
        ),
        after_lookup(with_object(d, first, obj), addr) == with_object(d, first, obj),
{
}

/// What a client asked to share is what gets mapped when an address in the area is first used, and
/// the area can then be shared anew.
pub proof fn law_shared_handle_is_mapped(
    d: DeviceView,
    req: BusAreaShare,
    addr: BusAddress,
    client_id: FFAClientId,
)
    requires
        d.wf(),
        can_share(d, req.area_id),
        d.state.memory_map[req.area_id as int] is None,
        area_id_of(addr) == req.area_id,
    ensures
        can_map(area_share(d, req), addr),
        dma_lookup(area_share(d, req), addr, client_id) == DmaMap::MapObject(
            map_request(client_id, req.mem_handle),
        ),
        can_share(after_lookup(area_share(d, req), addr), req.area_id),
{
}

/// No address of an area can be used after the client stopped sharing it, unless the client asked
/// to share the area again.
pub proof fn law_unshared_area_is_gone(d: DeviceView, req: BusAreaUnshare, addr: BusAddress)
    requires
        d.wf(),
        req.area_id < MAX_NUM_SHM,
        area_id_of(addr) == req.area_id,
        d.state.share_requests[req.area_id as int] is None,
    ensures
        !can_map(area_unshare(d, req).0, addr),
{
}

} // verus!
