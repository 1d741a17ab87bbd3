//! What becomes of requests, of shared memory and of the devices of the bus, told by the bytes of the
//! messages and the fields of the devices.

use vstd::prelude::*;

use crate::error::LkError;
use crate::layout::{law_numbers_are_little_endian, u32_at, u64_at};
use crate::message::{
    as_response, lemma_with_payload, lemma_with_payload_kept_tail, payload_bytes, v1_payload_bytes,
    with_payload, with_payload_kept_tail,
};
use crate::msg::device::hal::{after_lookup, can_map, dma_lookup, with_object, DmaMap};
use crate::msg::device::handle_req::{
    agreed, area_share, area_unshare, can_handle, can_share, config_value, handle, is_refused,
    negotiated_features, notify_of, set_vqueue, status_change, status_of, Notify,
};
use crate::msg::device::requests::{request_of, result_field, vqueue_reply};
use crate::msg::device::{
    guest_cid_allowed, law_ready_devices_are_started_once, objects_in, slot_fits, slot_of,
    tx_event_name_of, DeviceStateView, DeviceView, FFAClientId, MemObj, TransportView, VirtQueue,
};
use crate::msg::driver::hal::{
    memory_fits, page_of, pages_for, single_pages, AllocatorView, PageIdx,
};
use crate::msg::driver::init::{
    driver_first, driver_next, is_input_of, DriverInitView, DriverInput, DriverStep,
};
use crate::msg::driver::requests::{
    read_resp, read_resp_variable, request_header, request_msg, v1_request_msg,
};
use crate::msg::driver::transport::{
    config_data, features_in, generation_in, heap_bus_address, vqueue_in_use,
};
use crate::msg::driver::{
    bit_is_set, can_enumerate, ids_in_bitmap, is_valid_page, reply_fits, reply_payload,
    reply_payload_variable, response_of, shared_memory_size_of, FFAInitState, Reply, SharedHeap,
};
use crate::msg::exchange::{lemma_request_msg, lemma_v1_request_msg};
use crate::msg::{
    area_id_of, bus_address_of, offset_of, ArchMmuFlags, BusAddress, Cacheability, DeviceMemoryAttr,
    MemShareAttr, MemoryType, ShareType, Shareability,
};
use crate::payload::{
    BusAreaShare, BusAreaUnshare, BusFfaVersionResp, BusGetDevicesResp, GetDeviceInfoResp,
    GetVqueue, GetVqueueResp, Payload, SetDeviceStatus, SetVqueue,
};
use crate::wire::{le_value, lemma_le_bytes_len, msg_bytes};

verus! {

/// The shared memory of a driver is handed to its allocator once, and needs at least fourteen pages.
/// Every page then lies in exactly one free block: the first six pages in blocks of two, which start
/// at the even pages, and every other page in a block of its own.
pub proof fn law_every_page_is_free_after_init(a: AllocatorView, num_pages: usize, page: PageIdx)
    ensures
        a.after_init(num_pages) is Ok <==> a.num_pages == 0 && num_pages >= 14,
        a.num_pages != 0 ==> a.after_init(num_pages) == Err::<AllocatorView, LkError>(
            LkError::AlreadyStarted,
        ),
        a.num_pages == 0 && num_pages < 14 ==> a.after_init(num_pages) == Err::<
            AllocatorView,
            LkError,
        >(LkError::NotEnoughBuffer),
        a.double.len() == 0 && a.single.len() == 0 && (a.after_init(num_pages) is Ok) ==> {
            let after = a.after_init(num_pages)->Ok_0;
            &&& after.num_pages == num_pages
            &&& after.double.contains(page) <==> page < 6 && page % 2 == 0
            &&& after.single.contains(page) <==> 6 <= page < num_pages
            &&& after.double.len() == 3 && after.double.no_duplicates()
            &&& after.single.len() == num_pages - 6 && after.single.no_duplicates()
        },
{
    if a.double.len() == 0 && a.single.len() == 0 && a.num_pages == 0 && num_pages >= 14 {
        let after = a.after_init(num_pages)->Ok_0;
        assert(after.double =~= seq![0usize, 2, 4]);
        assert(after.double[0] == 0 && after.double[1] == 2 && after.double[2] == 4);
        assert(after.single =~= single_pages(num_pages));
        if 6 <= page < num_pages {
            assert(after.single[page - 6] == page);
        }
    }
}

/// A block of one or two pages is handed out exactly if one of that size is free. It was free before,
/// it is the only block that is not free any more, and nothing else changes.
pub proof fn law_one_free_block_is_handed_out(a: AllocatorView, n: usize, other: PageIdx)
    requires
        a.double.no_duplicates(),
        a.single.no_duplicates(),
    ensures
        a.next_block(n) is Ok <==> (n == 1 && a.single.len() > 0) || (n == 2 && a.double.len() > 0),
        n != 1 && n != 2 ==> a.next_block(n) == Err::<PageIdx, LkError>(LkError::NotSupported),
        (n == 1 || n == 2) && a.next_block(n) is Err ==> a.next_block(n) == Err::<PageIdx, LkError>(
            LkError::NoMemory,
        ),
        a.next_block(n) is Err ==> a.after_allocate(n) == a,
        a.next_block(n) matches Ok(page) ==> {
            let after = a.after_allocate(n);
            &&& after.num_pages == a.num_pages
            &&& n == 1 ==> {
                &&& a.single.contains(page)
                &&& after.single.len() == a.single.len() - 1
                &&& after.single.contains(other) <==> a.single.contains(other) && other != page
                &&& after.double == a.double
            }
            &&& n == 2 ==> {
                &&& a.double.contains(page)
                &&& after.double.len() == a.double.len() - 1
                &&& after.double.contains(other) <==> a.double.contains(other) && other != page
                &&& after.single == a.single
            }
        },
{
    if a.next_block(n) is Ok {
        if n == 1 {
            lemma_last_is_taken(a.single, other);
        } else {
            lemma_last_is_taken(a.double, other);
        }
    }
}

proof fn lemma_last_is_taken(free: Seq<PageIdx>, other: PageIdx)
    requires
        free.len() > 0,
        free.no_duplicates(),
    ensures
        free.contains(free.last()),
        free.drop_last().contains(other) <==> free.contains(other) && other != free.last(),
{
    let rest = free.drop_last();
    assert(free[free.len() - 1] == free.last());
    if rest.contains(other) {
        let k = rest.index_of(other);
        assert(free[k] == other);
    }
    if free.contains(other) && other != free.last() {
        let k = free.index_of(other);
        assert(rest[k] == other);
    }
}

/// A block is taken back exactly if it is not free and starts at one of the pages. It is free then,
/// among the blocks of its size, nothing else changes, and it is the next one of its size to be handed
/// out.
pub proof fn law_blocks_are_taken_back(a: AllocatorView, page: PageIdx, other: PageIdx)
    ensures
        a.after_deallocate(page) is Ok <==> !a.double.contains(page) && !a.single.contains(page) && (
        page < 6 || page < a.num_pages),
        a.after_deallocate(page) is Err ==> a.after_deallocate(page) == Err::<
            AllocatorView,
            LkError,
        >(LkError::InvalidArgs),
        a.after_deallocate(page) matches Ok(after) ==> {
            &&& after.num_pages == a.num_pages
            &&& after.double.contains(other) <==> a.double.contains(other) || (page < 6 && other
                == page)
            &&& after.single.contains(other) <==> a.single.contains(other) || (page >= 6 && other
                == page)
            &&& after.double.len() + after.single.len() == a.double.len() + a.single.len() + 1
            &&& after.next_block(
                if page < 6 {
                    2
                } else {
                    1
                },
            ) == Ok::<PageIdx, LkError>(page)
        },
{
    if let Ok(after) = a.after_deallocate(page) {
        lemma_push_contains(a.double, page, other);
        lemma_push_contains(a.single, page, other);
    }
}

proof fn lemma_push_contains(s: Seq<PageIdx>, page: PageIdx, other: PageIdx)
    ensures
        s.push(page).contains(other) <==> s.contains(other) || other == page,
{
    let t = s.push(page);
    if s.contains(other) {
        let k = s.index_of(other);
        assert(t[k] == other);
    }
    assert(t[s.len() as int] == page);
    if t.contains(other) {
        let k = t.index_of(other);
        if k < s.len() {
            assert(s[k] == other);
        }
    }
}

/// The addresses of a page of the shared memory lie 4096 bytes behind those of the page before it, and
/// its bus address is in the area of the shared memory. The page is found by its bus address.
pub proof fn law_page_addresses(heap: SharedHeap, page: PageIdx)
    requires
        heap.paddr + 4096 * page <= u64::MAX,
        heap.vaddr + 4096 * page <= u64::MAX,
        4096 * page < 0x1_0000_0000_0000,
    ensures
        heap.addrs(page).paddr == heap.paddr + 4096 * page,
        heap.addrs(page).vaddr == heap.vaddr + 4096 * page,
        heap.addrs(page).bus_addr == 0x1e * 0x1_0000_0000_0000 + 4096 * page,
        page_of(heap.addrs(page).bus_addr) == page,
{
}

/// A buffer gets as few whole pages as can hold it, and the shared memory of a build is as many whole
/// pages as are needed.
pub proof fn law_sizes_are_rounded_up(len: usize)
    ensures
        4096 * pages_for(len) >= len,
        4096 * pages_for(len) < len + 4096,
        shared_memory_size_of(len) % 4096 == 0,
        len <= shared_memory_size_of(len) < len + 4096,
{
}

/// When memory can be put into a heap, and when blocks of a heap can be handed out and taken back.
pub proof fn law_heap_preconditions(
    heap: SharedHeap,
    num_pages: usize,
    paddr: u64,
    vaddr: u64,
    n: usize,
    bus_addr: BusAddress,
)
    ensures
        memory_fits(num_pages, paddr, vaddr) <==> 4096 * num_pages <= 0x1_0000_0000_0000 && paddr
            + 4096 * num_pages <= u64::MAX && vaddr + 4096 * num_pages <= u64::MAX,
        heap.vaddr != 0 ==> heap.can_allocate(n),
        ({
            let offset = bus_addr as int % 0x1_0000_0000_0000;
            let page = offset / 4096;
            heap.can_deallocate(bus_addr) <==> {
                &&& offset % 4096 == 0
                &&& page <= usize::MAX
                &&& !heap.allocator.free_double_blocks@.contains(page as usize)
                &&& !heap.allocator.free_single_blocks@.contains(page as usize)
                &&& page < 6 || page < heap.allocator.num_pages
            }
        }),
{
}

/// The two parts of a bus address: the upper 16 bits and the lower 48 bits.
pub proof fn law_bus_address_parts(bus_addr: BusAddress, area_id: u16, offset: u64)
    requires
        offset < 0x1_0000_0000_0000,
    ensures
        area_id_of(bus_addr) == bus_addr as int / 0x1_0000_0000_0000,
        offset_of(bus_addr) == bus_addr as int % 0x1_0000_0000_0000,
        bus_address_of(area_id as nat, offset as nat) == area_id * 0x1_0000_0000_0000 + offset,
{
}

/// The configuration data that a driver reads has 32 bytes: first those of the answer, then zeros. A
/// virtqueue is in use exactly if one of the fields that configure it is not zero. The bus address of
/// memory that the driver shares is its offset in that memory, in the area of the shared memory.
pub proof fn law_answers_are_interpreted(
    data: Seq<u8>,
    i: int,
    resp: GetVqueueResp,
    base_paddr: u64,
    paddr: u64,
)
    requires
        0 <= i < 32,
        base_paddr <= paddr < base_paddr + 0x1_0000_0000_0000,
    ensures
        config_data(data).len() == 32,
        config_data(data)[i] == if i < data.len() {
            data[i]
        } else {
            0
        },
        vqueue_in_use(resp) <==> !(resp.size == 0 && resp.descriptor_addr == 0 && resp.driver_addr
            == 0 && resp.device_addr == 0),
        heap_bus_address(base_paddr, paddr) == 0x1e * 0x1_0000_0000_0000 + (paddr - base_paddr),
{
}

/// Whether a bit of a bitmap is set: the bits of a byte are numbered from the lowest one on.
pub proof fn law_bits_are_numbered_from_the_lowest(bitmap: Seq<u8>, i: nat)
    ensures
        bit_is_set(bitmap, i) <==> (bitmap[(i / 8) as int] >> ((i % 8) as u8)) % 2 == 1,
{
    let (b, k) = (bitmap[(i / 8) as int], (i % 8) as u8);
    assert(b & (1u8 << k) != 0 <==> (b >> k) % 2 == 1) by (bit_vector)
        requires
            k < 8,
    ;
}

/// Which answers of a walk over the devices are valid.
pub proof fn law_valid_pages(offset: u16, page: BusGetDevicesResp, bitmap: Seq<u8>)
    ensures
        is_valid_page(offset, page, bitmap) <==> {
            &&& page.num == 8 * bitmap.len()
            &&& page.next_offset % 8 == 0
            &&& page.next_offset == 0 || offset < page.next_offset
        },
{
}

/// A response is read exactly if it has the id of the request, gives the size of its payload and its
/// header as its own size, and has nothing but zeros behind the payload.
pub proof fn law_responses_are_checked<T: Payload>(m: Seq<u8>, id: u8)
    requires
        m.len() == 112,
        T::size_spec() <= 106,
    ensures
        read_resp::<T>(m, id) is Ok <==> {
            &&& m[1] == id
            &&& m[4] + 256 * m[5] == 6 + T::size_spec()
            &&& forall|i: int| 6 + T::size_spec() <= i < 112 ==> #[trigger] m[i] == 0
        },
        read_resp::<T>(m, id) matches Ok(payload) ==> payload == T::decode(m.skip(6)),
        read_resp::<T>(m, id) matches Err(e) ==> e == LkError::InvalidArgs,
{
    lemma_size_field(m);
    let rest = payload_bytes(m).skip(T::size_spec() as int);
    assert forall|i: int| 6 + T::size_spec() <= i < 112 implies rest[i - 6 - T::size_spec()]
        == #[trigger] m[i] by {}
    if crate::wire::all_zero(rest) {
        assert forall|i: int| 6 + T::size_spec() <= i < 112 implies #[trigger] m[i] == 0 by {
            assert(rest[i - 6 - T::size_spec()] == 0);
        }
    }
    if forall|i: int| 6 + T::size_spec() <= i < 112 ==> #[trigger] m[i] == 0 {
        assert forall|j: int| 0 <= j < rest.len() implies #[trigger] rest[j] == 0 by {
            assert(rest[j] == m[6 + T::size_spec() + j]);
        }
    }
}

/// A response of variable size is read exactly if it has the id of the request, is not shorter than
/// its fixed part and its header, and has nothing but zeros behind the size that it gives for itself.
/// What lies between the fixed part and that size is its data.
pub proof fn law_variable_responses_are_checked<T: Payload>(m: Seq<u8>, id: u8)
    requires
        m.len() == 112,
        m[4] + 256 * m[5] <= 112,
    ensures
        ({
            let size = m[4] + 256 * m[5];
            &&& read_resp_variable::<T>(m, id) is Ok <==> {
                &&& m[1] == id
                &&& size >= 6 + T::size_spec()
                &&& forall|i: int| size <= i < 112 ==> #[trigger] m[i] == 0
            }
            &&& read_resp_variable::<T>(m, id) matches Ok((fixed, data)) ==> {
                &&& fixed == T::decode(m.skip(6))
                &&& data == m.subrange(6 + T::size_spec() as int, size)
            }
            &&& read_resp_variable::<T>(m, id) matches Err(e) ==> e == LkError::InvalidArgs
        }),
{
    lemma_size_field(m);
    let size = m[4] + 256 * m[5];
    let rest = m.skip(size);
    if crate::wire::all_zero(rest) {
        assert forall|i: int| size <= i < 112 implies #[trigger] m[i] == 0 by {
            assert(rest[i - size] == 0);
        }
    }
    if forall|i: int| size <= i < 112 ==> #[trigger] m[i] == 0 {
        assert forall|j: int| 0 <= j < rest.len() implies #[trigger] rest[j] == 0 by {
            assert(rest[j] == m[size + j]);
        }
    }
}

proof fn lemma_size_field(m: Seq<u8>)
    requires
        m.len() == 112,
    ensures
        crate::message::msg_size(m) == m[4] + 256 * m[5],
        crate::message::dev_id(m) == m[2] + 256 * m[3],
{
    reveal_with_fuel(le_value, 3);
    let (a, b) = (m.subrange(4, 6), m.subrange(2, 4));
    assert(a[0] == m[4] && a[1] == m[5] && b[0] == m[2] && b[1] == m[3]);
}

/// A reply is a response exactly if it came and has the response bit.
pub proof fn law_replies_are_responses(reply: Reply)
    ensures
        response_of(reply) == match reply {
            Ok(buf) => if msg_bytes(buf@)[0] & 1 != 0 {
                Ok(msg_bytes(buf@))
            } else {
                Err(LkError::InvalidArgs)
            },
            Err(e) => Err(e),
        },
{
}

/// The driver is set up only if FF-A is there in version 1.2 or a later 1.x. If FF-A is not usable the
/// driver stays disabled, and if it was not set up before, that is an error.
pub proof fn law_setup_needs_ffa(state: FFAInitState)
    ensures
        driver_first(state) == DriverStep::CountPartitions <==> (
        state matches FFAInitState::InitSuccess { major_version, minor_version } && major_version
            == 1 && minor_version >= 2),
        state == FFAInitState::Uninit <==> driver_first(state) == DriverStep::Done(
            Err(LkError::NotConfigured),
        ),
        driver_first(state) != DriverStep::CountPartitions && state != FFAInitState::Uninit
            ==> driver_first(state) == DriverStep::Done(Ok(())),
{
}

/// What each step of the setup leads to. The bus has to be offered by exactly one partition, whose
/// first id is the receiver. Every step that fails ends the setup with its error, and every step that
/// succeeds leads on.
pub proof fn law_setup_goes_on(d: DriverInitView, step: DriverStep, input: DriverInput)
    ensures
        ({
            let (after, next) = driver_next(d, step, input);
            let failed = |e: LkError| DriverStep::Done(Err::<(), LkError>(e));
            &&& step == DriverStep::CountPartitions ==> {
                &&& input == DriverInput::Count(Ok(1)) ==> next == DriverStep::DescribePartitions
                &&& input matches DriverInput::Count(Ok(n)) ==> n != 1 ==> next == failed(
                    LkError::Generic,
                )
                &&& input matches DriverInput::Count(Err(e)) ==> next == failed(e)
                &&& after == d
            }
            &&& step == DriverStep::DescribePartitions ==> {
                &&& input matches DriverInput::Partitions(Ok(ids)) ==> {
                    &&& ids@.len() > 0 ==> next == DriverStep::NegotiateVersion && after == (
                    DriverInitView { receiver_id: ids@[0] as u32, ..d })
                    &&& ids@.len() == 0 ==> next == failed(LkError::Generic) && after == d
                }
                &&& input matches DriverInput::Partitions(Err(e)) ==> next == failed(e)
            }
            &&& step == DriverStep::NegotiateVersion ==> {
                &&& input matches DriverInput::Reply(reply) ==> next == match reply_payload::<
                    BusFfaVersionResp,
                >(reply, 0x80) {
                    Ok(_) => DriverStep::ShareHeap,
                    Err(e) => failed(e),
                }
                &&& after == d
            }
            &&& step == DriverStep::ShareHeap ==> {
                &&& input matches DriverInput::Finished(result) ==> next == match result {
                    Ok(()) => DriverStep::EnumerateDevices,
                    Err(e) => failed(e),
                }
                &&& after == d
            }
            &&& step is StartSocket && (input matches DriverInput::Finished(Err(_))) ==> next
                == failed(LkError::Generic)
        }),
{
}

/// Going through the devices. A valid answer adds the devices whose bits are set, behind those that
/// were found before. Once the walk is over, and after each device, the next device that was found is
/// asked about, and the setup is done when there is none. A device is started exactly if it is a socket
/// device, and any other device is passed over.
pub proof fn law_devices_are_gone_through(d: DriverInitView, step: DriverStep, input: DriverInput)
    ensures
        ({
            let (after, next) = driver_next(d, step, input);
            let asked = d.num_asked as int;
            let goes_on = {
                &&& asked < after.device_ids.len() ==> after.num_asked == asked + 1 && next == (
                DriverStep::GetDeviceInfo { dev_id: after.device_ids[asked] })
                &&& asked >= after.device_ids.len() ==> after.num_asked == asked && next
                    == DriverStep::Done(Ok(()))
            };
            &&& after.receiver_id == d.receiver_id || step == DriverStep::DescribePartitions
            &&& !(step is EnumerateDevices) ==> after.device_ids == d.device_ids && after.offset
                == d.offset
            &&& step is EnumerateDevices && (input matches DriverInput::Reply(reply)
                && reply_payload_variable::<BusGetDevicesResp>(reply, 2) matches Ok((page, bitmap))
                && page.num == 8 * bitmap.len() && page.next_offset % 8 == 0 && (page.next_offset
                == 0 || d.offset < page.next_offset)) ==> {
                let reply = input->Reply_0;
                let (page, bitmap) = reply_payload_variable::<BusGetDevicesResp>(
                    reply,
                    2,
                )->Ok_0;
                &&& after.device_ids == d.device_ids + ids_in_bitmap(
                    bitmap,
                    d.offset,
                    page.num as nat,
                )
                &&& after.offset == page.next_offset
                &&& page.next_offset == 0 ==> goes_on
                &&& page.next_offset != 0 ==> next == DriverStep::EnumerateDevices
                    && after.num_asked == asked
            }
            &&& step is GetDeviceInfo && (input matches DriverInput::Reply(reply)
                && reply_payload::<GetDeviceInfoResp>(reply, 2) is Ok) ==> {
                let info = reply_payload::<GetDeviceInfoResp>(input->Reply_0, 2)->Ok_0;
                &&& info.device_id == 19 ==> after == d && next == (DriverStep::StartSocket {
                    dev_id: step->GetDeviceInfo_dev_id,
                })
                &&& info.device_id != 19 ==> goes_on
            }
            &&& step is StartSocket && input == DriverInput::Finished(Ok(())) ==> goes_on
        }),
{
}

/// What a driver that asks for a status gets. Zero resets the device and its virtqueues, and giving up
/// is always possible. Otherwise the bits have to be set one after the other: ACKNOWLEDGE, DRIVER,
/// FEATURES_OK and DRIVER_OK. The last one has the device started, and only it.
pub proof fn law_status_bits_are_set_in_order(state: DeviceStateView, requested: u32)
    ensures
        ({
            let (after, result) = status_change(state, requested);
            let s = state.status;
            let next_bit = if s & 8 != 0 {
                4u32
            } else if s & 2 != 0 {
                8
            } else if s & 1 != 0 {
                2
            } else {
                1
            };
            let accepted = s & 0x80 == 0 && s & 4 == 0 && requested & next_bit != 0;
            let nothing = Ok::<Notify, LkError>(Notify::Nothing);
            &&& after.memory_map == state.memory_map && after.share_requests
                == state.share_requests && after.threads_started == state.threads_started
            &&& requested == 0 ==> result == nothing && after.status == 0 && after.vqueues.len()
                == 3 && forall|i: int| 0 <= i < 3 ==> #[trigger] after.vqueues[i] is None
            &&& requested != 0 ==> after.vqueues == state.vqueues
            &&& requested & 0x80 != 0 ==> result == nothing && after.status == requested
            &&& requested != 0 && requested & 0x80 == 0 && accepted ==> {
                &&& after.status == requested
                &&& result == Ok::<Notify, LkError>(
                    if s & 8 != 0 {
                        Notify::DeviceInit
                    } else {
                        Notify::Nothing
                    },
                )
            }
            &&& requested != 0 && requested & 0x80 == 0 && !accepted ==> {
                &&& after == state
                &&& result == Err::<Notify, LkError>(LkError::InvalidArgs)
            }
        }),
{
    assert(requested == 0 ==> requested & 0x80u32 == 0) by (bit_vector);
}

/// A request to share an area is recorded exactly if there is room for the area and no earlier request
/// for it waits to be taken up. All other areas, and everything else, stay as they are.
pub proof fn law_share_requests_are_recorded(d: DeviceView, req: BusAreaShare, other: int)
    requires
        d.state.share_requests.len() == 255,
        0 <= other < 255,
    ensures
        ({
            let after = area_share(d, req);
            let i = req.area_id as int;
            &&& can_share(d, req.area_id) <==> i < 255 && d.state.share_requests[i] is None
            &&& i < 255 && d.state.share_requests[i] is None ==> after.state.share_requests[i]
                == Some(req.mem_handle)
            &&& !(i < 255 && d.state.share_requests[i] is None) ==> after == d
            &&& other != i ==> after.state.share_requests[other] == d.state.share_requests[other]
            &&& after == (DeviceView {
                state: DeviceStateView {
                    share_requests: after.state.share_requests,
                    ..d.state
                },
                ..d
            })
            &&& after.state.share_requests.len() == 255
        }),
{
}

/// A request to stop sharing an area has the object of the area unmapped, if it is mapped, and wakes
/// the thread that does so. An area that there is no room for is refused, and one whose last object was
/// not unmapped yet is an error.
pub proof fn law_unshare_requests_are_recorded(d: DeviceView, req: BusAreaUnshare, other: int)
    requires
        d.state.memory_map.len() == 255,
        d.unshare_requests.len() == 255,
        0 <= other < 255,
    ensures
        ({
            let (after, result) = area_unshare(d, req);
            let i = req.area_id as int;
            let mapped = d.state.memory_map[i];
            &&& i >= 255 ==> after == d && result == Err::<Notify, LkError>(LkError::InvalidArgs)
            &&& i < 255 ==> after.state.memory_map[i] is None
            &&& i < 255 && mapped is None ==> after == d
            &&& i < 255 && mapped is Some && d.unshare_requests[i] is None
                ==> after.unshare_requests[i] == mapped
            &&& i < 255 && !(mapped is Some && d.unshare_requests[i] is Some) ==> result == Ok::<
                Notify,
                LkError,
            >(Notify::MemoryUnmap)
            &&& i < 255 && mapped is Some && d.unshare_requests[i] is Some ==> result == Err::<
                Notify,
                LkError,
            >(LkError::BadState) && after.unshare_requests == d.unshare_requests
            &&& other != i ==> after.state.memory_map[other] == d.state.memory_map[other]
                && after.unshare_requests[other] == d.unshare_requests[other]
            &&& after == (DeviceView {
                state: DeviceStateView { memory_map: after.state.memory_map, ..d.state },
                unshare_requests: after.unshare_requests,
                ..d
            })
        }),
{
}

/// A virtqueue that is configured has the size and the addresses of the request, and a driver that
/// asks for it reads them. The other virtqueues stay as they are, and one that was not configured reads
/// as zeros.
pub proof fn law_virtqueues_are_configured(d: DeviceView, req: SetVqueue, other: int)
    requires
        d.state.vqueues.len() == 3,
        req.index < 3,
        0 <= other < 3,
    ensures
        ({
            let after = set_vqueue(d, req);
            let i = req.index as int;
            let read = vqueue_reply(req.index, after.state.vqueues[i]);
            let empty = vqueue_reply(req.index, None);
            &&& after.state.vqueues.len() == 3
            &&& after.state.vqueues[i] == Some(
                VirtQueue {
                    size: req.size,
                    desc_table: req.descriptor_addr,
                    avail_ring: req.driver_addr,
                    used_ring: req.device_addr,
                },
            )
            &&& other != i ==> after.state.vqueues[other] == d.state.vqueues[other]
            &&& after == (DeviceView {
                state: DeviceStateView { vqueues: after.state.vqueues, ..d.state },
                ..d
            })
            &&& read.index == req.index && read.max_size == 8 && read.size == req.size
            &&& read.descriptor_addr == req.descriptor_addr && read.driver_addr == req.driver_addr
                && read.device_addr == req.device_addr
            &&& empty.index == req.index && empty.max_size == 8 && empty.size == 0
            &&& empty.descriptor_addr == 0 && empty.driver_addr == 0 && empty.device_addr == 0
        }),
{
}

/// Bit `b` of what a driver reads from the configuration space is bit `b + offset` of the guest CID, as
/// long as it lies in the bytes that the driver asked for.
pub proof fn law_configuration_bits(guest_cid: u32, offset: u32, size: u32, b: u32)
    requires
        b < 64,
    ensures
        (config_value(guest_cid, offset, size) >> b) % 2 == 1 <==> {
            &&& b < 8 * size
            &&& b + offset < 32
            &&& (guest_cid >> ((b + offset) as u32)) % 2 == 1
        },
{
    let cid = guest_cid as u64;
    let sum = (b + offset) as u32;
    let value = config_value(guest_cid, offset, size);
    let shifted = if offset < 64 {
        cid >> offset
    } else {
        0
    };
    assert((shifted >> b) % 2 == 1 <==> b + offset < 32 && (guest_cid >> sum) % 2 == 1) by {
        if offset < 64 {
            assert(((cid >> offset) >> b) % 2 == 1 <==> b + offset < 32 && (guest_cid >> ((b
                + offset) as u32)) % 2 == 1) by (bit_vector)
                requires
                    offset < 64,
                    b < 64,
                    cid == guest_cid as u64,
            ;
        } else {
            assert((0u64 >> b) % 2 == 0) by (bit_vector)
                requires
                    b < 64,
            ;
        }
    }
    if size < 8 {
        let bits = (size * 8) as u64;
        assert((1u64 << bits) >= 1) by (bit_vector)
            requires
                bits < 64,
        ;
        let mask = ((1u64 << bits) - 1) as u64;
        assert(((shifted & mask) >> b) % 2 == 1 <==> b < bits && (shifted >> b) % 2 == 1)
            by (bit_vector)
            requires
                bits < 64,
                b < 64,
                mask == (1u64 << bits) - 1,
        ;
    }
}

/// What both ends agree to: the version of the device if the driver offers at least that, and zero if
/// not.
pub proof fn law_agreed_version(offer: u32, ours: u32)
    ensures
        agreed(offer, ours) <= offer,
        agreed(offer, ours) <= ours,
        agreed(offer, ours) == ours <==> ours <= offer || ours == 0,
        agreed(offer, ours) != ours ==> agreed(offer, ours) == 0,
{
}

/// The features that the device settles on are bits 0 and 32 if the driver wants them, bit 33 in any
/// case, and no others.
pub proof fn law_settled_feature_bits(requested: u64, b: u64)
    requires
        b < 64,
    ensures
        (negotiated_features(requested) >> b) % 2 == 1 <==> b == 33 || ((b == 0 || b == 32) && (
        requested >> b) % 2 == 1),
{
    assert((((requested & 0x3_0000_0001u64) | (1u64 << 33u64)) >> b) % 2 == 1 <==> b == 33 || ((b
        == 0 || b == 32) && (requested >> b) % 2 == 1)) by (bit_vector)
        requires
            b < 64,
    ;
}

/// A message is refused exactly if it is a response, or if it is for a device other than number zero.
/// Every other message can be handled, except for the two kinds that the device end does not support.
pub proof fn law_messages_are_admitted(m: Seq<u8>)
    requires
        m.len() == 112,
    ensures
        is_refused(m) <==> m[0] & 1 != 0 || (m[0] & 2 == 0 && (m[2] != 0 || m[3] != 0)),
        can_handle(m) <==> is_refused(m) || (m[0] & 2 != 0 && m[1] != 0) || (m[0] & 2 == 0 && m[1]
            != 1),
{
    lemma_size_field(m);
}

/// Requests to set a status or a virtqueue and to stop sharing an area, and requests that the device
/// ignores, are answered by the response bit alone. Those that it ignores change nothing.
pub proof fn law_short_answers(d: DeviceView, m: Seq<u8>)
    requires
        m.len() == 112,
        !is_refused(m),
        m[0] & 2 != 0 ==> m[1] != 0x80 && m[1] != 2 && m[1] != 0x81,
        m[0] & 2 == 0 ==> m[1] != 2 && m[1] != 3 && m[1] != 4 && m[1] != 5 && m[1] != 7 && m[1]
            != 9,
    ensures
        handle(d, m).message[0] == m[0] | 1,
        forall|i: int| 0 < i < 112 ==> #[trigger] handle(d, m).message[i] == m[i],
        handle(d, m).message.len() == 112,
        m[0] & 2 != 0 && m[1] != 0x82 ==> handle(d, m).device == d && handle(d, m).result == Ok::<
            Notify,
            LkError,
        >(Notify::Nothing),
        m[0] & 2 == 0 && m[1] != 8 && m[1] != 0xa ==> handle(d, m).device == d && handle(
            d,
            m,
        ).result == Ok::<Notify, LkError>(Notify::Nothing),
{
}

/// What requests do to a device: a status, a virtqueue, an area that is shared and one that is not
/// shared any more change it as they say, and every other request leaves it as it is.
pub proof fn law_handled_requests_change_the_device(d: DeviceView, m: Seq<u8>)
    requires
        m.len() == 112,
        !is_refused(m),
    ensures
        ({
            let h = handle(d, m);
            let bus = m[0] & 2 != 0;
            &&& !bus && m[1] == 8 ==> {
                let (state, result) = status_change(
                    d.state,
                    SetDeviceStatus::decode(m.skip(6)).status,
                );
                h.device == (DeviceView { state, ..d }) && h.result == result
            }
            &&& !bus && m[1] == 0xa ==> {
                let req = SetVqueue::decode(m.skip(6));
                &&& req.index < 3 ==> h.device == set_vqueue(d, req) && h.result is Ok
                &&& req.index >= 3 ==> h.device == d && h.result == Err::<Notify, LkError>(
                    LkError::InvalidArgs,
                )
            }
            &&& bus && m[1] == 0x81 ==> h.device == area_share(d, BusAreaShare::decode(m.skip(6)))
                && h.result is Ok
            &&& bus && m[1] == 0x82 ==> (h.device, h.result) == area_unshare(
                d,
                BusAreaUnshare::decode(m.skip(6)),
            )
            &&& (bus && m[1] != 0x81 && m[1] != 0x82) || (!bus && m[1] != 8 && m[1] != 0xa)
                ==> h.device == d
            &&& !bus && m[1] == 9 ==> (h.result is Ok <==> GetVqueue::decode(m.skip(6)).index < 3)
        }),
{
}

/// What the kernel is told of a request: zero if it was handled, and the code of the error if not. A
/// thread is woken only for a request that was handled.
pub proof fn law_results_are_reported(result: Result<Notify, LkError>)
    ensures
        status_of(result) == match result {
            Ok(_) => 0,
            Err(e) => e.code_spec(),
        },
        result is Err ==> notify_of(result) == Notify::Nothing,
        result matches Ok(notify) ==> notify_of(result) == notify,
        result_field(true) == 0 && result_field(false) == 1,
{
}

/// The bytes of a request that a driver built: the type, the id and the device number, then the size
/// of the whole message and the payload, and zeros to the end. In the 40-byte layout there is no size.
pub proof fn law_built_requests(id: u8, dev: Option<u16>, payload: Seq<u8>, i: int)
    requires
        payload.len() <= 106,
        0 <= i < 112,
    ensures
        ({
            let m = request_msg(id, dev, payload);
            let v1 = v1_request_msg(id, dev, payload);
            let n = payload.len();
            &&& m.len() == 112 && v1.len() == 112
            &&& m[0] == if dev is Some {
                0
            } else {
                2u8
            }
            &&& m[1] == id
            &&& m[2] + 256 * m[3] == match dev {
                Some(number) => number as int,
                None => 0,
            }
            &&& m[4] + 256 * m[5] == 6 + n
            &&& 6 <= i < 6 + n ==> m[i] == payload[i - 6]
            &&& 6 + n <= i ==> m[i] == 0
            &&& i < 4 ==> v1[i] == m[i]
            &&& 4 <= i < 4 + n ==> v1[i] == payload[i - 4]
            &&& 4 + n <= i ==> v1[i] == 0
        }),
{
    broadcast use lemma_le_bytes_len;

    let m = request_msg(id, dev, payload);
    lemma_request_msg(id, dev, payload);
    lemma_v1_request_msg(id, dev, payload);
    lemma_with_payload(request_header(id, dev), payload);
    lemma_size_field(m);
    if dev is None {
        let h = request_header(id, dev);
        assert(h[2] == 0 && h[3] == 0);
    }
    if i >= 6 {
        assert(m[i] == payload_bytes(m)[i - 6]);
    }
    let v1 = v1_request_msg(id, dev, payload);
    if i >= 4 {
        assert(v1[i] == v1_payload_bytes(v1)[i - 4]);
    }
}

/// The bytes of an answer with a payload: the first four bytes stay, then come the size of the whole
/// message and the payload. What follows is zero, or stays if it is to be kept.
pub proof fn law_written_answers(m: Seq<u8>, payload: Seq<u8>, i: int)
    requires
        m.len() == 112,
        payload.len() <= 106,
        0 <= i < 112,
    ensures
        ({
            let r = with_payload(m, payload);
            let kept = with_payload_kept_tail(m, payload);
            let n = payload.len();
            &&& r.len() == 112 && kept.len() == 112
            &&& i < 4 ==> r[i] == m[i] && kept[i] == m[i]
            &&& r[4] + 256 * r[5] == 6 + n && kept[4] + 256 * kept[5] == 6 + n
            &&& 6 <= i < 6 + n ==> r[i] == payload[i - 6] && kept[i] == payload[i - 6]
            &&& 6 + n <= i ==> r[i] == 0 && kept[i] == m[i]
        }),
{
    broadcast use lemma_le_bytes_len;

    lemma_with_payload(m, payload);
    lemma_with_payload_kept_tail(m, payload);
    lemma_size_field(with_payload(m, payload));
    lemma_size_field(with_payload_kept_tail(m, payload));
}

/// The feature bits and the generation that a driver reads are those in the bytes of the answer.
pub proof fn law_answers_are_read_byte_by_byte(data: Seq<u8>, reply: Reply, id: u8)
    ensures
        features_in(data) is Ok <==> data.len() >= 8,
        features_in(data) matches Ok(features) ==> features == u64_at(data, 0),
        features_in(data) matches Err(e) ==> e == LkError::InvalidArgs,
        reply matches Ok(buf) ==> {
            let m = msg_bytes(buf@);
            m.len() == 112 && m[0] & 1 != 0 ==> generation_in(reply, id) == if m[1] == id {
                Ok::<u32, LkError>(u32_at(m, 4) as u32)
            } else {
                Err(LkError::InvalidArgs)
            }
        },
{
    law_numbers_are_little_endian(data, 0);
    if let Ok(buf) = reply {
        let m = msg_bytes(buf@);
        if m.len() == 112 {
            law_numbers_are_little_endian(m.skip(4), 0);
        }
    }
}

/// When a driver can take a reply: a response of variable size must not be longer than its buffer, and
/// the number of a device that an answer reports must have 16 bits. Any other reply, and every other
/// result of a step of the setup, can be taken.
pub proof fn law_replies_can_be_taken(
    d: DriverInitView,
    reply: Reply,
    id: u8,
    dev_id: u16,
    result: Result<(), LkError>,
    count: Result<usize, LkError>,
    ids: Result<Vec<u16>, LkError>,
)
    requires
        reply matches Ok(buf) ==> msg_bytes(buf@).len() == 112,
    ensures
        reply_fits(reply, id) <==> (reply matches Ok(buf) ==> {
            let m = msg_bytes(buf@);
            m[0] & 1 != 0 && m[1] == id ==> m[4] + 256 * m[5] <= 112
        }),
        can_enumerate(d.offset, reply) <==> reply_fits(reply, 2) && match reply_payload_variable::<
            BusGetDevicesResp,
        >(reply, 2) {
            Ok((page, bitmap)) => page.num == 8 * bitmap.len() && page.next_offset % 8 == 0 && (
            page.next_offset == 0 || d.offset < page.next_offset) ==> forall|i: nat|
                i < page.num && #[trigger] bit_is_set(bitmap, i) ==> d.offset + i <= 0xffff,
            Err(_) => true,
        },
        can_enumerate(d.offset, reply) ==> is_input_of(
            d,
            DriverStep::EnumerateDevices,
            DriverInput::Reply(reply),
        ),
        is_input_of(d, DriverStep::NegotiateVersion, DriverInput::Reply(reply)),
        is_input_of(d, DriverStep::GetDeviceInfo { dev_id }, DriverInput::Reply(reply)),
        is_input_of(d, DriverStep::StartSocket { dev_id }, DriverInput::Finished(result)),
        is_input_of(d, DriverStep::ShareHeap, DriverInput::Finished(result)),
        is_input_of(d, DriverStep::CountPartitions, DriverInput::Count(count)),
        is_input_of(d, DriverStep::DescribePartitions, DriverInput::Partitions(ids)),
{
    if let Ok(buf) = reply {
        lemma_size_field(msg_bytes(buf@));
    }
}

/// The name of the event of a client ends in its number: the last digit is the number modulo ten, and
/// before it comes the name for the number without that digit.
pub proof fn law_event_names_end_in_the_number(client_id: FFAClientId)
    ensures
        client_id >= 10 ==> tx_event_name_of(client_id) == tx_event_name_of(
            client_id / 10,
        ).push((48 + client_id % 10) as u8),
        client_id < 10 ==> tx_event_name_of(client_id).len() == 15 && tx_event_name_of(
            client_id,
        )[14] == 48 + client_id,
{
    if client_id >= 10 {
        assert(tx_event_name_of(client_id) =~= tx_event_name_of(client_id / 10).push(
            (48 + client_id % 10) as u8,
        ));
    }
}

/// Starting the threads of a device changes that device alone. The next device to start is the first
/// one that has to be, from the given one on.
pub proof fn law_next_device_to_start(t: TransportView, from: nat, n: nat, i: int)
    requires
        from <= n < t.devices.len(),
        0 <= i < t.devices.len(),
    ensures
        t.devices[n as int].state.status & 4 != 0 && !t.devices[n as int].state.threads_started && (
        forall|j: int|
            from <= j < n ==> !((#[trigger] t.devices[j]).state.status & 4 != 0
                && !t.devices[j].state.threads_started)) ==> t.next_start(from) == n,
        t.with_started(n).vm_ids == t.vm_ids,
        t.with_started(n).devices.len() == t.devices.len(),
        i != n ==> t.with_started(n).devices[i] == t.devices[i],
{
    law_ready_devices_are_started_once(t, from);
    let k = t.next_start(from);
    if k < n {
        assert(t.devices[k as int].needs_start());
    }
}

/// How the kind of a request and the place of its payload follow from the message.
pub proof fn law_requests_are_told_apart(m: Seq<u8>)
    ensures
        ({
            let req = request_of(m);
            let bus = m[0] & 2 != 0;
            &&& req is BusFFAVersion <==> bus && m[1] == 0x80
            &&& req is BusGetDevices <==> bus && m[1] == 2
            &&& req is AreaShare <==> bus && m[1] == 0x81
            &&& req is AreaUnshare <==> bus && m[1] == 0x82
            &&& req is GetDeviceInfo <==> !bus && m[1] == 2
            &&& req is GetFeatures <==> !bus && m[1] == 3
            &&& req is SetFeatures <==> !bus && m[1] == 4
            &&& req is GetConfig <==> !bus && m[1] == 5
            &&& req is GetDeviceStatus <==> !bus && m[1] == 7
            &&& req is SetDeviceStatus <==> !bus && m[1] == 8
            &&& req is GetVqueue <==> !bus && m[1] == 9
            &&& req is SetVqueue <==> !bus && m[1] == 0xa
            &&& req is ResetVqueue <==> !bus && m[1] == 0xb
            &&& req is EventConfig <==> !bus && m[1] == 0x40
            &&& req is EventAvail <==> !bus && m[1] == 0x41
            &&& req is EventUsed <==> !bus && m[1] == 0x42
            &&& payload_bytes(m) == m.skip(6)
            &&& v1_payload_bytes(m) == m.skip(4)
            &&& as_response(m) == m.update(0, m[0] | 1)
        }),
{
}

/// Which addresses a device can use, and what they lead to. An address in an area that is mapped has to
/// lie in the object, and is found at its offset. One in an area that the client asked to share has the
/// object mapped first, page aligned and not executable, and the request is then taken up: it is the
/// only thing that changes.
pub proof fn law_addresses_are_looked_up(
    d: DeviceView,
    addr: BusAddress,
    client_id: FFAClientId,
    other: int,
)
    requires
        d.state.memory_map.len() == 255,
        d.state.share_requests.len() == 255,
        0 <= other < 255,
    ensures
        ({
            let i = addr as int / 0x1_0000_0000_0000;
            let offset = addr as int % 0x1_0000_0000_0000;
            let after = after_lookup(d, addr);
            &&& can_map(d, addr) <==> i < 255 && match d.state.memory_map[i] {
                Some(obj) => offset < obj.size,
                None => d.state.share_requests[i] is Some,
            }
            &&& i < 255 ==> (d.state.memory_map[i] matches Some(obj) ==> {
                &&& obj.vaddr + offset <= u64::MAX ==> (dma_lookup(
                    d,
                    addr,
                    client_id,
                ) matches DmaMap::Mapped(vaddr) && vaddr == obj.vaddr + offset)
                &&& after == d
            })
            &&& i < 255 && d.state.memory_map[i] is None ==> {
                &&& d.state.share_requests[i] matches Some(handle) ==> {
                    &&& dma_lookup(d, addr, client_id) matches DmaMap::MapObject(req)
                    &&& req.client_id == client_id && req.mem_handle == handle
                    &&& req.tag == 0 && req.offset == 0 && req.align_log2 == 12 && req.vmm_flags
                        == 0 && req.arch_mmu_flags == 16
                }
                &&& after.state.share_requests[i] is None
                &&& other != i ==> after.state.share_requests[other]
                    == d.state.share_requests[other]
                &&& after == (DeviceView {
                    state: DeviceStateView {
                        share_requests: after.state.share_requests,
                        ..d.state
                    },
                    ..d
                })
            }
        }),
{
}

/// An object that was mapped is kept for its area, and only for that one.
pub proof fn law_mapped_objects_are_kept(d: DeviceView, addr: BusAddress, obj: MemObj, other: int)
    requires
        d.state.memory_map.len() == 255,
        0 <= other < 255,
        addr as int / 0x1_0000_0000_0000 < 255,
    ensures
        ({
            let i = addr as int / 0x1_0000_0000_0000;
            let after = with_object(d, addr, obj);
            &&& after.state.memory_map[i] == Some(obj)
            &&& other != i ==> after.state.memory_map[other] == d.state.memory_map[other]
            &&& after == (DeviceView {
                state: DeviceStateView { memory_map: after.state.memory_map, ..d.state },
                ..d
            })
        }),
{
}

/// The objects that are taken out of a device are those in its tables, all of them, in the order of the
/// areas, and of one area the mapped one first.
pub proof fn law_all_objects_are_taken(
    mapped: Seq<Option<MemObj>>,
    unshared: Seq<Option<MemObj>>,
    n: nat,
    obj: MemObj,
)
    requires
        n <= mapped.len(),
        n <= unshared.len(),
    ensures
        objects_in(mapped, unshared, n).contains(obj) <==> exists|i: int|
            0 <= i < n && (#[trigger] mapped[i] == Some(obj) || unshared[i] == Some(obj)),
        n > 0 && mapped[n - 1] is Some && unshared[n - 1] is Some ==> {
            let objects = objects_in(mapped, unshared, n);
            &&& objects.len() >= 2
            &&& Some(objects[objects.len() - 2]) == mapped[n - 1]
            &&& Some(objects.last()) == unshared[n - 1]
        },
        n > 0 ==> objects_in(mapped, unshared, n).len() == objects_in(
            mapped,
            unshared,
            (n - 1) as nat,
        ).len() + (if mapped[n - 1] is Some {
            1int
        } else {
            0
        }) + (if unshared[n - 1] is Some {
            1int
        } else {
            0
        }),
        n > 0 ==> objects_in(mapped, unshared, n).take(
            objects_in(mapped, unshared, (n - 1) as nat).len() as int,
        ) == objects_in(mapped, unshared, (n - 1) as nat),
    decreases n,
{
    if n > 0 {
        let i = n - 1;
        let rest = objects_in(mapped, unshared, i as nat);
        let all = objects_in(mapped, unshared, n);
        law_all_objects_are_taken(mapped, unshared, i as nat, obj);
        assert(all.take(rest.len() as int) =~= rest);
        if rest.contains(obj) {
            let k = rest.index_of(obj);
            assert(all[k] == obj);
        }
        if all.contains(obj) {
            let k = all.index_of(obj);
            if k < rest.len() {
                assert(rest[k] == obj);
            } else {
                assert(mapped[i] == Some(obj) || unshared[i] == Some(obj));
            }
        }
        if mapped[i] == Some(obj) {
            assert(all[rest.len() as int] == obj);
        }
        if unshared[i] == Some(obj) {
            assert(all.last() == obj);
            assert(all[all.len() - 1] == obj);
        }
    }
}

/// A client that has a device keeps it, and any other client gets the first device that nobody has. A
/// client has no device and gets none only if all of them belong to others.
pub proof fn law_clients_get_their_slots(t: TransportView, client_id: FFAClientId, i: int)
    requires
        t.wf(),
        0 <= i < t.vm_ids.len(),
    ensures
        t.vm_ids[i] == Some(client_id) ==> slot_of(t.vm_ids, client_id) == i,
        !t.vm_ids.contains(Some(client_id)) && t.vm_ids[i] is None && (forall|j: int|
            0 <= j < i ==> #[trigger] t.vm_ids[j] is Some) ==> slot_of(t.vm_ids, client_id) == i,
        t.vm_ids[i] is None || t.vm_ids[i] == Some(client_id) ==> t.has_slot(client_id),
        t.has_slot(client_id) ==> exists|j: int|
            0 <= j < t.vm_ids.len() && (#[trigger] t.vm_ids[j] is None || t.vm_ids[j] == Some(
                client_id,
            )),
        t.has_slot(client_id) ==> t.device_of(client_id) == t.devices[slot_of(
            t.vm_ids,
            client_id,
        ) as int],
{
    crate::msg::device::lemma_slot_from(t.vm_ids, client_id, 0);
    let n = slot_of(t.vm_ids, client_id) as int;
    if n < t.vm_ids.len() {
        assert(slot_fits(t.vm_ids, client_id, n));
        assert(t.vm_ids[n] is None || t.vm_ids[n] == Some(client_id));
        if t.vm_ids[n] == Some(client_id) {
            assert(t.vm_ids.contains(Some(client_id)));
        }
    }
    if t.vm_ids[i] is None || t.vm_ids[i] == Some(client_id) {
        assert(slot_fits(t.vm_ids, client_id, i));
        assert(n <= i);
        if n < i && t.vm_ids[i] is Some {
            assert(t.vm_ids[n] is Some && t.vm_ids[n] != t.vm_ids[i]);
        }
    }
}

/// Handling a request of a client changes the device of that client and registers the client, and
/// leaves all other devices and clients alone.
pub proof fn law_only_the_client_is_changed(
    t: TransportView,
    client_id: FFAClientId,
    device: DeviceView,
    i: int,
)
    requires
        t.devices.len() == t.vm_ids.len(),
        0 <= i < t.vm_ids.len(),
        slot_of(t.vm_ids, client_id) < t.vm_ids.len(),
    ensures
        ({
            let after = t.with_device(client_id, device);
            let n = slot_of(t.vm_ids, client_id) as int;
            &&& after.devices.len() == t.devices.len() && after.vm_ids.len() == t.vm_ids.len()
            &&& after.devices[n] == device && after.vm_ids[n] == Some(client_id)
            &&& i != n ==> after.devices[i] == t.devices[i] && after.vm_ids[i] == t.vm_ids[i]
        }),
{
}

/// The threads of a device have to be started exactly if its driver set DRIVER_OK and they were not
/// started before. Starting them changes nothing else.
pub proof fn law_devices_are_started_when_ready(d: DeviceView)
    ensures
        d.driver_ok() <==> d.state.status & 4 != 0,
        d.needs_start() <==> d.state.status & 4 != 0 && !d.state.threads_started,
        d.after_start() == (DeviceView {
            state: DeviceStateView {
                threads_started: d.state.threads_started || d.state.status & 4 != 0,
                ..d.state
            },
            ..d
        }),
{
}

/// A device as new: nothing is set up, shared, mapped, waiting or started.
pub proof fn law_fresh_devices_are_empty(guest_cid: u32, i: int)
    requires
        0 <= i < 255,
    ensures
        ({
            let d = DeviceView::fresh(guest_cid);
            &&& d.guest_cid == guest_cid && d.state.status == 0 && !d.state.threads_started
            &&& !d.peer_dying && !d.vsock_evts
            &&& d.state.memory_map.len() == 255 && d.state.memory_map[i] is None
            &&& d.state.share_requests.len() == 255 && d.state.share_requests[i] is None
            &&& d.unshare_requests.len() == 255 && d.unshare_requests[i] is None
            &&& d.state.vqueues.len() == 3 && (i < 3 ==> d.state.vqueues[i] is None)
        }),
{
}

/// The reserved context ids are 0, 1, 2 and the largest number; any other one may be that of a guest.
pub proof fn law_reserved_context_ids(cid: u32)
    ensures
        guest_cid_allowed(cid) <==> cid != 0 && cid != 1 && cid != 2 && cid != 0xffff_ffff,
{
}

/// Each attribute of shared memory can be read from the number that describes it.
pub proof fn law_attributes_are_read_back(a: MemShareAttr)
    ensures
        ({
            let n = a.encode() as int;
            &&& n % 4 == match a.share_type {
                ShareType::Share => 0int,
                ShareType::Lend => 1,
                ShareType::Donate => 2,
            }
            &&& n / 4 % 2 == 1 <==> a.read_write
            &&& n / 8 % 2 == 1 <==> a.executable
            &&& n / 16 % 4 == match a.shareability {
                Shareability::NonShareable => 0int,
                Shareability::OuterShareable => 2,
                Shareability::InnerShareable => 3,
            }
            &&& n / 64 % 4 == match a.memory_type {
                MemoryType::Device(DeviceMemoryAttr::nGnRnE) => 0int,
                MemoryType::Device(DeviceMemoryAttr::nGnRE) => 1,
                MemoryType::Device(DeviceMemoryAttr::nGRE) => 2,
                MemoryType::Device(DeviceMemoryAttr::GRE) => 3,
                MemoryType::Normal(Cacheability::NonCacheable) => 1,
                MemoryType::Normal(Cacheability::WriteBack) => 3,
            }
            &&& n / 256 % 4 == (if a.memory_type is Device {
                1int
            } else {
                2
            })
            &&& n / 1024 == (if a.non_secure {
                1int
            } else {
                0
            })
        }),
{
}

/// The attributes of memory follow from the flags that the kernel mapped it with: one flag each takes
/// away writing and executing and makes it non-secure, and the two flags for uncached memory decide on
/// its type.
pub proof fn law_attributes_follow_the_flags(flags: ArchMmuFlags)
    ensures
        ({
            let a = MemShareAttr::of_lk_flags(flags);
            let device = flags.bits & 2 == 2;
            let uncached = flags.bits & 1 == 1;
            &&& a.share_type == ShareType::Share
            &&& a.read_write <==> flags.bits & 8 != 8
            &&& a.executable <==> flags.bits & 16 != 16
            &&& a.non_secure <==> flags.bits & 32 == 32
            &&& a.memory_type == MemoryType::Device(DeviceMemoryAttr::nGnRE) <==> device
            &&& a.memory_type == MemoryType::Normal(Cacheability::NonCacheable) <==> !device
                && uncached
            &&& a.memory_type == MemoryType::Normal(Cacheability::WriteBack) <==> !device
                && !uncached
            &&& a.shareability == Shareability::InnerShareable <==> !device && !uncached
            &&& a.shareability == Shareability::NonShareable <==> device || uncached
        }),
{
}

} // verus!
