//! The driver end of the bus.
//!
//! Everything that the driver needs from the device goes through requests. The functions here say
//! which request to send next and what to make of the reply; sending is up to the caller.

use vstd::prelude::*;

use crate::error::LkError;
use crate::message::is_response;
use crate::msg::device::handle_req::{device_bitmap, handle};
use crate::msg::device::DeviceView;
use crate::msg::driver::hal::{memory_fits, AllocatorView, VsockMemAllocator};
use crate::msg::driver::requests::{
    read_resp, read_resp_variable, request_msg, share_request, size_fits, VirtioMsgReq,
    VirtioMsgResp,
};
use crate::msg::driver::transport::FFAMsgTransport;
use crate::msg::exchange::{law_answers_are_responses, law_get_devices_exchange, lemma_request_msg};
use crate::msg::{ArchMmuFlags, PAGE_SIZE};
use crate::payload::{
    BusFfaVersionResp, BusGetDevices, BusGetDevicesResp, GetDeviceInfoResp, Payload,
};
use crate::proto::{
    VIRTIO_MSG_BUS_GET_DEVICES, VIRTIO_MSG_DEVICE_INFO, VIRTIO_MSG_FFA_BUS_AREA_SHARE,
    VIRTIO_MSG_FFA_BUS_VERSION,
};
use crate::virtio::{socket_device_type, VIRTIO_ID_VSOCK};
use crate::wire::{msg_bytes, ARM_FFA_MSG_EXTENDED_ARGS_COUNT};

pub mod hal;
pub mod init;
pub mod requests;
pub mod transport;

verus! {

/// The reply to a request: a message, or the error that sending the request ended with.
pub type Reply = Result<[u64; ARM_FFA_MSG_EXTENDED_ARGS_COUNT], LkError>;

/// The area id of the memory that holds the virtqueues and the buffers.
pub const INITIAL_AREA_ID: u16 = 0x001E;

/// Stands for the id of the receiver until the receiver is known. Ids have 16 bits.
pub const RECEIVER_ID_UNKNOWN: u32 = u32::MAX;

/// The stored id of the receiver, which is known (see [`RECEIVER_ID_UNKNOWN`]).
pub fn get_receiver_id(receiver_id: u32) -> (id: u16)
    requires
        receiver_id <= u16::MAX,
    ensures
        id == receiver_id,
{
    receiver_id as u16
}

/// Decides on the id of the receiver: the bus has to be offered by exactly one partition. Takes the
/// number of partitions that offer it, and the ids of those whose descriptors were returned.
pub fn init_receiver_id(num_desc: usize, partition_ids: &Vec<u16>) -> (result: Result<u32, LkError>)
    ensures
        num_desc == 1 && partition_ids@.len() > 0 ==> result == Ok::<u32, LkError>(
            partition_ids@[0] as u32,
        ),
        num_desc != 1 || partition_ids@.len() == 0 ==> result == Err::<u32, LkError>(
            LkError::Generic,
        ),
{
    if num_desc != 1 {
        return Err(LkError::Generic);
    }
    if partition_ids.len() == 0 {
        return Err(LkError::Generic);
    }
    Ok(partition_ids[0] as u32)
}

/// The bytes of the response in `reply`.
pub open spec fn response_of(reply: Reply) -> Result<Seq<u8>, LkError> {
    match reply {
        Ok(buf) => if is_response(msg_bytes(buf@)) {
            Ok(msg_bytes(buf@))
        } else {
            Err(LkError::InvalidArgs)
        },
        Err(e) => Err(e),
    }
}

/// Takes the reply to a request as a response.
pub fn receive_response(reply: Reply) -> (result: Result<VirtioMsgResp, LkError>)
    ensures
        match response_of(reply) {
            Ok(bytes) => result matches Ok(resp) && resp.bytes@ == bytes,
            Err(e) => result == Err::<VirtioMsgResp, LkError>(e),
        },
{
    match reply {
        Ok(buf) => VirtioMsgResp::new(buf),
        Err(e) => Err(e),
    }
}

/// The payload of fixed size in `reply`, which answers a request with message id `id`.
pub open spec fn reply_payload<T: Payload>(reply: Reply, id: u8) -> Result<T, LkError> {
    match response_of(reply) {
        Ok(bytes) => read_resp::<T>(bytes, id),
        Err(e) => Err(e),
    }
}

/// The payload with a part of variable size in `reply`, which answers a request with message id
/// `id`.
pub open spec fn reply_payload_variable<T: Payload>(reply: Reply, id: u8) -> Result<
    (T, Seq<u8>),
    LkError,
> {
    match response_of(reply) {
        Ok(bytes) => read_resp_variable::<T>(bytes, id),
        Err(e) => Err(e),
    }
}

/// Whether a response of variable size in `reply` fits in the buffer.
pub open spec fn reply_fits(reply: Reply, id: u8) -> bool {
    response_of(reply) matches Ok(bytes) ==> size_fits(bytes, id)
}

/// Whether a response of variable size in `reply` fits in the buffer.
pub fn check_reply_fits(reply: &Reply, id: u8) -> (res: bool)
    ensures
        res == reply_fits(*reply, id),
{
    match receive_response(*reply) {
        Ok(resp) => resp.fits(id),
        Err(_) => true,
    }
}

/// What version negotiation comes to, given the reply to
/// [`VirtioMsgReq::new_bus_ffa_version`].
pub fn negotiate_version(reply: Reply) -> (result: Result<BusFfaVersionResp, LkError>)
    ensures
        result == reply_payload::<BusFfaVersionResp>(reply, VIRTIO_MSG_FFA_BUS_VERSION),
{
    match receive_response(reply) {
        Ok(resp) => resp.read_bus_ffa_version(),
        Err(e) => Err(e),
    }
}

/// What is known about a device, given the reply to [`VirtioMsgReq::new_get_device_info`].
pub fn get_device_info(reply: Reply) -> (result: Result<GetDeviceInfoResp, LkError>)
    ensures
        result == reply_payload::<GetDeviceInfoResp>(reply, VIRTIO_MSG_DEVICE_INFO),
{
    match receive_response(reply) {
        Ok(resp) => resp.read_get_device_info(),
        Err(e) => Err(e),
    }
}

/// Device numbers that the driver asks for at a time.
pub const NUM_REQ_DEVICES: u16 = 8;

/// A walk over the devices of the bus.
#[derive(Debug)]
pub struct DeviceEnumeration {
    /// The numbers of the devices found so far.
    pub device_ids: Vec<u16>,
    /// The first device number to ask for next.
    pub next_bitmap_offset: u16,
}

/// Whether bit `i` of a bitmap is set.
pub open spec fn bit_is_set(bitmap: Seq<u8>, i: nat) -> bool {
    bitmap[(i / 8) as int] & (1u8 << ((i % 8) as u8)) != 0
}

/// The device numbers for the bits below `n` that are set in `bitmap`, whose first bit stands for
/// device number `offset`.
pub open spec fn ids_in_bitmap(bitmap: Seq<u8>, offset: u16, n: nat) -> Seq<u16>
    decreases n,
{
    if n == 0 {
        seq![]
    } else {
        let i = (n - 1) as nat;
        let rest = ids_in_bitmap(bitmap, offset, i);
        if bit_is_set(bitmap, i) {
            rest.push((i + offset) as u16)
        } else {
            rest
        }
    }
}

/// Whether an answer to a request for the device numbers from `offset` is valid: the bitmap has a bit
/// for each device number, and the next offset is a multiple of eight that is larger than `offset`,
/// or zero at the end.
pub open spec fn is_valid_page(offset: u16, page: BusGetDevicesResp, bitmap: Seq<u8>) -> bool {
    &&& page.num == bitmap.len() * 8
    &&& page.next_offset % 8 == 0
    &&& page.next_offset == 0 || page.next_offset > offset
}

/// Whether the numbers of all devices in an answer fit in 16 bits.
pub open spec fn page_ids_fit(offset: u16, page: BusGetDevicesResp, bitmap: Seq<u8>) -> bool {
    forall|i: nat| i < page.num && #[trigger] bit_is_set(bitmap, i) ==> i + offset <= u16::MAX
}

/// Whether a walk that asked for the device numbers from `offset` can go on with `reply`.
pub open spec fn can_enumerate(offset: u16, reply: Reply) -> bool {
    &&& reply_fits(reply, VIRTIO_MSG_BUS_GET_DEVICES)
    &&& reply_payload_variable::<BusGetDevicesResp>(reply, VIRTIO_MSG_BUS_GET_DEVICES) matches Ok(
        (page, bitmap),
    ) ==> is_valid_page(offset, page, bitmap) ==> page_ids_fit(offset, page, bitmap)
}

impl DeviceEnumeration {
    pub open spec fn wf(self) -> bool {
        self.next_bitmap_offset % 8 == 0
    }

    /// A walk that has not asked for anything yet.
    pub fn new() -> (walk: DeviceEnumeration)
        ensures
            walk.device_ids@ == Seq::<u16>::empty(),
            walk.next_bitmap_offset == 0,
            walk.wf(),
    {
        DeviceEnumeration { device_ids: Vec::new(), next_bitmap_offset: 0 }
    }

    /// The request to send next.
    pub fn next_request(&self) -> (req: VirtioMsgReq)
        requires
            self.wf(),
        ensures
            req.bytes() == request_msg(
                VIRTIO_MSG_BUS_GET_DEVICES,
                None,
                (BusGetDevices {
                    offset: self.next_bitmap_offset,
                    num: NUM_REQ_DEVICES,
                }).encode(),
            ),
    {
        VirtioMsgReq::new_bus_get_devices(self.next_bitmap_offset, NUM_REQ_DEVICES)
    }

    /// Whether the walk can go on with `reply` (see [`can_enumerate`]).
    pub fn can_take(&self, reply: &Reply) -> (res: bool)
        ensures
            res == can_enumerate(self.next_bitmap_offset, *reply),
    {
        let resp = match receive_response(*reply) {
            Ok(resp) => resp,
            Err(_) => {
                return true;
            },
        };
        if !resp.fits(VIRTIO_MSG_BUS_GET_DEVICES) {
            return false;
        }
        let (page, bitmap) = match resp.read_bus_get_devices() {
            Ok(parts) => parts,
            Err(_) => {
                return true;
            },
        };
        if page.num as usize != bitmap.len() * 8 {
            return true;
        }
        if page.next_offset % 8 != 0 {
            return true;
        }
        if page.next_offset != 0 && page.next_offset <= self.next_bitmap_offset {
            return true;
        }
        let offset: u16 = self.next_bitmap_offset;
        let mut bit: u16 = 0;
        while bit < page.num
            invariant
                bit <= page.num,
                offset == self.next_bitmap_offset,
                reply_payload_variable::<BusGetDevicesResp>(*reply, VIRTIO_MSG_BUS_GET_DEVICES)
                    == Ok::<(BusGetDevicesResp, Seq<u8>), LkError>((page, bitmap@)),
                is_valid_page(offset, page, bitmap@),
                forall|i: nat|
                    i < bit && #[trigger] bit_is_set(bitmap@, i) ==> i + offset <= u16::MAX,
            decreases page.num - bit,
        {
            let mask: u8 = 1u8 << ((bit % 8) as u8);
            if bitmap[(bit / 8) as usize] & mask != 0 && bit as u32 + offset as u32 > 0xffff {
                assert(bit_is_set(bitmap@, bit as nat));
                return false;
            }
            bit = bit + 1;
        }
        true
    }

    /// Adds the devices in `reply` to those found so far. Says whether the walk is over.
    pub fn enumerate_devices(&mut self, reply: Reply) -> (result: Result<bool, LkError>)
        requires
            old(self).wf(),
            can_enumerate(old(self).next_bitmap_offset, reply),
        ensures
            final(self).wf(),
            match reply_payload_variable::<BusGetDevicesResp>(reply, VIRTIO_MSG_BUS_GET_DEVICES) {
                Err(e) => result == Err::<bool, LkError>(e) && *final(self) == *old(self),
                Ok((page, bitmap)) => if is_valid_page(
                    old(self).next_bitmap_offset,
                    page,
                    bitmap,
                ) {
                    &&& result == Ok::<bool, LkError>(page.next_offset == 0)
                    &&& final(self).next_bitmap_offset == page.next_offset
                    &&& final(self).device_ids@ == old(self).device_ids@ + ids_in_bitmap(
                        bitmap,
                        old(self).next_bitmap_offset,
                        page.num as nat,
                    )
                } else {
                    result == Err::<bool, LkError>(LkError::InvalidArgs) && *final(self) == *old(
                        self)
                },
            },
    {
        let resp = match receive_response(reply) {
            Ok(resp) => resp,
            Err(e) => {
                return Err(e);
            },
        };
        let (page, bitmap) = match resp.read_bus_get_devices() {
            Ok(parts) => parts,
            Err(e) => {
                return Err(e);
            },
        };
        if page.num as usize != bitmap.len() * 8 {
            return Err(LkError::InvalidArgs);
        }
        let next_is_multiple_of_8: bool = page.next_offset % 8 == 0;
        let next_increased: bool = page.next_offset > self.next_bitmap_offset;
        if !next_is_multiple_of_8 || (page.next_offset != 0 && !next_increased) {
            return Err(LkError::InvalidArgs);
        }
        let offset: u16 = self.next_bitmap_offset;
        let ghost found = self.device_ids@;
        let mut bit: u16 = 0;
        while bit < page.num
            invariant
                bit <= page.num,
                page.num == bitmap@.len() * 8,
                page_ids_fit(offset, page, bitmap@),
                self.next_bitmap_offset == offset,
                self.device_ids@ == found + ids_in_bitmap(bitmap@, offset, bit as nat),
            decreases page.num - bit,
        {
            let mask: u8 = 1u8 << ((bit % 8) as u8);
            let dev_avail: bool = bitmap[(bit / 8) as usize] & mask != 0;
            assert(dev_avail == bit_is_set(bitmap@, bit as nat));
            if dev_avail {
                self.device_ids.push(bit + offset);
            }
            assert(self.device_ids@ =~= found + ids_in_bitmap(bitmap@, offset, (bit + 1) as nat));
            bit = bit + 1;
        }
        self.next_bitmap_offset = page.next_offset;
        Ok(page.next_offset == 0)
    }
}

/// A walk over the devices ends: every reply that does not end it moves the offset up.
pub proof fn law_enumeration_makes_progress(offset: u16, page: BusGetDevicesResp, bitmap: Seq<u8>)
    requires
        is_valid_page(offset, page, bitmap),
        page.next_offset != 0,
    ensures
        u16::MAX - page.next_offset < u16::MAX - offset,
{
}

/// The driver finds exactly the devices whose bits are set.
pub proof fn law_enumeration_finds_set_bits(bitmap: Seq<u8>, offset: u16, n: nat, id: u16)
    requires
        forall|i: nat| i < n && #[trigger] bit_is_set(bitmap, i) ==> i + offset <= u16::MAX,
    ensures
        ids_in_bitmap(bitmap, offset, n).contains(id) <==> (offset <= id < offset + n
            && bit_is_set(bitmap, (id - offset) as nat)),
    decreases n,
{
    if n > 0 {
        let i = (n - 1) as nat;
        law_enumeration_finds_set_bits(bitmap, offset, i, id);
        let rest = ids_in_bitmap(bitmap, offset, i);
        let all = ids_in_bitmap(bitmap, offset, n);
        if bit_is_set(bitmap, i) {
            assert(all == rest.push((i + offset) as u16));
            assert(all.last() == (i + offset) as u16);
            assert(rest.contains(id) ==> all.contains(id)) by {
                if rest.contains(id) {
                    let k = rest.index_of(id);
                    assert(all[k] == id);
                }
            }
            if all.contains(id) {
                let k = all.index_of(id);
                if k < rest.len() {
                    assert(rest[k] == id);
                }
            }
        }
    }
}

/// Whether device numbers are in ascending order and below `limit`.
pub open spec fn ascend_below(ids: Seq<u16>, limit: int) -> bool {
    &&& forall|i: int, j: int| 0 <= i < j < ids.len() ==> #[trigger] ids[i] < #[trigger] ids[j]
    &&& forall|i: int| 0 <= i < ids.len() ==> #[trigger] ids[i] < limit
}

/// Whether an answer ends before the device numbers that are asked for next.
pub open spec fn ends_before_next(offset: u16, page: BusGetDevicesResp) -> bool {
    page.next_offset == 0 || offset + page.num <= page.next_offset
}

/// The end of the device numbers that the driver knows of after an answer: those that are asked for
/// next are not below it.
pub open spec fn end_of_page(offset: u16, page: BusGetDevicesResp) -> int {
    if page.next_offset == 0 {
        offset + page.num
    } else {
        page.next_offset as int
    }
}

/// A valid answer about as many device numbers as the driver asks for ends before those that are
/// asked for next, and all its device numbers fit in 16 bits.
pub proof fn law_requested_pages_do_not_overlap(
    offset: u16,
    page: BusGetDevicesResp,
    bitmap: Seq<u8>,
)
    requires
        offset % 8 == 0,
        page.num == NUM_REQ_DEVICES,
        is_valid_page(offset, page, bitmap),
    ensures
        ends_before_next(offset, page),
        page_ids_fit(offset, page, bitmap),
{
}

proof fn lemma_ids_ascend(bitmap: Seq<u8>, offset: u16, n: nat)
    requires
        forall|i: nat| i < n && #[trigger] bit_is_set(bitmap, i) ==> i + offset <= u16::MAX,
    ensures
        ascend_below(ids_in_bitmap(bitmap, offset, n), offset + n),
        forall|i: int|
            0 <= i < ids_in_bitmap(bitmap, offset, n).len() ==> offset
                <= #[trigger] ids_in_bitmap(bitmap, offset, n)[i],
    decreases n,
{
    if n > 0 {
        lemma_ids_ascend(bitmap, offset, (n - 1) as nat);
    }
}

/// One step of a walk whose answers do not overlap: the numbers of the devices found stay in ascending
/// order and below those that are asked for next, and the devices that are added are those whose
/// bits are set.
pub proof fn law_enumeration_step(
    found: Seq<u16>,
    offset: u16,
    page: BusGetDevicesResp,
    bitmap: Seq<u8>,
)
    requires
        is_valid_page(offset, page, bitmap),
        page_ids_fit(offset, page, bitmap),
        ends_before_next(offset, page),
        ascend_below(found, offset as int),
    ensures
        ({
            let after = found + ids_in_bitmap(bitmap, offset, page.num as nat);
            &&& ascend_below(after, end_of_page(offset, page))
            &&& forall|id: u16| #[trigger]
                after.contains(id) <==> found.contains(id) || (offset <= id < offset + page.num
                    && bit_is_set(bitmap, (id - offset) as nat))
        }),
{
    let added = ids_in_bitmap(bitmap, offset, page.num as nat);
    let after = found + added;
    lemma_ids_ascend(bitmap, offset, page.num as nat);
    assert forall|id: u16| #[trigger]
        after.contains(id) <==> found.contains(id) || (offset <= id < offset + page.num
            && bit_is_set(bitmap, (id - offset) as nat)) by {
        law_enumeration_finds_set_bits(bitmap, offset, page.num as nat, id);
        if after.contains(id) {
            let k = after.index_of(id);
            if k < found.len() {
                assert(found[k] == id);
            } else {
                assert(added[k - found.len()] == id);
            }
        }
        if found.contains(id) {
            assert(after[found.index_of(id)] == id);
        }
        if added.contains(id) {
            assert(after[found.len() + added.index_of(id)] == id);
        }
    }
}

/// The first device number of the answer at position `k` of a walk.
pub open spec fn walk_offset(pages: Seq<(BusGetDevicesResp, Seq<u8>)>, k: int) -> u16 {
    if k == 0 {
        0
    } else {
        pages[k - 1].0.next_offset
    }
}

/// Whether `pages` are the answers of a walk from its start: each is valid and ends before the next
/// one starts (see [`law_requested_pages_do_not_overlap`]), and none but the last ends the walk.
pub open spec fn is_walk(pages: Seq<(BusGetDevicesResp, Seq<u8>)>) -> bool {
    forall|k: int|
        0 <= k < pages.len() ==> {
            &&& is_valid_page(walk_offset(pages, k), (#[trigger] pages[k]).0, pages[k].1)
            &&& page_ids_fit(walk_offset(pages, k), pages[k].0, pages[k].1)
            &&& ends_before_next(walk_offset(pages, k), pages[k].0)
            &&& k < pages.len() - 1 ==> pages[k].0.next_offset != 0
        }
}

/// The numbers of the devices that a walk has found after its first `n` answers.
pub open spec fn walk_ids(pages: Seq<(BusGetDevicesResp, Seq<u8>)>, n: nat) -> Seq<u16>
    decreases n,
{
    if n == 0 {
        seq![]
    } else {
        let k = n - 1;
        walk_ids(pages, k as nat) + ids_in_bitmap(
            pages[k].1,
            walk_offset(pages, k),
            pages[k].0.num as nat,
        )
    }
}

/// Whether the answer at position `k` of a walk says that there is a device with number `id`.
pub open spec fn page_has_device(
    pages: Seq<(BusGetDevicesResp, Seq<u8>)>,
    k: int,
    id: u16,
) -> bool {
    let offset = walk_offset(pages, k);
    offset <= id < offset + pages[k].0.num && bit_is_set(pages[k].1, (id - offset) as nat)
}

/// What the answer at position `k` of a walk adds to what was found before.
proof fn lemma_walk_step(pages: Seq<(BusGetDevicesResp, Seq<u8>)>, k: int, id: u16)
    requires
        is_walk(pages),
        0 <= k < pages.len(),
        ascend_below(walk_ids(pages, k as nat), walk_offset(pages, k) as int),
    ensures
        ascend_below(walk_ids(pages, (k + 1) as nat), u16::MAX + 1),
        k + 1 < pages.len() ==> ascend_below(
            walk_ids(pages, (k + 1) as nat),
            walk_offset(pages, k + 1) as int,
        ),
        walk_ids(pages, (k + 1) as nat).contains(id) <==> walk_ids(pages, k as nat).contains(id)
            || page_has_device(pages, k, id),
{
    let offset = walk_offset(pages, k);
    let (page, bitmap) = pages[k];
    law_enumeration_step(walk_ids(pages, k as nat), offset, page, bitmap);
}

proof fn lemma_walk_ascends(pages: Seq<(BusGetDevicesResp, Seq<u8>)>, n: nat)
    requires
        is_walk(pages),
        n <= pages.len(),
    ensures
        ascend_below(walk_ids(pages, n), u16::MAX + 1),
        n < pages.len() ==> ascend_below(walk_ids(pages, n), walk_offset(pages, n as int) as int),
    decreases n,
{
    if n > 0 {
        lemma_walk_ascends(pages, (n - 1) as nat);
        lemma_walk_step(pages, n - 1, 0);
    }
}

/// A device that one of the first `n` answers of a walk says is there is one that one of the first
/// `n - 1` does, or that the last of them does.
proof fn lemma_walk_devices(pages: Seq<(BusGetDevicesResp, Seq<u8>)>, n: nat, id: u16)
    requires
        n > 0,
    ensures
        (exists|k: int| 0 <= k < n && #[trigger] page_has_device(pages, k, id)) <==> (exists|k: int|
            0 <= k < n - 1 && #[trigger] page_has_device(pages, k, id)) || page_has_device(
            pages,
            n - 1,
            id,
        ),
{
    if exists|k: int| 0 <= k < n - 1 && #[trigger] page_has_device(pages, k, id) {
        let k = choose|k: int| 0 <= k < n - 1 && #[trigger] page_has_device(pages, k, id);
        assert(0 <= k < n && page_has_device(pages, k, id));
    }
    if exists|k: int| 0 <= k < n && #[trigger] page_has_device(pages, k, id) {
        let k = choose|k: int| 0 <= k < n && #[trigger] page_has_device(pages, k, id);
        if k < n - 1 {
            assert(0 <= k < n - 1 && page_has_device(pages, k, id));
        }
    }
}

/// A walk finds each device once, in ascending order, and exactly those that one of the answers says
/// are there.
#[verifier::spinoff_prover]
#[verifier::rlimit(40)]
pub proof fn law_enumeration_of_a_walk(pages: Seq<(BusGetDevicesResp, Seq<u8>)>, n: nat, id: u16)
    requires
        is_walk(pages),
        n <= pages.len(),
    ensures
        ascend_below(walk_ids(pages, n), u16::MAX + 1),
        n < pages.len() ==> ascend_below(walk_ids(pages, n), walk_offset(pages, n as int) as int),
        walk_ids(pages, n).contains(id) <==> exists|k: int|
            0 <= k < n && #[trigger] page_has_device(pages, k, id),
    decreases n,
{
    lemma_walk_ascends(pages, n);
    if n > 0 {
        law_enumeration_of_a_walk(pages, (n - 1) as nat, id);
        lemma_walk_ascends(pages, (n - 1) as nat);
        lemma_walk_step(pages, n - 1, id);
        lemma_walk_devices(pages, n, id);
    }
}

/// A driver that walks the bus of a device of this library finds device number zero and nothing
/// else, in one step.
pub proof fn law_enumeration_of_a_device(d: DeviceView, reply: Reply)
    requires
        reply matches Ok(buf) && msg_bytes(buf@) == handle(
            d,
            request_msg(
                VIRTIO_MSG_BUS_GET_DEVICES,
                None,
                (BusGetDevices { offset: 0, num: NUM_REQ_DEVICES }).encode(),
            ),
        ).message,
    ensures
        can_enumerate(0, reply),
        ({
            let page = BusGetDevicesResp { offset: 0, num: 8, next_offset: 0 };
            let bitmap = seq![1u8];
            &&& reply_payload_variable::<BusGetDevicesResp>(reply, VIRTIO_MSG_BUS_GET_DEVICES)
                == Ok::<(BusGetDevicesResp, Seq<u8>), LkError>((page, bitmap))
            &&& is_valid_page(0, page, bitmap)
            &&& ids_in_bitmap(bitmap, 0, 8) == seq![0u16]
        }),
{
    let req = BusGetDevices { offset: 0, num: NUM_REQ_DEVICES };
    req.lemma_decode_encode(seq![]);
    let m = request_msg(VIRTIO_MSG_BUS_GET_DEVICES, None, req.encode());
    lemma_request_msg(VIRTIO_MSG_BUS_GET_DEVICES, None, req.encode());
    law_answers_are_responses(d, m);
    law_get_devices_exchange(d, 0, NUM_REQ_DEVICES);
    assert(device_bitmap(0) == 1);
    lemma_ids_of_one();
}

proof fn lemma_ids_of_one()
    ensures
        ids_in_bitmap(seq![1u8], 0, 8) == seq![0u16],
        page_ids_fit(0, BusGetDevicesResp { offset: 0, num: 8, next_offset: 0 }, seq![1u8]),
{
    assert(1u8 & (1u8 << 0u8) != 0 && 1u8 & (1u8 << 1u8) == 0 && 1u8 & (1u8 << 2u8) == 0 && 1u8 & (
    1u8 << 3u8) == 0 && 1u8 & (1u8 << 4u8) == 0 && 1u8 & (1u8 << 5u8) == 0 && 1u8 & (1u8 << 6u8)
        == 0 && 1u8 & (1u8 << 7u8) == 0) by (bit_vector);
    let bitmap = seq![1u8];
    assert(bit_is_set(bitmap, 0));
    assert(!bit_is_set(bitmap, 1) && !bit_is_set(bitmap, 2) && !bit_is_set(bitmap, 3));
    assert(!bit_is_set(bitmap, 4) && !bit_is_set(bitmap, 5) && !bit_is_set(bitmap, 6));
    assert(!bit_is_set(bitmap, 7));
    reveal_with_fuel(ids_in_bitmap, 9);
    assert(ids_in_bitmap(bitmap, 0, 1) =~= seq![0u16]);
}

/// How far the FF-A driver has come.
#[derive(Clone, Copy, Debug, PartialEq, Eq, Structural)]
pub enum FFAInitState {
    Uninit,
    InitFailed,
    InitSuccess { major_version: u16, minor_version: u16 },
}

/// Whether the driver can be used: FF-A has to be initialized before, and the negotiated version has
/// to be 1.2 or a later 1.x. `Ok(false)` leaves the driver disabled.
pub open spec fn driver_init_result(state: FFAInitState) -> Result<bool, LkError> {
    match state {
        FFAInitState::InitFailed => Ok(false),
        FFAInitState::Uninit => Err(LkError::NotConfigured),
        FFAInitState::InitSuccess { major_version, minor_version } => Ok(
            major_version == 1 && minor_version >= 2,
        ),
    }
}

/// Decides whether the driver can be used (see [`driver_init_result`]).
pub fn driver_init(state: FFAInitState) -> (result: Result<bool, LkError>)
    ensures
        result == driver_init_result(state),
{
    match state {
        FFAInitState::InitFailed => Ok(false),
        FFAInitState::Uninit => Err(LkError::NotConfigured),
        FFAInitState::InitSuccess { major_version: 1, minor_version } if minor_version >= 2 => Ok(
            true,
        ),
        FFAInitState::InitSuccess { .. } => Ok(false),
    }
}

/// Decides what to do with a device of the bus, given the reply to
/// [`VirtioMsgReq::new_get_device_info`]: a socket device gets a transport, and any other device is
/// ignored.
pub fn init_device(dev_id: u16, reply: Reply) -> (result: Result<Option<FFAMsgTransport>, LkError>)
    ensures
        match reply_payload::<GetDeviceInfoResp>(reply, VIRTIO_MSG_DEVICE_INFO) {
            Ok(info) => result == Ok::<Option<FFAMsgTransport>, LkError>(
                if info.device_id == VIRTIO_ID_VSOCK {
                    Some(FFAMsgTransport { dev_id })
                } else {
                    None
                },
            ),
            Err(e) => result == Err::<Option<FFAMsgTransport>, LkError>(e),
        },
{
    match get_device_info(reply) {
        Ok(info) => {
            if info.device_id != socket_device_type() {
                Ok(None)
            } else {
                Ok(Some(FFAMsgTransport::new(dev_id)))
            }
        },
        Err(e) => Err(e),
    }
}

/// The size of the shared memory: `mem_size` rounded up to whole pages.
pub open spec fn shared_memory_size_of(mem_size: usize) -> int {
    (mem_size + PAGE_SIZE - 1) / PAGE_SIZE as int * PAGE_SIZE
}

/// The size of the shared memory. There have to be at least fourteen pages.
pub fn shared_memory_size(mem_size: usize) -> (size: Option<usize>)
    ensures
        match size {
            Some(n) => n == shared_memory_size_of(mem_size) && n >= 14 * PAGE_SIZE,
            None => shared_memory_size_of(mem_size) < 14 * PAGE_SIZE || shared_memory_size_of(
                mem_size,
            ) > usize::MAX,
        },
{
    let whole: usize = mem_size / PAGE_SIZE;
    let num_pages: usize = if mem_size % PAGE_SIZE == 0 {
        whole
    } else {
        whole + 1
    };
    assert(num_pages == (mem_size + PAGE_SIZE - 1) / PAGE_SIZE as int);
    if num_pages < 14 {
        return None;
    }
    num_pages.checked_mul(PAGE_SIZE)
}

/// The memory that the driver shares with the device. All buffers come out of it.
#[derive(Debug)]
pub struct SharedHeap {
    pub paddr: u64,
    pub vaddr: u64,
    pub shared: bool,
    pub allocator: VsockMemAllocator,
}

impl SharedHeap {
    /// A heap without memory.
    pub fn new() -> (heap: SharedHeap)
        ensures
            heap.paddr == 0,
            heap.vaddr == 0,
            !heap.shared,
            heap.allocator@ == AllocatorView::empty(),
    {
        SharedHeap { paddr: 0, vaddr: 0, shared: false, allocator: VsockMemAllocator::new() }
    }

    /// How many pages a heap of `heap_size` bytes needs.
    pub fn init_pages(&self, heap_size: usize) -> (result: Result<usize, LkError>)
        ensures
            result == if self.shared {
                Err::<usize, LkError>(LkError::AlreadyStarted)
            } else if heap_size % PAGE_SIZE != 0 {
                Err(LkError::InvalidArgs)
            } else {
                Ok((heap_size / PAGE_SIZE) as usize)
            },
    {
        if self.shared {
            return Err(LkError::AlreadyStarted);
        }
        if heap_size % PAGE_SIZE != 0 {
            return Err(LkError::InvalidArgs);
        }
        Ok(heap_size / PAGE_SIZE)
    }

    /// The request that shares the pages of the heap. They are not executable.
    pub fn init_request(area_id: u16, ffa_handle: u64, num_pages: usize) -> (req: VirtioMsgReq)
        requires
            num_pages <= u32::MAX,
        ensures
            req.bytes() == request_msg(
                VIRTIO_MSG_FFA_BUS_AREA_SHARE,
                None,
                share_request(
                    area_id,
                    ffa_handle,
                    num_pages,
                    ArchMmuFlags { bits: ArchMmuFlags::PERM_NO_EXECUTE },
                ).encode(),
            ),
    {
        VirtioMsgReq::new_bus_area_share(
            area_id,
            ffa_handle,
            num_pages,
            ArchMmuFlags { bits: ArchMmuFlags::PERM_NO_EXECUTE },
        )
    }

    /// Puts `num_pages` pages of memory into the heap, given the reply to
    /// [`SharedHeap::init_request`].
    pub fn init(&mut self, reply: Reply, num_pages: usize, paddr: u64, vaddr: u64) -> (result: Result<
        (),
        LkError,
    >)
        ensures
            match response_of(reply) {
                Err(e) => result == Err::<(), LkError>(e) && *final(self) == *old(self),
                Ok(_) => match old(self).allocator@.after_init(num_pages) {
                    Err(e) => result == Err::<(), LkError>(e) && *final(self) == *old(self),
                    Ok(allocator) => {
                        &&& result == Ok::<(), LkError>(())
                        &&& final(self).allocator@ == allocator
                        &&& final(self).paddr == paddr
                        &&& final(self).vaddr == vaddr
                        &&& final(self).shared
                    },
                },
            },
            result is Ok && old(self).allocator@.wf() && memory_fits(num_pages, paddr, vaddr)
                ==> final(self).wf() && final(self).allocator@.wf(),
    {
        if let Err(e) = receive_response(reply) {
            return Err(e);
        }
        if let Err(e) = self.allocator.init(num_pages) {
            return Err(e);
        }
        self.paddr = paddr;
        self.vaddr = vaddr;
        self.shared = true;
        Ok(())
    }
}

} // verus!
