//! Memory that the driver shares with the device.

use vstd::prelude::*;

use crate::error::LkError;
use crate::msg::driver::{SharedHeap, INITIAL_AREA_ID};
use crate::msg::{
    area_id_and_offset, area_id_of, bus_address, bus_address_of, offset_of, BusAddress, PAGE_SIZE,
};

verus! {

/// Identifies a page of the shared memory.
pub type PageIdx = usize;

/// A basic allocator for the shared memory of the driver.
///
/// It has blocks of one page and blocks of two pages. The first `DOUBLE_BLOCK_PAGES` pages are for
/// the blocks of two pages and the rest are for the blocks of one page.
#[derive(Debug)]
pub struct VsockMemAllocator {
    pub num_pages: usize,
    pub free_double_blocks: Vec<PageIdx>,
    pub free_single_blocks: Vec<PageIdx>,
}

/// The abstract value of a [`VsockMemAllocator`].
#[verifier::ext_equal]
pub struct AllocatorView {
    pub num_pages: usize,
    pub double: Seq<PageIdx>,
    pub single: Seq<PageIdx>,
}

impl View for VsockMemAllocator {
    type V = AllocatorView;

    open spec fn view(&self) -> AllocatorView {
        AllocatorView {
            num_pages: self.num_pages,
            double: self.free_double_blocks@,
            single: self.free_single_blocks@,
        }
    }
}

/// The pages from the first block of one page up to `num_pages`.
pub open spec fn single_pages(num_pages: usize) -> Seq<PageIdx> {
    Seq::new((num_pages - 6) as nat, |i: int| (6 + i) as usize)
}

impl AllocatorView {
    /// An allocator without memory.
    pub open spec fn empty() -> AllocatorView {
        AllocatorView { num_pages: 0, double: seq![], single: seq![] }
    }

    /// The allocator after it was given `num_pages` pages: three blocks of two pages, and all other
    /// pages as blocks of one page.
    pub open spec fn after_init(self, num_pages: usize) -> Result<AllocatorView, LkError> {
        if self.num_pages != 0 {
            Err(LkError::AlreadyStarted)
        } else if num_pages < VsockMemAllocator::MINIMUM_PAGES {
            Err(LkError::NotEnoughBuffer)
        } else {
            Ok(
                AllocatorView {
                    num_pages,
                    double: self.double + seq![0usize, 2, 4],
                    single: self.single + single_pages(num_pages),
                },
            )
        }
    }

    /// The free blocks of `n` pages.
    pub open spec fn free(self, n: usize) -> Seq<PageIdx> {
        if n == 1 {
            self.single
        } else {
            self.double
        }
    }

    /// The first page of the block of `n` pages that is handed out next: the one that became free
    /// last.
    pub open spec fn next_block(self, n: usize) -> Result<PageIdx, LkError> {
        if n != 1 && n != 2 {
            Err(LkError::NotSupported)
        } else if self.free(n).len() == 0 {
            Err(LkError::NoMemory)
        } else {
            Ok(self.free(n).last())
        }
    }

    /// The allocator after a block of `n` pages was asked for.
    pub open spec fn after_allocate(self, n: usize) -> AllocatorView {
        if self.next_block(n) is Err {
            self
        } else if n == 1 {
            AllocatorView { single: self.single.drop_last(), ..self }
        } else {
            AllocatorView { double: self.double.drop_last(), ..self }
        }
    }

    /// Whether the block that starts at page `page` is free.
    pub open spec fn is_free(self, page: PageIdx) -> bool {
        self.double.contains(page) || self.single.contains(page)
    }

    /// The allocator after the block that starts at page `page` was given back.
    pub open spec fn after_deallocate(self, page: PageIdx) -> Result<AllocatorView, LkError> {
        if self.is_free(page) {
            Err(LkError::InvalidArgs)
        } else if page < VsockMemAllocator::DOUBLE_BLOCK_PAGES {
            Ok(AllocatorView { double: self.double.push(page), ..self })
        } else if page < self.num_pages {
            Ok(AllocatorView { single: self.single.push(page), ..self })
        } else {
            Err(LkError::InvalidArgs)
        }
    }

    /// The free blocks are blocks of the allocator, and none of them is free twice.
    pub open spec fn wf(self) -> bool {
        &&& self.num_pages == 0 || self.num_pages >= VsockMemAllocator::MINIMUM_PAGES
        &&& self.num_pages == 0 ==> self == AllocatorView::empty()
        &&& self.double.no_duplicates()
        &&& self.single.no_duplicates()
        &&& forall|i: int|
            0 <= i < self.double.len() ==> is_block(self.num_pages, #[trigger] self.double[i], 2)
        &&& forall|i: int|
            0 <= i < self.single.len() ==> is_block(self.num_pages, #[trigger] self.single[i], 1)
    }
}

/// Whether a block of `n` pages starts at page `page` of a memory of `num_pages` pages.
pub open spec fn is_block(num_pages: usize, page: PageIdx, n: usize) -> bool {
    &&& page + n <= num_pages
    &&& n == 2 ==> page < VsockMemAllocator::DOUBLE_BLOCK_PAGES && page % 2 == 0
    &&& n == 1 ==> page >= VsockMemAllocator::DOUBLE_BLOCK_PAGES
    &&& n == 1 || n == 2
}

/// Whether `page` is one of `pages`.
fn contains_page(pages: &Vec<PageIdx>, page: PageIdx) -> (res: bool)
    ensures
        res == pages@.contains(page),
{
    let mut i: usize = 0;
    while i < pages.len()
        invariant
            i <= pages@.len(),
            forall|j: int| 0 <= j < i ==> pages@[j] != page,
        decreases pages@.len() - i,
    {
        if pages[i] == page {
            assert(pages@[i as int] == page);
            return true;
        }
        i = i + 1;
    }
    false
}

impl VsockMemAllocator {
    /// Two pages for each of the three virtqueues, and one page for each of the eight receive
    /// buffers.
    pub const MINIMUM_PAGES: usize = 14;

    /// Only the three virtqueues use blocks of two pages.
    pub const DOUBLE_BLOCK_PAGES: usize = 6;

    /// An allocator without memory.
    pub fn new() -> (allocator: VsockMemAllocator)
        ensures
            allocator@ == AllocatorView::empty(),
            allocator@.wf(),
    {
        let allocator = VsockMemAllocator {
            num_pages: 0,
            free_double_blocks: Vec::new(),
            free_single_blocks: Vec::new(),
        };
        assert(allocator@ =~= AllocatorView::empty());
        allocator
    }

    /// Gives the allocator its memory.
    pub fn init(&mut self, num_pages: usize) -> (result: Result<(), LkError>)
        ensures
            match old(self)@.after_init(num_pages) {
                Ok(after) => result == Ok::<(), LkError>(()) && final(self)@ == after,
                Err(e) => result == Err::<(), LkError>(e) && *final(self) == *old(self),
            },
            old(self)@.wf() ==> final(self)@.wf(),
    {
        if self.num_pages != 0 {
            return Err(LkError::AlreadyStarted);
        }
        if num_pages < Self::MINIMUM_PAGES {
            return Err(LkError::NotEnoughBuffer);
        }
        let ghost start = self@;
        self.num_pages = num_pages;
        let mut i: usize = 0;
        while i < Self::DOUBLE_BLOCK_PAGES
            invariant
                i <= 6,
                i % 2 == 0,
                self.num_pages == num_pages,
                self@.single == start.single,
                self@.double == start.double + seq![0usize, 2, 4].take((i / 2) as int),
            decreases 6 - i,
        {
            self.free_double_blocks.push(i);
            assert(seq![0usize, 2, 4].take((i / 2) as int).push(i) =~= seq![0usize, 2, 4].take(
                (i / 2) as int + 1,
            ));
            assert(self@.double =~= start.double + seq![0usize, 2, 4].take((i / 2) as int + 1));
            i = i + 2;
        }
        assert(seq![0usize, 2, 4].take(3) =~= seq![0usize, 2, 4]);
        let mut page: usize = Self::DOUBLE_BLOCK_PAGES;
        while page < num_pages
            invariant
                6 <= page <= num_pages,
                self.num_pages == num_pages,
                self@.double == start.double + seq![0usize, 2, 4],
                self@.single == start.single + single_pages(page),
            decreases num_pages - page,
        {
            self.free_single_blocks.push(page);
            page = page + 1;
            assert(self@.single =~= start.single + single_pages(page));
        }
        proof {
            if start.wf() {
                lemma_init_keeps_wf(start, num_pages);
            }
        }
        Ok(())
    }

    /// Hands out a block of one or two pages.
    pub fn allocate(&mut self, num_pages: usize) -> (result: Result<PageIdx, LkError>)
        ensures
            result == old(self)@.next_block(num_pages),
            final(self)@ == old(self)@.after_allocate(num_pages),
            old(self)@.wf() ==> final(self)@.wf(),
    {
        let new_alloc = match num_pages {
            1 => self.free_single_blocks.pop(),
            2 => self.free_double_blocks.pop(),
            _ => {
                return Err(LkError::NotSupported);
            },
        };
        assert(self@ =~= old(self)@.after_allocate(num_pages));
        proof {
            if old(self)@.wf() {
                lemma_allocate_keeps_wf(old(self)@, num_pages);
            }
        }
        match new_alloc {
            Some(alloc) => Ok(alloc),
            None => Err(LkError::NoMemory),
        }
    }

    /// Takes a block back.
    pub fn deallocate(&mut self, page_idx: PageIdx) -> (result: Result<(), LkError>)
        ensures
            match old(self)@.after_deallocate(page_idx) {
                Ok(after) => result == Ok::<(), LkError>(()) && final(self)@ == after,
                Err(e) => result == Err::<(), LkError>(e) && *final(self) == *old(self),
            },
    {
        if contains_page(&self.free_double_blocks, page_idx) || contains_page(
            &self.free_single_blocks,
            page_idx,
        ) {
            return Err(LkError::InvalidArgs);
        }
        if page_idx < Self::DOUBLE_BLOCK_PAGES {
            self.free_double_blocks.push(page_idx);
        } else if page_idx < self.num_pages {
            self.free_single_blocks.push(page_idx);
        } else {
            return Err(LkError::InvalidArgs);
        }
        Ok(())
    }
}

proof fn lemma_init_keeps_wf(a: AllocatorView, num_pages: usize)
    requires
        a.wf(),
        a.num_pages == 0,
        num_pages >= VsockMemAllocator::MINIMUM_PAGES,
    ensures
        a.after_init(num_pages) matches Ok(after) && after.wf(),
{
    let after = a.after_init(num_pages)->Ok_0;
    assert(after.double =~= seq![0usize, 2, 4]);
    assert(after.single =~= single_pages(num_pages));
}

proof fn lemma_allocate_keeps_wf(a: AllocatorView, n: usize)
    requires
        a.wf(),
    ensures
        a.after_allocate(n).wf(),
{
    let after = a.after_allocate(n);
    assert forall|i: int| 0 <= i < after.double.len() implies is_block(
        after.num_pages,
        #[trigger] after.double[i],
        2,
    ) by {
        assert(after.double[i] == a.double[i]);
    }
    assert forall|i: int| 0 <= i < after.single.len() implies is_block(
        after.num_pages,
        #[trigger] after.single[i],
        1,
    ) by {
        assert(after.single[i] == a.single[i]);
    }
}

/// A block that is handed out lies inside the memory, and it is not free any more.
pub proof fn law_allocated_block_is_not_free(a: AllocatorView, n: usize)
    requires
        a.wf(),
        a.next_block(n) is Ok,
    ensures
        is_block(a.num_pages, a.next_block(n)->Ok_0, n),
        !a.after_allocate(n).is_free(a.next_block(n)->Ok_0),
        a.after_allocate(n).wf(),
{
    let page = a.next_block(n)->Ok_0;
    let after = a.after_allocate(n);
    lemma_allocate_keeps_wf(a, n);
    let last = a.free(n).len() - 1;
    assert(a.free(n)[last] == page);
    assert(is_block(a.num_pages, page, n));
    if after.double.contains(page) {
        let k = after.double.index_of(page);
        assert(is_block(after.num_pages, after.double[k], 2));
        assert(after.double[k] == a.double[k]);
    }
    if after.single.contains(page) {
        let k = after.single.index_of(page);
        assert(is_block(after.num_pages, after.single[k], 1));
        assert(after.single[k] == a.single[k]);
    }
}

/// Giving back the block that was just handed out restores the allocator.
pub proof fn law_deallocate_undoes_allocate(a: AllocatorView, n: usize)
    requires
        a.wf(),
        a.next_block(n) is Ok,
    ensures
        a.after_allocate(n).after_deallocate(a.next_block(n)->Ok_0) == Ok::<AllocatorView, LkError>(
            a,
        ),
{
    law_allocated_block_is_not_free(a, n);
    let page = a.next_block(n)->Ok_0;
    let after = a.after_allocate(n);
    if n == 1 {
        assert(after.single.push(page) =~= a.single);
    } else {
        assert(after.double.push(page) =~= a.double);
    }
}

/// A block cannot be given back twice.
pub proof fn law_double_free_is_refused(a: AllocatorView, page: PageIdx)
    requires
        a.after_deallocate(page) is Ok,
    ensures
        (a.after_deallocate(page)->Ok_0).after_deallocate(page) == Err::<AllocatorView, LkError>(
            LkError::InvalidArgs,
        ),
{
    let after = a.after_deallocate(page)->Ok_0;
    if page < VsockMemAllocator::DOUBLE_BLOCK_PAGES {
        assert(after.double.last() == page);
    } else {
        assert(after.single.last() == page);
    }
}

/// Giving back a block of the allocator keeps the allocator valid.
pub proof fn law_deallocate_keeps_wf(a: AllocatorView, page: PageIdx, n: usize)
    requires
        a.wf(),
        is_block(a.num_pages, page, n),
        a.after_deallocate(page) is Ok,
    ensures
        (a.after_deallocate(page)->Ok_0).wf(),
{
    let after = a.after_deallocate(page)->Ok_0;
    assert(a.num_pages != 0);
    assert forall|i: int| 0 <= i < after.double.len() implies is_block(
        after.num_pages,
        #[trigger] after.double[i],
        2,
    ) by {
        if i < a.double.len() {
            assert(after.double[i] == a.double[i]);
        }
    }
    assert forall|i: int| 0 <= i < after.single.len() implies is_block(
        after.num_pages,
        #[trigger] after.single[i],
        1,
    ) by {
        if i < a.single.len() {
            assert(after.single[i] == a.single[i]);
        }
    }
}

/// Two blocks of the allocator are the same block or have no page in common.
pub proof fn law_blocks_do_not_overlap(
    num_pages: usize,
    page: PageIdx,
    n: usize,
    other: PageIdx,
    m: usize,
)
    requires
        is_block(num_pages, page, n),
        is_block(num_pages, other, m),
    ensures
        (page == other && n == m) || page + n <= other || other + m <= page,
{
}

/// Two blocks that are handed out one after the other are different blocks.
pub proof fn law_allocations_are_distinct(a: AllocatorView, n: usize, m: usize)
    requires
        a.wf(),
        a.next_block(n) is Ok,
        a.after_allocate(n).next_block(m) is Ok,
    ensures
        a.next_block(n)->Ok_0 != a.after_allocate(n).next_block(m)->Ok_0,
{
    law_allocated_block_is_not_free(a, n);
    let after = a.after_allocate(n);
    let second = after.next_block(m)->Ok_0;
    assert(after.free(m).last() == second);
    assert(after.free(m).contains(second));
}

/// Which way the data in a buffer goes.
#[derive(Clone, Copy, Debug, PartialEq, Eq, Structural)]
pub enum BufferDirection {
    DriverToDevice,
    DeviceToDriver,
    Both,
}

/// The addresses of a block of the shared memory.
#[derive(Clone, Copy, Debug, PartialEq, Eq, Structural)]
pub struct BlockAddrs {
    pub paddr: u64,
    pub vaddr: u64,
    pub bus_addr: BusAddress,
}

/// A buffer in the shared memory.
#[derive(Clone, Copy, Debug, PartialEq, Eq, Structural)]
pub struct SharedBuffer {
    pub bus_addr: BusAddress,
    /// Where the data for the device has to be copied to, if there is any.
    pub copy_to: Option<u64>,
}

/// The offset of a page from the start of the shared memory.
pub open spec fn page_offset(page: PageIdx) -> int {
    page * PAGE_SIZE
}

/// The number of pages that `len` bytes need.
pub open spec fn pages_for(len: usize) -> int {
    (len + PAGE_SIZE - 1) / PAGE_SIZE as int
}

/// Whether `num_pages` pages at `paddr` and `vaddr` lie in the address space, and their offsets fit in
/// a bus address.
pub open spec fn memory_fits(num_pages: usize, paddr: u64, vaddr: u64) -> bool {
    &&& num_pages * PAGE_SIZE <= 0x1_0000_0000_0000
    &&& paddr + num_pages * PAGE_SIZE <= u64::MAX
    &&& vaddr + num_pages * PAGE_SIZE <= u64::MAX
}

/// Whether memory can be put into a heap (see [`memory_fits`]).
pub fn check_memory(num_pages: usize, paddr: u64, vaddr: u64) -> (res: bool)
    ensures
        res == memory_fits(num_pages, paddr, vaddr),
{
    if num_pages as u64 > 0x1_0000_0000_0000 / PAGE_SIZE as u64 {
        return false;
    }
    let size: u64 = num_pages as u64 * PAGE_SIZE as u64;
    paddr <= u64::MAX - size && vaddr <= u64::MAX - size
}

impl SharedHeap {
    /// One more than the largest page that the allocator can hand out or take back.
    pub open spec fn page_limit(self) -> int {
        if self.allocator.num_pages < VsockMemAllocator::DOUBLE_BLOCK_PAGES {
            VsockMemAllocator::DOUBLE_BLOCK_PAGES as int
        } else {
            self.allocator.num_pages as int
        }
    }

    /// The memory of the heap lies in the address space, and its offsets fit in a bus address.
    pub open spec fn wf(self) -> bool {
        let size = self.page_limit() * PAGE_SIZE;
        &&& size <= 0x1_0000_0000_0000
        &&& self.paddr + size <= u64::MAX
        &&& self.vaddr + size <= u64::MAX
        &&& forall|i: int|
            0 <= i < self.allocator@.double.len() ==> #[trigger] self.allocator@.double[i]
                < self.page_limit()
        &&& forall|i: int|
            0 <= i < self.allocator@.single.len() ==> #[trigger] self.allocator@.single[i]
                < self.page_limit()
    }

    /// The addresses of page `page`.
    pub open spec fn addrs(self, page: PageIdx) -> BlockAddrs {
        BlockAddrs {
            paddr: (self.paddr + page_offset(page)) as u64,
            vaddr: (self.vaddr + page_offset(page)) as u64,
            bus_addr: bus_address_of(INITIAL_AREA_ID as nat, page_offset(page) as nat) as u64,
        }
    }

    /// Whether a block of `num_pages` pages can be handed out with an address that is not zero, or
    /// cannot be handed out at all.
    pub open spec fn can_allocate(self, num_pages: usize) -> bool {
        self.allocator@.next_block(num_pages) matches Ok(page) ==> self.vaddr + page_offset(page)
            != 0
    }

    /// Whether the block at `bus_addr` can be given back.
    pub open spec fn can_deallocate(self, bus_addr: BusAddress) -> bool {
        &&& offset_of(bus_addr) % (PAGE_SIZE as nat) == 0
        &&& offset_of(bus_addr) / (PAGE_SIZE as nat) <= usize::MAX
        &&& self.allocator@.after_deallocate(page_of(bus_addr)) is Ok
    }
}

/// The page that `bus_addr` lies in.
pub open spec fn page_of(bus_addr: BusAddress) -> PageIdx {
    (offset_of(bus_addr) / (PAGE_SIZE as nat)) as usize
}

/// Allocates the memory of the driver out of the shared heap.
pub struct MsgHal;

impl MsgHal {
    /// Hands out a block of one or two pages.
    pub fn allocate(heap: &mut SharedHeap, num_pages: usize) -> (result: Option<BlockAddrs>)
        requires
            old(heap).wf(),
            old(heap).can_allocate(num_pages),
        ensures
            match old(heap).allocator@.next_block(num_pages) {
                Ok(page) => result == Some(old(heap).addrs(page)),
                Err(_) => result is None,
            },
            final(heap).allocator@ == old(heap).allocator@.after_allocate(num_pages),
            final(heap).paddr == old(heap).paddr,
            final(heap).vaddr == old(heap).vaddr,
            final(heap).shared == old(heap).shared,
            final(heap).wf(),
    {
        let ghost before = heap.allocator@;
        let page_idx: usize = match heap.allocator.allocate(num_pages) {
            Ok(idx) => idx,
            Err(_) => {
                return None;
            },
        };
        proof {
            let k = before.free(num_pages).len() - 1;
            assert(before.free(num_pages)[k] == page_idx);
            assert(page_idx < heap.page_limit());
            assert forall|i: int| 0 <= i < heap.allocator@.double.len() implies
                #[trigger] heap.allocator@.double[i] < heap.page_limit() by {
                assert(heap.allocator@.double[i] == before.double[i]);
            }
            assert forall|i: int| 0 <= i < heap.allocator@.single.len() implies
                #[trigger] heap.allocator@.single[i] < heap.page_limit() by {
                assert(heap.allocator@.single[i] == before.single[i]);
            }
        }
        let offset: u64 = page_idx as u64 * PAGE_SIZE as u64;
        let vaddr: u64 = heap.vaddr + offset;
        let paddr: u64 = heap.paddr + offset;
        let bus_addr: BusAddress = bus_address(INITIAL_AREA_ID, offset);
        Some(BlockAddrs { paddr, vaddr, bus_addr })
    }

    /// Takes back the block at a bus address.
    pub fn deallocate(heap: &mut SharedHeap, bus_addr: BusAddress)
        requires
            old(heap).wf(),
            old(heap).can_deallocate(bus_addr),
        ensures
            old(heap).allocator@.after_deallocate(page_of(bus_addr)) == Ok::<
                AllocatorView,
                LkError,
            >(final(heap).allocator@),
            final(heap).paddr == old(heap).paddr,
            final(heap).vaddr == old(heap).vaddr,
            final(heap).shared == old(heap).shared,
            final(heap).wf(),
    {
        let (_area_id, offset) = area_id_and_offset(bus_addr);
        let page_idx: usize = (offset / PAGE_SIZE as u64) as usize;
        let ghost before = heap.allocator@;
        let _ = heap.allocator.deallocate(page_idx);
        proof {
            assert forall|i: int| 0 <= i < heap.allocator@.double.len() implies
                #[trigger] heap.allocator@.double[i] < heap.page_limit() by {
                if i < before.double.len() {
                    assert(heap.allocator@.double[i] == before.double[i]);
                }
            }
            assert forall|i: int| 0 <= i < heap.allocator@.single.len() implies
                #[trigger] heap.allocator@.single[i] < heap.page_limit() by {
                if i < before.single.len() {
                    assert(heap.allocator@.single[i] == before.single[i]);
                }
            }
        }
    }

    /// Whether a block of `num_pages` pages can be handed out (see [`SharedHeap::can_allocate`]).
    pub fn check_allocate(heap: &SharedHeap, num_pages: usize) -> (res: bool)
        requires
            heap.wf(),
        ensures
            res == heap.can_allocate(num_pages),
    {
        let page: usize = if num_pages == 1 && heap.allocator.free_single_blocks.len() > 0 {
            heap.allocator.free_single_blocks[heap.allocator.free_single_blocks.len() - 1]
        } else if num_pages == 2 && heap.allocator.free_double_blocks.len() > 0 {
            heap.allocator.free_double_blocks[heap.allocator.free_double_blocks.len() - 1]
        } else {
            return true;
        };
        assert(heap.allocator@.next_block(num_pages) == Ok::<PageIdx, LkError>(page));
        heap.vaddr != 0 || page != 0
    }

    /// Whether the block at a bus address can be given back (see [`SharedHeap::can_deallocate`]).
    pub fn check_deallocate(heap: &SharedHeap, bus_addr: BusAddress) -> (res: bool)
        ensures
            res == heap.can_deallocate(bus_addr),
    {
        let (_area_id, offset) = area_id_and_offset(bus_addr);
        let page: u64 = offset / PAGE_SIZE as u64;
        if offset % PAGE_SIZE as u64 != 0 || page > usize::MAX as u64 {
            return false;
        }
        let page_idx: usize = page as usize;
        if contains_page(&heap.allocator.free_double_blocks, page_idx) || contains_page(
            &heap.allocator.free_single_blocks,
            page_idx,
        ) {
            return false;
        }
        page_idx < VsockMemAllocator::DOUBLE_BLOCK_PAGES || page_idx < heap.allocator.num_pages
    }

    /// Finds room for a buffer of `len` bytes in the shared memory. Data that goes to the device has
    /// to be copied there.
    pub fn share(heap: &mut SharedHeap, len: usize, direction: BufferDirection) -> (result: Option<
        SharedBuffer,
    >)
        requires
            old(heap).wf(),
            old(heap).can_allocate(pages_for(len) as usize),
        ensures
            match old(heap).allocator@.next_block(pages_for(len) as usize) {
                Ok(page) => result == Some(
                    SharedBuffer {
                        bus_addr: old(heap).addrs(page).bus_addr,
                        copy_to: if direction == BufferDirection::DriverToDevice {
                            Some(old(heap).addrs(page).vaddr)
                        } else {
                            None
                        },
                    },
                ),
                Err(_) => result is None,
            },
            final(heap).allocator@ == old(heap).allocator@.after_allocate(pages_for(len) as usize),
            final(heap).paddr == old(heap).paddr,
            final(heap).vaddr == old(heap).vaddr,
            final(heap).shared == old(heap).shared,
            final(heap).wf(),
    {
        let whole: usize = len / PAGE_SIZE;
        let num_pages: usize = if len % PAGE_SIZE == 0 {
            whole
        } else {
            whole + 1
        };
        assert(num_pages == pages_for(len));
        match Self::allocate(heap, num_pages) {
            Some(addrs) => {
                let copy_to: Option<u64> = if direction == BufferDirection::DriverToDevice {
                    Some(addrs.vaddr)
                } else {
                    None
                };
                Some(SharedBuffer { bus_addr: addrs.bus_addr, copy_to })
            },
            None => None,
        }
    }

    /// Takes back a buffer in the shared memory. Returns where data of the device has to be copied
    /// from before the buffer is used again, if there is any.
    pub fn unshare(heap: &mut SharedHeap, bus_addr: BusAddress, direction: BufferDirection) -> (
    copy_from: Option<u64>)
        requires
            old(heap).wf(),
            area_id_of(bus_addr) == INITIAL_AREA_ID,
            old(heap).can_deallocate(bus_addr),
        ensures
            copy_from == if direction == BufferDirection::DeviceToDriver {
                Some((old(heap).vaddr + offset_of(bus_addr)) as u64)
            } else {
                None
            },
            old(heap).allocator@.after_deallocate(page_of(bus_addr)) == Ok::<
                AllocatorView,
                LkError,
            >(final(heap).allocator@),
            final(heap).paddr == old(heap).paddr,
            final(heap).vaddr == old(heap).vaddr,
            final(heap).shared == old(heap).shared,
            final(heap).wf(),
    {
        let (_area_id, offset) = area_id_and_offset(bus_addr);
        assert(page_of(bus_addr) < heap.page_limit());
        let copy_from: Option<u64> = if direction == BufferDirection::DeviceToDriver {
            Some(heap.vaddr + offset)
        } else {
            None
        };
        Self::deallocate(heap, bus_addr);
        copy_from
    }
}

/// A bus address that the heap handed out leads back to the block: to its page, and, through the
/// start of the heap, to its virtual address.
pub proof fn law_bus_address_finds_block(heap: SharedHeap, page: PageIdx)
    requires
        heap.wf(),
        page < heap.page_limit(),
    ensures
        area_id_of(heap.addrs(page).bus_addr) == INITIAL_AREA_ID,
        page_of(heap.addrs(page).bus_addr) == page,
        heap.vaddr + offset_of(heap.addrs(page).bus_addr) == heap.addrs(page).vaddr,
        offset_of(heap.addrs(page).bus_addr) % (PAGE_SIZE as nat) == 0,
{
}

/// A buffer that was shared can be unshared, which leaves the heap as it was before.
pub proof fn law_unshare_undoes_share(heap: SharedHeap, after: SharedHeap, num_pages: usize)
    requires
        heap.wf(),
        heap.allocator@.wf(),
        heap.allocator@.next_block(num_pages) is Ok,
        after.allocator@ == heap.allocator@.after_allocate(num_pages),
    ensures
        ({
            let page = heap.allocator@.next_block(num_pages)->Ok_0;
            let bus_addr = heap.addrs(page).bus_addr;
            &&& after.can_deallocate(bus_addr)
            &&& after.allocator@.after_deallocate(page_of(bus_addr)) == Ok::<
                AllocatorView,
                LkError,
            >(heap.allocator@)
        }),
{
    let page = heap.allocator@.next_block(num_pages)->Ok_0;
    law_allocated_block_is_not_free(heap.allocator@, num_pages);
    law_deallocate_undoes_allocate(heap.allocator@, num_pages);
    law_bus_address_finds_block(heap, page);
}

} // verus!
