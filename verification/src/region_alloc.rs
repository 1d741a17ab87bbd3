//! A simple allocator for a region of physical memory.

use vstd::arithmetic::div_mod::{
    lemma_fundamental_div_mod, lemma_fundamental_div_mod_converse, lemma_mod_bound,
};
use vstd::prelude::*;

use crate::error::LkError;

verus! {

/// The addresses from `start` up to, but not including, `end`.
#[derive(Clone, Copy, Debug, PartialEq, Eq, Structural)]
pub struct AddrRange {
    pub start: u64,
    pub end: u64,
}

/// Manages allocations from a region of physical memory that is mapped as a whole, and returns the
/// physical and the virtual address of each allocation.
#[derive(Debug)]
pub struct RegionAllocator {
    pub region: AddrRange,
    /// Virtual address of the start of the region.
    pub mapping: u64,
    /// The allocations, in the order of their addresses.
    pub allocs: Vec<AddrRange>,
}

/// An allocation.
#[derive(Clone, Copy, Debug, PartialEq, Eq, Structural)]
pub struct Allocation {
    pub paddr: u64,
    pub vaddr: u64,
    /// How many bytes from the start the caller has to fill with zeros.
    pub zero_bytes: u64,
}

/// `x` rounded up to a multiple of `align`.
pub open spec fn round_up(x: int, align: int) -> int {
    if x % align == 0 {
        x
    } else {
        x + (align - x % align)
    }
}

/// Rounding up gives the smallest multiple that is not below the number.
pub proof fn lemma_round_up(x: int, align: int)
    requires
        0 <= x,
        0 < align,
    ensures
        x <= round_up(x, align) < x + align,
        round_up(x, align) % align == 0,
{
    lemma_mod_bound(x, align);
    lemma_fundamental_div_mod(x, align);
    if x % align != 0 {
        let q = x / align;
        assert(x + (align - x % align) == (q + 1) * align + 0) by (nonlinear_arith)
            requires
                x == align * q + x % align,
        ;
        lemma_fundamental_div_mod_converse(round_up(x, align), align, q + 1, 0);
    }
}

/// Where the gap before allocation `i` starts.
pub open spec fn gap_start(region: AddrRange, allocs: Seq<AddrRange>, i: int) -> u64 {
    if i == 0 {
        region.start
    } else {
        allocs[i - 1].end
    }
}

/// Where the gap before allocation `i` ends.
pub open spec fn gap_end(region: AddrRange, allocs: Seq<AddrRange>, i: int) -> u64 {
    if i == allocs.len() {
        region.end
    } else {
        allocs[i].start
    }
}

/// Whether `size` bytes that start at a multiple of `align` fit in the gap before allocation `i`.
pub open spec fn fits(
    region: AddrRange,
    allocs: Seq<AddrRange>,
    size: u64,
    align: u64,
    i: int,
) -> bool {
    let start = round_up(gap_start(region, allocs, i) as int, align as int);
    start < gap_end(region, allocs, i) && start + size <= gap_end(region, allocs, i)
}

/// The first gap at or after gap `i` in which the allocation fits, or one more than the number of
/// the last gap if there is none.
pub open spec fn first_gap(
    region: AddrRange,
    allocs: Seq<AddrRange>,
    size: u64,
    align: u64,
    i: nat,
) -> nat
    decreases allocs.len() + 1 - i,
{
    if i > allocs.len() {
        allocs.len() + 1
    } else if fits(region, allocs, size, align, i as int) {
        i
    } else {
        first_gap(region, allocs, size, align, i + 1)
    }
}

/// Whether rounding up the start of every gap that is looked at gives an address.
pub open spec fn rounding_fits(
    region: AddrRange,
    allocs: Seq<AddrRange>,
    size: u64,
    align: u64,
) -> bool {
    forall|i: int|
        0 <= i <= allocs.len() && i <= first_gap(region, allocs, size, align, 0) ==> round_up(
            #[trigger] gap_start(region, allocs, i) as int,
            align as int,
        ) <= u64::MAX
}

impl RegionAllocator {
    /// The allocations are in order, do not overlap, are not empty and lie in the region. The region
    /// is mapped at an address other than zero, and the mapping does not reach past the last
    /// address.
    pub open spec fn wf(self) -> bool {
        &&& self.region.start <= self.region.end
        &&& self.mapping != 0
        &&& self.mapping + (self.region.end - self.region.start) <= u64::MAX
        &&& allocs_wf(self.region, self.allocs@)
    }

    /// How many bytes have to be mapped for a region.
    pub fn mapping_size(region: AddrRange) -> (size: u64)
        requires
            region.start <= region.end,
        ensures
            size == region.end - region.start,
    {
        region.end - region.start
    }

    /// An allocator for a region, given the address at which the region was mapped, or the error
    /// that mapping it ended with.
    pub fn try_new(region: AddrRange, mapping: Result<u64, LkError>) -> (result: Result<
        RegionAllocator,
        LkError,
    >)
        requires
            region.start <= region.end,
            mapping matches Ok(addr) ==> addr != 0 && addr + (region.end - region.start)
                <= u64::MAX,
        ensures
            match mapping {
                Ok(addr) => {
                    &&& result matches Ok(allocator)
                    &&& allocator.wf()
                    &&& allocator.region == region
                    &&& allocator.mapping == addr
                    &&& allocator.allocs@ == Seq::<AddrRange>::empty()
                },
                Err(e) => result == Err::<RegionAllocator, LkError>(e),
            },
    {
        match mapping {
            Ok(mapping) => Ok(RegionAllocator { region, mapping, allocs: Vec::new() }),
            Err(e) => Err(e),
        }
    }

    /// The region that the allocator manages.
    pub fn region(&self) -> (region: AddrRange)
        ensures
            region == self.region,
    {
        self.region
    }

    /// Allocates `size` bytes at a multiple of `align` in the first gap that has room for them.
    pub fn allocate(&mut self, size: u64, align: u64, zeroed: bool) -> (result: Option<Allocation>)
        requires
            old(self).wf(),
            size > 0 ==> align > 0 && rounding_fits(
                old(self).region,
                old(self).allocs@,
                size,
                align,
            ),
        ensures
            final(self).wf(),
            final(self).region == old(self).region,
            final(self).mapping == old(self).mapping,
            ({
                let region = old(self).region;
                let allocs = old(self).allocs@;
                let k = first_gap(region, allocs, size, align, 0);
                let start = round_up(gap_start(region, allocs, k as int) as int, align as int);
                if size == 0 || k > allocs.len() {
                    &&& result is None
                    &&& final(self).allocs@ == allocs
                } else {
                    &&& result == Some(
                        Allocation {
                            paddr: start as u64,
                            vaddr: (old(self).mapping + (start - region.start)) as u64,
                            zero_bytes: if zeroed {
                                size
                            } else {
                                0
                            },
                        },
                    )
                    &&& final(self).allocs@ == allocs.insert(
                        k as int,
                        AddrRange { start: start as u64, end: (start + size) as u64 },
                    )
                }
            }),
    {
        if size == 0 {
            return None;
        }
        let len: usize = self.allocs.len();
        let ghost allocs = self.allocs@;
        let mut idx: usize = 0;
        loop
            invariant
                *self == *old(self),
                self.wf(),
                allocs == self.allocs@,
                len == allocs.len(),
                idx <= len,
                size > 0,
                align > 0,
                rounding_fits(self.region, allocs, size, align),
                first_gap(self.region, allocs, size, align, 0) == first_gap(
                    self.region,
                    allocs,
                    size,
                    align,
                    idx as nat,
                ),
            decreases len - idx,
        {
            let start_of_gap: u64 = if idx == 0 {
                self.region.start
            } else {
                self.allocs[idx - 1].end
            };
            let end_of_gap: u64 = if idx == len {
                self.region.end
            } else {
                self.allocs[idx].start
            };
            proof {
                lemma_first_gap(self.region, allocs, size, align, idx as nat);
                assert(start_of_gap == gap_start(self.region, allocs, idx as int));
                lemma_round_up(start_of_gap as int, align as int);
                lemma_gap_in_region(self.region, allocs, idx as int);
            }
            let rem: u64 = start_of_gap % align;
            let aligned_start: u64 = if rem == 0 {
                start_of_gap
            } else {
                start_of_gap + (align - rem)
            };
            if aligned_start < end_of_gap && size <= end_of_gap - aligned_start {
                let new_alloc = AddrRange { start: aligned_start, end: aligned_start + size };
                self.allocs.insert(idx, new_alloc);
                proof {
                    lemma_insert_keeps_wf(self.region, allocs, idx as int, new_alloc);
                }
                let start_offset: u64 = aligned_start - self.region.start;
                let vaddr: u64 = self.mapping + start_offset;
                let zero_bytes: u64 = if zeroed {
                    size
                } else {
                    0
                };
                return Some(Allocation { paddr: aligned_start, vaddr, zero_bytes });
            }
            if idx == len {
                return None;
            }
            idx = idx + 1;
        }
    }

    /// Whether [`RegionAllocator::allocate`] can be called: no memory is asked for, or `align` is not
    /// zero and rounding up the start of every gap that is looked at gives an address.
    pub fn can_alloc(&self, size: u64, align: u64) -> (res: bool)
        requires
            self.wf(),
        ensures
            res == (size > 0 ==> align > 0 && rounding_fits(
                self.region,
                self.allocs@,
                size,
                align,
            )),
    {
        if size == 0 {
            return true;
        }
        if align == 0 {
            return false;
        }
        let len: usize = self.allocs.len();
        let mut idx: usize = 0;
        loop
            invariant
                self.wf(),
                len == self.allocs@.len(),
                idx <= len,
                size > 0,
                align > 0,
                first_gap(self.region, self.allocs@, size, align, 0) == first_gap(
                    self.region,
                    self.allocs@,
                    size,
                    align,
                    idx as nat,
                ),
                forall|i: int|
                    0 <= i < idx ==> round_up(
                        #[trigger] gap_start(self.region, self.allocs@, i) as int,
                        align as int,
                    ) <= u64::MAX,
            decreases len - idx,
        {
            let start_of_gap: u64 = if idx == 0 {
                self.region.start
            } else {
                self.allocs[idx - 1].end
            };
            let end_of_gap: u64 = if idx == len {
                self.region.end
            } else {
                self.allocs[idx].start
            };
            proof {
                lemma_first_gap(self.region, self.allocs@, size, align, idx as nat);
                assert(start_of_gap == gap_start(self.region, self.allocs@, idx as int));
                lemma_round_up(start_of_gap as int, align as int);
            }
            let rem: u64 = start_of_gap % align;
            if rem != 0 && align - rem > u64::MAX - start_of_gap {
                return false;
            }
            let aligned_start: u64 = if rem == 0 {
                start_of_gap
            } else {
                start_of_gap + (align - rem)
            };
            if aligned_start < end_of_gap && size <= end_of_gap - aligned_start {
                return true;
            }
            if idx == len {
                return true;
            }
            idx = idx + 1;
        }
    }

    /// Finds the allocation that starts at `paddr` by binary search.
    fn find(&self, paddr: u64) -> (result: Option<usize>)
        requires
            self.wf(),
        ensures
            match result {
                Some(i) => i < self.allocs@.len() && self.allocs@[i as int].start == paddr,
                None => forall|i: int|
                    0 <= i < self.allocs@.len() ==> (#[trigger] self.allocs@[i]).start != paddr,
            },
    {
        let mut lo: usize = 0;
        let mut hi: usize = self.allocs.len();
        while lo < hi
            invariant
                self.wf(),
                lo <= hi <= self.allocs@.len(),
                forall|i: int| 0 <= i < lo ==> (#[trigger] self.allocs@[i]).start < paddr,
                forall|i: int|
                    hi <= i < self.allocs@.len() ==> (#[trigger] self.allocs@[i]).start > paddr,
            decreases hi - lo,
        {
            let mid: usize = lo + (hi - lo) / 2;
            let start: u64 = self.allocs[mid].start;
            if start == paddr {
                return Some(mid);
            }
            proof {
                assert forall|i: int| 0 <= i < self.allocs@.len() implies (i < mid ==> (
                #[trigger] self.allocs@[i]).start < start) && (i > mid ==> self.allocs@[i].start
                    > start) by {
                    assert(alloc_wf(self.region, self.allocs@[i]));
                    assert(alloc_wf(self.region, self.allocs@[mid as int]));
                }
            }
            if start < paddr {
                lo = mid + 1;
            } else {
                hi = mid;
            }
        }
        None
    }

    /// Whether an allocation starts at `paddr`.
    pub fn is_allocated(&self, paddr: u64) -> (res: bool)
        requires
            self.wf(),
        ensures
            res == starts_allocation(self.allocs@, paddr),
    {
        let found = self.find(paddr);
        if let Some(i) = found {
            assert(self.allocs@[i as int].start == paddr);
        }
        found.is_some()
    }

    /// Frees the allocation that starts at `paddr`.
    pub fn dealloc(&mut self, paddr: u64)
        requires
            old(self).wf(),
            starts_allocation(old(self).allocs@, paddr),
        ensures
            final(self).wf(),
            final(self).region == old(self).region,
            final(self).mapping == old(self).mapping,
            exists|i: int|
                0 <= i < old(self).allocs@.len() && (#[trigger] old(self).allocs@[i]).start == paddr
                    && final(self).allocs@ == old(self).allocs@.remove(i),
    {
        if let Some(idx) = self.find(paddr) {
            let ghost allocs = self.allocs@;
            self.allocs.remove(idx);
            proof {
                assert(allocs[idx as int].start == paddr);
                lemma_remove_keeps_wf(self.region, allocs, idx as int);
            }
        }
    }
}

/// Whether one of the allocations starts at `paddr`.
pub open spec fn starts_allocation(allocs: Seq<AddrRange>, paddr: u64) -> bool {
    exists|i: int| 0 <= i < allocs.len() && (#[trigger] allocs[i]).start == paddr
}

/// Whether an allocation is not empty and lies in the region.
pub open spec fn alloc_wf(region: AddrRange, alloc: AddrRange) -> bool {
    region.start <= alloc.start < alloc.end <= region.end
}

/// Whether allocations are valid: each of them is, and each ends before the next starts.
pub open spec fn allocs_wf(region: AddrRange, allocs: Seq<AddrRange>) -> bool {
    &&& forall|i: int| 0 <= i < allocs.len() ==> alloc_wf(region, #[trigger] allocs[i])
    &&& forall|i: int, j: int|
        0 <= i < j < allocs.len() ==> (#[trigger] allocs[i]).end <= (#[trigger] allocs[j]).start
}

proof fn lemma_first_gap(
    region: AddrRange,
    allocs: Seq<AddrRange>,
    size: u64,
    align: u64,
    i: nat,
)
    requires
        i <= allocs.len() + 1,
    ensures
        i <= first_gap(region, allocs, size, align, i) <= allocs.len() + 1,
        first_gap(region, allocs, size, align, i) <= allocs.len() ==> fits(
            region,
            allocs,
            size,
            align,
            first_gap(region, allocs, size, align, i) as int,
        ),
        forall|j: int|
            i <= j < first_gap(region, allocs, size, align, i) ==> !fits(
                region,
                allocs,
                size,
                align,
                j,
            ),
    decreases allocs.len() + 1 - i,
{
    if i <= allocs.len() && !fits(region, allocs, size, align, i as int) {
        lemma_first_gap(region, allocs, size, align, i + 1);
    }
}

proof fn lemma_gap_in_region(region: AddrRange, allocs: Seq<AddrRange>, i: int)
    requires
        region.start <= region.end,
        allocs_wf(region, allocs),
        0 <= i <= allocs.len(),
    ensures
        region.start <= gap_start(region, allocs, i),
        gap_end(region, allocs, i) <= region.end,
{
    if i > 0 {
        assert(alloc_wf(region, allocs[i - 1]));
    }
    if i < allocs.len() {
        assert(alloc_wf(region, allocs[i]));
    }
}

proof fn lemma_insert_keeps_wf(
    region: AddrRange,
    allocs: Seq<AddrRange>,
    k: int,
    alloc: AddrRange,
)
    requires
        allocs_wf(region, allocs),
        0 <= k <= allocs.len(),
        alloc_wf(region, alloc),
        gap_start(region, allocs, k) <= alloc.start,
        alloc.end <= gap_end(region, allocs, k),
    ensures
        allocs_wf(region, allocs.insert(k, alloc)),
{
    let after = allocs.insert(k, alloc);
    assert forall|i: int| 0 <= i < after.len() implies alloc_wf(region, #[trigger] after[i]) by {
        if i < k {
            assert(after[i] == allocs[i]);
        } else if i > k {
            assert(after[i] == allocs[i - 1]);
        }
    }
    assert forall|i: int, j: int| 0 <= i < j < after.len() implies (#[trigger] after[i]).end <= (
    #[trigger] after[j]).start by {
        let a = if i < k {
            i
        } else {
            i - 1
        };
        let b = if j < k {
            j
        } else {
            j - 1
        };
        if i != k && j != k {
            assert(after[i] == allocs[a] && after[j] == allocs[b]);
        } else if i == k {
            assert(after[j] == allocs[b]);
            assert(allocs[k] == allocs[k]);
            assert(alloc_wf(region, allocs[k]));
        } else {
            assert(after[i] == allocs[a]);
            assert(alloc_wf(region, allocs[k - 1]));
            assert(allocs[a].end <= allocs[k - 1].end);
        }
    }
}

proof fn lemma_remove_keeps_wf(region: AddrRange, allocs: Seq<AddrRange>, k: int)
    requires
        allocs_wf(region, allocs),
        0 <= k < allocs.len(),
    ensures
        allocs_wf(region, allocs.remove(k)),
{
    let after = allocs.remove(k);
    assert forall|i: int| 0 <= i < after.len() implies alloc_wf(region, #[trigger] after[i]) by {
        assert(after[i] == if i < k {
            allocs[i]
        } else {
            allocs[i + 1]
        });
    }
    assert forall|i: int, j: int| 0 <= i < j < after.len() implies (#[trigger] after[i]).end <= (
    #[trigger] after[j]).start by {
        let a = if i < k {
            i
        } else {
            i + 1
        };
        let b = if j < k {
            j
        } else {
            j + 1
        };
        assert(after[i] == allocs[a] && after[j] == allocs[b]);
    }
}

/// What is allocated is aligned, lies in the region and overlaps no other allocation.
pub proof fn law_allocation_is_sound(
    region: AddrRange,
    allocs: Seq<AddrRange>,
    size: u64,
    align: u64,
    k: nat,
)
    requires
        region.start <= region.end,
        allocs_wf(region, allocs),
        size > 0,
        align > 0,
        k == first_gap(region, allocs, size, align, 0),
        k <= allocs.len(),
    ensures
        ({
            let start = round_up(gap_start(region, allocs, k as int) as int, align as int);
            &&& start % (align as int) == 0
            &&& region.start <= start
            &&& start + size <= region.end
            &&& forall|i: int|
                0 <= i < allocs.len() ==> (#[trigger] allocs[i]).end <= start || start + size
                    <= allocs[i].start
        }),
{
    lemma_first_gap(region, allocs, size, align, 0);
    lemma_gap_in_region(region, allocs, k as int);
    lemma_round_up(gap_start(region, allocs, k as int) as int, align as int);
    let start = round_up(gap_start(region, allocs, k as int) as int, align as int);
    assert forall|i: int| 0 <= i < allocs.len() implies (#[trigger] allocs[i]).end <= start || start
        + size <= allocs[i].start by {
        assert(alloc_wf(region, allocs[i]));
        if i < k {
            assert(alloc_wf(region, allocs[k - 1]));
            assert(allocs[i].end <= allocs[k - 1].end);
        } else {
            assert(alloc_wf(region, allocs[k as int]));
            assert(allocs[k as int].start <= allocs[i].start);
        }
    }
}

/// An allocation fails only if no gap has room for it at any aligned address.
pub proof fn law_failed_allocation_has_no_room(
    region: AddrRange,
    allocs: Seq<AddrRange>,
    size: u64,
    align: u64,
    i: int,
    addr: int,
)
    requires
        size > 0,
        align > 0,
        first_gap(region, allocs, size, align, 0) > allocs.len(),
        0 <= i <= allocs.len(),
        addr % (align as int) == 0,
        gap_start(region, allocs, i) <= addr,
    ensures
        addr + size > gap_end(region, allocs, i),
{
    lemma_first_gap(region, allocs, size, align, 0);
    assert(!fits(region, allocs, size, align, i));
    let x = gap_start(region, allocs, i) as int;
    let a = align as int;
    lemma_round_up(x, a);
    let r = round_up(x, a);
    // The smallest multiple that is not below `x` is not above `addr` either.
    if addr < r {
        lemma_fundamental_div_mod(addr, a);
        lemma_fundamental_div_mod(r, a);
        assert(false) by (nonlinear_arith)
            requires
                a > 0,
                addr == a * (addr / a) + 0,
                r == a * (r / a) + 0,
                addr < r,
                r < x + a,
                x <= addr,
        ;
    }
}

/// The gap that free memory at `addr` lies in.
proof fn lemma_gap_of(region: AddrRange, allocs: Seq<AddrRange>, size: u64, addr: int, n: nat) -> (j:
    int)
    requires
        size > 0,
        n <= allocs.len(),
        region.start <= addr,
        addr + size <= region.end,
        allocs_wf(region, allocs),
        forall|i: int|
            0 <= i < allocs.len() ==> (#[trigger] allocs[i]).end <= addr || addr + size
                <= allocs[i].start,
        forall|i: int| 0 <= i < n ==> (#[trigger] allocs[i]).end <= addr,
    ensures
        0 <= j <= allocs.len(),
        gap_start(region, allocs, j) <= addr,
        addr + size <= gap_end(region, allocs, j),
    decreases allocs.len() - n,
{
    if n < allocs.len() && allocs[n as int].end <= addr {
        lemma_gap_of(region, allocs, size, addr, n + 1)
    } else {
        n as int
    }
}

/// First fit: an allocation succeeds exactly if there is room for it at some aligned address of the
/// region, and it then gets the lowest such address. It overlaps nothing, and the allocations stay in
/// order.
pub proof fn law_allocation_is_first_fit(
    region: AddrRange,
    allocs: Seq<AddrRange>,
    size: u64,
    align: u64,
    addr: int,
)
    requires
        region.start <= region.end,
        forall|i: int|
            0 <= i < allocs.len() ==> region.start <= (#[trigger] allocs[i]).start
                < allocs[i].end <= region.end,
        forall|i: int, j: int|
            0 <= i < j < allocs.len() ==> (#[trigger] allocs[i]).end <= (
            #[trigger] allocs[j]).start,
        size > 0,
        align > 0,
    ensures
        ({
            let k = first_gap(region, allocs, size, align, 0);
            let start = round_up(gap_start(region, allocs, k as int) as int, align as int);
            &&& addr % (align as int) == 0 && region.start <= addr && addr + size <= region.end && (
            forall|i: int|
                0 <= i < allocs.len() ==> (#[trigger] allocs[i]).end <= addr || addr + size
                    <= allocs[i].start) ==> k <= allocs.len() && start <= addr
            &&& k <= allocs.len() ==> {
                &&& start % (align as int) == 0
                &&& region.start <= start
                &&& start + size <= region.end
                &&& forall|i: int| 0 <= i < k ==> (#[trigger] allocs[i]).end <= start
                &&& forall|i: int|
                    k <= i < allocs.len() ==> start + size <= (#[trigger] allocs[i]).start
            }
        }),
{
    assert(allocs_wf(region, allocs));
    let k = first_gap(region, allocs, size, align, 0);
    lemma_first_gap(region, allocs, size, align, 0);
    let a = align as int;
    if k <= allocs.len() {
        law_allocation_is_sound(region, allocs, size, align, k);
        let start = round_up(gap_start(region, allocs, k as int) as int, a);
        lemma_round_up(gap_start(region, allocs, k as int) as int, a);
        assert forall|i: int| 0 <= i < k implies (#[trigger] allocs[i]).end <= start by {
            assert(allocs[i].end <= allocs[k - 1].end);
        }
        assert forall|i: int| k <= i < allocs.len() implies start + size <= (
        #[trigger] allocs[i]).start by {
            assert(allocs[k as int].start <= allocs[i].start);
        }
    }
    if addr % a == 0 && region.start <= addr && addr + size <= region.end && (forall|i: int|
        0 <= i < allocs.len() ==> (#[trigger] allocs[i]).end <= addr || addr + size
            <= allocs[i].start) {
        let j = lemma_gap_of(region, allocs, size, addr, 0);
        let x = gap_start(region, allocs, j) as int;
        let r = round_up(x, a);
        lemma_round_up(x, a);
        if addr < r {
            lemma_fundamental_div_mod(addr, a);
            lemma_fundamental_div_mod(r, a);
            assert(false) by (nonlinear_arith)
                requires
                    a > 0,
                    addr == a * (addr / a) + 0,
                    r == a * (r / a) + 0,
                    addr < r,
                    r < x + a,
                    x <= addr,
            ;
        }
        assert(fits(region, allocs, size, align, j));
        assert(k <= j);
        if k < j {
            assert(allocs[k as int].start <= allocs[j - 1].start);
        }
    }
}

/// An allocation can be asked for with any alignment that leaves room behind the region, whatever is
/// allocated already.
pub proof fn law_moderate_alignments_are_possible(
    region: AddrRange,
    allocs: Seq<AddrRange>,
    size: u64,
    align: u64,
)
    requires
        region.start <= region.end,
        forall|i: int|
            0 <= i < allocs.len() ==> region.start <= (#[trigger] allocs[i]).start
                < allocs[i].end <= region.end,
        0 < align,
        region.end + align <= u64::MAX,
    ensures
        rounding_fits(region, allocs, size, align),
{
    assert forall|i: int|
        0 <= i <= allocs.len() && i <= first_gap(region, allocs, size, align, 0) implies round_up(
        #[trigger] gap_start(region, allocs, i) as int,
        align as int,
    ) <= u64::MAX by {
        lemma_round_up(gap_start(region, allocs, i) as int, align as int);
        if i > 0 {
            assert(allocs[i - 1].end <= region.end);
        }
    }
}

/// Freeing what was just allocated restores the allocator.
pub proof fn law_dealloc_undoes_alloc(
    region: AddrRange,
    allocs: Seq<AddrRange>,
    k: int,
    alloc: AddrRange,
    i: int,
)
    requires
        allocs_wf(region, allocs.insert(k, alloc)),
        0 <= k <= allocs.len(),
        0 <= i < allocs.insert(k, alloc).len(),
        allocs.insert(k, alloc)[i].start == alloc.start,
    ensures
        allocs.insert(k, alloc).remove(i) == allocs,
{
    let after = allocs.insert(k, alloc);
    assert(after[k] == alloc);
    assert(alloc_wf(region, after[i]) && alloc_wf(region, after[k]));
    assert(i == k);
    assert(after.remove(k) =~= allocs);
}

} // verus!
