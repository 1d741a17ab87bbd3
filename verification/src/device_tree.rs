//! Restricted DMA pools in the device tree.

use vstd::prelude::*;

use crate::region_alloc::AddrRange;

verus! {

/// An error of the device tree library.
#[derive(Clone, Copy, Debug, PartialEq, Eq, Structural)]
pub enum FdtError {
    NotFound,
    BadValue,
    /// Any other error, by its code.
    Other(i32),
}

/// Why the DMA pools could not be listed.
#[derive(Clone, Copy, Debug, PartialEq, Eq, Structural)]
pub enum DmaPoolError {
    /// There is no device tree; the code says why.
    GetDtb(i32),
    FindCompatible(FdtError),
    ParseReg(FdtError),
}

/// One entry of a `reg` property.
#[derive(Clone, Copy, Debug, PartialEq, Eq, Structural)]
pub struct FdtReg {
    pub addr: u64,
    pub size: Option<u64>,
}

/// The `reg` property of a node: its first entry, if the property is there and has one.
pub type RegProperty = Result<Option<FdtReg>, FdtError>;

/// The range of memory that a `reg` property stands for: it needs an address and a size, and the end
/// of the range has to be an address.
pub open spec fn pool_range(reg: RegProperty) -> Result<AddrRange, FdtError> {
    match reg {
        Err(e) => Err(e),
        Ok(None) => Err(FdtError::NotFound),
        Ok(Some(reg)) => match reg.size {
            None => Err(FdtError::NotFound),
            Some(size) => if reg.addr + size > u64::MAX {
                Err(FdtError::BadValue)
            } else {
                Ok(AddrRange { start: reg.addr, end: (reg.addr + size) as u64 })
            },
        },
    }
}

/// The ranges of the first `n` pools, or the error of the first pool among them that has no range.
pub open spec fn pool_ranges(regs: Seq<RegProperty>, n: nat) -> Result<Seq<AddrRange>, FdtError>
    decreases n,
{
    if n == 0 {
        Ok(seq![])
    } else {
        match pool_ranges(regs, (n - 1) as nat) {
            Err(e) => Err(e),
            Ok(ranges) => match pool_range(regs[n - 1]) {
                Err(e) => Err(e),
                Ok(range) => Ok(ranges.push(range)),
            },
        }
    }
}

/// The range of memory of a pool.
pub fn parse_fdt_dma_pool_reg(reg: RegProperty) -> (result: Result<AddrRange, FdtError>)
    ensures
        result == pool_range(reg),
{
    let entry = match reg {
        Ok(Some(entry)) => entry,
        Ok(None) => {
            return Err(FdtError::NotFound);
        },
        Err(e) => {
            return Err(e);
        },
    };
    let reg_size: u64 = match entry.size {
        Some(size) => size,
        None => {
            return Err(FdtError::NotFound);
        },
    };
    match entry.addr.checked_add(reg_size) {
        Some(reg_end) => Ok(AddrRange { start: entry.addr, end: reg_end }),
        None => Err(FdtError::BadValue),
    }
}

proof fn lemma_first_error(regs: Seq<RegProperty>, k: nat, n: nat)
    requires
        k <= n,
        pool_ranges(regs, k) is Err,
    ensures
        pool_ranges(regs, n) == pool_ranges(regs, k),
    decreases n,
{
    if k < n {
        lemma_first_error(regs, k, (n - 1) as nat);
    }
}

/// The ranges of memory of all pools, given the `reg` properties of the nodes that are pools, or the
/// error that looking for the nodes ended with.
pub fn get_fdt_dma_pools(nodes: Result<Vec<RegProperty>, DmaPoolError>) -> (result: Result<
    Vec<AddrRange>,
    DmaPoolError,
>)
    ensures
        match nodes {
            Err(e) => result == Err::<Vec<AddrRange>, DmaPoolError>(e),
            Ok(regs) => match pool_ranges(regs@, regs@.len()) {
                Err(e) => result == Err::<Vec<AddrRange>, DmaPoolError>(DmaPoolError::ParseReg(e)),
                Ok(ranges) => result matches Ok(pools) && pools@ == ranges,
            },
        },
{
    let regs = match nodes {
        Ok(regs) => regs,
        Err(e) => {
            return Err(e);
        },
    };
    let mut pools: Vec<AddrRange> = Vec::new();
    let mut i: usize = 0;
    while i < regs.len()
        invariant
            i <= regs@.len(),
            nodes == Ok::<Vec<RegProperty>, DmaPoolError>(regs),
            pool_ranges(regs@, i as nat) == Ok::<Seq<AddrRange>, FdtError>(pools@),
        decreases regs@.len() - i,
    {
        match parse_fdt_dma_pool_reg(regs[i]) {
            Ok(pool) => {
                pools.push(pool);
            },
            Err(e) => {
                proof {
                    lemma_first_error(regs@, (i + 1) as nat, regs@.len());
                }
                return Err(DmaPoolError::ParseReg(e));
            },
        }
        i = i + 1;
    }
    Ok(pools)
}

/// A `reg` property stands for the bytes from its address on, as many as its size says. It stands for
/// none exactly if it could not be read, has no entry or no size, or does not end at an address.
pub proof fn law_pool_is_at_its_address(reg: RegProperty)
    ensures
        pool_range(reg) matches Ok(range) ==> (reg matches Ok(Some(entry)) && entry.size matches Some(
            size,
        ) && range.start == entry.addr && range.end == entry.addr + size),
        pool_range(reg) is Ok <==> (reg matches Ok(Some(entry)) && entry.size matches Some(size)
            && entry.addr + size <= u64::MAX),
        reg matches Err(e) ==> pool_range(reg) == Err::<AddrRange, FdtError>(e),
        reg matches Ok(Some(entry)) && entry.size is Some && pool_range(reg) is Err ==> pool_range(
            reg,
        ) == Err::<AddrRange, FdtError>(FdtError::BadValue),
        reg == Ok::<Option<FdtReg>, FdtError>(None) || (reg matches Ok(Some(entry))
            && entry.size is None) ==> pool_range(reg) == Err::<AddrRange, FdtError>(
            FdtError::NotFound,
        ),
{
}

/// The pools are listed exactly if every one of them has a range: each of them, in order. If one has
/// none, the error is that of the first one without.
pub proof fn law_all_pools_are_listed(regs: Seq<RegProperty>, n: nat, i: int)
    requires
        n <= regs.len(),
        0 <= i < n,
    ensures
        pool_ranges(regs, n) matches Ok(ranges) ==> ranges.len() == n && pool_range(regs[i]) == Ok::<
            AddrRange,
            FdtError,
        >(ranges[i]),
        (forall|j: int| 0 <= j < n ==> pool_range(#[trigger] regs[j]) is Ok) ==> pool_ranges(
            regs,
            n,
        ) is Ok,
        pool_range(regs[i]) is Err && (forall|j: int|
            0 <= j < i ==> pool_range(#[trigger] regs[j]) is Ok) ==> pool_ranges(regs, n) == Err::<
            Seq<AddrRange>,
            FdtError,
        >(pool_range(regs[i])->Err_0),
    decreases n,
{
    let last = (n - 1) as nat;
    lemma_pools_before(regs, last);
    if i < last {
        law_all_pools_are_listed(regs, last, i);
    }
}

proof fn lemma_pools_before(regs: Seq<RegProperty>, n: nat)
    requires
        n <= regs.len(),
    ensures
        pool_ranges(regs, n) matches Ok(ranges) ==> ranges.len() == n,
        (forall|j: int| 0 <= j < n ==> pool_range(#[trigger] regs[j]) is Ok) ==> pool_ranges(
            regs,
            n,
        ) is Ok,
    decreases n,
{
    if n > 0 {
        lemma_pools_before(regs, (n - 1) as nat);
    }
}

} // verus!
