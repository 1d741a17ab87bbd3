//! The region allocator, the device tree and the logger.

use vsock_virtio_msg::device_tree::{
    get_fdt_dma_pools, parse_fdt_dma_pool_reg, DmaPoolError, FdtError, FdtReg,
};
use vsock_virtio_msg::error::LkError;
use vsock_virtio_msg::log::{LevelFilter, TrustyKernelLogger};
use vsock_virtio_msg::region_alloc::{AddrRange, Allocation, RegionAllocator};

fn allocator() -> RegionAllocator {
    let region = AddrRange { start: 0x1000, end: 0x5000 };
    assert_eq!(RegionAllocator::mapping_size(region), 0x4000);
    RegionAllocator::try_new(region, Ok(0x90000)).unwrap()
}

#[test]
fn a_region_that_cannot_be_mapped_has_no_allocator() {
    let region = AddrRange { start: 0, end: 0x1000 };
    let result = RegionAllocator::try_new(region, Err(LkError::NoMemory));
    assert_eq!(result.err(), Some(LkError::NoMemory));
}

#[test]
fn allocations_take_the_first_gap() {
    let mut a = allocator();
    assert_eq!(a.region(), AddrRange { start: 0x1000, end: 0x5000 });
    assert_eq!(a.allocate(0, 1, false), None);
    assert_eq!(
        a.allocate(0x100, 0x1000, true),
        Some(Allocation { paddr: 0x1000, vaddr: 0x90000, zero_bytes: 0x100 })
    );
    assert_eq!(
        a.allocate(0x1000, 0x1000, false),
        Some(Allocation { paddr: 0x2000, vaddr: 0x91000, zero_bytes: 0 })
    );
    // The gap behind the first allocation still has room for a small one.
    assert_eq!(
        a.allocate(0x10, 0x20, false),
        Some(Allocation { paddr: 0x1100, vaddr: 0x90100, zero_bytes: 0 })
    );
    assert_eq!(
        a.allocs,
        [
            AddrRange { start: 0x1000, end: 0x1100 },
            AddrRange { start: 0x1100, end: 0x1110 },
            AddrRange { start: 0x2000, end: 0x3000 },
        ]
    );
    assert_eq!(a.allocate(0x2001, 1, false), None);
    assert_eq!(a.allocate(0x2000, 1, false).unwrap().paddr, 0x3000);
    assert_eq!(a.allocate(0xef0, 1, false).unwrap().paddr, 0x1110);
    assert_eq!(a.allocate(1, 1, false), None);
}

#[test]
fn freed_memory_can_be_allocated_again() {
    let mut a = allocator();
    for addr in [0x1000, 0x2000, 0x3000, 0x4000] {
        assert_eq!(a.allocate(0x1000, 0x1000, false).unwrap().paddr, addr);
    }
    assert_eq!(a.allocate(0x1000, 0x1000, false), None);
    assert!(a.is_allocated(0x3000));
    assert!(!a.is_allocated(0x3001));
    a.dealloc(0x3000);
    assert!(!a.is_allocated(0x3000));
    assert_eq!(a.allocate(0x1000, 0x1000, false).unwrap().paddr, 0x3000);
    for addr in [0x4000, 0x1000, 0x3000, 0x2000] {
        a.dealloc(addr);
    }
    assert!(a.allocs.is_empty());
}

#[test]
fn alignments_that_leave_the_address_space_are_reported() {
    let region = AddrRange { start: u64::MAX - 0x1000, end: u64::MAX };
    let mut a = RegionAllocator::try_new(region, Ok(0x1000)).unwrap();
    assert!(a.can_alloc(1, 1));
    assert!(!a.can_alloc(1, 0));
    assert!(!a.can_alloc(1, 0x8000_0000_0000_0000));
    // Nothing can be asked for with any alignment.
    for align in [0, 1, 0x8000_0000_0000_0000] {
        assert!(a.can_alloc(0, align));
        assert_eq!(a.allocate(0, align, true), None);
    }
    assert!(a.allocs.is_empty());
}

#[test]
fn pools_need_an_address_and_a_size() {
    let reg = |addr, size| Ok(Some(FdtReg { addr, size }));
    assert_eq!(
        parse_fdt_dma_pool_reg(reg(0x8000, Some(0x1000))),
        Ok(AddrRange { start: 0x8000, end: 0x9000 })
    );
    assert_eq!(parse_fdt_dma_pool_reg(reg(0x8000, None)), Err(FdtError::NotFound));
    assert_eq!(parse_fdt_dma_pool_reg(Ok(None)), Err(FdtError::NotFound));
    assert_eq!(parse_fdt_dma_pool_reg(Err(FdtError::Other(3))), Err(FdtError::Other(3)));
    assert_eq!(parse_fdt_dma_pool_reg(reg(u64::MAX, Some(1))), Err(FdtError::BadValue));
    assert_eq!(
        parse_fdt_dma_pool_reg(reg(u64::MAX, Some(0))),
        Ok(AddrRange { start: u64::MAX, end: u64::MAX })
    );
}

#[test]
fn the_first_bad_pool_is_an_error() {
    let good = Ok(Some(FdtReg { addr: 1, size: Some(2) }));
    assert_eq!(
        get_fdt_dma_pools(Ok(vec![good, good])),
        Ok(vec![AddrRange { start: 1, end: 3 }; 2])
    );
    assert_eq!(get_fdt_dma_pools(Ok(vec![])), Ok(vec![]));
    assert_eq!(
        get_fdt_dma_pools(Ok(vec![good, Ok(None), Err(FdtError::BadValue)])),
        Err(DmaPoolError::ParseReg(FdtError::NotFound))
    );
    for error in [DmaPoolError::GetDtb(-2), DmaPoolError::FindCompatible(FdtError::BadValue)] {
        assert_eq!(get_fdt_dma_pools(Err(error)), Err(error));
    }
}

#[test]
fn messages_with_zero_bytes_are_not_written() {
    assert!(TrustyKernelLogger::can_write(b"hello"));
    assert!(TrustyKernelLogger::can_write(b""));
    assert!(!TrustyKernelLogger::can_write(b"hel\0lo"));
    assert!(TrustyKernelLogger.enabled());
}

#[test]
fn log_levels_above_four_log_everything() {
    let filters = [
        LevelFilter::Off,
        LevelFilter::Error,
        LevelFilter::Warn,
        LevelFilter::Info,
        LevelFilter::Debug,
        LevelFilter::Trace,
        LevelFilter::Trace,
    ];
    for (level, filter) in filters.iter().enumerate() {
        assert_eq!(TrustyKernelLogger::max_level(level as i64), *filter);
    }
    assert_eq!(TrustyKernelLogger::max_level(-1), LevelFilter::Off);
    assert_eq!(TrustyKernelLogger::max_level(i64::MAX), LevelFilter::Trace);
}
