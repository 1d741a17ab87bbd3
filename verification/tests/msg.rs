//! Bus addresses and the description of shared memory.

use vsock_virtio_msg::msg::{
    area_id_and_offset, bus_address, ArchMmuFlags, Cacheability, DeviceMemoryAttr, MemShareAttr,
    MemoryType, ShareType, Shareability,
};

#[test]
fn bus_addresses_hold_area_and_offset() {
    assert_eq!(bus_address(0x1e, 0x3000), 0x001e_0000_0000_3000);
    assert_eq!(area_id_and_offset(0x001e_0000_0000_3000), (0x1e, 0x3000));
    assert_eq!(bus_address(0xffff, 0xffff_ffff_ffff), u64::MAX);
    assert_eq!(area_id_and_offset(u64::MAX), (0xffff, 0xffff_ffff_ffff));
    assert_eq!(area_id_and_offset(0), (0, 0));
}

#[test]
fn normal_memory_is_inner_shareable() {
    let attr = MemShareAttr::from_lk_flags(ArchMmuFlags { bits: ArchMmuFlags::PERM_NO_EXECUTE });
    assert_eq!(
        attr,
        MemShareAttr {
            share_type: ShareType::Share,
            read_write: true,
            executable: false,
            shareability: Shareability::InnerShareable,
            memory_type: MemoryType::Normal(Cacheability::WriteBack),
            non_secure: false,
        }
    );
    assert_eq!(u32::from(attr), 0b010_1111_0100);
}

#[test]
fn uncached_memory_is_not_shareable() {
    let attr = MemShareAttr::from_lk_flags(ArchMmuFlags {
        bits: ArchMmuFlags::UNCACHED | ArchMmuFlags::PERM_RO | ArchMmuFlags::NS,
    });
    assert_eq!(attr.shareability, Shareability::NonShareable);
    assert_eq!(attr.memory_type, MemoryType::Normal(Cacheability::NonCacheable));
    assert_eq!(u32::from(attr), 0b110_0100_1000);
    let device = MemShareAttr::from_lk_flags(ArchMmuFlags { bits: ArchMmuFlags::UNCACHED_DEVICE });
    assert_eq!(device.memory_type, MemoryType::Device(DeviceMemoryAttr::nGnRE));
    assert_eq!(u32::from(device), 0b001_0100_1100);
}

#[test]
fn different_attributes_have_different_numbers() {
    let base = MemShareAttr::from_lk_flags(ArchMmuFlags { bits: 0 });
    let all = [
        base,
        MemShareAttr { share_type: ShareType::Lend, ..base },
        MemShareAttr { share_type: ShareType::Donate, ..base },
        MemShareAttr { read_write: false, ..base },
        MemShareAttr { executable: false, ..base },
        MemShareAttr { shareability: Shareability::OuterShareable, ..base },
        MemShareAttr { shareability: Shareability::NonShareable, ..base },
        MemShareAttr { memory_type: MemoryType::Device(DeviceMemoryAttr::nGnRnE), ..base },
        MemShareAttr { memory_type: MemoryType::Device(DeviceMemoryAttr::nGRE), ..base },
        MemShareAttr { memory_type: MemoryType::Device(DeviceMemoryAttr::GRE), ..base },
        MemShareAttr { non_secure: true, ..base },
    ];
    for i in 0..all.len() {
        for j in 0..all.len() {
            assert_eq!(u32::from(all[i]) == u32::from(all[j]), i == j);
        }
    }
}
