//! What both ends of a virtio-msg bus over FF-A share: bus addresses and the description of shared
//! memory.

use vstd::prelude::*;

pub mod device;
pub mod driver;
pub mod exchange;
pub mod laws;

verus! {

/// Identifies a shared memory area.
pub type AreaId = u16;

/// References a byte inside a shared memory area: the upper 16 bits are the area id, the lower 48
/// bits are the offset of the byte from the start of the area.
pub type BusAddress = u64;

/// Position of the area id in a bus address.
pub const BUS_ADDR_AREA_ID_SHIFT: u64 = 48;

/// One more than the largest offset that a bus address can hold.
pub const BUS_ADDR_OFFSET_LIMIT: u64 = 0x1_0000_0000_0000;

/// Bytes in a page.
pub const PAGE_SIZE: usize = 4096;

/// Most shared memory areas that virtio-msg over FF-A supports.
pub const MAX_NUM_SHM: usize = 255;

/// The area id in a bus address.
pub open spec fn area_id_of(bus_addr: BusAddress) -> nat {
    (bus_addr / BUS_ADDR_OFFSET_LIMIT) as nat
}

/// The offset in a bus address.
pub open spec fn offset_of(bus_addr: BusAddress) -> nat {
    (bus_addr % BUS_ADDR_OFFSET_LIMIT) as nat
}

/// The bus address of byte `offset` of area `area_id`.
pub open spec fn bus_address_of(area_id: nat, offset: nat) -> nat {
    area_id * 0x1_0000_0000_0000 + offset
}

/// Splits a bus address into its area id and its offset.
pub fn area_id_and_offset(bus_addr: BusAddress) -> (parts: (AreaId, u64))
    ensures
        parts.0 == area_id_of(bus_addr),
        parts.1 == offset_of(bus_addr),
{
    let area_id: u64 = bus_addr >> BUS_ADDR_AREA_ID_SHIFT;
    let area_offset: u64 = bus_addr & (BUS_ADDR_OFFSET_LIMIT - 1);
    assert(bus_addr >> 48 == bus_addr / 0x1_0000_0000_0000 && bus_addr >> 48 <= 0xffff)
        by (bit_vector);
    assert(bus_addr & 0xffff_ffff_ffff == bus_addr % 0x1_0000_0000_0000) by (bit_vector);
    (area_id as AreaId, area_offset)
}

/// Builds a bus address from an area id and an offset.
pub fn bus_address(area_id: AreaId, offset: u64) -> (bus_addr: BusAddress)
    requires
        offset < BUS_ADDR_OFFSET_LIMIT,
    ensures
        bus_addr == bus_address_of(area_id as nat, offset as nat),
{
    let area: u64 = area_id as u64;
    assert((area << 48) | offset == area * 0x1_0000_0000_0000 + offset) by (bit_vector)
        requires
            area <= 0xffff,
            offset < 0x1_0000_0000_0000,
    ;
    (area << BUS_ADDR_AREA_ID_SHIFT) | offset
}

/// Splitting a bus address that was built gives back what it was built from.
pub proof fn law_split_built_bus_address(area_id: AreaId, offset: u64)
    requires
        offset < BUS_ADDR_OFFSET_LIMIT,
    ensures
        bus_address_of(area_id as nat, offset as nat) <= u64::MAX,
        area_id_of(bus_address_of(area_id as nat, offset as nat) as u64) == area_id,
        offset_of(bus_address_of(area_id as nat, offset as nat) as u64) == offset,
{
}

/// Every bus address is built from its parts, and the parts fit.
pub proof fn law_build_split_bus_address(bus_addr: BusAddress)
    ensures
        area_id_of(bus_addr) <= u16::MAX,
        offset_of(bus_addr) < BUS_ADDR_OFFSET_LIMIT,
        bus_address_of(area_id_of(bus_addr), offset_of(bus_addr)) == bus_addr,
{
}

/// How the owner of shared memory gives it away.
#[derive(Clone, Copy, Debug, PartialEq, Eq, Structural)]
pub enum ShareType {
    Share,
    Lend,
    Donate,
}

/// Shareability domain of shared memory.
#[derive(Clone, Copy, Debug, PartialEq, Eq, Structural)]
pub enum Shareability {
    NonShareable,
    OuterShareable,
    InnerShareable,
}

/// Cacheability of normal memory.
#[derive(Clone, Copy, Debug, PartialEq, Eq, Structural)]
pub enum Cacheability {
    NonCacheable,
    WriteBack,
}

/// Gathering, reordering and early write acknowledgement of device memory.
#[allow(non_camel_case_types)]
#[derive(Clone, Copy, Debug, PartialEq, Eq, Structural)]
pub enum DeviceMemoryAttr {
    nGnRnE,
    nGnRE,
    nGRE,
    GRE,
}

/// Memory type of shared memory.
#[derive(Clone, Copy, Debug, PartialEq, Eq, Structural)]
pub enum MemoryType {
    Device(DeviceMemoryAttr),
    Normal(Cacheability),
}

/// Attributes of a shared memory area.
#[derive(Clone, Copy, Debug, PartialEq, Eq, Structural)]
pub struct MemShareAttr {
    pub share_type: ShareType,
    pub read_write: bool,
    pub executable: bool,
    pub shareability: Shareability,
    pub memory_type: MemoryType,
    pub non_secure: bool,
}

impl ShareType {
    pub open spec fn bits_spec(self) -> u32 {
        match self {
            ShareType::Share => 0,
            ShareType::Lend => 1,
            ShareType::Donate => 2,
        }
    }

    /// The two bits that stand for the share type.
    pub fn bits(self) -> (bits: u32)
        ensures
            bits == self.bits_spec(),
    {
        match self {
            ShareType::Share => 0,
            ShareType::Lend => 1,
            ShareType::Donate => 2,
        }
    }
}

impl Shareability {
    pub open spec fn bits_spec(self) -> u32 {
        match self {
            Shareability::NonShareable => 0,
            Shareability::OuterShareable => 2,
            Shareability::InnerShareable => 3,
        }
    }

    /// The two bits that stand for the shareability domain.
    pub fn bits(self) -> (bits: u32)
        ensures
            bits == self.bits_spec(),
    {
        match self {
            Shareability::NonShareable => 0,
            Shareability::OuterShareable => 2,
            Shareability::InnerShareable => 3,
        }
    }
}

impl MemoryType {
    /// The two bits that tell device memory and normal memory apart.
    pub open spec fn type_bits_spec(self) -> u32 {
        match self {
            MemoryType::Device(_) => 1,
            MemoryType::Normal(_) => 2,
        }
    }

    /// The two bits that hold the device attribute or the cacheability.
    pub open spec fn attr_bits_spec(self) -> u32 {
        match self {
            MemoryType::Device(DeviceMemoryAttr::nGnRnE) => 0,
            MemoryType::Device(DeviceMemoryAttr::nGnRE) => 1,
            MemoryType::Device(DeviceMemoryAttr::nGRE) => 2,
            MemoryType::Device(DeviceMemoryAttr::GRE) => 3,
            MemoryType::Normal(Cacheability::NonCacheable) => 1,
            MemoryType::Normal(Cacheability::WriteBack) => 3,
        }
    }

    pub fn type_bits(self) -> (bits: u32)
        ensures
            bits == self.type_bits_spec(),
    {
        match self {
            MemoryType::Device(_) => 1,
            MemoryType::Normal(_) => 2,
        }
    }

    pub fn attr_bits(self) -> (bits: u32)
        ensures
            bits == self.attr_bits_spec(),
    {
        match self {
            MemoryType::Device(DeviceMemoryAttr::nGnRnE) => 0,
            MemoryType::Device(DeviceMemoryAttr::nGnRE) => 1,
            MemoryType::Device(DeviceMemoryAttr::nGRE) => 2,
            MemoryType::Device(DeviceMemoryAttr::GRE) => 3,
            MemoryType::Normal(Cacheability::NonCacheable) => 1,
            MemoryType::Normal(Cacheability::WriteBack) => 3,
        }
    }
}

/// `1` for `true`, `0` for `false`.
pub open spec fn bit(b: bool) -> nat {
    if b {
        1
    } else {
        0
    }
}

impl MemShareAttr {
    pub const WRITEABLE_SHIFT: u32 = 2;

    pub const EXECUTABLE_SHIFT: u32 = 3;

    pub const SHAREABILITY_SHIFT: u32 = 4;

    pub const MEMORY_ATTR_SHIFT: u32 = 6;

    pub const MEMORY_TYPE_SHIFT: u32 = 8;

    pub const NS_BIT_SHIFT: u32 = 10;

    /// The number that stands for the attributes: the share type in bits 0 and 1, write and execute
    /// permission in bits 2 and 3, the shareability domain in bits 4 and 5, the device attribute or
    /// the cacheability in bits 6 and 7, the memory type in bits 8 and 9, and the non-secure flag in
    /// bit 10.
    pub open spec fn encode(self) -> nat {
        self.share_type.bits_spec() as nat + 4 * bit(self.read_write) + 8 * bit(self.executable)
            + 16 * (self.shareability.bits_spec() as nat) + 64 * (
        self.memory_type.attr_bits_spec() as nat) + 256 * (self.memory_type.type_bits_spec() as nat)
            + 1024 * bit(self.non_secure)
    }
}

impl From<MemShareAttr> for u32 {
    fn from(attr: MemShareAttr) -> (res: u32) {
        let share: u32 = attr.share_type.bits();
        let write: u32 = if attr.read_write {
            1
        } else {
            0
        };
        let exec: u32 = if attr.executable {
            1
        } else {
            0
        };
        let shareability: u32 = attr.shareability.bits();
        let memory_attr: u32 = attr.memory_type.attr_bits();
        let memory_type: u32 = attr.memory_type.type_bits();
        let ns: u32 = if attr.non_secure {
            1
        } else {
            0
        };
        assert(share | write << 2 | exec << 3 | shareability << 4 | memory_type << 8
            | memory_attr << 6 | ns << 10 == share + 4 * write + 8 * exec + 16 * shareability
            + 64 * memory_attr + 256 * memory_type + 1024 * ns) by (bit_vector)
            requires
                share < 4,
                write < 2,
                exec < 2,
                shareability < 4,
                memory_attr < 4,
                memory_type < 4,
                ns < 2,
        ;
        share | write << MemShareAttr::WRITEABLE_SHIFT | exec << MemShareAttr::EXECUTABLE_SHIFT
            | shareability << MemShareAttr::SHAREABILITY_SHIFT
            | memory_type << MemShareAttr::MEMORY_TYPE_SHIFT
            | memory_attr << MemShareAttr::MEMORY_ATTR_SHIFT | ns << MemShareAttr::NS_BIT_SHIFT
    }
}

impl vstd::std_specs::convert::FromSpecImpl<MemShareAttr> for u32 {
    open spec fn obeys_from_spec() -> bool {
        true
    }

    open spec fn from_spec(attr: MemShareAttr) -> u32 {
        attr.encode() as u32
    }
}

/// Different attributes are described by different numbers.
pub proof fn law_attr_encoding_is_injective(a: MemShareAttr, b: MemShareAttr)
    requires
        a.encode() == b.encode(),
    ensures
        a == b,
{
    let (sa, sb) = (a.share_type.bits_spec() as nat, b.share_type.bits_spec() as nat);
    let (ha, hb) = (a.shareability.bits_spec() as nat, b.shareability.bits_spec() as nat);
    let (ma, mb) = (a.memory_type.attr_bits_spec() as nat, b.memory_type.attr_bits_spec() as nat);
    let (ta, tb) = (a.memory_type.type_bits_spec() as nat, b.memory_type.type_bits_spec() as nat);
    assert(sa < 4 && sb < 4 && ha < 4 && hb < 4 && ma < 4 && mb < 4 && ta < 4 && tb < 4);
    assert(sa == sb);
    assert(bit(a.read_write) == bit(b.read_write));
    assert(bit(a.executable) == bit(b.executable));
    assert(ha == hb);
    assert(ma == mb);
    assert(ta == tb);
}

/// Page table flags of the kernel.
#[derive(Clone, Copy, Debug, PartialEq, Eq, Structural)]
pub struct ArchMmuFlags {
    pub bits: u32,
}

/// Whether every bit of `flag` is set in `bits`.
pub open spec fn has_bits(bits: u32, flag: u32) -> bool {
    bits & flag == flag
}

impl ArchMmuFlags {
    pub const UNCACHED: u32 = 1;

    pub const UNCACHED_DEVICE: u32 = 2;

    pub const PERM_RO: u32 = 8;

    pub const PERM_NO_EXECUTE: u32 = 16;

    pub const NS: u32 = 32;

    /// Whether every bit of `flag` is set.
    pub fn contains(self, flag: u32) -> (res: bool)
        ensures
            res == has_bits(self.bits, flag),
    {
        self.bits & flag == flag
    }
}

impl MemShareAttr {
    /// The attributes of memory that the kernel mapped with `flags`. Memory is only ever shared,
    /// never lent or donated.
    pub open spec fn of_lk_flags(flags: ArchMmuFlags) -> MemShareAttr {
        let device = has_bits(flags.bits, ArchMmuFlags::UNCACHED_DEVICE);
        let uncached = has_bits(flags.bits, ArchMmuFlags::UNCACHED);
        MemShareAttr {
            share_type: ShareType::Share,
            read_write: !has_bits(flags.bits, ArchMmuFlags::PERM_RO),
            executable: !has_bits(flags.bits, ArchMmuFlags::PERM_NO_EXECUTE),
            shareability: if device || uncached {
                Shareability::NonShareable
            } else {
                Shareability::InnerShareable
            },
            memory_type: if device {
                MemoryType::Device(DeviceMemoryAttr::nGnRE)
            } else if uncached {
                MemoryType::Normal(Cacheability::NonCacheable)
            } else {
                MemoryType::Normal(Cacheability::WriteBack)
            },
            non_secure: has_bits(flags.bits, ArchMmuFlags::NS),
        }
    }

    /// The attributes of memory that the kernel mapped with `flags`.
    pub fn from_lk_flags(flags: ArchMmuFlags) -> (attr: MemShareAttr)
        ensures
            attr == MemShareAttr::of_lk_flags(flags),
    {
        let non_secure: bool = flags.contains(ArchMmuFlags::NS);
        let read_write: bool = !flags.contains(ArchMmuFlags::PERM_RO);
        let executable: bool = !flags.contains(ArchMmuFlags::PERM_NO_EXECUTE);
        let (shareability, memory_type) = if flags.contains(ArchMmuFlags::UNCACHED_DEVICE) {
            (Shareability::NonShareable, MemoryType::Device(DeviceMemoryAttr::nGnRE))
        } else if flags.contains(ArchMmuFlags::UNCACHED) {
            (Shareability::NonShareable, MemoryType::Normal(Cacheability::NonCacheable))
        } else {
            (Shareability::InnerShareable, MemoryType::Normal(Cacheability::WriteBack))
        };
        MemShareAttr {
            share_type: ShareType::Share,
            read_write,
            executable,
            shareability,
            memory_type,
            non_secure,
        }
    }
}

} // verus!
