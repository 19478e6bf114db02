//! Kernel ABI values of the IOMMUFD interface: the ioctl type byte, the
//! command ordinals and the argument structures of the IOAS operations.

use vstd::prelude::*;

verus! {

/// The ioctl type byte of every IOMMUFD command, `';'`.
pub const IOMMUFD_TYPE: u8 = 59;

/// Ordinal of the first IOMMUFD command.
pub const IOMMUFD_CMD_BASE: u32 = 128;

/// Ordinal of the command that destroys an IOMMUFD object.
pub const IOMMUFD_CMD_DESTROY: u32 = 128;

/// Ordinal of the command that allocates an I/O address space.
pub const IOMMUFD_CMD_IOAS_ALLOC: u32 = 129;

/// Ordinal of the command that restricts the usable IOVA ranges.
pub const IOMMUFD_CMD_IOAS_ALLOW_IOVAS: u32 = 130;

/// Ordinal of the command that copies a mapping between address spaces.
pub const IOMMUFD_CMD_IOAS_COPY: u32 = 131;

/// Ordinal of the command that reports the usable IOVA ranges.
pub const IOMMUFD_CMD_IOAS_IOVA_RANGES: u32 = 132;

/// Ordinal of the command that maps host memory into an address space.
pub const IOMMUFD_CMD_IOAS_MAP: u32 = 133;

/// Ordinal of the command that unmaps a range of an address space.
pub const IOMMUFD_CMD_IOAS_UNMAP: u32 = 134;

/// Map flag: place the mapping at the given IOVA rather than one the kernel picks.
pub const IOMMU_IOAS_MAP_FIXED_IOVA: u32 = 1;

/// Map flag: devices may write through the mapping.
pub const IOMMU_IOAS_MAP_WRITEABLE: u32 = 2;

/// Map flag: devices may read through the mapping.
pub const IOMMU_IOAS_MAP_READABLE: u32 = 4;

/// Size in bytes of the kernel's allocation argument.
pub const IOMMU_IOAS_ALLOC_SIZE: u32 = 12;

/// Size in bytes of the kernel's map argument.
pub const IOMMU_IOAS_MAP_SIZE: u32 = 40;

/// Size in bytes of the kernel's unmap argument.
pub const IOMMU_IOAS_UNMAP_SIZE: u32 = 24;

/// Argument of the allocate command; the kernel writes the new address
/// space's identifier into `out_ioas_id`.
#[allow(non_camel_case_types)]
#[derive(Clone, Copy, Debug, Default, PartialEq, Eq, Structural)]
pub struct iommu_ioas_alloc {
    pub size: u32,
    pub flags: u32,
    pub out_ioas_id: u32,
}

impl iommu_ioas_alloc {
    /// An allocation request, sized for the kernel, with no flags.
    pub fn new() -> (r: Self)
        ensures
            r.size == IOMMU_IOAS_ALLOC_SIZE,
            r.flags == 0,
            r.out_ioas_id == 0,
    {
        iommu_ioas_alloc { size: IOMMU_IOAS_ALLOC_SIZE, flags: 0, out_ioas_id: 0 }
    }
}

/// Argument of the map command: `length` bytes of host memory at `user_va`
/// become visible to devices at `iova` in the address space `ioas_id`.
#[allow(non_camel_case_types)]
#[derive(Clone, Copy, Debug, Default, PartialEq, Eq, Structural)]
pub struct iommu_ioas_map {
    pub size: u32,
    pub flags: u32,
    pub ioas_id: u32,
    pub __reserved: u32,
    pub user_va: u64,
    pub length: u64,
    pub iova: u64,
}

impl iommu_ioas_map {
    /// A map request, sized for the kernel, with the given fields.
    pub fn new(ioas_id: u32, flags: u32, user_va: u64, length: u64, iova: u64) -> (r: Self)
        ensures
            r.size == IOMMU_IOAS_MAP_SIZE,
            r.flags == flags,
            r.ioas_id == ioas_id,
            r.__reserved == 0,
            r.user_va == user_va,
            r.length == length,
            r.iova == iova,
    {
        iommu_ioas_map { size: IOMMU_IOAS_MAP_SIZE, flags, ioas_id, __reserved: 0, user_va, length, iova }
    }
}

/// Argument of the unmap command: the range of `length` bytes at `iova` in
/// the address space `ioas_id`. The kernel writes the number of bytes it
/// unmapped back into `length`.
#[allow(non_camel_case_types)]
#[derive(Clone, Copy, Debug, Default, PartialEq, Eq, Structural)]
pub struct iommu_ioas_unmap {
    pub size: u32,
    pub ioas_id: u32,
    pub iova: u64,
    pub length: u64,
}

impl iommu_ioas_unmap {
    /// An unmap request, sized for the kernel, for the given range.
    pub fn new(ioas_id: u32, iova: u64, length: u64) -> (r: Self)
        ensures
            r.size == IOMMU_IOAS_UNMAP_SIZE,
            r.ioas_id == ioas_id,
            r.iova == iova,
            r.length == length,
    {
        iommu_ioas_unmap { size: IOMMU_IOAS_UNMAP_SIZE, ioas_id, iova, length }
    }
}

} // verus!
