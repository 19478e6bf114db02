//! User-space access to the Linux IOMMUFD interface: the kernel ABI values
//! for I/O address space (IOAS) allocation, mapping and unmapping, and the
//! rules that turn the kernel's answers into typed results.

use vstd::prelude::*;

pub mod iommufd;
pub mod iommufd_ioctls;

pub use iommufd::{
    iommu_ioas_alloc, iommu_ioas_map, iommu_ioas_unmap, IOMMU_IOAS_MAP_FIXED_IOVA,
    IOMMU_IOAS_MAP_READABLE, IOMMU_IOAS_MAP_WRITEABLE,
};
pub use iommufd_ioctls::{
    alloc_iommu_ioas_result, iommufd_open_result, map_iommu_ioas_result, unmap_iommu_ioas_result,
    IOMMU_IOAS_ALLOC, IOMMU_IOAS_MAP, IOMMU_IOAS_UNMAP,
};
pub use vmm_sys_util::errno::Error as SysError;

verus! {

/// Declares std::io::Error, carried opaquely in the open failure.
#[verifier::external_type_specification]
#[verifier::external_body]
pub struct ExIoError(std::io::Error);

/// Declares vmm_sys_util::errno::Error, carried opaquely in the ioctl failures.
#[verifier::external_type_specification]
#[verifier::external_body]
pub struct ExSysError(vmm_sys_util::errno::Error);

/// The ways an IOMMUFD operation fails. Each carries the operating system's
/// error from the failed call.
#[derive(Debug)]
pub enum IommufdError {
    /// The device node could not be opened.
    OpenIommufd(std::io::Error),
    /// The kernel refused to allocate an I/O address space.
    IommuIoasAlloc(SysError),
    /// The kernel refused to map an IOVA range into an I/O address space.
    IommuIoasMap(SysError),
    /// The kernel refused to unmap an IOVA range from an I/O address space.
    IommuIoasUnmap(SysError),
}

} // verus!
