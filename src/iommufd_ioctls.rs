//! The ioctl numbers of the IOAS operations, and the rules that turn the
//! answers of the open call and of the ioctls into typed results.

use vstd::prelude::*;

use crate::iommufd::{IOMMUFD_CMD_IOAS_ALLOC, IOMMUFD_CMD_IOAS_MAP, IOMMUFD_CMD_IOAS_UNMAP, IOMMUFD_TYPE};
use crate::{IommufdError, SysError};

verus! {

/// Direction bits of a command that transfers no data through its number.
pub const IOC_NONE: u32 = 0;

/// Bit position of the command ordinal in an ioctl number.
pub const IOC_NRSHIFT: u32 = 0;

/// Bit position of the type byte in an ioctl number.
pub const IOC_TYPESHIFT: u32 = 8;

/// Bit position of the argument size in an ioctl number.
pub const IOC_SIZESHIFT: u32 = 16;

/// Bit position of the direction bits in an ioctl number.
pub const IOC_DIRSHIFT: u32 = 30;

/// The ioctl number encoded from its four parts, as 32-bit arithmetic does it.
pub open spec fn ioc(dir: u32, ty: u32, nr: u32, size: u32) -> u64 {
    ((dir << IOC_DIRSHIFT) | (ty << IOC_TYPESHIFT) | (nr << IOC_NRSHIFT) | (size
        << IOC_SIZESHIFT)) as u64
}

/// Relies on vmm_sys_util::ioctl::ioctl_expr: it shifts the direction, type,
/// ordinal and size into their fields and joins them, in 32 bits.
#[verifier::external_body]
fn ioctl_expr(dir: u32, ty: u32, nr: u32, size: u32) -> (r: u64)
    ensures
        r == ioc(dir, ty, nr, size),
{
    vmm_sys_util::ioctl::ioctl_expr(dir, ty, nr, size)
}

/// The number of a command of the IOMMUFD type that transfers no data
/// through its number.
pub open spec fn iommufd_io(nr: u32) -> u64 {
    ioc(IOC_NONE, IOMMUFD_TYPE as u32, nr, 0)
}

/// The IOAS commands encode, with no direction bits and no size, to the
/// fixed numbers that the kernel ABI publishes for them.
pub proof fn lemma_ioas_ioctl_numbers()
    ensures
        iommufd_io(IOMMUFD_CMD_IOAS_ALLOC) == 15233,
        iommufd_io(IOMMUFD_CMD_IOAS_MAP) == 15237,
        iommufd_io(IOMMUFD_CMD_IOAS_UNMAP) == 15238,
{
    assert(((0u32 << 30u32) | (59u32 << 8u32) | (129u32 << 0u32) | (0u32 << 16u32)) == 15233u32)
        by (bit_vector);
    assert(((0u32 << 30u32) | (59u32 << 8u32) | (133u32 << 0u32) | (0u32 << 16u32)) == 15237u32)
        by (bit_vector);
    assert(((0u32 << 30u32) | (59u32 << 8u32) | (134u32 << 0u32) | (0u32 << 16u32)) == 15238u32)
        by (bit_vector);
}

/// The ioctl number that allocates an I/O address space.
#[allow(non_snake_case)]
pub fn IOMMU_IOAS_ALLOC() -> (r: u64)
    ensures
        r == iommufd_io(IOMMUFD_CMD_IOAS_ALLOC),
        r == 15233,
{
    let r = ioctl_expr(IOC_NONE, IOMMUFD_TYPE as u32, IOMMUFD_CMD_IOAS_ALLOC, 0);
    proof {
        lemma_ioas_ioctl_numbers();
    }
    r
}

/// The ioctl number that maps host memory into an I/O address space.
#[allow(non_snake_case)]
pub fn IOMMU_IOAS_MAP() -> (r: u64)
    ensures
        r == iommufd_io(IOMMUFD_CMD_IOAS_MAP),
        r == 15237,
{
    let r = ioctl_expr(IOC_NONE, IOMMUFD_TYPE as u32, IOMMUFD_CMD_IOAS_MAP, 0);
    proof {
        lemma_ioas_ioctl_numbers();
    }
    r
}

/// The ioctl number that unmaps a range of an I/O address space.
#[allow(non_snake_case)]
pub fn IOMMU_IOAS_UNMAP() -> (r: u64)
    ensures
        r == iommufd_io(IOMMUFD_CMD_IOAS_UNMAP),
        r == 15238,
{
    let r = ioctl_expr(IOC_NONE, IOMMUFD_TYPE as u32, IOMMUFD_CMD_IOAS_UNMAP, 0);
    proof {
        lemma_ioas_ioctl_numbers();
    }
    r
}

/// Relies on vmm_sys_util::errno::Error::last: the error number that the
/// last failed system call of this thread left behind.
#[verifier::external_body]
fn last_error() -> (r: SysError) {
    SysError::last()
}

/// The outcome of opening the IOMMUFD device node: the opened resource, or
/// the open failure carrying the operating system's error.
pub fn iommufd_open_result<T>(opened: Result<T, std::io::Error>) -> (r: Result<T, IommufdError>)
    ensures
        opened is Ok ==> r == Ok::<T, IommufdError>(opened->Ok_0),
        opened is Err ==> r == Err::<T, IommufdError>(IommufdError::OpenIommufd(opened->Err_0)),
{
    match opened {
        Ok(f) => Ok(f),
        Err(e) => Err(IommufdError::OpenIommufd(e)),
    }
}

/// The outcome of the allocate ioctl from its return value: success on a
/// non-negative value, else the allocation failure with the thread's errno.
pub fn alloc_iommu_ioas_result(ret: i32) -> (r: Result<(), IommufdError>)
    ensures
        ret >= 0 ==> r == Ok::<(), IommufdError>(()),
        ret < 0 ==> r is Err && r->Err_0 is IommuIoasAlloc,
{
    if ret < 0 {
        Err(IommufdError::IommuIoasAlloc(last_error()))
    } else {
        Ok(())
    }
}

/// The outcome of the map ioctl from its return value: success on a
/// non-negative value, else the map failure with the thread's errno.
pub fn map_iommu_ioas_result(ret: i32) -> (r: Result<(), IommufdError>)
    ensures
        ret >= 0 ==> r == Ok::<(), IommufdError>(()),
        ret < 0 ==> r is Err && r->Err_0 is IommuIoasMap,
{
    if ret < 0 {
        Err(IommufdError::IommuIoasMap(last_error()))
    } else {
        Ok(())
    }
}

/// The outcome of the unmap ioctl from its return value: success on a
/// non-negative value, else the unmap failure with the thread's errno.
pub fn unmap_iommu_ioas_result(ret: i32) -> (r: Result<(), IommufdError>)
    ensures
        ret >= 0 ==> r == Ok::<(), IommufdError>(()),
        ret < 0 ==> r is Err && r->Err_0 is IommuIoasUnmap,
{
    if ret < 0 {
        Err(IommufdError::IommuIoasUnmap(last_error()))
    } else {
        Ok(())
    }
}

} // verus!
