use iommufd_ioctls::{
    alloc_iommu_ioas_result, iommu_ioas_alloc, iommu_ioas_map, iommu_ioas_unmap,
    iommufd_open_result, map_iommu_ioas_result, unmap_iommu_ioas_result, IommufdError,
    IOMMU_IOAS_ALLOC, IOMMU_IOAS_MAP, IOMMU_IOAS_MAP_FIXED_IOVA, IOMMU_IOAS_MAP_READABLE,
    IOMMU_IOAS_MAP_WRITEABLE, IOMMU_IOAS_UNMAP,
};

#[test]
fn test_iommufd_ioctl_code() {
    assert_eq!(IOMMU_IOAS_ALLOC(), 15233);
    assert_eq!(IOMMU_IOAS_MAP(), 15237);
    assert_eq!(IOMMU_IOAS_UNMAP(), 15238);
}

#[test]
fn ioctl_numbers_follow_the_type_and_ordinal() {
    assert_eq!(IOMMU_IOAS_ALLOC(), (59 << 8) | 0x81);
    assert_eq!(IOMMU_IOAS_MAP(), (59 << 8) | 0x85);
    assert_eq!(IOMMU_IOAS_UNMAP(), (59 << 8) | 0x86);
}

#[test]
fn missing_device_node_gives_open_failure() {
    let opened: Result<u32, std::io::Error> =
        Err(std::io::Error::from(std::io::ErrorKind::NotFound));
    match iommufd_open_result(opened) {
        Err(IommufdError::OpenIommufd(e)) => {
            assert_eq!(e.kind(), std::io::ErrorKind::NotFound)
        }
        other => panic!("unexpected outcome {:?}", other),
    }
}

#[test]
fn denied_device_node_gives_open_failure() {
    let opened: Result<u32, std::io::Error> = Err(std::io::Error::from_raw_os_error(13));
    match iommufd_open_result(opened) {
        Err(IommufdError::OpenIommufd(e)) => assert_eq!(e.raw_os_error(), Some(13)),
        other => panic!("unexpected outcome {:?}", other),
    }
}

#[test]
fn opened_device_node_is_handed_back() {
    let opened: Result<u32, std::io::Error> = Ok(7);
    assert!(matches!(iommufd_open_result(opened), Ok(7)));
}

#[test]
fn negative_alloc_return_is_alloc_failure() {
    assert!(matches!(alloc_iommu_ioas_result(-1), Err(IommufdError::IommuIoasAlloc(_))));
    assert!(matches!(alloc_iommu_ioas_result(i32::MIN), Err(IommufdError::IommuIoasAlloc(_))));
}

#[test]
fn negative_map_return_is_map_failure() {
    assert!(matches!(map_iommu_ioas_result(-1), Err(IommufdError::IommuIoasMap(_))));
}

#[test]
fn negative_unmap_return_is_unmap_failure() {
    assert!(matches!(unmap_iommu_ioas_result(-22), Err(IommufdError::IommuIoasUnmap(_))));
}

#[test]
fn non_negative_returns_are_success() {
    assert!(alloc_iommu_ioas_result(0).is_ok());
    assert!(map_iommu_ioas_result(0).is_ok());
    assert!(unmap_iommu_ioas_result(0).is_ok());
    assert!(alloc_iommu_ioas_result(5).is_ok());
    assert!(map_iommu_ioas_result(i32::MAX).is_ok());
}

#[test]
fn requests_carry_the_kernel_sizes() {
    let alloc = iommu_ioas_alloc::new();
    assert_eq!(alloc.size, 12);
    assert_eq!(alloc.flags, 0);
    assert_eq!(alloc.out_ioas_id, 0);

    let map = iommu_ioas_map::new(3, IOMMU_IOAS_MAP_READABLE, 0x7f00_0000, 4096, 0x1000);
    assert_eq!(map.size, 40);
    assert_eq!(map.ioas_id, 3);
    assert_eq!(map.flags, 4);
    assert_eq!(map.__reserved, 0);
    assert_eq!(map.user_va, 0x7f00_0000);
    assert_eq!(map.length, 4096);
    assert_eq!(map.iova, 0x1000);

    let unmap = iommu_ioas_unmap::new(3, 0x1000, 4096);
    assert_eq!(unmap.size, 24);
    assert_eq!(unmap.ioas_id, 3);
    assert_eq!(unmap.iova, 0x1000);
    assert_eq!(unmap.length, 4096);
}

#[test]
fn map_flags_are_distinct_bits() {
    assert_eq!(IOMMU_IOAS_MAP_FIXED_IOVA, 1);
    assert_eq!(IOMMU_IOAS_MAP_WRITEABLE, 2);
    assert_eq!(IOMMU_IOAS_MAP_READABLE, 4);
}

// The kernel answers an allocation with identifier 3, then accepts the map
// and reports the whole range unmapped.
#[test]
fn allocate_map_unmap_sequence() {
    let mut alloc = iommu_ioas_alloc::new();
    alloc.out_ioas_id = 3;
    assert!(alloc_iommu_ioas_result(0).is_ok());
    assert_eq!(alloc.out_ioas_id, 3);

    let flags = IOMMU_IOAS_MAP_FIXED_IOVA | IOMMU_IOAS_MAP_READABLE | IOMMU_IOAS_MAP_WRITEABLE;
    let map = iommu_ioas_map::new(alloc.out_ioas_id, flags, 0x7f00_0000, 4096, 0x1000);
    assert_eq!(map.ioas_id, 3);
    assert!(map_iommu_ioas_result(0).is_ok());

    let mut unmap = iommu_ioas_unmap::new(alloc.out_ioas_id, 0x1000, 4096);
    unmap.length = 4096;
    assert!(unmap_iommu_ioas_result(0).is_ok());
    assert_eq!(unmap.length, 4096);

    // A second unmap of the same range is refused by the kernel.
    assert!(matches!(unmap_iommu_ioas_result(-2), Err(IommufdError::IommuIoasUnmap(_))));
}
