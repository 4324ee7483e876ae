use window_sensor::partition::{LayoutError, PartitionLayout};

#[test]
fn each_fault_of_a_layout_has_its_error() {
    let good = PartitionLayout::mcuboot_default();
    assert_eq!(good.validate(), Ok(()));

    let mut layout = good;
    layout.scratch_size = 0;
    assert_eq!(layout.validate(), Err(LayoutError::ScratchMissing));

    let mut layout = good;
    layout.bootloader_start = 4;
    assert_eq!(layout.validate(), Err(LayoutError::BootloaderOffsetInvalid));

    let mut layout = good;
    layout.scratch_start = layout.secondary_slot_start;
    assert_eq!(layout.validate(), Err(LayoutError::RegionOverlap));

    let mut layout = good;
    layout.settings_size = PartitionLayout::FLASH_SIZE;
    assert_eq!(layout.validate(), Err(LayoutError::FlashOverflow));
}

#[test]
fn the_regions_of_a_valid_layout_lie_side_by_side_in_flash() {
    let layout = PartitionLayout::mcuboot_default();
    let regions = [
        layout.bootloader_region(),
        layout.primary_slot_region(),
        layout.secondary_slot_region(),
        layout.scratch_region(),
        layout.settings_region(),
    ];
    for pair in regions.windows(2) {
        assert!(pair[0].start + pair[0].size <= pair[1].start);
    }
    let last = regions[4];
    assert_eq!(
        last.start + last.size,
        PartitionLayout::FLASH_BASE + PartitionLayout::FLASH_SIZE
    );
}
