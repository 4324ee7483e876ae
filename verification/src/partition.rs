//! Flash partition layout shared with the bootloader.

use vstd::prelude::*;

verus! {

#[derive(Clone, Copy, Debug, PartialEq, Eq, Structural)]
pub struct PartitionLayout {
    pub bootloader_start: u32,
    pub bootloader_size: u32,
    pub primary_slot_start: u32,
    pub primary_slot_size: u32,
    pub secondary_slot_start: u32,
    pub secondary_slot_size: u32,
    pub scratch_start: u32,
    pub scratch_size: u32,
    pub settings_start: u32,
    pub settings_size: u32,
}

#[derive(Clone, Copy, Debug, PartialEq, Eq, Structural)]
pub struct PartitionRegion {
    pub start: u32,
    pub size: u32,
}

#[derive(Clone, Copy, Debug, PartialEq, Eq, Structural)]
pub enum LayoutError {
    BootloaderOffsetInvalid,
    FlashOverflow,
    RegionOverlap,
    ScratchMissing,
    SlotSizeMismatch,
}

impl PartitionRegion {
    /// The address just past the region, however large.
    pub open spec fn limit(self) -> int {
        self.start + self.size
    }

    /// Whether `address` lies in the region.
    pub open spec fn holds(self, address: int) -> bool {
        self.start <= address < self.limit()
    }

    pub fn end(&self) -> (end: u32)
        requires
            self.limit() <= u32::MAX,
        ensures
            end == self.limit(),
    {
        self.start + self.size
    }
}

impl PartitionLayout {
    pub const FLASH_BASE: u32 = 0x0000_0000;

    pub const FLASH_SIZE: u32 = 1024 * 1024;

    pub const RAM_BASE: u32 = 0x2000_0000;

    pub const RAM_SIZE: u32 = 192 * 1024;

    pub open spec fn bootloader(self) -> PartitionRegion {
        PartitionRegion { start: self.bootloader_start, size: self.bootloader_size }
    }

    pub open spec fn primary_slot(self) -> PartitionRegion {
        PartitionRegion { start: self.primary_slot_start, size: self.primary_slot_size }
    }

    pub open spec fn secondary_slot(self) -> PartitionRegion {
        PartitionRegion { start: self.secondary_slot_start, size: self.secondary_slot_size }
    }

    pub open spec fn scratch(self) -> PartitionRegion {
        PartitionRegion { start: self.scratch_start, size: self.scratch_size }
    }

    pub open spec fn settings(self) -> PartitionRegion {
        PartitionRegion { start: self.settings_start, size: self.settings_size }
    }

    /// Whether each region ends where the next one starts, or before it.
    pub open spec fn regions_in_order(self) -> bool {
        &&& self.bootloader().limit() <= self.primary_slot_start
        &&& self.primary_slot().limit() <= self.secondary_slot_start
        &&& self.secondary_slot().limit() <= self.scratch_start
        &&& self.scratch().limit() <= self.settings_start
    }

    /// What is wrong with the layout, if anything; of several faults the first one listed here.
    pub open spec fn verdict(self) -> Result<(), LayoutError> {
        if self.primary_slot_size != self.secondary_slot_size {
            Err(LayoutError::SlotSizeMismatch)
        } else if self.scratch_size == 0 {
            Err(LayoutError::ScratchMissing)
        } else if self.bootloader_start != Self::FLASH_BASE {
            Err(LayoutError::BootloaderOffsetInvalid)
        } else if !self.regions_in_order() {
            Err(LayoutError::RegionOverlap)
        } else if self.settings().limit() > Self::FLASH_BASE + Self::FLASH_SIZE {
            Err(LayoutError::FlashOverflow)
        } else {
            Ok(())
        }
    }

    /// Whether every region end that [`PartitionLayout::validate`] has to look at is a 32-bit
    /// address. The regions are looked at in order, up to the first overlap.
    pub open spec fn ends_are_addresses(self) -> bool {
        let bootloader = self.bootloader().limit();
        let primary = self.primary_slot().limit();
        let secondary = self.secondary_slot().limit();
        let scratch = self.scratch().limit();
        let settings = self.settings().limit();
        self.primary_slot_size == self.secondary_slot_size && self.scratch_size != 0
            && self.bootloader_start == Self::FLASH_BASE && bootloader <= self.primary_slot_start
            ==> {
            &&& primary <= u32::MAX
            &&& primary <= self.secondary_slot_start ==> {
                &&& secondary <= u32::MAX
                &&& secondary <= self.scratch_start ==> {
                    &&& scratch <= u32::MAX
                    &&& scratch <= self.settings_start ==> settings <= u32::MAX
                }
            }
        }
    }

    /// The layout of the flash under MCUboot.
    pub open spec fn mcuboot() -> PartitionLayout {
        PartitionLayout {
            bootloader_start: 0,
            bootloader_size: 0x1_0000,
            primary_slot_start: 0x1_0000,
            primary_slot_size: 0x6_0000,
            secondary_slot_start: 0x7_0000,
            secondary_slot_size: 0x6_0000,
            scratch_start: 0xD_0000,
            scratch_size: 0x1_0000,
            settings_start: 0xE_0000,
            settings_size: 0x2_0000,
        }
    }

    pub fn mcuboot_default() -> (layout: Self)
        ensures
            layout == PartitionLayout::mcuboot(),
            layout.verdict() == Ok::<(), LayoutError>(()),
    {
        PartitionLayout {
            bootloader_start: Self::FLASH_BASE,
            bootloader_size: 64 * 1024,
            primary_slot_start: 0x0001_0000,
            primary_slot_size: 384 * 1024,
            secondary_slot_start: 0x0007_0000,
            secondary_slot_size: 384 * 1024,
            scratch_start: 0x000D_0000,
            scratch_size: 64 * 1024,
            settings_start: 0x000E_0000,
            settings_size: 128 * 1024,
        }
    }

    pub fn bootloader_region(&self) -> (region: PartitionRegion)
        ensures
            region == self.bootloader(),
    {
        PartitionRegion { start: self.bootloader_start, size: self.bootloader_size }
    }

    pub fn primary_slot_region(&self) -> (region: PartitionRegion)
        ensures
            region == self.primary_slot(),
    {
        PartitionRegion { start: self.primary_slot_start, size: self.primary_slot_size }
    }

    pub fn secondary_slot_region(&self) -> (region: PartitionRegion)
        ensures
            region == self.secondary_slot(),
    {
        PartitionRegion { start: self.secondary_slot_start, size: self.secondary_slot_size }
    }

    pub fn scratch_region(&self) -> (region: PartitionRegion)
        ensures
            region == self.scratch(),
    {
        PartitionRegion { start: self.scratch_start, size: self.scratch_size }
    }

    pub fn settings_region(&self) -> (region: PartitionRegion)
        ensures
            region == self.settings(),
    {
        PartitionRegion { start: self.settings_start, size: self.settings_size }
    }

    pub fn app_link_origin(&self) -> (origin: u32)
        ensures
            origin == self.primary_slot_start,
    {
        self.primary_slot_start
    }

    pub fn app_link_length(&self) -> (length: u32)
        ensures
            length == self.primary_slot_size,
    {
        self.primary_slot_size
    }

    pub fn bootloader_end(&self) -> (end: u32)
        requires
            self.bootloader().limit() <= u32::MAX,
        ensures
            end == self.bootloader().limit(),
    {
        self.bootloader_start + self.bootloader_size
    }

    pub fn primary_slot_end(&self) -> (end: u32)
        requires
            self.primary_slot().limit() <= u32::MAX,
        ensures
            end == self.primary_slot().limit(),
    {
        self.primary_slot_start + self.primary_slot_size
    }

    pub fn secondary_slot_end(&self) -> (end: u32)
        requires
            self.secondary_slot().limit() <= u32::MAX,
        ensures
            end == self.secondary_slot().limit(),
    {
        self.secondary_slot_start + self.secondary_slot_size
    }

    pub fn scratch_end(&self) -> (end: u32)
        requires
            self.scratch().limit() <= u32::MAX,
        ensures
            end == self.scratch().limit(),
    {
        self.scratch_start + self.scratch_size
    }

    pub fn settings_end(&self) -> (end: u32)
        requires
            self.settings().limit() <= u32::MAX,
        ensures
            end == self.settings().limit(),
    {
        self.settings_start + self.settings_size
    }

    pub fn validate(&self) -> (verdict: Result<(), LayoutError>)
        requires
            self.ends_are_addresses(),
        ensures
            verdict == self.verdict(),
    {
        if self.primary_slot_size != self.secondary_slot_size {
            return Err(LayoutError::SlotSizeMismatch);
        }
        if self.scratch_size == 0 {
            return Err(LayoutError::ScratchMissing);
        }
        if self.bootloader_start != Self::FLASH_BASE {
            return Err(LayoutError::BootloaderOffsetInvalid);
        }
        if self.bootloader_end() > self.primary_slot_start || self.primary_slot_end()
            > self.secondary_slot_start || self.secondary_slot_end() > self.scratch_start
            || self.scratch_end() > self.settings_start {
            return Err(LayoutError::RegionOverlap);
        }
        if self.settings_end() > Self::FLASH_BASE + Self::FLASH_SIZE {
            return Err(LayoutError::FlashOverflow);
        }
        Ok(())
    }
}

/// Whether no address lies in both regions.
pub open spec fn apart(a: PartitionRegion, b: PartitionRegion) -> bool {
    forall|address: int| !(a.holds(address) && #[trigger] b.holds(address))
}

/// Whether all of a region lies in flash.
pub open spec fn in_flash(region: PartitionRegion) -> bool {
    PartitionLayout::FLASH_BASE <= region.start && region.limit() <= PartitionLayout::FLASH_BASE
        + PartitionLayout::FLASH_SIZE
}

/// In a layout that passes validation no two regions share an address, all of them lie in
/// flash, an image fits the secondary slot if it fits the primary one, and there is room to swap.
pub proof fn valid_layout_is_sound(layout: PartitionLayout)
    requires
        layout.verdict() is Ok,
    ensures
        apart(layout.bootloader(), layout.primary_slot()),
        apart(layout.bootloader(), layout.secondary_slot()),
        apart(layout.bootloader(), layout.scratch()),
        apart(layout.bootloader(), layout.settings()),
        apart(layout.primary_slot(), layout.secondary_slot()),
        apart(layout.primary_slot(), layout.scratch()),
        apart(layout.primary_slot(), layout.settings()),
        apart(layout.secondary_slot(), layout.scratch()),
        apart(layout.secondary_slot(), layout.settings()),
        apart(layout.scratch(), layout.settings()),
        in_flash(layout.bootloader()),
        in_flash(layout.primary_slot()),
        in_flash(layout.secondary_slot()),
        in_flash(layout.scratch()),
        in_flash(layout.settings()),
        layout.primary_slot_size == layout.secondary_slot_size,
        layout.scratch_size > 0,
        layout.ends_are_addresses(),
{
}

/// A layout passes exactly when its slots have the same size, there is scratch space, the
/// bootloader starts at address zero, each region ends before the next one starts, and the last
/// one ends within the first mebibyte. Of several faults the first of these is named.
pub proof fn each_fault_is_named(layout: PartitionLayout)
    ensures
        ({
            let same = layout.primary_slot_size == layout.secondary_slot_size;
            let scratch = layout.scratch_size > 0;
            let first = layout.bootloader_start == 0;
            let ordered = layout.bootloader_start + layout.bootloader_size
                <= layout.primary_slot_start && layout.primary_slot_start
                + layout.primary_slot_size <= layout.secondary_slot_start
                && layout.secondary_slot_start + layout.secondary_slot_size <= layout.scratch_start
                && layout.scratch_start + layout.scratch_size <= layout.settings_start;
            let inside = layout.settings_start + layout.settings_size <= 0x10_0000;
            let verdict = layout.verdict();
            &&& verdict is Ok <==> same && scratch && first && ordered && inside
            &&& !same ==> verdict == Err::<(), LayoutError>(LayoutError::SlotSizeMismatch)
            &&& same && !scratch ==> verdict == Err::<(), LayoutError>(LayoutError::ScratchMissing)
            &&& same && scratch && !first ==> verdict == Err::<(), LayoutError>(
                LayoutError::BootloaderOffsetInvalid,
            )
            &&& same && scratch && first && !ordered ==> verdict == Err::<(), LayoutError>(
                LayoutError::RegionOverlap,
            )
            &&& same && scratch && first && ordered && !inside ==> verdict == Err::<
                (),
                LayoutError,
            >(LayoutError::FlashOverflow)
        }),
{
}

/// A region holds as many addresses as its size says, from its start on, and an empty one none.
pub proof fn regions_hold_their_addresses(region: PartitionRegion, offset: int)
    ensures
        region.holds(region.start + offset) <==> 0 <= offset < region.size,
        region.limit() - region.size == region.start,
{
}

/// Under MCUboot the regions follow each other without a gap and fill the megabyte of flash, with
/// two slots alike.
pub proof fn mcuboot_layout_fills_the_flash(address: int)
    ensures
        ({
            let layout = PartitionLayout::mcuboot();
            &&& 0 <= address < 0x10_0000 <==> {
                ||| layout.bootloader().holds(address)
                ||| layout.primary_slot().holds(address)
                ||| layout.secondary_slot().holds(address)
                ||| layout.scratch().holds(address)
                ||| layout.settings().holds(address)
            }
            &&& layout.bootloader().holds(address) <==> 0 <= address < 0x1_0000
            &&& layout.primary_slot().holds(address) <==> 0x1_0000 <= address < 0x7_0000
            &&& layout.secondary_slot().holds(address) <==> layout.primary_slot().holds(
                address - 0x6_0000,
            )
            &&& layout.scratch().holds(address) <==> 0xd_0000 <= address < 0xe_0000
            &&& layout.settings().holds(address) <==> 0xe_0000 <= address < 0x10_0000
        }),
{
}

} // verus!
