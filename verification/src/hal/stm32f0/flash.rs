//! Flash layout of the STM32F042 display module: 32 KiB of flash in 1 KiB
//! pages, the last 4 KiB reserved for configuration.

use vstd::prelude::*;

verus! {

/// Flash size (32 KiB)
pub const FLASH_SIZE: usize = 32 * 1024;

/// Size of the configuration partition (4 KiB, four pages)
pub const CONFIG_PARTITION_SIZE: usize = 4 * 1024;

/// Start of the configuration partition
pub const CONFIG_PARTITION_START: usize = FLASH_SIZE - CONFIG_PARTITION_SIZE;

/// Flash page size of the STM32F0 series
pub const FLASH_PAGE_SIZE: usize = 1024;

/// Flash address range of the configuration partition
pub fn config_range() -> (r: core::ops::Range<u32>)
    ensures
        r.start == CONFIG_PARTITION_START,
        r.end == FLASH_SIZE,
{
    (CONFIG_PARTITION_START as u32)..(FLASH_SIZE as u32)
}

/// The partition is the last part of flash, a whole number of pages.
pub proof fn lemma_partition_layout()
    ensures
        CONFIG_PARTITION_START + CONFIG_PARTITION_SIZE == FLASH_SIZE,
        CONFIG_PARTITION_START % FLASH_PAGE_SIZE == 0,
        CONFIG_PARTITION_SIZE % FLASH_PAGE_SIZE == 0,
{
}

} // verus!
