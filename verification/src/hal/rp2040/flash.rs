//! Flash layout of the RP2040 board: the configuration lives in the last
//! 64 KiB of the 2 MiB flash.

use vstd::prelude::*;

verus! {

/// Flash size (2 MiB on the SKR Pico)
pub const FLASH_SIZE: usize = 2 * 1024 * 1024;

/// Size of the configuration partition (64 KiB)
pub const CONFIG_PARTITION_SIZE: usize = 64 * 1024;

/// Start of the configuration partition
pub const CONFIG_PARTITION_START: usize = FLASH_SIZE - CONFIG_PARTITION_SIZE;

/// Flash erase size of the RP2040 (one 4 KiB sector)
pub const FLASH_ERASE_SIZE: usize = 4096;

/// Flash address range of the configuration partition
pub fn config_range() -> (r: core::ops::Range<u32>)
    ensures
        r.start == CONFIG_PARTITION_START,
        r.end == FLASH_SIZE,
{
    (CONFIG_PARTITION_START as u32)..(FLASH_SIZE as u32)
}

/// The partition is the whole last part of flash, a whole number of
/// erase sectors.
pub proof fn lemma_partition_layout()
    ensures
        CONFIG_PARTITION_START + CONFIG_PARTITION_SIZE == FLASH_SIZE,
        CONFIG_PARTITION_START % FLASH_ERASE_SIZE == 0,
        CONFIG_PARTITION_SIZE % FLASH_ERASE_SIZE == 0,
{
}

} // verus!
