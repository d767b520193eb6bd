//! The device's fixed memory map.
//!
//! Every address here is device-defined and never changes at runtime. Each
//! memory section is given as a base address and a size in bytes, together
//! with the width of the elements that the section is addressed by.

use vstd::prelude::*;

verus! {

/// A kilobyte.
pub const KB: usize = 1024;

/// A megabyte.
pub const MB: usize = KB * 1024;

/// Base address of the 256 KiB of 16-bit wide external working RAM.
pub const EWRAM_BASE: usize = 0x0200_0000;

/// Size in bytes of the external working RAM.
pub const EWRAM_SIZE: usize = 256 * KB;

/// Base address of the 32 KiB of 32-bit wide internal working RAM.
pub const IWRAM_BASE: usize = 0x0300_0000;

/// Size in bytes of the internal working RAM.
pub const IWRAM_SIZE: usize = 32 * KB;

/// Base address of the 1 KiB of 16-bit memory-mapped control registers.
pub const IORAM_BASE: usize = 0x0400_0000;

/// Size in bytes of the memory-mapped control register block.
pub const IORAM_SIZE: usize = 1 * KB;

/// Base address of the 1 KiB of 16-bit palette memory.
pub const PALRAM_BASE: usize = 0x0500_0000;

/// Size in bytes of the palette memory.
pub const PALRAM_SIZE: usize = 1 * KB;

/// Base address of the 96 KiB of 16-bit video memory.
pub const VRAM_BASE: usize = 0x0600_0000;

/// Size in bytes of the video memory.
pub const VRAM_SIZE: usize = 96 * KB;

/// Base address of the 1 KiB of 32-bit object attribute memory.
pub const OAM_BASE: usize = 0x0700_0000;

/// Size in bytes of the object attribute memory.
pub const OAM_SIZE: usize = 1 * KB;

/// Base address of the up to 32 MiB of 16-bit cartridge ROM.
pub const PAKROM_BASE: usize = 0x0800_0000;

/// Size in bytes of the largest cartridge ROM.
pub const PAKROM_SIZE: usize = 32 * MB;

/// Base address of the up to 64 KiB of 8-bit cartridge save RAM.
pub const CARTRAM_BASE: usize = 0x0E00_0000;

/// Size in bytes of the largest cartridge save RAM.
pub const CARTRAM_SIZE: usize = 64 * KB;

/// Address of the display control register.
pub const REG_DISPCNT: usize = IORAM_BASE + 0x0000;

/// Address of the display status register.
pub const REG_DISPSTAT: usize = IORAM_BASE + 0x0004;

/// Address of the display scanline counter register.
pub const REG_VCOUNT: usize = IORAM_BASE + 0x0006;

/// Address of the key input register.
pub const REG_KEYINPUT: usize = IORAM_BASE + 0x0130;

} // verus!
