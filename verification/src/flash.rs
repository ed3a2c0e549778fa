//! Where the wifi chip's firmware blobs live in the Pico's flash, and the
//! linker symbols that tell the firmware where to find them.
use vstd::prelude::*;

use crate::text::{append_hex, hex};

verus! {

/// One kibibyte.
pub const KIBIBYTE: u32 = 1024;

/// First address of the flash.
pub const FLASH_ORIGIN: u32 = 0x1000_0000;

/// Size of the flash.
pub const TOTAL_FLASH_SIZE: u32 = 2 * KIBIBYTE * KIBIBYTE;

/// Regions start on a multiple of this.
pub const ALIGNMENT: u32 = 4 * KIBIBYTE;

/// Linker symbol prefix of the main firmware region (must match memory.x).
pub const CYW_MAIN_PREFIX: &'static str = "cyw43_main";

/// Linker symbol prefix of the country locale matrix region.
pub const CYW_CLM_PREFIX: &'static str = "cyw43_clm";

/// A region of flash.
#[derive(Debug, Clone, Copy, PartialEq, Eq, Structural)]
pub struct FlashRegion {
    /// Beginning address of region.
    pub origin: u32,
    /// Size of flash region.
    pub length: u32,
}

/// The two flash regions of the CYW43439 wifi chip's firmware.
#[derive(Debug, Clone, Copy, PartialEq, Eq, Structural)]
pub struct Cyw43439Regions {
    /// 43439a0 wifi firmware.
    pub main: FlashRegion,
    /// "Country Locale Matrix".
    pub clm: FlashRegion,
}

/// One past the last address of the flash.
pub open spec fn flash_end() -> int {
    FLASH_ORIGIN + TOTAL_FLASH_SIZE
}

/// `address` rounded down to a multiple of [`ALIGNMENT`].
pub open spec fn spec_align_down(address: int) -> int {
    (address / ALIGNMENT as int) * ALIGNMENT as int
}

/// Both blobs fit below the end of flash: the region computation does not
/// underflow (where it would, the computation panics).
pub open spec fn fits_at_end(main_length: u32, clm_length: u32) -> bool {
    &&& clm_length <= flash_end()
    &&& main_length <= spec_align_down(flash_end() - clm_length)
}

/// The regions that [`Cyw43439Regions::at_end`] places: the country locale
/// matrix as high as alignment allows, the main firmware just below it.
pub open spec fn spec_at_end(main_length: u32, clm_length: u32) -> Cyw43439Regions {
    let clm_origin = spec_align_down(flash_end() - clm_length);
    let main_origin = spec_align_down(clm_origin - main_length);
    Cyw43439Regions {
        main: FlashRegion { origin: main_origin as u32, length: main_length },
        clm: FlashRegion { origin: clm_origin as u32, length: clm_length },
    }
}

/// Round an address down to a multiple of [`ALIGNMENT`].
pub fn align_down(address: u32) -> (r: u32)
    ensures
        r == spec_align_down(address as int),
        r <= address,
        r % ALIGNMENT == 0,
        address - r < ALIGNMENT,
{
    (address / ALIGNMENT) * ALIGNMENT
}

/// The two linker symbol definitions of a region.
pub open spec fn linker_lines(region: FlashRegion, prefix: Seq<char>) -> Seq<char> {
    prefix + "_origin = 0x"@ + hex(region.origin as nat) + ";\n"@ + prefix + "_length = 0x"@ + hex(
        region.length as nat,
    ) + ";\n"@
}

/// The linker symbol definitions of both regions.
pub open spec fn linker_script(regions: Cyw43439Regions) -> Seq<char> {
    linker_lines(regions.main, CYW_MAIN_PREFIX@) + linker_lines(regions.clm, CYW_CLM_PREFIX@)
}

impl FlashRegion {
    /// Write the region's origin and length as linker symbols named after
    /// `prefix`, one definition per line.
    pub fn write_linker_lines(&self, out: &mut String, prefix: &str)
        ensures
            final(out)@ == old(out)@ + linker_lines(*self, prefix@),
    {
        let ghost start = out@;
        out.append(prefix);
        out.append("_origin = 0x");
        append_hex(out, self.origin as u64);
        out.append(";\n");
        out.append(prefix);
        out.append("_length = 0x");
        append_hex(out, self.length as u64);
        out.append(";\n");
        assert(out@ =~= start + linker_lines(*self, prefix@));
    }
}

impl Cyw43439Regions {
    /// Name of the file that records the regions.
    pub const JSON_FILENAME: &'static str = "flash-metadata.json";

    /// Place the firmware regions at the end of flash: the country locale
    /// matrix ends as near the end as alignment allows, and the main firmware
    /// ends at or before the matrix starts.
    pub fn at_end(main_length: u32, clm_length: u32) -> (r: Self)
        requires
            fits_at_end(main_length, clm_length),
        ensures
            r == spec_at_end(main_length, clm_length),
            r.main.length == main_length,
            r.clm.length == clm_length,
            r.main.origin % ALIGNMENT == 0,
            r.clm.origin % ALIGNMENT == 0,
            r.clm.origin + r.clm.length <= flash_end(),
            flash_end() - (r.clm.origin + r.clm.length) < ALIGNMENT,
            r.main.origin + r.main.length <= r.clm.origin,
            r.clm.origin - (r.main.origin + r.main.length) < ALIGNMENT,
    {
        let clm_address = align_down(FLASH_ORIGIN + TOTAL_FLASH_SIZE - clm_length);
        let main_address = align_down(clm_address - main_length);
        Self {
            main: FlashRegion { origin: main_address, length: main_length },
            clm: FlashRegion { origin: clm_address, length: clm_length },
        }
    }

    /// Write the linker symbols of both regions: the main firmware's, then
    /// the country locale matrix's.
    pub fn write_linker(&self, out: &mut String)
        ensures
            final(out)@ == old(out)@ + linker_script(*self),
    {
        let ghost start = out@;
        self.main.write_linker_lines(out, CYW_MAIN_PREFIX);
        self.clm.write_linker_lines(out, CYW_CLM_PREFIX);
        assert(out@ =~= start + linker_script(*self));
    }
}

} // verus!
