use crate::format::{FormatTag, SectionRegion};
use vstd::prelude::*;

verus! {

/// The low 48 bits of a format B address locate it in the file; the high
/// 16 bits carry platform tags unrelated to location.
pub const ADDRESS_MASK: u64 = 0xFFFF_FFFF_FFFF;

/// What translating a virtual address to a file offset yields.
///
/// Format A requires the address to fall inside the single designated
/// region and maps it relative to that region's file offset.  Format B
/// masks the address down to its low 48 bits and uses the result as the
/// file offset directly, with no range check.
pub open spec fn translate_spec(format: FormatTag, regions: Seq<SectionRegion>, rva: u64) -> Option<
    u64,
>
    recommends
        regions.len() >= 1,
{
    match format {
        FormatTag::Pe => {
            let s = regions[0];
            if s.virtual_address <= rva < s.virtual_address + s.size {
                Some((rva - s.virtual_address + s.file_offset) as u64)
            } else {
                None
            }
        },
        FormatTag::MachO => Some(rva & ADDRESS_MASK),
    }
}

} // verus!
