use crate::codec::brotli_decompressed;
use crate::format::{FormatTag, SectionRegion};
use crate::translate::translate_spec;
use vstd::bytes::{spec_u64_from_le_bytes, u64_from_le_bytes};
use vstd::prelude::*;
use vstd::slice::slice_subrange;

verus! {

/// The byte every genuine asset name starts with: ASCII `/`.
pub const NAME_MARKER: u8 = 47;

/// Size in bytes of one on-disk descriptor record: four 8-byte fields.
pub const ASSET_HEADER_SIZE: usize = 32;

/// The four fixed-order fields of a descriptor record: the virtual address
/// and byte length of the asset's name, then the virtual address and byte
/// length of its compressed data block.  Untrusted input: every field is
/// range-checked before use.
#[derive(Clone, Copy, PartialEq, Eq, Structural, Debug)]
pub struct AssetHeader {
    pub name_ptr: u64,
    pub name_len: u64,
    pub data_ptr: u64,
    pub data_size: u64,
}

/// The descriptor record encoded at `off`: four consecutive 64-bit
/// little-endian words.
pub open spec fn header_at(bytes: Seq<u8>, off: int) -> AssetHeader
    recommends
        0 <= off,
        off + ASSET_HEADER_SIZE <= bytes.len(),
{
    AssetHeader {
        name_ptr: spec_u64_from_le_bytes(bytes.subrange(off, off + 8)),
        name_len: spec_u64_from_le_bytes(bytes.subrange(off + 8, off + 16)),
        data_ptr: spec_u64_from_le_bytes(bytes.subrange(off + 16, off + 24)),
        data_size: spec_u64_from_le_bytes(bytes.subrange(off + 24, off + 32)),
    }
}

/// Reads the four fields of the record at `off`, field by field, without
/// reinterpreting memory.
pub fn read_header(bytes: &[u8], off: usize) -> (h: AssetHeader)
    requires
        off + ASSET_HEADER_SIZE <= bytes@.len(),
    ensures
        h == header_at(bytes@, off as int),
{
    let len: usize = bytes.len();
    proof {
        assert(off + ASSET_HEADER_SIZE <= len);
    }
    AssetHeader {
        name_ptr: u64_from_le_bytes(slice_subrange(bytes, off, off + 8)),
        name_len: u64_from_le_bytes(slice_subrange(bytes, off + 8, off + 16)),
        data_ptr: u64_from_le_bytes(slice_subrange(bytes, off + 16, off + 24)),
        data_size: u64_from_le_bytes(slice_subrange(bytes, off + 24, off + 32)),
    }
}

/// Every byte is ASCII.
pub open spec fn all_ascii(s: Seq<u8>) -> bool {
    forall|i: int| 0 <= i < s.len() ==> s[i] < 128
}

/// The structural checks on a candidate's translated offsets: both ranges
/// lie inside the file, the name starts with the marker byte, and the data
/// range decompresses to completion.  The bounds are stated over unbounded
/// integers, so a length large enough to wrap 64-bit arithmetic can never
/// pass.
pub open spec fn pointers_valid(
    bytes: Seq<u8>,
    name_off: u64,
    name_len: u64,
    data_off: u64,
    data_size: u64,
) -> bool {
    &&& name_off < bytes.len()
    &&& name_off + name_len <= bytes.len()
    &&& data_off < bytes.len()
    &&& data_off + data_size <= bytes.len()
    &&& bytes[name_off as int] == NAME_MARKER
    &&& brotli_decompressed(bytes.subrange(data_off as int, data_off + data_size)) is Some
}

/// A descriptor at `off` passes every acceptance step: the record fits in
/// the file, both addresses translate, the translated ranges pass the
/// structural checks, and the name bytes are all ASCII.
pub open spec fn accepted_at(
    format: FormatTag,
    regions: Seq<SectionRegion>,
    bytes: Seq<u8>,
    off: int,
) -> bool {
    let h = header_at(bytes, off);
    let name = translate_spec(format, regions, h.name_ptr);
    let data = translate_spec(format, regions, h.data_ptr);
    &&& 0 <= off
    &&& off + ASSET_HEADER_SIZE <= bytes.len()
    &&& name is Some
    &&& data is Some
    &&& pointers_valid(bytes, name.unwrap(), h.name_len, data.unwrap(), h.data_size)
    &&& all_ascii(bytes.subrange(name.unwrap() as int, name.unwrap() + h.name_len))
}

/// The name and compressed data bytes of the descriptor accepted at `off`.
pub open spec fn asset_model_at(
    format: FormatTag,
    regions: Seq<SectionRegion>,
    bytes: Seq<u8>,
    off: int,
) -> crate::asset::AssetModel
    recommends
        accepted_at(format, regions, bytes, off),
{
    let h = header_at(bytes, off);
    let name_off = translate_spec(format, regions, h.name_ptr).unwrap();
    let data_off = translate_spec(format, regions, h.data_ptr).unwrap();
    crate::asset::AssetModel {
        name: bytes.subrange(name_off as int, name_off + h.name_len),
        data: bytes.subrange(data_off as int, data_off + h.data_size),
    }
}

/// A candidate whose translated name offset points to a byte other than
/// the marker `/` is never accepted, whatever its other fields hold.
pub proof fn lemma_name_marker_required(
    format: FormatTag,
    regions: Seq<SectionRegion>,
    bytes: Seq<u8>,
    off: int,
)
    requires
        translate_spec(format, regions, header_at(bytes, off).name_ptr) matches Some(name_off)
            && name_off < bytes.len() && bytes[name_off as int] != NAME_MARKER,
    ensures
        !accepted_at(format, regions, bytes, off),
{
}

/// A candidate whose data range does not decompress to completion is never
/// accepted, even when every bounds and name check passes.
pub proof fn lemma_decompression_oracle(
    format: FormatTag,
    regions: Seq<SectionRegion>,
    bytes: Seq<u8>,
    off: int,
)
    requires
        translate_spec(format, regions, header_at(bytes, off).data_ptr) matches Some(data_off)
            && brotli_decompressed(
            bytes.subrange(data_off as int, data_off + header_at(bytes, off).data_size),
        ) is None,
    ensures
        !accepted_at(format, regions, bytes, off),
{
}

/// A candidate whose name or data length runs past the end of the file is
/// never accepted; the bounds are compared over unbounded integers, so a
/// length chosen to wrap 64-bit arithmetic is rejected, not wrapped.
pub proof fn lemma_oversized_range_rejected(
    format: FormatTag,
    regions: Seq<SectionRegion>,
    bytes: Seq<u8>,
    off: int,
)
    requires
        ({
            let h = header_at(bytes, off);
            ||| (translate_spec(format, regions, h.name_ptr) matches Some(name_off)
                && name_off + h.name_len > bytes.len())
            ||| (translate_spec(format, regions, h.data_ptr) matches Some(data_off)
                && data_off + h.data_size > bytes.len())
        }),
    ensures
        !accepted_at(format, regions, bytes, off),
{
}

} // verus!
