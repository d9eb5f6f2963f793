use crate::format::{FormatTag, SectionRecord};
use object::{Object, ObjectSection, SectionKind};
use vstd::prelude::*;

verus! {

/// The supported format tag the container parser reads from the bytes:
/// `None` when the bytes do not parse as a container, or parse as a
/// format other than the two supported ones.  Parsing is a deterministic
/// function of the bytes alone, so the result carries a name here.
pub uninterp spec fn format_of(bytes: Seq<u8>) -> Option<FormatTag>;

/// The section records the container parser reads from the bytes, in its
/// listing order: `None` when the bytes do not parse as a container.
/// Also a deterministic function of the bytes alone.
pub uninterp spec fn sections_of(bytes: Seq<u8>) -> Option<Seq<SectionRecord>>;

/// Relies on object::File::parse and File::format: the container's format
/// tag, read from the file header.  `None` for a container that does not
/// parse, or for any format other than the two supported ones.
#[verifier::external_body]
pub fn detect_format(bytes: &[u8]) -> (r: Option<FormatTag>)
    ensures
        r == format_of(bytes@),
{
    let obj = match object::File::parse(bytes) {
        Ok(o) => o,
        Err(_) => return None,
    };
    match obj.format() {
        object::BinaryFormat::Pe => Some(FormatTag::Pe),
        object::BinaryFormat::MachO => Some(FormatTag::MachO),
        _ => None,
    }
}

/// Relies on object::File::parse and the ObjectSection accessors: each
/// section's name, segment name, kind, address, file range and size are
/// copied out as plain values, one record per section, in the order the
/// parser lists them.  A missing name or segment name becomes the empty
/// string; a section without a file range gets `has_file_offset` false.
#[verifier::external_body]
pub fn list_sections(bytes: &[u8]) -> (r: Option<Vec<SectionRecord>>)
    ensures
        r is Some <==> sections_of(bytes@) is Some,
        r matches Some(v) ==> Some(v@) == sections_of(bytes@),
{
    let obj = object::File::parse(bytes).ok()?;
    let mut records: Vec<SectionRecord> = Vec::new();
    for s in obj.sections() {
        let range = s.file_range();
        records.push(SectionRecord {
            name: s.name().map_or(Vec::new(), |n| n.as_bytes().to_vec()),
            segment: s.segment_name().ok().flatten().map_or(Vec::new(), |n| n.as_bytes().to_vec()),
            readonly_data: matches!(s.kind(), SectionKind::ReadOnlyData),
            virtual_address: s.address(),
            file_offset: range.map_or(0, |t| t.0),
            has_file_offset: range.is_some(),
            size: s.size(),
        });
    }
    Some(records)
}

} // verus!
