use vstd::prelude::*;

verus! {

/// The container format of the mapped file, detected once at session start.
///
/// Format A (`Pe`) translates addresses relative to a single designated
/// read-only data region; format B (`MachO`) masks addresses down to their
/// low 48 bits and uses them as file offsets directly.
#[derive(Clone, Copy, PartialEq, Eq, Structural, Debug)]
pub enum FormatTag {
    Pe,
    MachO,
}

/// Plain facts about one section of the container, as the inspector
/// reports them.  An absent section or segment name is the empty string; a
/// section that occupies no range of the file has `has_file_offset` false
/// and `file_offset` zero.
#[derive(Clone, PartialEq, Eq, Debug)]
pub struct SectionRecord {
    pub name: Vec<u8>,
    pub segment: Vec<u8>,
    pub readonly_data: bool,
    pub virtual_address: u64,
    pub file_offset: u64,
    pub has_file_offset: bool,
    pub size: u64,
}

/// One scannable memory region of the container: its declared virtual
/// address, its position in the file, and its length in bytes.
#[derive(Clone, Copy, PartialEq, Eq, Structural, Debug)]
pub struct SectionRegion {
    pub virtual_address: u64,
    pub file_offset: u64,
    pub size: u64,
}

/// A region lies inside a mapped file of `file_len` bytes.
pub open spec fn region_fits(r: SectionRegion, file_len: u64) -> bool {
    r.file_offset + r.size <= file_len
}

/// The name `.rdata`, as bytes.
pub open spec fn rdata_name() -> Seq<u8> {
    seq![46u8, 114u8, 100u8, 97u8, 116u8, 97u8]
}

/// The name `__const`, as bytes.
pub open spec fn const_name() -> Seq<u8> {
    seq![95u8, 95u8, 99u8, 111u8, 110u8, 115u8, 116u8]
}

/// The segment name `__TEXT`, as bytes.
pub open spec fn text_segment_name() -> Seq<u8> {
    seq![95u8, 95u8, 84u8, 69u8, 88u8, 84u8]
}

/// The segment name `__DATA_CONST`, as bytes.
pub open spec fn data_const_segment_name() -> Seq<u8> {
    seq![95u8, 95u8, 68u8, 65u8, 84u8, 65u8, 95u8, 67u8, 79u8, 78u8, 83u8, 84u8]
}

/// Format A selects the read-only data section named `.rdata`.
pub open spec fn is_pe_candidate(s: SectionRecord) -> bool {
    s.name@ == rdata_name() && s.readonly_data && s.has_file_offset
}

/// Format B selects sections named `__const` inside the `__TEXT` or
/// `__DATA_CONST` segments.
pub open spec fn is_macho_candidate(s: SectionRecord) -> bool {
    &&& s.segment@ == text_segment_name() || s.segment@ == data_const_segment_name()
    &&& s.name@ == const_name()
    &&& s.has_file_offset
}

/// The selection predicate of the given format.
pub open spec fn is_candidate(format: FormatTag, s: SectionRecord) -> bool {
    match format {
        FormatTag::Pe => is_pe_candidate(s),
        FormatTag::MachO => is_macho_candidate(s),
    }
}

/// The region a matching section describes.
pub open spec fn region_of(s: SectionRecord) -> SectionRegion {
    SectionRegion {
        virtual_address: s.virtual_address,
        file_offset: s.file_offset,
        size: s.size,
    }
}

/// The regions of all matching sections, in the inspector's order.
pub open spec fn selected_regions(format: FormatTag, rs: Seq<SectionRecord>) -> Seq<SectionRegion>
    decreases rs.len(),
{
    if rs.len() == 0 {
        Seq::empty()
    } else if is_candidate(format, rs.last()) {
        selected_regions(format, rs.drop_last()).push(region_of(rs.last()))
    } else {
        selected_regions(format, rs.drop_last())
    }
}

/// Byte-for-byte equality of two slices.
pub fn bytes_eq(a: &[u8], b: &[u8]) -> (r: bool)
    ensures
        r == (a@ == b@),
{
    if a.len() != b.len() {
        return false;
    }
    let mut i: usize = 0;
    while i < a.len()
        invariant
            i <= a@.len(),
            a@.len() == b@.len(),
            forall|j: int| 0 <= j < i ==> a@[j] == b@[j],
        decreases a@.len() - i,
    {
        if a[i] != b[i] {
            return false;
        }
        i = i + 1;
    }
    proof {
        assert(a@ =~= b@);
    }
    true
}

fn rdata_name_vec() -> (v: Vec<u8>)
    ensures
        v@ == rdata_name(),
{
    let v: Vec<u8> = vec![46u8, 114u8, 100u8, 97u8, 116u8, 97u8];
    proof {
        assert(v@ =~= rdata_name());
    }
    v
}

fn const_name_vec() -> (v: Vec<u8>)
    ensures
        v@ == const_name(),
{
    let v: Vec<u8> = vec![95u8, 95u8, 99u8, 111u8, 110u8, 115u8, 116u8];
    proof {
        assert(v@ =~= const_name());
    }
    v
}

fn text_segment_name_vec() -> (v: Vec<u8>)
    ensures
        v@ == text_segment_name(),
{
    let v: Vec<u8> = vec![95u8, 95u8, 84u8, 69u8, 88u8, 84u8];
    proof {
        assert(v@ =~= text_segment_name());
    }
    v
}

fn data_const_segment_name_vec() -> (v: Vec<u8>)
    ensures
        v@ == data_const_segment_name(),
{
    let v: Vec<u8> = vec![95u8, 95u8, 68u8, 65u8, 84u8, 65u8, 95u8, 67u8, 79u8, 78u8, 83u8, 84u8];
    proof {
        assert(v@ =~= data_const_segment_name());
    }
    v
}

/// Whether one section matches the given format's selection predicate.
pub fn check_candidate(format: FormatTag, s: &SectionRecord) -> (r: bool)
    ensures
        r == is_candidate(format, *s),
{
    match format {
        FormatTag::Pe => {
            let rdata = rdata_name_vec();
            s.readonly_data && s.has_file_offset && bytes_eq(s.name.as_slice(), rdata.as_slice())
        },
        FormatTag::MachO => {
            let cname = const_name_vec();
            let text = text_segment_name_vec();
            let dconst = data_const_segment_name_vec();
            s.has_file_offset && bytes_eq(s.name.as_slice(), cname.as_slice()) && (bytes_eq(
                s.segment.as_slice(),
                text.as_slice(),
            ) || bytes_eq(s.segment.as_slice(), dconst.as_slice()))
        },
    }
}

/// The regions of all sections matching the format's selection predicate,
/// in the order the inspector listed them.
pub fn select_regions(format: FormatTag, records: &Vec<SectionRecord>) -> (r: Vec<SectionRegion>)
    ensures
        r@ == selected_regions(format, records@),
{
    let mut r: Vec<SectionRegion> = Vec::new();
    let mut i: usize = 0;
    while i < records.len()
        invariant
            i <= records@.len(),
            r@ == selected_regions(format, records@.take(i as int)),
        decreases records@.len() - i,
    {
        proof {
            assert(records@.take(i + 1).drop_last() =~= records@.take(i as int));
            assert(records@.take(i + 1).last() == records@[i as int]);
        }
        if check_candidate(format, &records[i]) {
            r.push(SectionRegion {
                virtual_address: records[i].virtual_address,
                file_offset: records[i].file_offset,
                size: records[i].size,
            });
        }
        i = i + 1;
    }
    proof {
        assert(records@.take(records@.len() as int) =~= records@);
    }
    r
}

} // verus!
