use crate::asset::{Asset, AssetModel};
use crate::codec::{brotli_decompressed, decompress_to_end};
use crate::descriptor::{
    accepted_at, all_ascii, asset_model_at, pointers_valid, read_header, ASSET_HEADER_SIZE,
    NAME_MARKER,
};
use crate::error::Error;
use crate::format::{
    region_fits, select_regions, selected_regions, FormatTag, SectionRecord, SectionRegion,
};
use crate::inspect::{detect_format, format_of, list_sections, sections_of};
use crate::scan::{scan_models, MISS_STEP};
use crate::translate::{translate_spec, ADDRESS_MASK};
use vstd::prelude::*;
use vstd::slice::{slice_subrange, slice_to_vec};

verus! {

/// The views of a sequence of assets.
pub open spec fn models_of(assets: Seq<Asset>) -> Seq<AssetModel> {
    assets.map_values(|a: Asset| a@)
}

/// Why a session cannot be built from the given records, if it cannot:
/// no matching section, an ambiguous match where format A requires exactly
/// one, or a selected region that runs past the end of the file.
pub open spec fn setup_error(
    format: FormatTag,
    records: Seq<SectionRecord>,
    file_len: u64,
) -> Option<Error> {
    let sel = selected_regions(format, records);
    if sel.len() == 0 {
        Some(Error::RegionMissing)
    } else if format is Pe && sel.len() > 1 {
        Some(Error::RegionAmbiguous)
    } else if exists|i: int| 0 <= i < sel.len() && !region_fits(sel[i], file_len) {
        Some(Error::RegionOutOfBounds)
    } else {
        None
    }
}

/// One scanning session: the detected container format, the selected
/// regions, and the length of the mapped file the regions were checked
/// against.  The file bytes themselves are handed to each method, so the
/// session never holds the mapped view.
pub struct Dumper {
    pub format: FormatTag,
    pub sections: Vec<SectionRegion>,
    pub file_len: u64,
}

impl Dumper {
    /// A well-formed session: at least one region (exactly one for format
    /// A), every region inside the mapped file.
    pub open spec fn wf(self) -> bool {
        &&& self.sections@.len() >= 1
        &&& self.format is Pe ==> self.sections@.len() == 1
        &&& forall|i: int|
            0 <= i < self.sections@.len() ==> region_fits(self.sections@[i], self.file_len)
    }

    /// The region the scanner walks: the single region for format A, the
    /// last matching region for format B.
    pub open spec fn scan_region(self) -> SectionRegion {
        match self.format {
            FormatTag::Pe => self.sections@[0],
            FormatTag::MachO => self.sections@.last(),
        }
    }

    /// The assets a full scan of this session's region yields.
    pub open spec fn scan_result(self, bytes: Seq<u8>) -> Seq<AssetModel> {
        scan_models(
            self.format,
            self.sections@,
            bytes,
            self.scan_region().file_offset as int,
            self.scan_region().file_offset + self.scan_region().size,
            false,
        )
    }

    /// Builds a session from the inspector's section records.  Fails
    /// exactly when no section matches the format's selection predicate,
    /// when format A matches more than one, or when a selected region
    /// runs past the end of the mapped file.
    #[verifier::loop_isolation(false)]
    pub fn new(format: FormatTag, records: Vec<SectionRecord>, file_len: u64) -> (r: Result<
        Dumper,
        Error,
    >)
        ensures
            r is Ok <==> setup_error(format, records@, file_len) is None,
            r matches Ok(d) ==> {
                &&& d.format == format
                &&& d.file_len == file_len
                &&& d.sections@ == selected_regions(format, records@)
                &&& d.wf()
            },
            r matches Err(e) ==> Some(e) == setup_error(format, records@, file_len),
    {
        let sections = select_regions(format, &records);
        if sections.len() == 0 {
            return Err(Error::RegionMissing);
        }
        if format == FormatTag::Pe && sections.len() > 1 {
            return Err(Error::RegionAmbiguous);
        }
        let mut i: usize = 0;
        while i < sections.len()
            invariant
                i <= sections@.len(),
                forall|j: int| 0 <= j < i ==> region_fits(sections@[j], file_len),
            decreases sections@.len() - i,
        {
            let s = &sections[i];
            if s.file_offset > file_len || s.size > file_len - s.file_offset {
                return Err(Error::RegionOutOfBounds);
            }
            i = i + 1;
        }
        Ok(Dumper { format, sections, file_len })
    }

    /// Builds a session straight from the mapped file bytes, using the
    /// container inspector to detect the format and list the sections.
    /// Succeeds exactly when the bytes parse as one of the two supported
    /// formats and the listed sections pass `Dumper::new`'s checks; an
    /// unparseable or unsupported container is the format error, and any
    /// other failure is `setup_error`'s answer for the listed sections.
    pub fn from_bytes(bytes: &[u8]) -> (r: Result<Dumper, Error>)
        ensures
            ({
                let fo = format_of(bytes@);
                let so = sections_of(bytes@);
                match r {
                    Ok(d) => {
                        &&& fo is Some
                        &&& so is Some
                        &&& setup_error(fo.unwrap(), so.unwrap(), bytes@.len() as u64) is None
                        &&& d.format == fo.unwrap()
                        &&& d.file_len == bytes@.len()
                        &&& d.sections@ == selected_regions(fo.unwrap(), so.unwrap())
                        &&& d.wf()
                    },
                    Err(e) => {
                        if fo is None || so is None {
                            e == Error::UnsupportedFormat
                        } else {
                            Some(e) == setup_error(fo.unwrap(), so.unwrap(), bytes@.len() as u64)
                        }
                    },
                }
            }),
    {
        let format = match detect_format(bytes) {
            Some(f) => f,
            None => {
                return Err(Error::UnsupportedFormat);
            },
        };
        let records = match list_sections(bytes) {
            Some(rs) => rs,
            None => {
                return Err(Error::UnsupportedFormat);
            },
        };
        let file_len: usize = bytes.len();
        Dumper::new(format, records, file_len as u64)
    }

    /// Translates a descriptor's virtual address to a file offset.
    ///
    /// Format A: succeeds exactly on addresses inside the designated
    /// region, yielding `file_offset + (rva - virtual_address)`; every
    /// address outside the region fails.  Format B: always succeeds,
    /// discarding the high 16 bits and keeping `rva & 0xFFFF_FFFF_FFFF`.
    pub fn convert_rva_to_file_offset(&self, rva: u64) -> (r: Option<u64>)
        requires
            self.wf(),
        ensures
            r == translate_spec(self.format, self.sections@, rva),
            self.format is Pe ==> ((r is Some <==> self.sections@[0].virtual_address <= rva
                < self.sections@[0].virtual_address + self.sections@[0].size) && (r matches Some(o)
                ==> o == self.sections@[0].file_offset + (rva
                - self.sections@[0].virtual_address))),
            self.format is MachO ==> r == Some(rva & ADDRESS_MASK),
    {
        match self.format {
            FormatTag::Pe => {
                let s = &self.sections[0];
                if rva >= s.virtual_address && rva - s.virtual_address < s.size {
                    Some(rva - s.virtual_address + s.file_offset)
                } else {
                    None
                }
            },
            FormatTag::MachO => Some(rva & ADDRESS_MASK),
        }
    }

    /// The structural validity checks on a candidate's translated offsets:
    /// both ranges inside the file (compared without wraparound), the name
    /// starting with `/`, and the data range decompressing to completion.
    pub fn validate_asset_pointers(
        &self,
        bytes: &[u8],
        name_ptr: u64,
        name_len: u64,
        data_ptr: u64,
        data_size: u64,
    ) -> (r: bool)
        ensures
            r == pointers_valid(bytes@, name_ptr, name_len, data_ptr, data_size),
    {
        let n: usize = bytes.len();
        let file_len: u64 = n as u64;
        if name_ptr >= file_len || name_len > file_len - name_ptr || data_ptr >= file_len
            || data_size > file_len - data_ptr {
            return false;
        }
        if bytes[name_ptr as usize] != NAME_MARKER {
            return false;
        }
        let data = slice_subrange(bytes, data_ptr as usize, (data_ptr + data_size) as usize);
        match decompress_to_end(data) {
            Some(_) => true,
            None => false,
        }
    }

    /// Copies the name bytes out of the mapped view, requiring every one
    /// of them to be ASCII.
    pub fn retrieve_asset_name(&self, bytes: &[u8], offset: usize, len: usize) -> (r: Option<
        Vec<u8>,
    >)
        requires
            offset + len <= bytes@.len(),
        ensures
            r is Some <==> all_ascii(bytes@.subrange(offset as int, offset + len)),
            r matches Some(v) ==> v@ == bytes@.subrange(offset as int, offset + len),
    {
        let n: usize = bytes.len();
        proof {
            assert(offset + len <= n);
        }
        let name = slice_to_vec(slice_subrange(bytes, offset, offset + len));
        let mut i: usize = 0;
        while i < name.len()
            invariant
                name@ == bytes@.subrange(offset as int, offset + len),
                i <= name@.len(),
                forall|j: int| 0 <= j < i ==> name@[j] < 128,
            decreases name@.len() - i,
        {
            if name[i] >= 128 {
                return None;
            }
            i = i + 1;
        }
        Some(name)
    }

    /// Copies the compressed data bytes out of the mapped view.
    pub fn retrieve_asset_data(&self, bytes: &[u8], offset: usize, len: usize) -> (r: Vec<u8>)
        requires
            offset + len <= bytes@.len(),
        ensures
            r@ == bytes@.subrange(offset as int, offset + len),
    {
        let n: usize = bytes.len();
        proof {
            assert(offset + len <= n);
        }
        slice_to_vec(slice_subrange(bytes, offset, offset + len))
    }

    /// Decides whether the record at `offset` is a genuine descriptor,
    /// and if so hands back its asset: name and compressed data, copied
    /// out of the view.  `None` exactly when any acceptance step fails; a
    /// rejection is soft and local, and the scanner simply moves on.
    pub fn parse_asset(&self, bytes: &[u8], offset: usize) -> (r: Option<Asset>)
        requires
            self.wf(),
        ensures
            r is Some <==> accepted_at(self.format, self.sections@, bytes@, offset as int),
            r matches Some(a) ==> a@ == asset_model_at(
                self.format,
                self.sections@,
                bytes@,
                offset as int,
            ),
    {
        let n: usize = bytes.len();
        if n < ASSET_HEADER_SIZE || offset > n - ASSET_HEADER_SIZE {
            return None;
        }
        let header = read_header(bytes, offset);
        let name_off = match self.convert_rva_to_file_offset(header.name_ptr) {
            Some(o) => o,
            None => {
                return None;
            },
        };
        let data_off = match self.convert_rva_to_file_offset(header.data_ptr) {
            Some(o) => o,
            None => {
                return None;
            },
        };
        if !self.validate_asset_pointers(bytes, name_off, header.name_len, data_off,
        header.data_size) {
            return None;
        }
        let name = match self.retrieve_asset_name(
            bytes,
            name_off as usize,
            header.name_len as usize,
        ) {
            Some(v) => v,
            None => {
                return None;
            },
        };
        let data = self.retrieve_asset_data(bytes, data_off as usize, header.data_size as usize);
        Some(Asset { name, data })
    }

    /// Walks the scan region from its start, trying a descriptor at each
    /// offset while a whole record still fits.  A miss advances by the
    /// pointer width until the first acceptance confirms the table's
    /// alignment; from then on the scanner advances a whole record at a
    /// time, hit or miss.  Accepted assets come back in ascending offset
    /// order.  The scan bounds were checked against the file length when
    /// the session was built, so a full scan of the same mapped view
    /// always runs to completion.
    #[verifier::loop_isolation(false)]
    pub fn heuristic_search_assets(&self, bytes: &[u8]) -> (r: Vec<Asset>)
        requires
            self.wf(),
            bytes@.len() == self.file_len,
        ensures
            models_of(r@) == self.scan_result(bytes@),
    {
        let n: usize = bytes.len();
        let region: SectionRegion = match self.format {
            FormatTag::Pe => self.sections[0],
            FormatTag::MachO => self.sections[self.sections.len() - 1],
        };
        proof {
            assert(region == self.scan_region());
            assert(region_fits(region, self.file_len));
        }
        let scan_start: usize = region.file_offset as usize;
        let scan_length: usize = region.size as usize;
        let end_offset: usize = scan_start + scan_length;
        let mut assets: Vec<Asset> = Vec::new();
        let mut offset: usize = scan_start;
        let mut scan_step: usize = MISS_STEP;
        let ghost mut hit: bool = false;
        while end_offset - offset >= ASSET_HEADER_SIZE
            invariant
                offset <= end_offset,
                scan_step == (if hit {
                    ASSET_HEADER_SIZE
                } else {
                    MISS_STEP
                }),
                models_of(assets@) + scan_models(
                    self.format,
                    self.sections@,
                    bytes@,
                    offset as int,
                    end_offset as int,
                    hit,
                ) == scan_models(
                    self.format,
                    self.sections@,
                    bytes@,
                    scan_start as int,
                    end_offset as int,
                    false,
                ),
            decreases end_offset - offset,
        {
            let ghost pre = assets@;
            let ghost old_hit = hit;
            match self.parse_asset(bytes, offset) {
                Some(asset) => {
                    let ghost m = asset@;
                    assets.push(asset);
                    scan_step = ASSET_HEADER_SIZE;
                    proof {
                        hit = true;
                        assert(scan_models(
                            self.format,
                            self.sections@,
                            bytes@,
                            offset as int,
                            end_offset as int,
                            old_hit,
                        ) == seq![m] + scan_models(
                            self.format,
                            self.sections@,
                            bytes@,
                            offset + ASSET_HEADER_SIZE,
                            end_offset as int,
                            true,
                        ));
                        assert(models_of(assets@) =~= models_of(pre).push(m));
                        assert(models_of(pre).push(m) + scan_models(
                            self.format,
                            self.sections@,
                            bytes@,
                            offset + ASSET_HEADER_SIZE,
                            end_offset as int,
                            true,
                        ) =~= models_of(pre) + (seq![m] + scan_models(
                            self.format,
                            self.sections@,
                            bytes@,
                            offset + ASSET_HEADER_SIZE,
                            end_offset as int,
                            true,
                        )));
                    }
                },
                None => {
                    proof {
                        assert(scan_models(
                            self.format,
                            self.sections@,
                            bytes@,
                            offset as int,
                            end_offset as int,
                            hit,
                        ) == scan_models(
                            self.format,
                            self.sections@,
                            bytes@,
                            offset + scan_step,
                            end_offset as int,
                            hit,
                        ));
                    }
                },
            }
            offset = offset + scan_step;
        }
        proof {
            assert(scan_models(
                self.format,
                self.sections@,
                bytes@,
                offset as int,
                end_offset as int,
                hit,
            ) == Seq::<AssetModel>::empty());
            assert(models_of(assets@) + Seq::<AssetModel>::empty() =~= models_of(assets@));
            assert(end_offset as int == self.scan_region().file_offset
                + self.scan_region().size);
        }
        assets
    }

    /// Runs the accepted asset's compressed bytes through the decoder a
    /// second time, independently of the validation-time attempt, to
    /// produce the final content.  Fails, with a hard per-asset error,
    /// exactly when the bytes do not decompress to completion.
    pub fn decompress_asset(&self, asset: &Asset) -> (r: Result<Vec<u8>, Error>)
        ensures
            r is Ok <==> brotli_decompressed(asset.data@) is Some,
            r matches Ok(v) ==> Some(v@) == brotli_decompressed(asset.data@),
            r matches Err(e) ==> e == Error::DecompressFailed,
    {
        match decompress_to_end(asset.data.as_slice()) {
            Some(v) => Ok(v),
            None => Err(Error::DecompressFailed),
        }
    }
}

} // verus!
