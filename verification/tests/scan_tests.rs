use asset_dumper::dumper::Dumper;
use asset_dumper::error::Error;
use asset_dumper::format::{FormatTag, SectionRecord};

const REGION_VA: u64 = 0x1000;

fn brotli_compress(data: &[u8]) -> Vec<u8> {
    let mut out = Vec::new();
    {
        let mut w = brotli::CompressorWriter::new(&mut out, 4096, 5, 22);
        std::io::Write::write_all(&mut w, data).unwrap();
        std::io::Write::flush(&mut w).unwrap();
    }
    out
}

fn put_u64(buf: &mut [u8], off: usize, v: u64) {
    buf[off..off + 8].copy_from_slice(&v.to_le_bytes());
}

/// Fills `buf` with deterministic noise that contains no `/` byte.
fn fill_noise(buf: &mut [u8]) {
    let mut state: u32 = 0x1234_5678;
    for b in buf.iter_mut() {
        state = state.wrapping_mul(1664525).wrapping_add(1013904223);
        let mut v = (state >> 24) as u8;
        if v == b'/' {
            v = b'#';
        }
        *b = v;
    }
}

/// A one-region format A layout covering the whole buffer: virtual address
/// `REGION_VA + k` maps to file offset `k`.
fn pe_dumper(file_len: usize) -> Dumper {
    let record = SectionRecord {
        name: b".rdata".to_vec(),
        segment: Vec::new(),
        readonly_data: true,
        virtual_address: REGION_VA,
        file_offset: 0,
        has_file_offset: true,
        size: file_len as u64,
    };
    Dumper::new(FormatTag::Pe, vec![record], file_len as u64).unwrap()
}

/// Writes a descriptor at `desc_off` pointing at `name` placed at
/// `name_off` and at `payload` placed at `data_off`.
fn plant(
    buf: &mut [u8],
    desc_off: usize,
    name: &[u8],
    name_off: usize,
    payload: &[u8],
    data_off: usize,
) {
    buf[name_off..name_off + name.len()].copy_from_slice(name);
    buf[data_off..data_off + payload.len()].copy_from_slice(payload);
    put_u64(buf, desc_off, REGION_VA + name_off as u64);
    put_u64(buf, desc_off + 8, name.len() as u64);
    put_u64(buf, desc_off + 16, REGION_VA + data_off as u64);
    put_u64(buf, desc_off + 24, payload.len() as u64);
}

#[test]
fn single_descriptor_in_noise_yields_one_asset() {
    let mut buf = vec![0u8; 0x800];
    fill_noise(&mut buf);
    let payload = brotli_compress(b"hello");
    plant(&mut buf, 0x240, b"/foo.txt", 0x500, &payload, 0x600);
    let d = pe_dumper(buf.len());
    let assets = d.heuristic_search_assets(&buf);
    assert_eq!(assets.len(), 1);
    assert_eq!(assets[0].name, b"/foo.txt".to_vec());
    assert_eq!(assets[0].data, payload);
}

#[test]
fn back_to_back_descriptors_are_both_found() {
    // Two descriptors at X and X + 32: after the first acceptance the scan
    // advances by the record size, landing exactly on the second.
    let mut buf = vec![0u8; 0x800];
    fill_noise(&mut buf);
    let payload_a = brotli_compress(b"first payload");
    let payload_b = brotli_compress(b"second payload");
    plant(&mut buf, 0x100, b"/a.bin", 0x400, &payload_a, 0x500);
    plant(&mut buf, 0x120, b"/b.bin", 0x440, &payload_b, 0x600);
    let d = pe_dumper(buf.len());
    let assets = d.heuristic_search_assets(&buf);
    assert_eq!(assets.len(), 2);
    assert_eq!(assets[0].name, b"/a.bin".to_vec());
    assert_eq!(assets[1].name, b"/b.bin".to_vec());
}

#[test]
fn post_hit_misses_advance_at_record_granularity() {
    // Once a hit has confirmed the table's alignment, a miss advances by a
    // whole record, not by the pointer width: a descriptor planted at
    // X + 40, reachable only at byte granularity, is passed over.
    let mut buf = vec![0u8; 0x800];
    fill_noise(&mut buf);
    let payload = brotli_compress(b"payload");
    plant(&mut buf, 0x100, b"/hit.bin", 0x400, &payload, 0x500);
    plant(&mut buf, 0x128, b"/odd.bin", 0x440, &payload, 0x500);
    let d = pe_dumper(buf.len());
    let assets = d.heuristic_search_assets(&buf);
    assert_eq!(assets.len(), 1);
    assert_eq!(assets[0].name, b"/hit.bin".to_vec());
}

#[test]
fn zero_descriptor_region_yields_no_assets() {
    let mut buf = vec![0u8; 0x400];
    fill_noise(&mut buf);
    let d = pe_dumper(buf.len());
    let assets = d.heuristic_search_assets(&buf);
    assert!(assets.is_empty());
    // The caller surfaces an empty result as the zero-results error.
    assert_eq!(Error::NoAssets.describe(), "no assets found");
}

#[test]
fn duplicate_descriptors_are_not_deduplicated() {
    let mut buf = vec![0u8; 0x800];
    fill_noise(&mut buf);
    let payload = brotli_compress(b"same");
    plant(&mut buf, 0x80, b"/dup.txt", 0x400, &payload, 0x500);
    plant(&mut buf, 0x180, b"/dup.txt", 0x400, &payload, 0x500);
    let d = pe_dumper(buf.len());
    let assets = d.heuristic_search_assets(&buf);
    assert_eq!(assets.len(), 2);
    assert_eq!(assets[0].name, assets[1].name);
}

#[test]
fn macho_scan_translates_through_the_mask() {
    // Format B: descriptor pointers carry tag bits in the high 16 bits;
    // the masked value is the file offset itself.
    let mut buf = vec![0u8; 0x800];
    fill_noise(&mut buf);
    let payload = brotli_compress(b"macho data");
    let name: &[u8] = b"/m.bin";
    buf[0x400..0x400 + name.len()].copy_from_slice(name);
    buf[0x500..0x500 + payload.len()].copy_from_slice(&payload);
    put_u64(&mut buf, 0x40, 0xABCD_0000_0000_0400);
    put_u64(&mut buf, 0x48, name.len() as u64);
    put_u64(&mut buf, 0x50, 0xFFFF_0000_0000_0500);
    put_u64(&mut buf, 0x58, payload.len() as u64);
    let record = SectionRecord {
        name: b"__const".to_vec(),
        segment: b"__DATA_CONST".to_vec(),
        readonly_data: false,
        virtual_address: 0,
        file_offset: 0,
        has_file_offset: true,
        size: buf.len() as u64,
    };
    let d = Dumper::new(FormatTag::MachO, vec![record], buf.len() as u64).unwrap();
    let assets = d.heuristic_search_assets(&buf);
    assert_eq!(assets.len(), 1);
    assert_eq!(assets[0].name, b"/m.bin".to_vec());
    assert_eq!(d.decompress_asset(&assets[0]).unwrap(), b"macho data".to_vec());
}
