use asset_dumper::dumper::Dumper;
use asset_dumper::format::{FormatTag, SectionRecord};

const REGION_VA: u64 = 0x1000;

fn brotli_compress(data: &[u8]) -> Vec<u8> {
    let mut out = Vec::new();
    {
        let mut w = brotli::CompressorWriter::new(&mut out, 4096, 5, 22);
        std::io::Write::write_all(&mut w, data).unwrap();
        std::io::Write::flush(&mut w).unwrap();
    }
    out
}

fn put_u64(buf: &mut [u8], off: usize, v: u64) {
    buf[off..off + 8].copy_from_slice(&v.to_le_bytes());
}

fn pe_dumper(file_len: usize) -> Dumper {
    let record = SectionRecord {
        name: b".rdata".to_vec(),
        segment: Vec::new(),
        readonly_data: true,
        virtual_address: REGION_VA,
        file_offset: 0,
        has_file_offset: true,
        size: file_len as u64,
    };
    Dumper::new(FormatTag::Pe, vec![record], file_len as u64).unwrap()
}

/// A buffer holding a valid name at 0x100 and a valid payload at 0x200,
/// and the dumper for it.
fn arena() -> (Vec<u8>, Vec<u8>, Dumper) {
    let mut buf = vec![0u8; 0x400];
    let name: &[u8] = b"/ok.txt";
    buf[0x100..0x100 + name.len()].copy_from_slice(name);
    let payload = brotli_compress(b"content");
    buf[0x200..0x200 + payload.len()].copy_from_slice(&payload);
    let d = pe_dumper(buf.len());
    (buf, payload, d)
}

#[test]
fn well_formed_pointers_validate() {
    let (buf, payload, d) = arena();
    assert!(d.validate_asset_pointers(&buf, 0x100, 7, 0x200, payload.len() as u64));
}

#[test]
fn name_not_starting_with_slash_is_rejected() {
    let (mut buf, payload, d) = arena();
    buf[0x100] = b'x';
    assert!(!d.validate_asset_pointers(&buf, 0x100, 7, 0x200, payload.len() as u64));
}

#[test]
fn failing_decompression_is_rejected() {
    let (buf, _payload, d) = arena();
    // 0x300 onward is zero filler, not a brotli stream; bounds and the
    // name check still pass.
    assert!(!d.validate_asset_pointers(&buf, 0x100, 7, 0x300, 16));
}

#[test]
fn wrapping_lengths_are_rejected() {
    let (buf, payload, d) = arena();
    // name_off + name_len and data_off + data_size wrap 64-bit arithmetic;
    // the comparison must not wrap with them.
    assert!(!d.validate_asset_pointers(&buf, 0x100, u64::MAX - 0x20, 0x200, payload.len() as u64));
    assert!(!d.validate_asset_pointers(&buf, 0x100, 7, 0x200, u64::MAX - 0x40));
    assert!(!d.validate_asset_pointers(&buf, u64::MAX, 7, 0x200, payload.len() as u64));
}

#[test]
fn out_of_file_ranges_are_rejected() {
    let (buf, payload, d) = arena();
    let len = buf.len() as u64;
    assert!(!d.validate_asset_pointers(&buf, len, 1, 0x200, payload.len() as u64));
    assert!(!d.validate_asset_pointers(&buf, 0x100, len, 0x200, payload.len() as u64));
    assert!(!d.validate_asset_pointers(&buf, 0x100, 7, len - 4, 8));
}

#[test]
fn non_ascii_name_is_rejected_at_parse() {
    let mut buf = vec![0u8; 0x400];
    let name: &[u8] = &[b'/', b'a', 0xC3, 0xA9];
    buf[0x100..0x100 + name.len()].copy_from_slice(name);
    let payload = brotli_compress(b"content");
    buf[0x200..0x200 + payload.len()].copy_from_slice(&payload);
    put_u64(&mut buf, 0x40, REGION_VA + 0x100);
    put_u64(&mut buf, 0x48, name.len() as u64);
    put_u64(&mut buf, 0x50, REGION_VA + 0x200);
    put_u64(&mut buf, 0x58, payload.len() as u64);
    let d = pe_dumper(buf.len());
    // The pointer checks pass, the ASCII requirement on the name does not.
    assert!(d.validate_asset_pointers(&buf, 0x100, name.len() as u64, 0x200, payload.len() as u64));
    assert!(d.parse_asset(&buf, 0x40).is_none());
}

#[test]
fn untranslatable_addresses_are_rejected_at_parse() {
    let (mut buf, payload, d) = arena();
    // Both fields hold addresses outside the region's virtual range.
    put_u64(&mut buf, 0x40, 0x100);
    put_u64(&mut buf, 0x48, 7);
    put_u64(&mut buf, 0x50, REGION_VA + 0x200);
    put_u64(&mut buf, 0x58, payload.len() as u64);
    assert!(d.parse_asset(&buf, 0x40).is_none());
}

#[test]
fn parse_accepts_and_copies_the_descriptor() {
    let (mut buf, payload, d) = arena();
    put_u64(&mut buf, 0x40, REGION_VA + 0x100);
    put_u64(&mut buf, 0x48, 7);
    put_u64(&mut buf, 0x50, REGION_VA + 0x200);
    put_u64(&mut buf, 0x58, payload.len() as u64);
    let asset = d.parse_asset(&buf, 0x40).unwrap();
    assert_eq!(asset.name, b"/ok.txt".to_vec());
    assert_eq!(asset.data, payload);
    assert_eq!(asset.relative_name(), b"ok.txt");
}

#[test]
fn decompress_asset_roundtrips() {
    let (mut buf, payload, d) = arena();
    put_u64(&mut buf, 0x40, REGION_VA + 0x100);
    put_u64(&mut buf, 0x48, 7);
    put_u64(&mut buf, 0x50, REGION_VA + 0x200);
    put_u64(&mut buf, 0x58, payload.len() as u64);
    let asset = d.parse_asset(&buf, 0x40).unwrap();
    assert_ne!(asset.data, b"content".to_vec());
    assert_eq!(d.decompress_asset(&asset).unwrap(), b"content".to_vec());
}

#[test]
fn decompress_asset_fails_on_garbage() {
    let (_buf, _payload, d) = arena();
    let bogus = asset_dumper::asset::Asset {
        name: b"/bogus".to_vec(),
        data: vec![0u8; 16],
    };
    let r = d.decompress_asset(&bogus);
    assert_eq!(r.err(), Some(asset_dumper::error::Error::DecompressFailed));
}
