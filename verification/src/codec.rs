use vstd::prelude::*;

verus! {

/// What the brotli decoder makes of a byte sequence: `Some` holds the
/// fully decompressed stream, `None` means decoding does not run to
/// completion.  Decoding is a deterministic function of the input bytes
/// alone, so the result carries a name here rather than a definition.
pub uninterp spec fn brotli_decompressed(data: Seq<u8>) -> Option<Seq<u8>>;

/// Relies on brotli::Decompressor over the byte slice, read to the end:
/// the outcome depends on the input bytes alone.  The second constructor
/// argument is only an internal buffer size (the decoder substitutes 4096
/// for 0) and never changes what is decoded.
#[verifier::external_body]
pub(crate) fn decompress_to_end(data: &[u8]) -> (r: Option<Vec<u8>>)
    ensures
        r is Some <==> brotli_decompressed(data@) is Some,
        r matches Some(v) ==> Some(v@) == brotli_decompressed(data@),
{
    let mut decompressor = brotli::Decompressor::new(data, data.len());
    let mut decompressed = Vec::new();
    match std::io::Read::read_to_end(&mut decompressor, &mut decompressed) {
        Ok(_) => Some(decompressed),
        Err(_) => None,
    }
}

} // verus!
