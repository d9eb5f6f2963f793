use vstd::prelude::*;

verus! {

/// Why a scanning session could not be set up, or why the caller-visible
/// outcome of a run is a failure.  Per-candidate rejections during the scan
/// are not errors: the scanner absorbs them and moves on.
#[derive(Clone, Copy, PartialEq, Eq, Structural, Debug)]
pub enum Error {
    /// The container is not one of the two supported formats, or could not
    /// be parsed at all.
    UnsupportedFormat,
    /// No section matches the format's region selection predicate.
    RegionMissing,
    /// More than one section matches where exactly one is required.
    RegionAmbiguous,
    /// A selected region does not lie inside the mapped file.
    RegionOutOfBounds,
    /// A full scan accepted no descriptor.
    NoAssets,
    /// An accepted asset's payload failed to decompress at emission time.
    DecompressFailed,
}

impl Error {
    /// A fixed human-readable description, for callers that report errors.
    pub fn describe(&self) -> &'static str {
        match self {
            Error::UnsupportedFormat => "unsupported container format",
            Error::RegionMissing => "designated scan region not found",
            Error::RegionAmbiguous => "designated scan region is ambiguous",
            Error::RegionOutOfBounds => "scan region exceeds the mapped file",
            Error::NoAssets => "no assets found",
            Error::DecompressFailed => "asset failed to decompress",
        }
    }
}

} // verus!
