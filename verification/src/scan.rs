use crate::asset::AssetModel;
use crate::descriptor::{accepted_at, asset_model_at, ASSET_HEADER_SIZE};
use crate::format::{FormatTag, SectionRegion};
use vstd::prelude::*;

verus! {

/// How far the scanner advances after an offset that yields no asset:
/// one pointer width before the first hit, one whole record after it.
pub const MISS_STEP: usize = 8;

/// The assets the scan yields from `off` up to `end`, in ascending offset
/// order.  While no descriptor has been accepted yet (`hit` false) a miss
/// advances by the pointer width; an acceptance consumes the whole record
/// and every later miss advances at record granularity, the alignment a
/// hit confirms.
pub open spec fn scan_models(
    format: FormatTag,
    regions: Seq<SectionRegion>,
    bytes: Seq<u8>,
    off: int,
    end: int,
    hit: bool,
) -> Seq<AssetModel>
    decreases end - off,
{
    if off + ASSET_HEADER_SIZE > end {
        Seq::empty()
    } else if accepted_at(format, regions, bytes, off) {
        seq![asset_model_at(format, regions, bytes, off)] + scan_models(
            format,
            regions,
            bytes,
            off + ASSET_HEADER_SIZE,
            end,
            true,
        )
    } else {
        scan_models(
            format,
            regions,
            bytes,
            off + if hit {
                ASSET_HEADER_SIZE as int
            } else {
                MISS_STEP as int
            },
            end,
            hit,
        )
    }
}

/// Two descriptors accepted back to back are both yielded, in offset
/// order: the acceptance at `x` advances the scan by exactly one record,
/// landing on `x + 32` rather than stepping past it.
pub proof fn lemma_back_to_back_descriptors(
    format: FormatTag,
    regions: Seq<SectionRegion>,
    bytes: Seq<u8>,
    x: int,
    end: int,
    hit: bool,
)
    requires
        accepted_at(format, regions, bytes, x),
        accepted_at(format, regions, bytes, x + ASSET_HEADER_SIZE),
        x + 2 * ASSET_HEADER_SIZE <= end,
    ensures
        ({
            let s = scan_models(format, regions, bytes, x, end, hit);
            &&& s.len() >= 2
            &&& s[0] == asset_model_at(format, regions, bytes, x)
            &&& s[1] == asset_model_at(format, regions, bytes, x + ASSET_HEADER_SIZE)
        }),
{
    let tail = scan_models(format, regions, bytes, x + 2 * ASSET_HEADER_SIZE, end, true);
    assert(scan_models(format, regions, bytes, x + ASSET_HEADER_SIZE, end, true) == seq![
        asset_model_at(format, regions, bytes, x + ASSET_HEADER_SIZE),
    ] + tail);
}

/// A full scan of a region whose only accepted offset is `x`, reachable
/// from the start in pointer-width steps, yields exactly that one asset.
pub proof fn lemma_isolated_descriptor_scan(
    format: FormatTag,
    regions: Seq<SectionRegion>,
    bytes: Seq<u8>,
    start: int,
    x: int,
    end: int,
)
    requires
        start <= x,
        (x - start) % (MISS_STEP as int) == 0,
        x + ASSET_HEADER_SIZE <= end,
        accepted_at(format, regions, bytes, x),
        forall|o: int| start <= o < end && o != x ==> !accepted_at(format, regions, bytes, o),
    ensures
        scan_models(format, regions, bytes, start, end, false) == seq![
            asset_model_at(format, regions, bytes, x),
        ],
    decreases x - start,
{
    if start == x {
        lemma_scan_of_barren_region_is_empty(
            format,
            regions,
            bytes,
            x + ASSET_HEADER_SIZE,
            end,
            true,
        );
        assert(scan_models(format, regions, bytes, start, end, false) =~= seq![
            asset_model_at(format, regions, bytes, x),
        ]);
    } else {
        assert(x - start >= MISS_STEP);
        lemma_isolated_descriptor_scan(format, regions, bytes, start + MISS_STEP, x, end);
    }
}

/// A full scan of a region holding two accepted descriptors back to back
/// at `x` and `x + 32`, with `x` reachable from the start in pointer-width
/// steps and every other offset rejected, yields exactly those two assets,
/// in that order: the acceptance at `x` advances the scan by one record,
/// landing on `x + 32` rather than stepping past it.
pub proof fn lemma_isolated_pair_scan(
    format: FormatTag,
    regions: Seq<SectionRegion>,
    bytes: Seq<u8>,
    start: int,
    x: int,
    end: int,
)
    requires
        start <= x,
        (x - start) % (MISS_STEP as int) == 0,
        x + 2 * ASSET_HEADER_SIZE <= end,
        accepted_at(format, regions, bytes, x),
        accepted_at(format, regions, bytes, x + ASSET_HEADER_SIZE),
        forall|o: int|
            start <= o < end && o != x && o != x + ASSET_HEADER_SIZE ==> !accepted_at(
                format,
                regions,
                bytes,
                o,
            ),
    ensures
        scan_models(format, regions, bytes, start, end, false) == seq![
            asset_model_at(format, regions, bytes, x),
            asset_model_at(format, regions, bytes, x + ASSET_HEADER_SIZE),
        ],
    decreases x - start,
{
    if start == x {
        lemma_scan_of_barren_region_is_empty(
            format,
            regions,
            bytes,
            x + 2 * ASSET_HEADER_SIZE,
            end,
            true,
        );
        assert(scan_models(format, regions, bytes, x + ASSET_HEADER_SIZE, end, true) == seq![
            asset_model_at(format, regions, bytes, x + ASSET_HEADER_SIZE),
        ] + scan_models(format, regions, bytes, x + 2 * ASSET_HEADER_SIZE, end, true));
        assert(scan_models(format, regions, bytes, start, end, false) =~= seq![
            asset_model_at(format, regions, bytes, x),
            asset_model_at(format, regions, bytes, x + ASSET_HEADER_SIZE),
        ]);
    } else {
        assert(x - start >= MISS_STEP);
        lemma_isolated_pair_scan(format, regions, bytes, start + MISS_STEP, x, end);
    }
}

/// A region in which no offset is accepted yields no assets, whatever the
/// step state.
pub proof fn lemma_scan_of_barren_region_is_empty(
    format: FormatTag,
    regions: Seq<SectionRegion>,
    bytes: Seq<u8>,
    off: int,
    end: int,
    hit: bool,
)
    requires
        forall|o: int| off <= o < end ==> !accepted_at(format, regions, bytes, o),
    ensures
        scan_models(format, regions, bytes, off, end, hit) == Seq::<AssetModel>::empty(),
    decreases end - off,
{
    if off + ASSET_HEADER_SIZE > end {
    } else {
        lemma_scan_of_barren_region_is_empty(
            format,
            regions,
            bytes,
            off + if hit {
                ASSET_HEADER_SIZE as int
            } else {
                MISS_STEP as int
            },
            end,
            hit,
        );
    }
}

} // verus!
