use vstd::prelude::*;
use vstd::slice::slice_subrange;

verus! {

/// What an asset is mathematically: its name bytes and its raw compressed
/// data bytes, both copied out of the mapped view.
pub ghost struct AssetModel {
    pub name: Seq<u8>,
    pub data: Seq<u8>,
}

/// One validated asset: a short ASCII name beginning with `/`, and the raw
/// compressed bytes of its payload.  Never mutated after creation;
/// decompression produces a new buffer.
#[derive(Clone, Debug)]
pub struct Asset {
    pub name: Vec<u8>,
    pub data: Vec<u8>,
}

impl View for Asset {
    type V = AssetModel;

    open spec fn view(&self) -> AssetModel {
        AssetModel { name: self.name@, data: self.data@ }
    }
}

impl Asset {
    /// The name with its single leading path separator stripped: the
    /// path, relative to a destination directory, at which the asset is
    /// written out.
    pub fn relative_name(&self) -> (r: &[u8])
        requires
            self.name@.len() >= 1,
        ensures
            r@ == self.name@.subrange(1, self.name@.len() as int),
    {
        slice_subrange(self.name.as_slice(), 1, self.name.len())
    }
}

} // verus!
