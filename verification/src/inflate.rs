//! The decompression collaborator. The decoder treats block decompression as
//! opaque: compressed bytes in, payload bytes out, or failure; everything
//! after it is verified against the payload it returned.

use vstd::prelude::*;

verus! {

/// What raw Snappy inflation yields on a given compressed block: the payload
/// bytes, or `None` when the block is malformed or truncated.
pub uninterp spec fn inflate_of(s: Seq<u8>) -> Option<Seq<u8>>;

/// Relies on `snap::raw::Decoder::decompress_vec`: raw Snappy inflation is a
/// function of the input block alone (the decoder object carries no state),
/// and it returns the inflated bytes, or an error on a malformed block.
#[verifier::external_body]
pub(crate) fn inflate(input: &[u8]) -> (r: Option<Vec<u8>>)
    ensures
        match r {
            Option::Some(v) => inflate_of(input@) == Option::Some(v@),
            Option::None => inflate_of(input@) is None,
        },
{
    snap::raw::Decoder::new().decompress_vec(input).ok()
}

} // verus!
