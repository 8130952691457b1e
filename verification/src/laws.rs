//! Laws of the decoder, stated and proved once over the format model of
//! [`crate::format`]. The executable decoder's contracts pin its results to
//! that model, so these laws carry over to every call of it.

use vstd::prelude::*;

use crate::format::{
    dec_circuit, dec_component, dec_components, dec_header, dec_path, dec_program_list,
    dec_segments, dec_u64_list, dec_wires, point_at, spec_parse, u16_at, FORMAT_VERSION,
    TELEPORT_MARKER,
};
use crate::kinds::COMPONENT_KIND_COUNT;
use crate::types::{CircuitView, ComponentView, DecodeError, Point, TagKind};

verus! {

/// Decoding is a pure function of the file bytes: identical bytes in give the
/// identical outcome out, decoded circuit and error alike.
pub proof fn lemma_parse_deterministic(a: Seq<u8>, b: Seq<u8>)
    requires
        a == b,
    ensures
        spec_parse(a) == spec_parse(b),
{
}

/// On a payload that decodes, the bytes consumed by the decode stages —
/// header, component array, wire array — sum to exactly the payload length:
/// no overrun and nothing left over.
pub proof fn lemma_decode_consumes_whole_payload(s: Seq<u8>)
    requires
        dec_circuit(s) is Ok,
    ensures
        dec_header(s, 0) is Ok,
        ({
            let (h, i1) = dec_header(s, 0).unwrap();
            dec_components(s, i1) is Ok && {
                let (cs, i2) = dec_components(s, i1).unwrap();
                dec_wires(s, i2) is Ok && {
                    let (ws, i3) = dec_wires(s, i2).unwrap();
                    (i1 - 0) + (i2 - i1) + (i3 - i2) == s.len()
                }
            }
        }),
{
}

/// A dependency list with a zero count decodes to the empty sequence and
/// consumes nothing past its count.
pub proof fn lemma_empty_u64_list(s: Seq<u8>, i: int)
    ensures
        dec_u64_list(s, i, 0) == Ok::<(Seq<u64>, int), DecodeError>((Seq::<u64>::empty(), i)),
{
}

/// A program-slot list with a zero count decodes to the empty mapping and
/// consumes nothing past its count.
pub proof fn lemma_empty_program_list(s: Seq<u8>, i: int)
    ensures
        dec_program_list(s, i, 0) == Ok::<(Seq<(u64, Seq<char>)>, int), DecodeError>(
            (Seq::<(u64, Seq<char>)>::empty(), i),
        ),
{
}

/// A segment byte equal to the teleport marker always contributes exactly one
/// more vertex, read as an absolute point, and ends the path there — whatever
/// bytes follow the target point.
pub proof fn lemma_teleport_segment(s: Seq<u8>, i: int, cur: Point)
    requires
        0 <= i < s.len(),
        s[i] == TELEPORT_MARKER,
        i + 5 <= s.len(),
    ensures
        dec_segments(s, i, cur) == Ok::<(Seq<Point>, int), DecodeError>(
            (seq![point_at(s, i + 1)], i + 5),
        ),
{
}

/// A wire path whose first segment byte is the teleport marker always decodes
/// to a two-point path: the start vertex and the absolute target.
pub proof fn lemma_teleport_two_point_path(s: Seq<u8>, i: int)
    requires
        0 <= i,
        i + 9 <= s.len(),
        s[i + 4] == TELEPORT_MARKER,
    ensures
        dec_path(s, i) == Ok::<(Seq<Point>, int), DecodeError>(
            (seq![point_at(s, i), point_at(s, i + 5)], i + 9),
        ),
{
    assert(seq![point_at(s, i)] + seq![point_at(s, i + 5)] =~= seq![
        point_at(s, i),
        point_at(s, i + 5),
    ]);
}

/// A component tag at or above the size of the closed table is rejected as an
/// unknown tag, never silently defaulted to any kind.
pub proof fn lemma_unknown_component_tag_rejected(s: Seq<u8>, i: int)
    requires
        0 <= i,
        i + 2 <= s.len(),
        u16_at(s, i) >= COMPONENT_KIND_COUNT,
    ensures
        dec_component(s, i) == Err::<(ComponentView, int), DecodeError>(
            DecodeError::UnknownEnumTag(TagKind::ComponentKind, u16_at(s, i) as u64),
        ),
{
}

/// A file whose first byte is not the supported version is rejected as
/// unsupported, whatever decompressing its remainder would give.
pub proof fn lemma_wrong_version_rejected(file: Seq<u8>)
    requires
        file.len() > 0,
        file[0] != FORMAT_VERSION,
    ensures
        spec_parse(file) == Err::<CircuitView, DecodeError>(
            DecodeError::UnsupportedVersion(file[0]),
        ),
{
}

} // verus!
