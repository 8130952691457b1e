//! The byte-level format, stated as spec functions. Each `dec_*` function
//! takes the payload and an offset and yields the decoded value together with
//! the offset just past it, or the error the decoder must report. These
//! functions are the contract the executable decoder is proved against.

use vstd::prelude::*;

use vstd::utf8::{decode_utf8, valid_utf8};

use crate::inflate::inflate_of;
use crate::kinds::{kind_of_tag, ComponentKind, COMPONENT_KIND_COUNT};
use crate::types::{
    ComponentView, DecodeError, HeaderView, Point, SyncState, TagKind, WireKind, WireView,
};

verus! {

/// The only format version byte this decoder accepts.
pub const FORMAT_VERSION: u8 = 6;

/// The segment byte that switches a wire path to an absolute target point.
pub const TELEPORT_MARKER: u8 = 32;

/// Little-endian value of the two bytes at `i`.
pub open spec fn u16_at(s: Seq<u8>, i: int) -> u16
    recommends
        0 <= i,
        i + 2 <= s.len(),
{
    (s[i] + 0x100 * s[i + 1]) as u16
}

/// Little-endian value of the four bytes at `i`.
pub open spec fn u32_at(s: Seq<u8>, i: int) -> u32
    recommends
        0 <= i,
        i + 4 <= s.len(),
{
    (s[i] + 0x100 * s[i + 1] + 0x1_0000 * s[i + 2] + 0x100_0000 * s[i + 3]) as u32
}

/// Little-endian value of the eight bytes at `i`.
pub open spec fn u64_at(s: Seq<u8>, i: int) -> u64
    recommends
        0 <= i,
        i + 8 <= s.len(),
{
    (s[i] + 0x100 * s[i + 1] + 0x1_0000 * s[i + 2] + 0x100_0000 * s[i + 3] + 0x1_0000_0000 * s[i
        + 4] + 0x100_0000_0000 * s[i + 5] + 0x1_0000_0000_0000 * s[i + 6] + 0x100_0000_0000_0000
        * s[i + 7]) as u64
}

/// Two's-complement signed value of the two little-endian bytes at `i`.
pub open spec fn i16_at(s: Seq<u8>, i: int) -> i16
    recommends
        0 <= i,
        i + 2 <= s.len(),
{
    let v = s[i] + 0x100 * s[i + 1];
    if v < 0x8000 {
        v as i16
    } else {
        (v - 0x1_0000) as i16
    }
}

/// The point stored as x then y at `i`.
pub open spec fn point_at(s: Seq<u8>, i: int) -> Point
    recommends
        0 <= i,
        i + 4 <= s.len(),
{
    Point { x: i16_at(s, i), y: i16_at(s, i + 2) }
}

pub open spec fn dec_u8(s: Seq<u8>, i: int) -> Result<(u8, int), DecodeError> {
    if 0 <= i && i + 1 <= s.len() {
        Ok((s[i], i + 1))
    } else {
        Err(DecodeError::TruncatedInput)
    }
}

pub open spec fn dec_u16(s: Seq<u8>, i: int) -> Result<(u16, int), DecodeError> {
    if 0 <= i && i + 2 <= s.len() {
        Ok((u16_at(s, i), i + 2))
    } else {
        Err(DecodeError::TruncatedInput)
    }
}

pub open spec fn dec_u32(s: Seq<u8>, i: int) -> Result<(u32, int), DecodeError> {
    if 0 <= i && i + 4 <= s.len() {
        Ok((u32_at(s, i), i + 4))
    } else {
        Err(DecodeError::TruncatedInput)
    }
}

pub open spec fn dec_u64(s: Seq<u8>, i: int) -> Result<(u64, int), DecodeError> {
    if 0 <= i && i + 8 <= s.len() {
        Ok((u64_at(s, i), i + 8))
    } else {
        Err(DecodeError::TruncatedInput)
    }
}

pub open spec fn dec_i16(s: Seq<u8>, i: int) -> Result<(i16, int), DecodeError> {
    if 0 <= i && i + 2 <= s.len() {
        Ok((i16_at(s, i), i + 2))
    } else {
        Err(DecodeError::TruncatedInput)
    }
}

/// A boolean is one byte; any non-zero value is true.
pub open spec fn dec_bool(s: Seq<u8>, i: int) -> Result<(bool, int), DecodeError> {
    if 0 <= i && i + 1 <= s.len() {
        Ok((s[i] != 0, i + 1))
    } else {
        Err(DecodeError::TruncatedInput)
    }
}

pub open spec fn dec_point(s: Seq<u8>, i: int) -> Result<(Point, int), DecodeError> {
    if 0 <= i && i + 4 <= s.len() {
        Ok((point_at(s, i), i + 4))
    } else {
        Err(DecodeError::TruncatedInput)
    }
}

/// A sync-state tag is one byte from the closed table {0, 1, 2}.
pub open spec fn dec_sync_state(s: Seq<u8>, i: int) -> Result<(SyncState, int), DecodeError> {
    match dec_u8(s, i) {
        Err(e) => Err(e),
        Ok((v, j)) => if v == 0 {
            Ok((SyncState::Unsynced, j))
        } else if v == 1 {
            Ok((SyncState::Synced, j))
        } else if v == 2 {
            Ok((SyncState::ChangedAfterSync, j))
        } else {
            Err(DecodeError::UnknownEnumTag(TagKind::SyncState, v as u64))
        },
    }
}

/// A component kind is a 16-bit tag looked up in the closed table; tags at or
/// above `COMPONENT_KIND_COUNT` are rejected, never defaulted.
pub open spec fn dec_component_kind(s: Seq<u8>, i: int) -> Result<
    (ComponentKind, int),
    DecodeError,
> {
    match dec_u16(s, i) {
        Err(e) => Err(e),
        Ok((v, j)) => if v < COMPONENT_KIND_COUNT {
            Ok((kind_of_tag(v), j))
        } else {
            Err(DecodeError::UnknownEnumTag(TagKind::ComponentKind, v as u64))
        },
    }
}

/// A wire kind is one byte from the closed table {0 .. 4}.
pub open spec fn dec_wire_kind(s: Seq<u8>, i: int) -> Result<(WireKind, int), DecodeError> {
    match dec_u8(s, i) {
        Err(e) => Err(e),
        Ok((v, j)) => if v == 0 {
            Ok((WireKind::Width1, j))
        } else if v == 1 {
            Ok((WireKind::Width8, j))
        } else if v == 2 {
            Ok((WireKind::Width16, j))
        } else if v == 3 {
            Ok((WireKind::Width32, j))
        } else if v == 4 {
            Ok((WireKind::Width64, j))
        } else {
            Err(DecodeError::UnknownEnumTag(TagKind::WireKind, v as u64))
        },
    }
}

/// The next `n` raw bytes.
pub open spec fn dec_bytes(s: Seq<u8>, i: int, n: int) -> Result<(Seq<u8>, int), DecodeError> {
    if 0 <= i && 0 <= n && i + n <= s.len() {
        Ok((s.subrange(i, i + n), i + n))
    } else {
        Err(DecodeError::TruncatedInput)
    }
}

/// A string is a 16-bit byte count, that many bytes, validated as UTF-8.
pub open spec fn dec_string(s: Seq<u8>, i: int) -> Result<(Seq<char>, int), DecodeError> {
    match dec_u16(s, i) {
        Err(e) => Err(e),
        Ok((n, j)) => match dec_bytes(s, j, n as int) {
            Err(e) => Err(e),
            Ok((b, k)) => if valid_utf8(b) {
                Ok((decode_utf8(b), k))
            } else {
                Err(DecodeError::InvalidUtf8)
            },
        },
    }
}

/// `n` consecutive 64-bit values, in file order.
pub open spec fn dec_u64_list(s: Seq<u8>, i: int, n: nat) -> Result<(Seq<u64>, int), DecodeError>
    decreases n,
{
    if n == 0 {
        Ok((Seq::empty(), i))
    } else {
        match dec_u64(s, i) {
            Err(e) => Err(e),
            Ok((v, j)) => match dec_u64_list(s, j, (n - 1) as nat) {
                Err(e) => Err(e),
                Ok((rest, k)) => Ok((seq![v] + rest, k)),
            },
        }
    }
}

/// The header's dependency list: a 16-bit count, then that many identifiers.
pub open spec fn dec_dependencies(s: Seq<u8>, i: int) -> Result<(Seq<u64>, int), DecodeError> {
    match dec_u16(s, i) {
        Err(e) => Err(e),
        Ok((n, j)) => dec_u64_list(s, j, n as nat),
    }
}

/// The header's opaque byte blob: a 16-bit count, then that many raw bytes.
pub open spec fn dec_blob(s: Seq<u8>, i: int) -> Result<(Seq<u8>, int), DecodeError> {
    match dec_u16(s, i) {
        Err(e) => Err(e),
        Ok((n, j)) => dec_bytes(s, j, n as int),
    }
}

/// The header: 14 fields in fixed order, no branching.
pub open spec fn dec_header(s: Seq<u8>, i: int) -> Result<(HeaderView, int), DecodeError> {
    match dec_u64(s, i) {
        Err(e) => Err(e),
        Ok((save_id, i)) => match dec_u32(s, i) {
            Err(e) => Err(e),
            Ok((hub_id, i)) => match dec_u64(s, i) {
                Err(e) => Err(e),
                Ok((gate, i)) => match dec_u64(s, i) {
                    Err(e) => Err(e),
                    Ok((delay, i)) => match dec_bool(s, i) {
                        Err(e) => Err(e),
                        Ok((menu_visible, i)) => match dec_u32(s, i) {
                            Err(e) => Err(e),
                            Ok((clock_speed, i)) => match dec_dependencies(s, i) {
                                Err(e) => Err(e),
                                Ok((dependencies, i)) => match dec_string(s, i) {
                                    Err(e) => Err(e),
                                    Ok((description, i)) => match dec_point(s, i) {
                                        Err(e) => Err(e),
                                        Ok((camera_position, i)) => match dec_sync_state(s, i) {
                                            Err(e) => Err(e),
                                            Ok((synced, i)) => match dec_bool(s, i) {
                                                Err(e) => Err(e),
                                                Ok((campaign_bound, i)) => match dec_u16(s, i) {
                                                    Err(e) => Err(e),
                                                    Ok((arch_score, i)) => match dec_blob(s, i) {
                                                        Err(e) => Err(e),
                                                        Ok((player_data, i)) => match dec_string(
                                                            s,
                                                            i,
                                                        ) {
                                                            Err(e) => Err(e),
                                                            Ok((hub_description, i)) => Ok(
                                                                (
                                                                    HeaderView {
                                                                        save_id,
                                                                        hub_id,
                                                                        gate,
                                                                        delay,
                                                                        menu_visible,
                                                                        clock_speed,
                                                                        dependencies,
                                                                        description,
                                                                        camera_position,
                                                                        synced,
                                                                        campaign_bound,
                                                                        arch_score,
                                                                        player_data,
                                                                        hub_description,
                                                                    },
                                                                    i,
                                                                ),
                                                            ),
                                                        },
                                                    },
                                                },
                                            },
                                        },
                                    },
                                },
                            },
                        },
                    },
                },
            },
        },
    }
}

/// The kinds whose components carry program-slot entries.
pub open spec fn is_program_kind(k: ComponentKind) -> bool {
    k == ComponentKind::Program8_1 || k == ComponentKind::Program8_4 || k == ComponentKind::Program
}

/// `n` program-slot entries, each a 64-bit slot identifier then a string,
/// kept in file order (duplicate identifiers are legal).
pub open spec fn dec_program_list(s: Seq<u8>, i: int, n: nat) -> Result<
    (Seq<(u64, Seq<char>)>, int),
    DecodeError,
>
    decreases n,
{
    if n == 0 {
        Ok((Seq::empty(), i))
    } else {
        match dec_u64(s, i) {
            Err(e) => Err(e),
            Ok((slot, j)) => match dec_string(s, j) {
                Err(e) => Err(e),
                Ok((text, k)) => match dec_program_list(s, k, (n - 1) as nat) {
                    Err(e) => Err(e),
                    Ok((rest, m)) => Ok((seq![(slot, text)] + rest, m)),
                },
            },
        }
    }
}

/// One component: eight common fields, then trailing fields selected by the
/// kind. Only this branch is data-dependent in the component stream.
pub open spec fn dec_component(s: Seq<u8>, i: int) -> Result<(ComponentView, int), DecodeError> {
    match dec_component_kind(s, i) {
        Err(e) => Err(e),
        Ok((kind, i)) => match dec_point(s, i) {
            Err(e) => Err(e),
            Ok((position, i)) => match dec_u8(s, i) {
                Err(e) => Err(e),
                Ok((rotation, i)) => match dec_u64(s, i) {
                    Err(e) => Err(e),
                    Ok((permanent_id, i)) => match dec_string(s, i) {
                        Err(e) => Err(e),
                        Ok((custom_string, i)) => match dec_u64(s, i) {
                            Err(e) => Err(e),
                            Ok((setting_1, i)) => match dec_u64(s, i) {
                                Err(e) => Err(e),
                                Ok((setting_2, i)) => match dec_i16(s, i) {
                                    Err(e) => Err(e),
                                    Ok((ui_order, i)) => dec_component_tail(
                                        s,
                                        i,
                                        ComponentView {
                                            kind,
                                            position,
                                            rotation,
                                            permanent_id,
                                            custom_string,
                                            setting_1,
                                            setting_2,
                                            ui_order,
                                            custom_id: 0,
                                            custom_displacement: Point { x: 0, y: 0 },
                                            selected_programs: Option::None,
                                        },
                                    ),
                                },
                            },
                        },
                    },
                },
            },
        },
    }
}

/// The kind-dependent trailing fields of a component, applied to the record
/// built from the common fields.
pub open spec fn dec_component_tail(s: Seq<u8>, i: int, c: ComponentView) -> Result<
    (ComponentView, int),
    DecodeError,
> {
    if c.kind == ComponentKind::Custom {
        match dec_u64(s, i) {
            Err(e) => Err(e),
            Ok((custom_id, i)) => match dec_point(s, i) {
                Err(e) => Err(e),
                Ok((custom_displacement, i)) => Ok(
                    (ComponentView { custom_id, custom_displacement, ..c }, i),
                ),
            },
        }
    } else if is_program_kind(c.kind) {
        match dec_u16(s, i) {
            Err(e) => Err(e),
            Ok((n, j)) => match dec_program_list(s, j, n as nat) {
                Err(e) => Err(e),
                Ok((programs, k)) => Ok(
                    (ComponentView { selected_programs: Option::Some(programs), ..c }, k),
                ),
            },
        }
    } else {
        Ok((c, i))
    }
}

/// `n` consecutive components, in file order.
pub open spec fn dec_component_list(s: Seq<u8>, i: int, n: nat) -> Result<
    (Seq<ComponentView>, int),
    DecodeError,
>
    decreases n,
{
    if n == 0 {
        Ok((Seq::empty(), i))
    } else {
        match dec_component(s, i) {
            Err(e) => Err(e),
            Ok((c, j)) => match dec_component_list(s, j, (n - 1) as nat) {
                Err(e) => Err(e),
                Ok((rest, k)) => Ok((seq![c] + rest, k)),
            },
        }
    }
}

/// The component array: a 64-bit count, then that many components.
pub open spec fn dec_components(s: Seq<u8>, i: int) -> Result<
    (Seq<ComponentView>, int),
    DecodeError,
> {
    match dec_u64(s, i) {
        Err(e) => Err(e),
        Ok((n, j)) => dec_component_list(s, j, n as nat),
    }
}

/// The unit vector of compass direction `d`, in the fixed order
/// E, NE, N, NW, W, SW, S, SE.
pub open spec fn dir_vector(d: u8) -> Point
    recommends
        d < 8,
{
    if d == 0 {
        Point { x: 1, y: 0 }
    } else if d == 1 {
        Point { x: 1, y: 1 }
    } else if d == 2 {
        Point { x: 0, y: 1 }
    } else if d == 3 {
        Point { x: -1i16, y: 1i16 }
    } else if d == 4 {
        Point { x: -1i16, y: 0i16 }
    } else if d == 5 {
        Point { x: -1i16, y: -1i16 }
    } else if d == 6 {
        Point { x: 0i16, y: -1i16 }
    } else {
        Point { x: 1i16, y: -1i16 }
    }
}

/// The vertex one segment byte away from `cur`: the high three bits pick the
/// compass direction, the low five bits the run length; coordinates wrap on
/// 16-bit overflow.
pub open spec fn segment_step(cur: Point, b: u8) -> Point {
    let d = dir_vector(b / 32);
    let run = (b % 32) as i16;
    Point {
        x: cur.x.wrapping_add(d.x.wrapping_mul(run)),
        y: cur.y.wrapping_add(d.y.wrapping_mul(run)),
    }
}

/// The vertices a wire path gains after `cur`, and the offset past its
/// terminator. A zero segment byte ends the path without adding a vertex; the
/// teleport marker adds one absolute point and ends it; any other segment
/// byte adds the vertex one direction/run step away and continues.
pub open spec fn dec_segments(s: Seq<u8>, i: int, cur: Point) -> Result<
    (Seq<Point>, int),
    DecodeError,
>
    decreases s.len() - i,
{
    if i < 0 || i >= s.len() {
        Err(DecodeError::TruncatedInput)
    } else {
        let b = s[i];
        if b == 0 {
            Ok((Seq::empty(), i + 1))
        } else if b == TELEPORT_MARKER {
            match dec_point(s, i + 1) {
                Err(e) => Err(e),
                Ok((target, j)) => Ok((seq![target], j)),
            }
        } else {
            let next = segment_step(cur, b);
            match dec_segments(s, i + 1, next) {
                Err(e) => Err(e),
                Ok((rest, j)) => Ok((seq![next] + rest, j)),
            }
        }
    }
}

/// A whole wire path: the absolute start vertex, then the delta-encoded rest.
pub open spec fn dec_path(s: Seq<u8>, i: int) -> Result<(Seq<Point>, int), DecodeError> {
    match dec_point(s, i) {
        Err(e) => Err(e),
        Ok((start, j)) => match dec_segments(s, j, start) {
            Err(e) => Err(e),
            Ok((rest, k)) => Ok((seq![start] + rest, k)),
        },
    }
}

/// One wire: kind, colour, comment, then its path.
pub open spec fn dec_wire(s: Seq<u8>, i: int) -> Result<(WireView, int), DecodeError> {
    match dec_wire_kind(s, i) {
        Err(e) => Err(e),
        Ok((kind, i)) => match dec_u8(s, i) {
            Err(e) => Err(e),
            Ok((color, i)) => match dec_string(s, i) {
                Err(e) => Err(e),
                Ok((comment, i)) => match dec_path(s, i) {
                    Err(e) => Err(e),
                    Ok((path, i)) => Ok((WireView { kind, color, comment, path }, i)),
                },
            },
        },
    }
}

/// `n` consecutive wires, in file order.
pub open spec fn dec_wire_list(s: Seq<u8>, i: int, n: nat) -> Result<
    (Seq<WireView>, int),
    DecodeError,
>
    decreases n,
{
    if n == 0 {
        Ok((Seq::empty(), i))
    } else {
        match dec_wire(s, i) {
            Err(e) => Err(e),
            Ok((w, j)) => match dec_wire_list(s, j, (n - 1) as nat) {
                Err(e) => Err(e),
                Ok((rest, k)) => Ok((seq![w] + rest, k)),
            },
        }
    }
}

/// The wire array: a 64-bit count, then that many wires.
pub open spec fn dec_wires(s: Seq<u8>, i: int) -> Result<(Seq<WireView>, int), DecodeError> {
    match dec_u64(s, i) {
        Err(e) => Err(e),
        Ok((n, j)) => dec_wire_list(s, j, n as nat),
    }
}

/// A whole decompressed payload: header, components, wires, and the
/// completeness check that the payload was consumed exactly.
pub open spec fn dec_circuit(s: Seq<u8>) -> Result<crate::types::CircuitView, DecodeError> {
    match dec_header(s, 0) {
        Err(e) => Err(e),
        Ok((header, i)) => match dec_components(s, i) {
            Err(e) => Err(e),
            Ok((components, i)) => match dec_wires(s, i) {
                Err(e) => Err(e),
                Ok((wires, i)) => if i == s.len() {
                    Ok(crate::types::CircuitView { header, components, wires })
                } else {
                    Err(DecodeError::TrailingBytes)
                },
            },
        },
    }
}

/// A whole save file: the version byte is checked first, the rest is handed
/// to the decompression collaborator, and the inflated payload is decoded.
/// A wrong version is reported before decompression is attempted.
pub open spec fn spec_parse(file: Seq<u8>) -> Result<crate::types::CircuitView, DecodeError> {
    if file.len() == 0 {
        Err(DecodeError::TruncatedInput)
    } else if file[0] != FORMAT_VERSION {
        Err(DecodeError::UnsupportedVersion(file[0]))
    } else {
        match inflate_of(file.skip(1)) {
            Option::None => Err(DecodeError::DecompressionError),
            Option::Some(payload) => dec_circuit(payload),
        }
    }
}

} // verus!
