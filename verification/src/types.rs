//! The decoded data model: points, the header, components, wires, the
//! circuit, and the error taxonomy of the decoder.

use vstd::prelude::*;

use crate::kinds::ComponentKind;

verus! {

/// A 2D integer coordinate: positions, displacements and path vertices.
#[derive(Debug, Clone, Copy, Hash, PartialEq, Eq, Structural)]
pub struct Point {
    pub x: i16,
    pub y: i16,
}

impl Point {
    /// Componentwise translation; wraps around on 16-bit overflow.
    pub fn add(&mut self, other: &Point)
        ensures
            final(self).x == old(self).x.wrapping_add(other.x),
            final(self).y == old(self).y.wrapping_add(other.y),
    {
        self.x = self.x.wrapping_add(other.x);
        self.y = self.y.wrapping_add(other.y);
    }

    /// Componentwise scaling; wraps around on 16-bit overflow.
    pub fn mul(&mut self, other: i16)
        ensures
            final(self).x == old(self).x.wrapping_mul(other),
            final(self).y == old(self).y.wrapping_mul(other),
    {
        self.x = self.x.wrapping_mul(other);
        self.y = self.y.wrapping_mul(other);
    }
}

/// Whether a save has been synchronised with its hub.
#[derive(Debug, Clone, Copy, PartialEq, Eq, Structural)]
pub enum SyncState {
    Unsynced,
    Synced,
    ChangedAfterSync,
}

/// The bit width a wire carries.
#[derive(Debug, Clone, Copy, PartialEq, Eq, Structural)]
pub enum WireKind {
    Width1,
    Width8,
    Width16,
    Width32,
    Width64,
}

/// Which closed tag table a rejected tag value belongs to.
#[derive(Debug, Clone, Copy, PartialEq, Eq, Structural)]
pub enum TagKind {
    SyncState,
    ComponentKind,
    WireKind,
}

/// Why a decode attempt failed. Every failure aborts the whole decode;
/// no partial result is returned.
#[derive(Debug, Clone, Copy, PartialEq, Eq, Structural)]
pub enum DecodeError {
    /// The file's first byte is not the supported format version.
    UnsupportedVersion(u8),
    /// The compressed block after the version byte is malformed.
    DecompressionError,
    /// The payload ended in the middle of a field.
    TruncatedInput,
    /// A string field's bytes are not valid UTF-8.
    InvalidUtf8,
    /// A tag value outside its closed table, with the raw value read.
    UnknownEnumTag(TagKind, u64),
    /// Decoding finished before the end of the payload.
    TrailingBytes,
}

/// The fixed-shape record at the start of every payload.
#[derive(Debug, Clone, PartialEq)]
pub struct Header {
    pub save_id: u64,
    pub hub_id: u32,
    pub gate: u64,
    pub delay: u64,
    pub menu_visible: bool,
    pub clock_speed: u32,
    pub dependencies: Vec<u64>,
    pub description: String,
    pub camera_position: Point,
    pub synced: SyncState,
    pub campaign_bound: bool,
    pub arch_score: u16,
    pub player_data: Vec<u8>,
    pub hub_description: String,
}

/// The mathematical value of a decoded [`Header`].
#[verifier::ext_equal]
pub struct HeaderView {
    pub save_id: u64,
    pub hub_id: u32,
    pub gate: u64,
    pub delay: u64,
    pub menu_visible: bool,
    pub clock_speed: u32,
    pub dependencies: Seq<u64>,
    pub description: Seq<char>,
    pub camera_position: Point,
    pub synced: SyncState,
    pub campaign_bound: bool,
    pub arch_score: u16,
    pub player_data: Seq<u8>,
    pub hub_description: Seq<char>,
}

impl View for Header {
    type V = HeaderView;

    open spec fn view(&self) -> HeaderView {
        HeaderView {
            save_id: self.save_id,
            hub_id: self.hub_id,
            gate: self.gate,
            delay: self.delay,
            menu_visible: self.menu_visible,
            clock_speed: self.clock_speed,
            dependencies: self.dependencies@,
            description: self.description@,
            camera_position: self.camera_position,
            synced: self.synced,
            campaign_bound: self.campaign_bound,
            arch_score: self.arch_score,
            player_data: self.player_data@,
            hub_description: self.hub_description@,
        }
    }
}

/// One placed component. The trailing fields depend on `kind`: a `Custom`
/// component carries a custom identifier and displacement, a program-capable
/// kind carries its slot-to-text entries, and every other kind carries the
/// defaults (zeroes and `None`).
#[derive(Debug, Clone, PartialEq)]
pub struct Component {
    pub kind: ComponentKind,
    pub position: Point,
    pub rotation: u8,
    pub permanent_id: u64,
    pub custom_string: String,
    pub setting_1: u64,
    pub setting_2: u64,
    pub ui_order: i16,
    pub custom_id: u64,
    pub custom_displacement: Point,
    pub selected_programs: Option<Vec<(u64, String)>>,
}

/// The values of a list of program-slot entries, file order kept.
pub open spec fn program_entries_view(v: Seq<(u64, String)>) -> Seq<(u64, Seq<char>)> {
    v.map_values(|p: (u64, String)| (p.0, p.1@))
}

/// The lookup table a component's program entries denote: a later entry in
/// file order overrides an earlier one with the same slot identifier.
pub open spec fn program_map(entries: Seq<(u64, Seq<char>)>) -> Map<u64, Seq<char>>
    decreases entries.len(),
{
    if entries.len() == 0 {
        Map::empty()
    } else {
        program_map(entries.drop_last()).insert(entries.last().0, entries.last().1)
    }
}

/// The mathematical value of a decoded [`Component`]. The program entries
/// keep the file's order; duplicate slot identifiers are legal there.
#[verifier::ext_equal]
pub struct ComponentView {
    pub kind: ComponentKind,
    pub position: Point,
    pub rotation: u8,
    pub permanent_id: u64,
    pub custom_string: Seq<char>,
    pub setting_1: u64,
    pub setting_2: u64,
    pub ui_order: i16,
    pub custom_id: u64,
    pub custom_displacement: Point,
    pub selected_programs: Option<Seq<(u64, Seq<char>)>>,
}

impl View for Component {
    type V = ComponentView;

    open spec fn view(&self) -> ComponentView {
        ComponentView {
            kind: self.kind,
            position: self.position,
            rotation: self.rotation,
            permanent_id: self.permanent_id,
            custom_string: self.custom_string@,
            setting_1: self.setting_1,
            setting_2: self.setting_2,
            ui_order: self.ui_order,
            custom_id: self.custom_id,
            custom_displacement: self.custom_displacement,
            selected_programs: match self.selected_programs {
                Option::None => Option::None,
                Option::Some(ps) => Option::Some(program_entries_view(ps@)),
            },
        }
    }
}

impl Component {
    /// The program text of `slot`, read through the last-write-wins lookup
    /// table the program entries denote; `None` for a component without
    /// program entries or for an absent slot.
    #[verifier::loop_isolation(false)]
    pub fn program_text(&self, slot: u64) -> (r: Option<&String>)
        ensures
            match self.selected_programs {
                Option::None => r is None,
                Option::Some(ps) => {
                    let m = program_map(program_entries_view(ps@));
                    &&& r is Some <==> m.dom().contains(slot)
                    &&& r is Some ==> r.unwrap()@ == m[slot]
                },
            },
    {
        match &self.selected_programs {
            Option::None => Option::None,
            Option::Some(ps) => {
                let ghost entries = program_entries_view(ps@);
                proof {
                    assert(entries.take(ps@.len() as int) =~= entries);
                }
                let mut j: usize = ps.len();
                while j > 0
                    invariant
                        j <= ps.len(),
                        program_map(entries).dom().contains(slot) == program_map(
                            entries.take(j as int),
                        ).dom().contains(slot),
                        program_map(entries).dom().contains(slot) ==> program_map(entries)[slot]
                            == program_map(entries.take(j as int))[slot],
                    decreases j,
                {
                    proof {
                        assert(entries.take(j as int).drop_last() =~= entries.take(j - 1));
                        assert(entries.take(j as int).last() == entries[j - 1]);
                        assert(entries[j - 1] == (ps@[j - 1].0, ps@[j - 1].1@));
                    }
                    if ps[j - 1].0 == slot {
                        return Option::Some(&ps[j - 1].1);
                    }
                    j = j - 1;
                }
                proof {
                    assert(entries.take(0) =~= Seq::<(u64, Seq<char>)>::empty());
                }
                Option::None
            },
        }
    }
}

/// One wire: its width, colour, comment, and the polyline of vertices
/// reconstructed from the delta/direction encoding, start vertex first.
#[derive(Debug, Clone, PartialEq)]
pub struct Wire {
    pub kind: WireKind,
    pub color: u8,
    pub comment: String,
    pub path: Vec<Point>,
}

/// The mathematical value of a decoded [`Wire`].
#[verifier::ext_equal]
pub struct WireView {
    pub kind: WireKind,
    pub color: u8,
    pub comment: Seq<char>,
    pub path: Seq<Point>,
}

impl View for Wire {
    type V = WireView;

    open spec fn view(&self) -> WireView {
        WireView {
            kind: self.kind,
            color: self.color,
            comment: self.comment@,
            path: self.path@,
        }
    }
}

/// One whole decoded save: the header, then the components, then the wires,
/// in file order. Immutable once decoded.
#[derive(Debug, Clone, PartialEq)]
pub struct Circuit {
    pub header: Header,
    pub components: Vec<Component>,
    pub wires: Vec<Wire>,
}

/// The values of a list of decoded components, file order kept.
pub open spec fn components_view(v: Seq<Component>) -> Seq<ComponentView> {
    v.map_values(|c: Component| c@)
}

/// The values of a list of decoded wires, file order kept.
pub open spec fn wires_view(v: Seq<Wire>) -> Seq<WireView> {
    v.map_values(|w: Wire| w@)
}

/// The mathematical value of a decoded [`Circuit`].
#[verifier::ext_equal]
pub struct CircuitView {
    pub header: HeaderView,
    pub components: Seq<ComponentView>,
    pub wires: Seq<WireView>,
}

impl View for Circuit {
    type V = CircuitView;

    open spec fn view(&self) -> CircuitView {
        CircuitView {
            header: self.header@,
            components: components_view(self.components@),
            wires: wires_view(self.wires@),
        }
    }
}

} // verus!
