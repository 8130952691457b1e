//! The executable decoder: a bounds-checked cursor over the payload and one
//! read function per record shape, each proved to return exactly what the
//! corresponding `dec_*` function of [`crate::format`] says.

use vstd::prelude::*;

use vstd::utf8::{decode_utf8, valid_utf8};

use crate::format::{
    dec_bool, dec_bytes, dec_circuit, dec_component, dec_component_kind, dec_component_list,
    dec_header, dec_i16, dec_path, dec_point, dec_program_list, dec_segments, dec_string,
    dec_sync_state, dec_u16, dec_u32, dec_u64, dec_u64_list, dec_u8, dec_wire, dec_wire_kind,
    dec_wire_list, dir_vector, spec_parse, FORMAT_VERSION, TELEPORT_MARKER,
};
use crate::inflate::inflate;
use crate::kinds::{component_kind_from_tag, ComponentKind, COMPONENT_KIND_COUNT};
use crate::types::{
    components_view, program_entries_view, wires_view, Circuit, CircuitView, Component,
    ComponentView, DecodeError, Header, HeaderView, Point, SyncState, TagKind, Wire, WireKind,
    WireView,
};

verus! {

/// Relies on `String::from_utf8`: it returns the string read from the bytes
/// exactly when they are valid UTF-8, and rejects them otherwise.
#[verifier::external_body]
fn string_from_bytes(v: Vec<u8>) -> (r: Option<String>)
    ensures
        r is Some <==> valid_utf8(v@),
        r is Some ==> r.unwrap()@ == decode_utf8(v@),
{
    String::from_utf8(v).ok()
}

/// A position in a read-only byte buffer, with bounds-checked extraction.
/// Reads advance the position; a failed read reports `TruncatedInput` and
/// leaves the buffer untouched.
pub struct Cursor<'a> {
    bytes: &'a [u8],
    pos: usize,
}

impl<'a> Cursor<'a> {
    /// The whole buffer the cursor walks.
    pub closed spec fn data(&self) -> Seq<u8> {
        self.bytes@
    }

    /// The current offset: how many bytes have been consumed.
    pub closed spec fn at(&self) -> int {
        self.pos as int
    }

    /// The cursor never stands past the end of its buffer.
    pub closed spec fn wf(&self) -> bool {
        self.pos <= self.bytes@.len()
    }

    pub fn new(bytes: &'a [u8]) -> (c: Self)
        ensures
            c.data() == bytes@,
            c.at() == 0,
            c.wf(),
    {
        Cursor { bytes, pos: 0 }
    }

    /// How many bytes remain unread.
    pub fn remaining(&self) -> (n: usize)
        requires
            self.wf(),
        ensures
            n == self.data().len() - self.at(),
    {
        self.bytes.len() - self.pos
    }

    pub fn read_u8(&mut self) -> (r: Result<u8, DecodeError>)
        requires
            old(self).wf(),
        ensures
            final(self).wf(),
            final(self).data() == old(self).data(),
            match r {
                Ok(v) => dec_u8(old(self).data(), old(self).at()) == Ok::<(u8, int), DecodeError>(
                    (v, final(self).at()),
                ),
                Err(e) => dec_u8(old(self).data(), old(self).at()) == Err::<(u8, int), DecodeError>(
                    e,
                ),
            },
    {
        if self.pos < self.bytes.len() {
            let b = self.bytes[self.pos];
            self.pos = self.pos + 1;
            Ok(b)
        } else {
            Err(DecodeError::TruncatedInput)
        }
    }

    pub fn read_u16(&mut self) -> (r: Result<u16, DecodeError>)
        requires
            old(self).wf(),
        ensures
            final(self).wf(),
            final(self).data() == old(self).data(),
            match r {
                Ok(v) => dec_u16(old(self).data(), old(self).at()) == Ok::<(u16, int), DecodeError>(
                    (v, final(self).at()),
                ),
                Err(e) => dec_u16(old(self).data(), old(self).at()) == Err::<
                    (u16, int),
                    DecodeError,
                >(e),
            },
    {
        let b0 = self.read_u8()?;
        let b1 = self.read_u8()?;
        Ok(b0 as u16 + 0x100 * b1 as u16)
    }

    pub fn read_u32(&mut self) -> (r: Result<u32, DecodeError>)
        requires
            old(self).wf(),
        ensures
            final(self).wf(),
            final(self).data() == old(self).data(),
            match r {
                Ok(v) => dec_u32(old(self).data(), old(self).at()) == Ok::<(u32, int), DecodeError>(
                    (v, final(self).at()),
                ),
                Err(e) => dec_u32(old(self).data(), old(self).at()) == Err::<
                    (u32, int),
                    DecodeError,
                >(e),
            },
    {
        let b0 = self.read_u8()?;
        let b1 = self.read_u8()?;
        let b2 = self.read_u8()?;
        let b3 = self.read_u8()?;
        Ok(b0 as u32 + 0x100 * b1 as u32 + 0x1_0000 * b2 as u32 + 0x100_0000 * b3 as u32)
    }

    pub fn read_u64(&mut self) -> (r: Result<u64, DecodeError>)
        requires
            old(self).wf(),
        ensures
            final(self).wf(),
            final(self).data() == old(self).data(),
            match r {
                Ok(v) => dec_u64(old(self).data(), old(self).at()) == Ok::<(u64, int), DecodeError>(
                    (v, final(self).at()),
                ),
                Err(e) => dec_u64(old(self).data(), old(self).at()) == Err::<
                    (u64, int),
                    DecodeError,
                >(e),
            },
    {
        let b0 = self.read_u8()?;
        let b1 = self.read_u8()?;
        let b2 = self.read_u8()?;
        let b3 = self.read_u8()?;
        let b4 = self.read_u8()?;
        let b5 = self.read_u8()?;
        let b6 = self.read_u8()?;
        let b7 = self.read_u8()?;
        Ok(
            b0 as u64 + 0x100 * b1 as u64 + 0x1_0000 * b2 as u64 + 0x100_0000 * b3 as u64
                + 0x1_0000_0000 * b4 as u64 + 0x100_0000_0000 * b5 as u64 + 0x1_0000_0000_0000 * b6
                as u64 + 0x100_0000_0000_0000 * b7 as u64,
        )
    }

    pub fn read_i16(&mut self) -> (r: Result<i16, DecodeError>)
        requires
            old(self).wf(),
        ensures
            final(self).wf(),
            final(self).data() == old(self).data(),
            match r {
                Ok(v) => dec_i16(old(self).data(), old(self).at()) == Ok::<(i16, int), DecodeError>(
                    (v, final(self).at()),
                ),
                Err(e) => dec_i16(old(self).data(), old(self).at()) == Err::<
                    (i16, int),
                    DecodeError,
                >(e),
            },
    {
        let b0 = self.read_u8()?;
        let b1 = self.read_u8()?;
        if b1 < 0x80 {
            Ok(b0 as i16 + 0x100 * b1 as i16)
        } else {
            Ok((b0 as i16 + 0x100 * (b1 - 0x80) as i16) + i16::MIN)
        }
    }

    pub fn read_bool(&mut self) -> (r: Result<bool, DecodeError>)
        requires
            old(self).wf(),
        ensures
            final(self).wf(),
            final(self).data() == old(self).data(),
            match r {
                Ok(v) => dec_bool(old(self).data(), old(self).at()) == Ok::<
                    (bool, int),
                    DecodeError,
                >((v, final(self).at())),
                Err(e) => dec_bool(old(self).data(), old(self).at()) == Err::<
                    (bool, int),
                    DecodeError,
                >(e),
            },
    {
        let b = self.read_u8()?;
        Ok(b != 0)
    }

    pub fn read_point(&mut self) -> (r: Result<Point, DecodeError>)
        requires
            old(self).wf(),
        ensures
            final(self).wf(),
            final(self).data() == old(self).data(),
            match r {
                Ok(v) => dec_point(old(self).data(), old(self).at()) == Ok::<
                    (Point, int),
                    DecodeError,
                >((v, final(self).at())),
                Err(e) => dec_point(old(self).data(), old(self).at()) == Err::<
                    (Point, int),
                    DecodeError,
                >(e),
            },
    {
        let x = self.read_i16()?;
        let y = self.read_i16()?;
        Ok(Point { x, y })
    }

    #[verifier::loop_isolation(false)]
    pub fn read_bytes(&mut self, n: u16) -> (r: Result<Vec<u8>, DecodeError>)
        requires
            old(self).wf(),
        ensures
            final(self).wf(),
            final(self).data() == old(self).data(),
            match r {
                Ok(v) => dec_bytes(old(self).data(), old(self).at(), n as int) == Ok::<
                    (Seq<u8>, int),
                    DecodeError,
                >((v@, final(self).at())),
                Err(e) => dec_bytes(old(self).data(), old(self).at(), n as int) == Err::<
                    (Seq<u8>, int),
                    DecodeError,
                >(e),
            },
    {
        let ghost s = self.data();
        let ghost i0 = self.at();
        if self.bytes.len() - self.pos < n as usize {
            return Err(DecodeError::TruncatedInput);
        }
        let mut out: Vec<u8> = Vec::new();
        let mut k: usize = 0;
        while k < n as usize
            invariant
                self.wf(),
                self.data() == s,
                self.at() == i0 + k,
                k <= n as usize,
                i0 + n <= s.len(),
                out@ == s.subrange(i0, i0 + k),
            decreases n as usize - k,
        {
            let b = self.bytes[self.pos];
            self.pos = self.pos + 1;
            out.push(b);
            k = k + 1;
            proof {
                assert(out@ =~= s.subrange(i0, i0 + k));
            }
        }
        proof {
            assert(out@ =~= s.subrange(i0, i0 + n));
        }
        Ok(out)
    }

    pub fn read_string(&mut self) -> (r: Result<String, DecodeError>)
        requires
            old(self).wf(),
        ensures
            final(self).wf(),
            final(self).data() == old(self).data(),
            match r {
                Ok(v) => dec_string(old(self).data(), old(self).at()) == Ok::<
                    (Seq<char>, int),
                    DecodeError,
                >((v@, final(self).at())),
                Err(e) => dec_string(old(self).data(), old(self).at()) == Err::<
                    (Seq<char>, int),
                    DecodeError,
                >(e),
            },
    {
        let n = self.read_u16()?;
        let bytes = self.read_bytes(n)?;
        match string_from_bytes(bytes) {
            Option::Some(text) => Ok(text),
            Option::None => Err(DecodeError::InvalidUtf8),
        }
    }

    #[verifier::loop_isolation(false)]
    pub fn read_u64_list(&mut self, n: u16) -> (r: Result<Vec<u64>, DecodeError>)
        requires
            old(self).wf(),
        ensures
            final(self).wf(),
            final(self).data() == old(self).data(),
            match r {
                Ok(v) => dec_u64_list(old(self).data(), old(self).at(), n as nat) == Ok::<
                    (Seq<u64>, int),
                    DecodeError,
                >((v@, final(self).at())),
                Err(e) => dec_u64_list(old(self).data(), old(self).at(), n as nat) == Err::<
                    (Seq<u64>, int),
                    DecodeError,
                >(e),
            },
    {
        let ghost s = self.data();
        let ghost i0 = self.at();
        let mut out: Vec<u64> = Vec::new();
        let mut k: u16 = 0;
        while k < n
            invariant
                self.wf(),
                self.data() == s,
                k <= n,
                match dec_u64_list(s, self.at(), (n - k) as nat) {
                    Ok(p) => dec_u64_list(s, i0, n as nat) == Ok::<(Seq<u64>, int), DecodeError>(
                        (out@ + p.0, p.1),
                    ),
                    Err(e) => dec_u64_list(s, i0, n as nat) == Err::<(Seq<u64>, int), DecodeError>(
                        e,
                    ),
                },
            decreases n - k,
        {
            let v = match self.read_u64() {
                Ok(v) => v,
                Err(e) => {
                    return Err(e);
                },
            };
            let ghost prev = out@;
            out.push(v);
            k = k + 1;
            proof {
                assert(out@ =~= prev + seq![v]);
                if dec_u64_list(s, self.at(), (n - k) as nat) is Ok {
                    let p = dec_u64_list(s, self.at(), (n - k) as nat).unwrap();
                    assert(prev + (seq![v] + p.0) =~= out@ + p.0);
                }
            }
        }
        proof {
            assert(out@ + Seq::<u64>::empty() =~= out@);
        }
        Ok(out)
    }

    pub fn read_sync_state(&mut self) -> (r: Result<SyncState, DecodeError>)
        requires
            old(self).wf(),
        ensures
            final(self).wf(),
            final(self).data() == old(self).data(),
            match r {
                Ok(v) => dec_sync_state(old(self).data(), old(self).at()) == Ok::<
                    (SyncState, int),
                    DecodeError,
                >((v, final(self).at())),
                Err(e) => dec_sync_state(old(self).data(), old(self).at()) == Err::<
                    (SyncState, int),
                    DecodeError,
                >(e),
            },
    {
        let v = self.read_u8()?;
        match v {
            0 => Ok(SyncState::Unsynced),
            1 => Ok(SyncState::Synced),
            2 => Ok(SyncState::ChangedAfterSync),
            _ => Err(DecodeError::UnknownEnumTag(TagKind::SyncState, v as u64)),
        }
    }

    pub fn read_wire_kind(&mut self) -> (r: Result<WireKind, DecodeError>)
        requires
            old(self).wf(),
        ensures
            final(self).wf(),
            final(self).data() == old(self).data(),
            match r {
                Ok(v) => dec_wire_kind(old(self).data(), old(self).at()) == Ok::<
                    (WireKind, int),
                    DecodeError,
                >((v, final(self).at())),
                Err(e) => dec_wire_kind(old(self).data(), old(self).at()) == Err::<
                    (WireKind, int),
                    DecodeError,
                >(e),
            },
    {
        let v = self.read_u8()?;
        match v {
            0 => Ok(WireKind::Width1),
            1 => Ok(WireKind::Width8),
            2 => Ok(WireKind::Width16),
            3 => Ok(WireKind::Width32),
            4 => Ok(WireKind::Width64),
            _ => Err(DecodeError::UnknownEnumTag(TagKind::WireKind, v as u64)),
        }
    }

    pub fn read_component_kind(&mut self) -> (r: Result<ComponentKind, DecodeError>)
        requires
            old(self).wf(),
        ensures
            final(self).wf(),
            final(self).data() == old(self).data(),
            match r {
                Ok(v) => dec_component_kind(old(self).data(), old(self).at()) == Ok::<
                    (ComponentKind, int),
                    DecodeError,
                >((v, final(self).at())),
                Err(e) => dec_component_kind(old(self).data(), old(self).at()) == Err::<
                    (ComponentKind, int),
                    DecodeError,
                >(e),
            },
    {
        let v = self.read_u16()?;
        if v < COMPONENT_KIND_COUNT {
            Ok(component_kind_from_tag(v))
        } else {
            Err(DecodeError::UnknownEnumTag(TagKind::ComponentKind, v as u64))
        }
    }

    pub fn read_header(&mut self) -> (r: Result<Header, DecodeError>)
        requires
            old(self).wf(),
        ensures
            final(self).wf(),
            final(self).data() == old(self).data(),
            match r {
                Ok(h) => dec_header(old(self).data(), old(self).at()) == Ok::<
                    (HeaderView, int),
                    DecodeError,
                >((h@, final(self).at())),
                Err(e) => dec_header(old(self).data(), old(self).at()) == Err::<
                    (HeaderView, int),
                    DecodeError,
                >(e),
            },
    {
        let save_id = self.read_u64()?;
        let hub_id = self.read_u32()?;
        let gate = self.read_u64()?;
        let delay = self.read_u64()?;
        let menu_visible = self.read_bool()?;
        let clock_speed = self.read_u32()?;
        let dependency_count = self.read_u16()?;
        let dependencies = self.read_u64_list(dependency_count)?;
        let description = self.read_string()?;
        let camera_position = self.read_point()?;
        let synced = self.read_sync_state()?;
        let campaign_bound = self.read_bool()?;
        let arch_score = self.read_u16()?;
        let blob_count = self.read_u16()?;
        let player_data = self.read_bytes(blob_count)?;
        let hub_description = self.read_string()?;
        let header = Header {
            save_id,
            hub_id,
            gate,
            delay,
            menu_visible,
            clock_speed,
            dependencies,
            description,
            camera_position,
            synced,
            campaign_bound,
            arch_score,
            player_data,
            hub_description,
        };
        proof {
            let step = dec_header(old(self).data(), old(self).at());
            assert(step is Ok);
            assert(header@ =~= step.unwrap().0);
        }
        Ok(header)
    }

    #[verifier::loop_isolation(false)]
    pub fn read_program_list(&mut self, n: u16) -> (r: Result<Vec<(u64, String)>, DecodeError>)
        requires
            old(self).wf(),
        ensures
            final(self).wf(),
            final(self).data() == old(self).data(),
            match r {
                Ok(v) => dec_program_list(old(self).data(), old(self).at(), n as nat) == Ok::<
                    (Seq<(u64, Seq<char>)>, int),
                    DecodeError,
                >((program_entries_view(v@), final(self).at())),
                Err(e) => dec_program_list(old(self).data(), old(self).at(), n as nat) == Err::<
                    (Seq<(u64, Seq<char>)>, int),
                    DecodeError,
                >(e),
            },
    {
        let ghost s = self.data();
        let ghost i0 = self.at();
        let mut out: Vec<(u64, String)> = Vec::new();
        let mut k: u16 = 0;
        while k < n
            invariant
                self.wf(),
                self.data() == s,
                k <= n,
                match dec_program_list(s, self.at(), (n - k) as nat) {
                    Ok(p) => dec_program_list(s, i0, n as nat) == Ok::<
                        (Seq<(u64, Seq<char>)>, int),
                        DecodeError,
                    >((program_entries_view(out@) + p.0, p.1)),
                    Err(e) => dec_program_list(s, i0, n as nat) == Err::<
                        (Seq<(u64, Seq<char>)>, int),
                        DecodeError,
                    >(e),
                },
            decreases n - k,
        {
            let slot = match self.read_u64() {
                Ok(v) => v,
                Err(e) => {
                    return Err(e);
                },
            };
            let text = match self.read_string() {
                Ok(v) => v,
                Err(e) => {
                    return Err(e);
                },
            };
            let ghost prev = program_entries_view(out@);
            let ghost entry = (slot, text@);
            out.push((slot, text));
            k = k + 1;
            proof {
                assert(program_entries_view(out@) =~= prev + seq![entry]);
                if dec_program_list(s, self.at(), (n - k) as nat) is Ok {
                    let p = dec_program_list(s, self.at(), (n - k) as nat).unwrap();
                    assert(prev + (seq![entry] + p.0) =~= program_entries_view(out@) + p.0);
                }
            }
        }
        proof {
            assert(program_entries_view(out@) + Seq::<(u64, Seq<char>)>::empty()
                =~= program_entries_view(out@));
        }
        Ok(out)
    }

    pub fn read_component(&mut self) -> (r: Result<Component, DecodeError>)
        requires
            old(self).wf(),
        ensures
            final(self).wf(),
            final(self).data() == old(self).data(),
            match r {
                Ok(c) => dec_component(old(self).data(), old(self).at()) == Ok::<
                    (ComponentView, int),
                    DecodeError,
                >((c@, final(self).at())),
                Err(e) => dec_component(old(self).data(), old(self).at()) == Err::<
                    (ComponentView, int),
                    DecodeError,
                >(e),
            },
    {
        let kind = self.read_component_kind()?;
        let position = self.read_point()?;
        let rotation = self.read_u8()?;
        let permanent_id = self.read_u64()?;
        let custom_string = self.read_string()?;
        let setting_1 = self.read_u64()?;
        let setting_2 = self.read_u64()?;
        let ui_order = self.read_i16()?;
        let mut custom_id: u64 = 0;
        let mut custom_displacement = Point { x: 0, y: 0 };
        let mut selected_programs: Option<Vec<(u64, String)>> = Option::None;
        if kind == ComponentKind::Custom {
            custom_id = self.read_u64()?;
            custom_displacement = self.read_point()?;
        } else if kind == ComponentKind::Program8_1 || kind == ComponentKind::Program8_4 || kind
            == ComponentKind::Program {
            let n = self.read_u16()?;
            let programs = self.read_program_list(n)?;
            selected_programs = Option::Some(programs);
        }
        let component = Component {
            kind,
            position,
            rotation,
            permanent_id,
            custom_string,
            setting_1,
            setting_2,
            ui_order,
            custom_id,
            custom_displacement,
            selected_programs,
        };
        proof {
            let step = dec_component(old(self).data(), old(self).at());
            assert(step is Ok);
            assert(component@ =~= step.unwrap().0);
        }
        Ok(component)
    }

    #[verifier::loop_isolation(false)]
    pub fn read_component_list(&mut self, n: u64) -> (r: Result<Vec<Component>, DecodeError>)
        requires
            old(self).wf(),
        ensures
            final(self).wf(),
            final(self).data() == old(self).data(),
            match r {
                Ok(v) => dec_component_list(old(self).data(), old(self).at(), n as nat) == Ok::<
                    (Seq<ComponentView>, int),
                    DecodeError,
                >((components_view(v@), final(self).at())),
                Err(e) => dec_component_list(old(self).data(), old(self).at(), n as nat) == Err::<
                    (Seq<ComponentView>, int),
                    DecodeError,
                >(e),
            },
    {
        let ghost s = self.data();
        let ghost i0 = self.at();
        let mut out: Vec<Component> = Vec::new();
        let mut k: u64 = 0;
        while k < n
            invariant
                self.wf(),
                self.data() == s,
                k <= n,
                match dec_component_list(s, self.at(), (n - k) as nat) {
                    Ok(p) => dec_component_list(s, i0, n as nat) == Ok::<
                        (Seq<ComponentView>, int),
                        DecodeError,
                    >((components_view(out@) + p.0, p.1)),
                    Err(e) => dec_component_list(s, i0, n as nat) == Err::<
                        (Seq<ComponentView>, int),
                        DecodeError,
                    >(e),
                },
            decreases n - k,
        {
            let c = match self.read_component() {
                Ok(v) => v,
                Err(e) => {
                    return Err(e);
                },
            };
            let ghost prev = components_view(out@);
            let ghost cv = c@;
            out.push(c);
            k = k + 1;
            proof {
                assert(components_view(out@) =~= prev + seq![cv]);
                if dec_component_list(s, self.at(), (n - k) as nat) is Ok {
                    let p = dec_component_list(s, self.at(), (n - k) as nat).unwrap();
                    assert(prev + (seq![cv] + p.0) =~= components_view(out@) + p.0);
                }
            }
        }
        proof {
            assert(components_view(out@) + Seq::<ComponentView>::empty()
                =~= components_view(out@));
        }
        Ok(out)
    }

    /// Reads a wire path: the absolute start vertex, then segment bytes until
    /// the zero terminator or the teleport marker.
    pub fn read_path(&mut self) -> (r: Result<Vec<Point>, DecodeError>)
        requires
            old(self).wf(),
        ensures
            final(self).wf(),
            final(self).data() == old(self).data(),
            match r {
                Ok(v) => dec_path(old(self).data(), old(self).at()) == Ok::<
                    (Seq<Point>, int),
                    DecodeError,
                >((v@, final(self).at())),
                Err(e) => dec_path(old(self).data(), old(self).at()) == Err::<
                    (Seq<Point>, int),
                    DecodeError,
                >(e),
            },
    {
        let ghost s = self.data();
        let ghost i0 = self.at();
        let start = self.read_point()?;
        let mut path: Vec<Point> = Vec::new();
        path.push(start);
        let mut cur = start;
        loop
            invariant_except_break
                self.wf(),
                self.data() == s,
                s == old(self).data(),
                i0 == old(self).at(),
                match dec_segments(s, self.at(), cur) {
                    Ok(p) => dec_path(s, i0) == Ok::<(Seq<Point>, int), DecodeError>(
                        (path@ + p.0, p.1),
                    ),
                    Err(e) => dec_path(s, i0) == Err::<(Seq<Point>, int), DecodeError>(e),
                },
            ensures
                self.wf(),
                self.data() == s,
                dec_path(s, i0) == Ok::<(Seq<Point>, int), DecodeError>((path@, self.at())),
            decreases s.len() - self.at(),
        {
            let b = match self.read_u8() {
                Ok(b) => b,
                Err(e) => {
                    return Err(e);
                },
            };
            if b == 0 {
                proof {
                    assert(path@ + Seq::<Point>::empty() =~= path@);
                }
                break;
            }
            if b == TELEPORT_MARKER {
                let target = match self.read_point() {
                    Ok(p) => p,
                    Err(e) => {
                        return Err(e);
                    },
                };
                let ghost prev = path@;
                path.push(target);
                proof {
                    assert(prev + seq![target] =~= path@);
                }
                break;
            }
            let mut step = direction_vector(b / 32);
            step.mul((b % 32) as i16);
            cur.add(&step);
            let ghost prev = path@;
            path.push(cur);
            proof {
                assert(path@ =~= prev + seq![cur]);
                if dec_segments(s, self.at(), cur) is Ok {
                    let p = dec_segments(s, self.at(), cur).unwrap();
                    assert(prev + (seq![cur] + p.0) =~= path@ + p.0);
                }
            }
        }
        Ok(path)
    }

    pub fn read_wire(&mut self) -> (r: Result<Wire, DecodeError>)
        requires
            old(self).wf(),
        ensures
            final(self).wf(),
            final(self).data() == old(self).data(),
            match r {
                Ok(w) => dec_wire(old(self).data(), old(self).at()) == Ok::<
                    (WireView, int),
                    DecodeError,
                >((w@, final(self).at())),
                Err(e) => dec_wire(old(self).data(), old(self).at()) == Err::<
                    (WireView, int),
                    DecodeError,
                >(e),
            },
    {
        let kind = self.read_wire_kind()?;
        let color = self.read_u8()?;
        let comment = self.read_string()?;
        let path = self.read_path()?;
        let wire = Wire { kind, color, comment, path };
        proof {
            let step = dec_wire(old(self).data(), old(self).at());
            assert(step is Ok);
            assert(wire@ =~= step.unwrap().0);
        }
        Ok(wire)
    }

    #[verifier::loop_isolation(false)]
    pub fn read_wire_list(&mut self, n: u64) -> (r: Result<Vec<Wire>, DecodeError>)
        requires
            old(self).wf(),
        ensures
            final(self).wf(),
            final(self).data() == old(self).data(),
            match r {
                Ok(v) => dec_wire_list(old(self).data(), old(self).at(), n as nat) == Ok::<
                    (Seq<WireView>, int),
                    DecodeError,
                >((wires_view(v@), final(self).at())),
                Err(e) => dec_wire_list(old(self).data(), old(self).at(), n as nat) == Err::<
                    (Seq<WireView>, int),
                    DecodeError,
                >(e),
            },
    {
        let ghost s = self.data();
        let ghost i0 = self.at();
        let mut out: Vec<Wire> = Vec::new();
        let mut k: u64 = 0;
        while k < n
            invariant
                self.wf(),
                self.data() == s,
                k <= n,
                match dec_wire_list(s, self.at(), (n - k) as nat) {
                    Ok(p) => dec_wire_list(s, i0, n as nat) == Ok::<
                        (Seq<WireView>, int),
                        DecodeError,
                    >((wires_view(out@) + p.0, p.1)),
                    Err(e) => dec_wire_list(s, i0, n as nat) == Err::<
                        (Seq<WireView>, int),
                        DecodeError,
                    >(e),
                },
            decreases n - k,
        {
            let w = match self.read_wire() {
                Ok(v) => v,
                Err(e) => {
                    return Err(e);
                },
            };
            let ghost prev = wires_view(out@);
            let ghost wv = w@;
            out.push(w);
            k = k + 1;
            proof {
                assert(wires_view(out@) =~= prev + seq![wv]);
                if dec_wire_list(s, self.at(), (n - k) as nat) is Ok {
                    let p = dec_wire_list(s, self.at(), (n - k) as nat).unwrap();
                    assert(prev + (seq![wv] + p.0) =~= wires_view(out@) + p.0);
                }
            }
        }
        proof {
            assert(wires_view(out@) + Seq::<WireView>::empty() =~= wires_view(out@));
        }
        Ok(out)
    }
}

/// The unit vector of compass direction `d`.
fn direction_vector(d: u8) -> (p: Point)
    requires
        d < 8,
    ensures
        p == dir_vector(d),
{
    match d {
        0 => Point { x: 1, y: 0 },
        1 => Point { x: 1, y: 1 },
        2 => Point { x: 0, y: 1 },
        3 => Point { x: -1, y: 1 },
        4 => Point { x: -1, y: 0 },
        5 => Point { x: -1, y: -1 },
        6 => Point { x: 0, y: -1 },
        _ => Point { x: 1, y: -1 },
    }
}

/// Decodes one whole decompressed payload: header, components, wires, and the
/// completeness check that the payload was consumed exactly.
pub fn decode_circuit(payload: &[u8]) -> (r: Result<Circuit, DecodeError>)
    ensures
        match r {
            Ok(c) => dec_circuit(payload@) == Ok::<CircuitView, DecodeError>(c@),
            Err(e) => dec_circuit(payload@) == Err::<CircuitView, DecodeError>(e),
        },
{
    let mut cur = Cursor::new(payload);
    let header = cur.read_header()?;
    let component_count = cur.read_u64()?;
    let components = cur.read_component_list(component_count)?;
    let wire_count = cur.read_u64()?;
    let wires = cur.read_wire_list(wire_count)?;
    if cur.remaining() != 0 {
        return Err(DecodeError::TrailingBytes);
    }
    let circuit = Circuit { header, components, wires };
    proof {
        let step = dec_circuit(payload@);
        assert(step is Ok);
        assert(circuit@ =~= step.unwrap());
    }
    Ok(circuit)
}

/// Decodes a whole save file: checks the version byte, inflates the rest
/// through the decompression collaborator, and decodes the payload. Returns
/// exactly what [`spec_parse`] says for the given bytes.
pub fn parse(file: &[u8]) -> (r: Result<Circuit, DecodeError>)
    ensures
        match r {
            Ok(c) => spec_parse(file@) == Ok::<CircuitView, DecodeError>(c@),
            Err(e) => spec_parse(file@) == Err::<CircuitView, DecodeError>(e),
        },
{
    if file.len() == 0 {
        return Err(DecodeError::TruncatedInput);
    }
    let version = file[0];
    if version != FORMAT_VERSION {
        return Err(DecodeError::UnsupportedVersion(version));
    }
    let (_, compressed) = file.split_at(1);
    proof {
        assert(compressed@ =~= file@.skip(1));
    }
    match inflate(compressed) {
        Option::Some(payload) => decode_circuit(payload.as_slice()),
        Option::None => Err(DecodeError::DecompressionError),
    }
}

} // verus!
