//! Decoder for the versioned, Snappy-compressed binary save files of a
//! circuit-simulation game: a header, a list of components, and a list of
//! wires, read in one bounds-checked linear pass over the inflated payload.

pub mod decode;
pub mod format;
pub mod inflate;
pub mod kinds;
pub mod laws;
pub mod types;

pub use decode::{decode_circuit, parse, Cursor};
pub use kinds::ComponentKind;
pub use types::{
    Circuit, Component, DecodeError, Header, Point, SyncState, TagKind, Wire, WireKind,
};
