//! End-to-end tests of the save-file decoder: payloads are built byte by
//! byte, compressed with the real raw Snappy codec, and handed to `parse`.

use tc_save_monger::{
    parse, Circuit, ComponentKind, DecodeError, Point, SyncState, TagKind,
};

fn push_u16(buf: &mut Vec<u8>, v: u16) {
    buf.extend_from_slice(&v.to_le_bytes());
}

fn push_u32(buf: &mut Vec<u8>, v: u32) {
    buf.extend_from_slice(&v.to_le_bytes());
}

fn push_u64(buf: &mut Vec<u8>, v: u64) {
    buf.extend_from_slice(&v.to_le_bytes());
}

fn push_i16(buf: &mut Vec<u8>, v: i16) {
    buf.extend_from_slice(&v.to_le_bytes());
}

fn push_point(buf: &mut Vec<u8>, x: i16, y: i16) {
    push_i16(buf, x);
    push_i16(buf, y);
}

fn push_str(buf: &mut Vec<u8>, s: &str) {
    push_u16(buf, s.len() as u16);
    buf.extend_from_slice(s.as_bytes());
}

/// A header with recognisable values, no dependencies, empty player data.
fn push_header(buf: &mut Vec<u8>) {
    push_u64(buf, 7); // save_id
    push_u32(buf, 9); // hub_id
    push_u64(buf, 11); // gate
    push_u64(buf, 13); // delay
    buf.push(1); // menu_visible
    push_u32(buf, 100000); // clock_speed
    push_u16(buf, 0); // dependency count
    push_str(buf, "hello"); // description
    push_point(buf, 4, -2); // camera_position
    buf.push(1); // synced
    buf.push(0); // campaign_bound
    push_u16(buf, 77); // arch_score
    push_u16(buf, 3); // player_data length
    buf.extend_from_slice(&[250, 251, 252]);
    push_str(buf, "hub"); // hub_description
}

/// The common fields of one component of the given kind tag.
fn push_component_common(buf: &mut Vec<u8>, tag: u16) {
    push_u16(buf, tag); // kind
    push_point(buf, 1, 2); // position
    buf.push(3); // rotation
    push_u64(buf, 44); // permanent_id
    push_str(buf, "name"); // custom_string
    push_u64(buf, 55); // setting_1
    push_u64(buf, 66); // setting_2
    push_i16(buf, -7); // ui_order
}

/// One wire of the given kind with the given segment bytes after its start.
fn push_wire(buf: &mut Vec<u8>, kind: u8, start: (i16, i16), segments: &[u8]) {
    buf.push(kind);
    buf.push(5); // color
    push_str(buf, "w"); // comment
    push_point(buf, start.0, start.1);
    buf.extend_from_slice(segments);
}

fn compress(payload: &[u8]) -> Vec<u8> {
    snap::raw::Encoder::new()
        .compress_vec(payload)
        .expect("compression of a test payload never fails")
}

/// A whole file: the version byte, then the compressed payload.
fn make_file(payload: &[u8]) -> Vec<u8> {
    let mut file = vec![6u8];
    file.extend_from_slice(&compress(payload));
    file
}

/// A payload holding the standard header, the given components, the given wires.
fn make_payload(components: &[Vec<u8>], wires: &[Vec<u8>]) -> Vec<u8> {
    let mut payload = Vec::new();
    push_header(&mut payload);
    push_u64(&mut payload, components.len() as u64);
    for c in components {
        payload.extend_from_slice(c);
    }
    push_u64(&mut payload, wires.len() as u64);
    for w in wires {
        payload.extend_from_slice(w);
    }
    payload
}

fn parse_ok(file: &[u8]) -> Circuit {
    parse(file).expect("this test file must decode")
}

#[test]
fn header_fields_decode_exactly() {
    let circuit = parse_ok(&make_file(&make_payload(&[], &[])));
    let h = &circuit.header;
    assert_eq!(h.save_id, 7);
    assert_eq!(h.hub_id, 9);
    assert_eq!(h.gate, 11);
    assert_eq!(h.delay, 13);
    assert!(h.menu_visible);
    assert_eq!(h.clock_speed, 100000);
    assert_eq!(h.dependencies, Vec::<u64>::new());
    assert_eq!(h.description, "hello");
    assert_eq!(h.camera_position, Point { x: 4, y: -2 });
    assert!(matches!(h.synced, SyncState::Synced));
    assert!(!h.campaign_bound);
    assert_eq!(h.arch_score, 77);
    assert_eq!(h.player_data, vec![250, 251, 252]);
    assert_eq!(h.hub_description, "hub");
    assert!(circuit.components.is_empty());
    assert!(circuit.wires.is_empty());
}

#[test]
fn dependency_order_is_preserved() {
    let mut payload = Vec::new();
    push_u64(&mut payload, 7);
    push_u32(&mut payload, 9);
    push_u64(&mut payload, 11);
    push_u64(&mut payload, 13);
    payload.push(0); // menu_visible false
    push_u32(&mut payload, 1);
    push_u16(&mut payload, 3); // three dependencies
    push_u64(&mut payload, 5);
    push_u64(&mut payload, 1);
    push_u64(&mut payload, 5);
    push_str(&mut payload, "");
    push_point(&mut payload, 0, 0);
    payload.push(2); // ChangedAfterSync
    payload.push(1); // campaign_bound true
    push_u16(&mut payload, 0);
    push_u16(&mut payload, 0); // empty player data
    push_str(&mut payload, "");
    push_u64(&mut payload, 0);
    push_u64(&mut payload, 0);
    let circuit = parse_ok(&make_file(&payload));
    assert_eq!(circuit.header.dependencies, vec![5, 1, 5]);
    assert!(!circuit.header.menu_visible);
    assert!(circuit.header.campaign_bound);
    assert!(matches!(circuit.header.synced, SyncState::ChangedAfterSync));
    assert_eq!(circuit.header.description, "");
}

#[test]
fn multibyte_utf8_strings_decode() {
    let mut payload = Vec::new();
    push_header(&mut payload);
    push_u64(&mut payload, 1);
    let mut c = Vec::new();
    push_u16(&mut c, 1); // kind Off
    push_point(&mut c, 0, 0);
    c.push(0);
    push_u64(&mut c, 1);
    push_str(&mut c, "héllo ✓");
    push_u64(&mut c, 0);
    push_u64(&mut c, 0);
    push_i16(&mut c, 0);
    payload.extend_from_slice(&c);
    push_u64(&mut payload, 0);
    let circuit = parse_ok(&make_file(&payload));
    assert_eq!(circuit.components[0].custom_string, "héllo ✓");
}

#[test]
fn wrong_version_is_rejected_before_decompression() {
    // The bytes after the version are garbage no decompressor accepts: the
    // version check must come first.
    let file = vec![5u8, 0xFF, 0xFF, 0xFF, 0xFF];
    assert_eq!(parse(&file), Err(DecodeError::UnsupportedVersion(5)));
}

#[test]
fn empty_file_is_rejected() {
    assert_eq!(parse(&[]), Err(DecodeError::TruncatedInput));
}

#[test]
fn malformed_compressed_block_is_rejected() {
    let file = vec![6u8, 0xFF, 0xFF, 0xFF, 0xFF, 0xFF];
    assert_eq!(parse(&file), Err(DecodeError::DecompressionError));
}

#[test]
fn truncated_payload_is_rejected() {
    let mut payload = Vec::new();
    push_header(&mut payload);
    push_u64(&mut payload, 1); // one component promised, none present
    assert_eq!(parse(&make_file(&payload)), Err(DecodeError::TruncatedInput));
}

#[test]
fn trailing_bytes_are_rejected() {
    let mut payload = make_payload(&[], &[]);
    payload.push(0);
    assert_eq!(parse(&make_file(&payload)), Err(DecodeError::TrailingBytes));
}

#[test]
fn invalid_utf8_is_rejected() {
    let mut payload = Vec::new();
    push_u64(&mut payload, 7);
    push_u32(&mut payload, 9);
    push_u64(&mut payload, 11);
    push_u64(&mut payload, 13);
    payload.push(1);
    push_u32(&mut payload, 1);
    push_u16(&mut payload, 0);
    push_u16(&mut payload, 1); // description of one byte
    payload.push(0xFF); // not UTF-8
    push_point(&mut payload, 0, 0);
    payload.push(0);
    payload.push(0);
    push_u16(&mut payload, 0);
    push_u16(&mut payload, 0);
    push_str(&mut payload, "");
    push_u64(&mut payload, 0);
    push_u64(&mut payload, 0);
    assert_eq!(parse(&make_file(&payload)), Err(DecodeError::InvalidUtf8));
}

#[test]
fn unknown_component_tag_is_rejected() {
    let mut c = Vec::new();
    push_component_common(&mut c, 248);
    let payload = make_payload(&[c], &[]);
    assert_eq!(
        parse(&make_file(&payload)),
        Err(DecodeError::UnknownEnumTag(TagKind::ComponentKind, 248))
    );
    let mut c = Vec::new();
    push_component_common(&mut c, 40000);
    let payload = make_payload(&[c], &[]);
    assert_eq!(
        parse(&make_file(&payload)),
        Err(DecodeError::UnknownEnumTag(TagKind::ComponentKind, 40000))
    );
}

#[test]
fn unknown_sync_state_tag_is_rejected() {
    let mut payload = Vec::new();
    push_u64(&mut payload, 7);
    push_u32(&mut payload, 9);
    push_u64(&mut payload, 11);
    push_u64(&mut payload, 13);
    payload.push(1);
    push_u32(&mut payload, 1);
    push_u16(&mut payload, 0);
    push_str(&mut payload, "");
    push_point(&mut payload, 0, 0);
    payload.push(3); // no such sync state
    payload.push(0);
    push_u16(&mut payload, 0);
    push_u16(&mut payload, 0);
    push_str(&mut payload, "");
    assert_eq!(
        parse(&make_file(&payload)),
        Err(DecodeError::UnknownEnumTag(TagKind::SyncState, 3))
    );
}

#[test]
fn unknown_wire_kind_tag_is_rejected() {
    let w = {
        let mut w = Vec::new();
        push_wire(&mut w, 5, (0, 0), &[0]);
        w
    };
    let payload = make_payload(&[], &[w]);
    assert_eq!(
        parse(&make_file(&payload)),
        Err(DecodeError::UnknownEnumTag(TagKind::WireKind, 5))
    );
}

#[test]
fn first_and_last_component_tags_decode() {
    let mut c0 = Vec::new();
    push_component_common(&mut c0, 0);
    let mut c247 = Vec::new();
    push_component_common(&mut c247, 247);
    let payload = make_payload(&[c0, c247], &[]);
    let circuit = parse_ok(&make_file(&payload));
    assert!(matches!(circuit.components[0].kind, ComponentKind::Error));
    assert!(matches!(circuit.components[1].kind, ComponentKind::Ashr64));
    assert_eq!(circuit.components[0].position, Point { x: 1, y: 2 });
    assert_eq!(circuit.components[0].rotation, 3);
    assert_eq!(circuit.components[0].permanent_id, 44);
    assert_eq!(circuit.components[0].custom_string, "name");
    assert_eq!(circuit.components[0].setting_1, 55);
    assert_eq!(circuit.components[0].setting_2, 66);
    assert_eq!(circuit.components[0].ui_order, -7);
    assert_eq!(circuit.components[0].custom_id, 0);
    assert_eq!(circuit.components[0].custom_displacement, Point { x: 0, y: 0 });
    assert!(circuit.components[0].selected_programs.is_none());
}

#[test]
fn custom_component_carries_id_and_displacement() {
    let mut c = Vec::new();
    push_component_common(&mut c, 92); // Custom
    push_u64(&mut c, 1234);
    push_point(&mut c, -5, 6);
    let payload = make_payload(&[c], &[]);
    let circuit = parse_ok(&make_file(&payload));
    let comp = &circuit.components[0];
    assert!(matches!(comp.kind, ComponentKind::Custom));
    assert_eq!(comp.custom_id, 1234);
    assert_eq!(comp.custom_displacement, Point { x: -5, y: 6 });
    assert!(comp.selected_programs.is_none());
}

#[test]
fn program_component_keeps_entries_in_file_order() {
    let mut c = Vec::new();
    push_component_common(&mut c, 94); // Program
    push_u16(&mut c, 3);
    push_u64(&mut c, 10);
    push_str(&mut c, "first");
    push_u64(&mut c, 20);
    push_str(&mut c, "second");
    push_u64(&mut c, 10); // duplicate slot identifier is legal
    push_str(&mut c, "third");
    let payload = make_payload(&[c], &[]);
    let circuit = parse_ok(&make_file(&payload));
    let programs = circuit.components[0].selected_programs.as_ref().unwrap();
    assert_eq!(
        programs,
        &vec![
            (10, "first".to_string()),
            (20, "second".to_string()),
            (10, "third".to_string()),
        ]
    );
}

#[test]
fn empty_program_list_decodes_to_empty_mapping() {
    let mut c = Vec::new();
    push_component_common(&mut c, 64); // Program8_1
    push_u16(&mut c, 0);
    let payload = make_payload(&[c], &[]);
    let circuit = parse_ok(&make_file(&payload));
    let programs = circuit.components[0].selected_programs.as_ref().unwrap();
    assert!(programs.is_empty());
    assert!(matches!(circuit.components[0].kind, ComponentKind::Program8_1));
}

#[test]
fn program8_4_component_reads_program_list() {
    let mut c = Vec::new();
    push_component_common(&mut c, 68); // Program8_4
    push_u16(&mut c, 1);
    push_u64(&mut c, 3);
    push_str(&mut c, "p");
    let payload = make_payload(&[c], &[]);
    let circuit = parse_ok(&make_file(&payload));
    assert_eq!(
        circuit.components[0].selected_programs,
        Some(vec![(3, "p".to_string())])
    );
}

#[test]
fn program_lookup_is_last_write_wins() {
    let mut c = Vec::new();
    push_component_common(&mut c, 94); // Program
    push_u16(&mut c, 3);
    push_u64(&mut c, 10);
    push_str(&mut c, "first");
    push_u64(&mut c, 20);
    push_str(&mut c, "second");
    push_u64(&mut c, 10);
    push_str(&mut c, "third");
    let payload = make_payload(&[c], &[]);
    let circuit = parse_ok(&make_file(&payload));
    let comp = &circuit.components[0];
    assert_eq!(comp.program_text(10), Some(&"third".to_string()));
    assert_eq!(comp.program_text(20), Some(&"second".to_string()));
    assert_eq!(comp.program_text(99), None);
}

#[test]
fn program_lookup_on_plain_component_is_none() {
    let mut c = Vec::new();
    push_component_common(&mut c, 1); // Off: no program entries
    let payload = make_payload(&[c], &[]);
    let circuit = parse_ok(&make_file(&payload));
    assert_eq!(circuit.components[0].program_text(0), None);
}

#[test]
fn parsing_is_deterministic() {
    let mut c = Vec::new();
    push_component_common(&mut c, 92);
    push_u64(&mut c, 1);
    push_point(&mut c, 2, 3);
    let w = {
        let mut w = Vec::new();
        push_wire(&mut w, 2, (1, 1), &[0b000_00011, 0]);
        w
    };
    let file = make_file(&make_payload(&[c], &[w]));
    let first = parse(&file).unwrap();
    let second = parse(&file).unwrap();
    assert_eq!(first, second);
}
