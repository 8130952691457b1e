//! Tests of wire-path reconstruction, the point arithmetic it rests on, and
//! the large regression fixture.

use tc_save_monger::{parse, Circuit, Point, WireKind};

fn push_u16(buf: &mut Vec<u8>, v: u16) {
    buf.extend_from_slice(&v.to_le_bytes());
}

fn push_u32(buf: &mut Vec<u8>, v: u32) {
    buf.extend_from_slice(&v.to_le_bytes());
}

fn push_u64(buf: &mut Vec<u8>, v: u64) {
    buf.extend_from_slice(&v.to_le_bytes());
}

fn push_i16(buf: &mut Vec<u8>, v: i16) {
    buf.extend_from_slice(&v.to_le_bytes());
}

fn push_point(buf: &mut Vec<u8>, x: i16, y: i16) {
    push_i16(buf, x);
    push_i16(buf, y);
}

fn push_str(buf: &mut Vec<u8>, s: &str) {
    push_u16(buf, s.len() as u16);
    buf.extend_from_slice(s.as_bytes());
}

fn push_header_with_clock(buf: &mut Vec<u8>, clock_speed: u32) {
    push_u64(buf, 7);
    push_u32(buf, 9);
    push_u64(buf, 11);
    push_u64(buf, 13);
    buf.push(1);
    push_u32(buf, clock_speed);
    push_u16(buf, 0);
    push_str(buf, "");
    push_point(buf, 0, 0);
    buf.push(0);
    buf.push(0);
    push_u16(buf, 0);
    push_u16(buf, 0);
    push_str(buf, "");
}

fn push_minimal_component(buf: &mut Vec<u8>) {
    push_u16(buf, 1); // kind Off
    push_point(buf, 0, 0);
    buf.push(0);
    push_u64(buf, 0);
    push_str(buf, "");
    push_u64(buf, 0);
    push_u64(buf, 0);
    push_i16(buf, 0);
}

fn make_file(payload: &[u8]) -> Vec<u8> {
    let mut file = vec![6u8];
    file.extend_from_slice(
        &snap::raw::Encoder::new()
            .compress_vec(payload)
            .expect("compression of a test payload never fails"),
    );
    file
}

/// A payload with the minimal header, no components, and one wire whose path
/// starts at `start` and continues with the given segment bytes.
fn one_wire_payload(start: (i16, i16), segments: &[u8]) -> Vec<u8> {
    let mut payload = Vec::new();
    push_header_with_clock(&mut payload, 1);
    push_u64(&mut payload, 0);
    push_u64(&mut payload, 1);
    payload.push(3); // WireKind::Width32
    payload.push(9); // color
    push_str(&mut payload, "note");
    push_point(&mut payload, start.0, start.1);
    payload.extend_from_slice(segments);
    payload
}

fn parse_one_wire(start: (i16, i16), segments: &[u8]) -> Circuit {
    parse(&make_file(&one_wire_payload(start, segments))).expect("this test wire must decode")
}

#[test]
fn zero_segment_ends_path_without_vertex() {
    let circuit = parse_one_wire((2, -3), &[0]);
    let wire = &circuit.wires[0];
    assert!(matches!(wire.kind, WireKind::Width32));
    assert_eq!(wire.color, 9);
    assert_eq!(wire.comment, "note");
    assert_eq!(wire.path, vec![Point { x: 2, y: -3 }]);
}

#[test]
fn direction_and_run_decode() {
    // East with run 3 from the origin, then north-east with run 2.
    let circuit = parse_one_wire((0, 0), &[0b000_00011, 0b001_00010, 0]);
    assert_eq!(
        circuit.wires[0].path,
        vec![
            Point { x: 0, y: 0 },
            Point { x: 3, y: 0 },
            Point { x: 5, y: 2 },
        ]
    );
}

#[test]
fn all_eight_directions_step_as_unit_vectors() {
    // One run-1 segment per direction; with run 1 none of these bytes is the
    // teleport marker.
    let mut segments = Vec::new();
    for d in 0..8u8 {
        segments.push((d << 5) | 1);
    }
    segments.push(0);
    let circuit = parse_one_wire((0, 0), &segments);
    let deltas = [
        (1, 0),
        (1, 1),
        (0, 1),
        (-1, 1),
        (-1, 0),
        (-1, -1),
        (0, -1),
        (1, -1),
    ];
    let path = &circuit.wires[0].path;
    assert_eq!(path.len(), 9);
    let mut x: i16 = 0;
    let mut y: i16 = 0;
    for (k, (dx, dy)) in deltas.iter().enumerate() {
        x += dx;
        y += dy;
        assert_eq!(path[k + 1], Point { x, y });
    }
}

#[test]
fn long_runs_accumulate_across_segments() {
    // Two east segments of runs 31 and 5: a straight run of 36.
    let circuit = parse_one_wire((0, 0), &[0b000_11111, 0b000_00101, 0]);
    assert_eq!(
        circuit.wires[0].path,
        vec![
            Point { x: 0, y: 0 },
            Point { x: 31, y: 0 },
            Point { x: 36, y: 0 },
        ]
    );
}

#[test]
fn teleport_yields_two_point_path() {
    let mut segments = vec![0b0010_0000u8];
    segments.extend_from_slice(&100i16.to_le_bytes());
    segments.extend_from_slice(&(-200i16).to_le_bytes());
    let circuit = parse_one_wire((1, 2), &segments);
    assert_eq!(
        circuit.wires[0].path,
        vec![Point { x: 1, y: 2 }, Point { x: 100, y: -200 }]
    );
}

#[test]
fn teleport_ignores_would_be_segment_bytes() {
    // The same absolute target, but the two bytes after it would read as
    // further segments if the teleport did not terminate the path.
    let mut with_tail = vec![0b0010_0000u8];
    with_tail.extend_from_slice(&100i16.to_le_bytes());
    with_tail.extend_from_slice(&(-200i16).to_le_bytes());
    // A second wire consumes those would-be segment bytes instead.
    let mut payload = Vec::new();
    push_header_with_clock(&mut payload, 1);
    push_u64(&mut payload, 0);
    push_u64(&mut payload, 2);
    payload.push(0);
    payload.push(0);
    push_str(&mut payload, "");
    push_point(&mut payload, 1, 2);
    payload.extend_from_slice(&with_tail);
    payload.push(0);
    payload.push(0);
    push_str(&mut payload, "");
    push_point(&mut payload, 0, 0);
    payload.extend_from_slice(&[0b000_00001, 0]);
    let circuit = parse(&make_file(&payload)).expect("both wires must decode");
    assert_eq!(
        circuit.wires[0].path,
        vec![Point { x: 1, y: 2 }, Point { x: 100, y: -200 }]
    );
    assert_eq!(
        circuit.wires[1].path,
        vec![Point { x: 0, y: 0 }, Point { x: 1, y: 0 }]
    );
}

#[test]
fn path_coordinates_wrap_on_overflow() {
    // One east step of run 1 from the largest x coordinate.
    let circuit = parse_one_wire((32767, 0), &[0b000_00001, 0]);
    assert_eq!(
        circuit.wires[0].path,
        vec![Point { x: 32767, y: 0 }, Point { x: -32768, y: 0 }]
    );
}

#[test]
fn point_add_translates_and_wraps() {
    let mut p = Point { x: 10, y: -20 };
    p.add(&Point { x: -3, y: 5 });
    assert_eq!(p, Point { x: 7, y: -15 });
    let mut q = Point { x: 32767, y: -32768 };
    q.add(&Point { x: 1, y: -1 });
    assert_eq!(q, Point { x: -32768, y: 32767 });
}

#[test]
fn point_mul_scales_and_wraps() {
    let mut p = Point { x: 3, y: -4 };
    p.mul(5);
    assert_eq!(p, Point { x: 15, y: -20 });
    let mut q = Point { x: 16384, y: 0 };
    q.mul(2);
    assert_eq!(q, Point { x: -32768, y: 0 });
}

#[test]
fn large_circuit_regression() {
    // A synthetic stand-in for the known sample save: the header's clock
    // speed, 1623 components and 6591 wires, decoded twice with equal results.
    let mut payload = Vec::new();
    push_header_with_clock(&mut payload, 100000);
    push_u64(&mut payload, 1623);
    for _ in 0..1623 {
        push_minimal_component(&mut payload);
    }
    push_u64(&mut payload, 6591);
    for k in 0..6591u32 {
        payload.push((k % 5) as u8); // wire kind
        payload.push((k % 256) as u8); // color
        push_str(&mut payload, "");
        push_point(&mut payload, (k % 100) as i16, 0);
        payload.extend_from_slice(&[0b000_00010, 0b010_00011, 0]);
    }
    let file = make_file(&payload);
    let circuit = parse(&file).expect("the regression fixture must decode");
    assert_eq!(circuit.header.clock_speed, 100000);
    assert_eq!(circuit.components.len(), 1623);
    assert_eq!(circuit.wires.len(), 6591);
    let again = parse(&file).expect("the regression fixture must decode twice");
    assert_eq!(circuit, again);
    assert_eq!(
        circuit.wires[0].path,
        vec![
            Point { x: 0, y: 0 },
            Point { x: 2, y: 0 },
            Point { x: 2, y: 3 },
        ]
    );
}
