use arcus_client::codec::{build_header, frame_count, parse_header, split_message, FrameHeader, HEADER_LEN, MTU};

fn payload(n: usize) -> Vec<u8> {
    (0..n).map(|i| (i % 251) as u8).collect()
}

fn reassemble(frames: &[Vec<u8>]) -> Vec<u8> {
    let mut out = Vec::new();
    for f in frames {
        out.extend_from_slice(&f[HEADER_LEN..]);
    }
    out
}

#[test]
fn frame_count_rounds_up() {
    assert_eq!(frame_count(0), 0);
    assert_eq!(frame_count(1), 1);
    assert_eq!(frame_count(1400), 1);
    assert_eq!(frame_count(1401), 2);
    assert_eq!(frame_count(2800), 2);
    assert_eq!(frame_count(2801), 3);
}

#[test]
fn encode_decode_round_trip_on_boundary_sizes() {
    for &n in &[0usize, 1, 1400, 1401, 2800, 2801] {
        let p = payload(n);
        let frames = build_header(7, &p);
        assert_eq!(frames.len(), (n + MTU - 1) / MTU);
        for (i, f) in frames.iter().enumerate() {
            let h = parse_header(&f[0..HEADER_LEN]);
            assert_eq!(h, FrameHeader { request_id: 7, index: i, count: frames.len() });
            assert!(f.len() - HEADER_LEN <= MTU);
        }
        assert_eq!(reassemble(&frames), p);
    }
}

#[test]
fn header_bytes_use_base_255() {
    let frames = build_header(300, &payload(10));
    assert_eq!(frames.len(), 1);
    assert_eq!(&frames[0][0..8], &[1, 45, 0, 0, 0, 1, 0, 0]);
    // 255 is written as (1, 0), not (0, 255).
    let frames = build_header(255, b"x");
    assert_eq!(&frames[0][0..2], &[1, 0]);
    // Two different byte pairs decode to 255: the encoding quirk of the wire.
    assert_eq!(parse_header(&[1, 0, 0, 0, 0, 1, 0, 0]).request_id, 255);
    assert_eq!(parse_header(&[0, 255, 0, 0, 0, 1, 0, 0]).request_id, 255);
}

#[test]
fn header_round_trip_on_field_range() {
    for &v in &[0u16, 1, 254, 255, 256, 510, 65024] {
        let frames = build_header(v, b"abc");
        assert_eq!(parse_header(&frames[0]).request_id, v as usize);
    }
    // Index and count past one byte: the 300th frame of 301.
    let p = payload(300 * MTU + 1);
    let frames = build_header(1, &p);
    assert_eq!(frames.len(), 301);
    let h = parse_header(&frames[300]);
    assert_eq!(h.index, 300);
    assert_eq!(h.count, 301);
    assert_eq!(&frames[300][2..6], &[1, 45, 1, 46]);
}

#[test]
fn request_id_past_field_range_wraps() {
    // 65280 / 255 = 256 does not fit the high byte.
    let frames = build_header(65280, b"a");
    assert_eq!(&frames[0][0..2], &[0, 0]);
    assert_ne!(parse_header(&frames[0]).request_id, 65280);
}

#[test]
fn split_message_has_no_header() {
    let p = payload(2801);
    let chunks = split_message(&p);
    assert_eq!(chunks.len(), 3);
    assert_eq!(chunks[0].len(), 1400);
    assert_eq!(chunks[1].len(), 1400);
    assert_eq!(chunks[2].len(), 1);
    assert_eq!(chunks.concat(), p);
    assert!(split_message(&[]).is_empty());
}

#[test]
fn parse_header_reads_three_fields() {
    let h = parse_header(&[0, 1, 0, 2, 0, 3, 9, 9, 42]);
    assert_eq!(h, FrameHeader { request_id: 1, index: 2, count: 3 });
}
