use frr_agent::codec::{
    decode_frame, decode_header, decode_request_text, encode_frame, genid_from_wire,
    genid_to_wire, payload_len_to_usize, FrameError,
};

fn expected_frame(genid: i64, payload: &[u8]) -> Vec<u8> {
    let mut v = Vec::new();
    v.extend_from_slice(&(payload.len() as u64).to_le_bytes());
    v.extend_from_slice(&genid.to_le_bytes());
    v.extend_from_slice(payload);
    v
}

#[test]
fn encode_keepalive_frame_bytes() {
    let frame = encode_frame(7, b"KEEPALIVE");
    assert_eq!(frame.as_ref(), expected_frame(7, b"KEEPALIVE").as_slice());
}

#[test]
fn encode_negative_genid_frame_bytes() {
    let frame = encode_frame(-1, b"x");
    assert_eq!(frame.as_ref(), expected_frame(-1, b"x").as_slice());
}

#[test]
fn encode_empty_payload() {
    let frame = encode_frame(42, b"");
    assert_eq!(frame.len(), 16);
    assert_eq!(frame.as_ref(), expected_frame(42, b"").as_slice());
}

#[test]
fn frame_round_trips() {
    for &(genid, payload) in &[
        (0i64, &b""[..]),
        (7, &b"KEEPALIVE"[..]),
        (3, &b"router bgp 65000\n!\n"[..]),
        (-1, &b"abc"[..]),
        (i64::MAX, &b"m"[..]),
        (i64::MIN, &b"n"[..]),
    ] {
        let frame = encode_frame(genid, payload);
        let (g, p) = decode_frame(frame.as_ref()).expect("decode must succeed");
        assert_eq!(g, genid);
        assert_eq!(p.as_slice(), payload);
    }
}

#[test]
fn decode_short_buffer_is_short_header() {
    let r = decode_frame(&[0u8; 10]);
    assert!(matches!(r, Err(FrameError::ShortHeader)));
}

#[test]
fn decode_length_mismatch() {
    let mut frame = expected_frame(1, b"abc");
    frame.push(0); // one trailing byte the header does not account for
    assert!(matches!(
        decode_frame(&frame),
        Err(FrameError::PayloadLengthMismatch)
    ));

    let truncated = &expected_frame(1, b"abc")[..18];
    assert!(matches!(
        decode_frame(truncated),
        Err(FrameError::PayloadLengthMismatch)
    ));
}

#[test]
fn decode_header_reads_fields() {
    let frame = expected_frame(-9, b"hello");
    let (len, genid) = decode_header(&frame[..16]).expect("header must decode");
    assert_eq!(len, 5);
    assert_eq!(genid, -9);
}

#[test]
fn decode_header_wrong_size() {
    assert!(matches!(
        decode_header(&[0u8; 15]),
        Err(FrameError::ShortHeader)
    ));
    assert!(matches!(
        decode_header(&[0u8; 17]),
        Err(FrameError::ShortHeader)
    ));
}

#[test]
fn request_text_utf8() {
    let s = decode_request_text(b"router bgp 65000".to_vec()).expect("valid utf8");
    assert_eq!(s, "router bgp 65000");
}

#[test]
fn request_text_rejects_bad_utf8() {
    let r = decode_request_text(vec![0xff, 0xfe]);
    assert!(matches!(r, Err(FrameError::PayloadNotUtf8)));
}

#[test]
fn genid_wire_conversions() {
    assert_eq!(genid_to_wire(0), 0);
    assert_eq!(genid_to_wire(7), 7);
    assert_eq!(genid_to_wire(-1), u64::MAX);
    assert_eq!(genid_to_wire(i64::MIN), 0x8000_0000_0000_0000);
    for &g in &[0i64, 7, -1, -12345, i64::MIN, i64::MAX] {
        assert_eq!(genid_from_wire(genid_to_wire(g)), g);
        assert_eq!(genid_to_wire(g), g as u64);
    }
}

#[test]
fn payload_len_fits_platform_size() {
    assert_eq!(payload_len_to_usize(0), Some(0));
    assert_eq!(payload_len_to_usize(4096), Some(4096));
    assert_eq!(payload_len_to_usize(usize::MAX as u64), Some(usize::MAX));
}
