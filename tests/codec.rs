use h3::frame::{decode_frame, encode_frame, Frame};
use h3::settings::{
    decode_settings, encode_settings, Settings, SETTINGS_ENABLE_WEBTRANSPORT, SETTINGS_H3_DATAGRAM,
};
use h3::varint::{decode_varint, encode_varint};

fn encoded(v: u64) -> Vec<u8> {
    let mut b = Vec::new();
    encode_varint(&mut b, v);
    b
}

#[test]
fn varint_one_byte() {
    assert_eq!(encoded(37), vec![0x25]);
    assert_eq!(decode_varint(&[0x25], 0), Some((37, 1)));
}

#[test]
fn varint_two_bytes() {
    assert_eq!(encoded(15293), vec![0x7b, 0xbd]);
    assert_eq!(decode_varint(&[0x7b, 0xbd], 0), Some((15293, 2)));
}

#[test]
fn varint_four_bytes() {
    assert_eq!(encoded(494878333), vec![0x9d, 0x7f, 0x3e, 0x7d]);
    assert_eq!(decode_varint(&[0x9d, 0x7f, 0x3e, 0x7d], 0), Some((494878333, 4)));
}

#[test]
fn varint_eight_bytes() {
    let b = vec![0xc2, 0x19, 0x7c, 0x5e, 0xff, 0x14, 0xe8, 0x8c];
    assert_eq!(encoded(151288809941952652), b);
    assert_eq!(decode_varint(&b, 0), Some((151288809941952652, 8)));
}

#[test]
fn varint_non_minimal_two_byte_form() {
    assert_eq!(decode_varint(&[0x40, 0x25], 0), Some((37, 2)));
}

#[test]
fn varint_truncated() {
    assert_eq!(decode_varint(&[0x7b], 0), None);
    assert_eq!(decode_varint(&[], 0), None);
    assert_eq!(decode_varint(&[0x00, 0x9d, 0x7f], 1), None);
}

#[test]
fn varint_largest() {
    let max = (1u64 << 62) - 1;
    let b = encoded(max);
    assert_eq!(b, vec![0xff; 8]);
    assert_eq!(decode_varint(&b, 0), Some((max, 8)));
}

fn representative_settings() -> Settings {
    Settings {
        max_field_section_size: Some(1000),
        enable_connect_protocol: Some(1),
        h3_datagram: Some(1),
        enable_webtransport: Some(1),
        webtransport_max_sessions: Some(1),
    }
}

#[test]
fn settings_frame_round_trip() {
    let s = representative_settings();
    let mut b = Vec::new();
    encode_frame(&mut b, &Frame::Settings(s));
    let (f, n) = decode_frame(&b).unwrap().unwrap();
    assert_eq!(n, b.len());
    match f {
        Frame::Settings(back) => assert_eq!(back, s),
        other => panic!("unexpected frame {:?}", other),
    }
}

#[test]
fn settings_payload_bytes() {
    let s = Settings {
        max_field_section_size: Some(1000),
        enable_connect_protocol: None,
        h3_datagram: None,
        enable_webtransport: None,
        webtransport_max_sessions: None,
    };
    let mut b = Vec::new();
    encode_settings(&mut b, &s);
    assert_eq!(b, vec![0x06, 0x43, 0xe8]);
}

#[test]
fn settings_duplicate_key_is_settings_error() {
    assert_eq!(decode_settings(&[0x06, 0x01, 0x06, 0x02]), Err(0x109));
}

#[test]
fn settings_truncated_is_frame_error() {
    assert_eq!(decode_settings(&[0x06]), Err(0x106));
}

#[test]
fn settings_unknown_key_is_ignored() {
    let s = decode_settings(&[0x21, 0x05, 0x33, 0x01]).unwrap();
    assert_eq!(s.h3_datagram, Some(1));
    assert_eq!(s.max_field_section_size, None);
    assert_eq!(SETTINGS_H3_DATAGRAM, 0x33);
    assert_eq!(SETTINGS_ENABLE_WEBTRANSPORT, 0x2b603742);
}

#[test]
fn goaway_frame_bytes() {
    let mut b = Vec::new();
    encode_frame(&mut b, &Frame::Goaway(12));
    assert_eq!(b, vec![0x07, 0x01, 0x0c]);
    match decode_frame(&b).unwrap().unwrap() {
        (Frame::Goaway(12), 3) => {}
        other => panic!("unexpected {:?}", other),
    }
}

#[test]
fn headers_frame_round_trip_and_incomplete() {
    let mut b = Vec::new();
    encode_frame(&mut b, &Frame::Headers(vec![1, 2, 3]));
    assert_eq!(b, vec![0x01, 0x03, 1, 2, 3]);
    assert!(matches!(decode_frame(&b[..4]), Ok(None)));
    match decode_frame(&b).unwrap().unwrap() {
        (Frame::Headers(h), 5) => assert_eq!(h, vec![1, 2, 3]),
        other => panic!("unexpected {:?}", other),
    }
}

#[test]
fn goaway_with_trailing_bytes_is_frame_error() {
    assert!(matches!(decode_frame(&[0x07, 0x02, 0x0c, 0x00]), Err(0x106)));
}

#[test]
fn unknown_frame_is_skipped() {
    match decode_frame(&[0x21, 0x02, 0xaa, 0xbb, 0x00]).unwrap().unwrap() {
        (Frame::Unknown(0x21), 4) => {}
        other => panic!("unexpected {:?}", other),
    }
}
