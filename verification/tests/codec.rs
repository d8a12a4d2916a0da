use sparkfun_otos::driver::codec::{i16_from_le_bytes, i16_to_le_bytes};
use sparkfun_otos::RawPose;

#[test]
fn le_bytes_of_small_and_negative_numbers() {
    assert_eq!(i16_to_le_bytes(0), (0, 0));
    assert_eq!(i16_to_le_bytes(1), (1, 0));
    assert_eq!(i16_to_le_bytes(0x1234), (0x34, 0x12));
    assert_eq!(i16_to_le_bytes(-1), (0xff, 0xff));
    assert_eq!(i16_to_le_bytes(i16::MIN), (0x00, 0x80));
    assert_eq!(i16_to_le_bytes(i16::MAX), (0xff, 0x7f));
}

#[test]
fn le_bytes_agree_with_std() {
    for v in [i16::MIN, -12345, -256, -255, -1, 0, 1, 255, 256, 12345, i16::MAX] {
        let (lo, hi) = i16_to_le_bytes(v);
        assert_eq!([lo, hi], v.to_le_bytes());
        assert_eq!(i16_from_le_bytes(lo, hi), i16::from_le_bytes([lo, hi]));
        assert_eq!(i16_from_le_bytes(lo, hi), v);
    }
}

#[test]
fn from_le_bytes_reads_sign() {
    assert_eq!(i16_from_le_bytes(0x00, 0x80), -32768);
    assert_eq!(i16_from_le_bytes(0xff, 0x7f), 32767);
    assert_eq!(i16_from_le_bytes(0xfe, 0xff), -2);
    assert_eq!(i16_from_le_bytes(0x34, 0x12), 0x1234);
}

#[test]
fn pose_encode_layout() {
    let p = RawPose::new(0x0102, -2, 0x7f00);
    assert_eq!(p.encode(), [0x02, 0x01, 0xfe, 0xff, 0x00, 0x7f]);
}

#[test]
fn pose_parse_layout() {
    let p = RawPose::parse(&[0x02, 0x01, 0xfe, 0xff, 0x00, 0x7f]);
    assert_eq!(p, RawPose { x: 0x0102, y: -2, h: 0x7f00 });
}

#[test]
fn pose_round_trip_on_values() {
    for p in [
        RawPose::new(0, 0, 0),
        RawPose::new(-1, 1, i16::MIN),
        RawPose::new(i16::MAX, i16::MIN, 178),
    ] {
        assert_eq!(RawPose::parse(&p.encode()), p);
    }
    let bytes = [0xbb; 6];
    assert_eq!(RawPose::parse(&bytes).encode(), bytes);
}

#[test]
fn offset_example_bytes() {
    // 54.5 mm forward and a quarter turn, as register counts.
    let p = RawPose::new(0, 178, 16384);
    assert_eq!(p.encode(), [0, 0, 178, 0, 0, 64]);
}

#[test]
fn pose_parse_at_offset() {
    let mut data = vec![9u8, 9];
    let mut out = Vec::new();
    RawPose::new(5, -5, 300).encode_into(&mut out);
    data.extend_from_slice(&out);
    assert_eq!(RawPose::parse_at(&data, 2), RawPose::new(5, -5, 300));
}

#[test]
fn encode_into_appends() {
    let mut out = vec![7u8];
    RawPose::new(1, 2, 3).encode_into(&mut out);
    assert_eq!(out, vec![7, 1, 0, 2, 0, 3, 0]);
}
