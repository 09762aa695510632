use victor::codec::{
    decode_field, encode_fixed, encode_i16, encode_i64, encode_tag, encode_u16, encode_u32,
    encode_u64, read_fixed_at, read_i16_at, read_i64_at, read_u16_at, read_u32_at, FieldCodec,
    FieldValue, FixedPoint,
};
use victor::error::ParseError;
use victor::tag::Tag;

#[test]
fn u16_round_trips_at_boundaries() {
    for v in [0u16, 1, 0x00FF, 0x0100, 0xABCD, u16::MAX] {
        let bytes = encode_u16(v);
        assert_eq!(bytes.len(), 2);
        assert_eq!(read_u16_at(&bytes, 0), v);
    }
}

#[test]
fn u32_round_trips_at_boundaries() {
    for v in [0u32, 1, 0xFF, 0x1_0000, 0xDEAD_BEEF, u32::MAX] {
        let bytes = encode_u32(v);
        assert_eq!(bytes.len(), 4);
        assert_eq!(read_u32_at(&bytes, 0), v);
    }
}

#[test]
fn i16_round_trips_at_boundaries() {
    for v in [0i16, 1, -1, 127, -128, i16::MAX, i16::MIN] {
        let bytes = encode_i16(v);
        assert_eq!(bytes.len(), 2);
        assert_eq!(read_i16_at(&bytes, 0), v);
    }
}

#[test]
fn date_time_round_trips_at_boundaries() {
    for v in [0i64, 1, -1, 2_082_844_800, i64::MAX, i64::MIN] {
        let bytes = encode_i64(v);
        assert_eq!(bytes.len(), 8);
        assert_eq!(read_i64_at(&bytes, 0), v);
    }
}

#[test]
fn fixed_point_round_trips_at_boundaries() {
    for (int_part, frac_part) in [
        (0i16, 0u16),
        (1, 0),
        (-1, 0),
        (i16::MAX, u16::MAX),
        (i16::MIN, 0),
        (5, 0x8000),
    ] {
        let f = FixedPoint { int_part, frac_part };
        let bytes = encode_fixed(f);
        assert_eq!(bytes.len(), 4);
        assert_eq!(read_fixed_at(&bytes, 0), f);
    }
}

#[test]
fn tag_round_trips() {
    let t = Tag::new(b'h', b'e', b'a', b'd');
    let bytes = encode_tag(&t);
    assert_eq!(bytes, vec![b'h', b'e', b'a', b'd']);
    match decode_field(FieldCodec::Tag, &bytes, 0) {
        Ok(FieldValue::Tag(back)) => assert_eq!(back, t),
        other => panic!("unexpected decode outcome: {:?}", other),
    }
}

#[test]
fn fixed_point_one_decodes_from_raw_bytes() {
    // Raw 0x00010000: integer part 1, fractional part 0.
    let bytes = vec![0x00u8, 0x01, 0x00, 0x00];
    let f = read_fixed_at(&bytes, 0);
    assert_eq!(f, FixedPoint { int_part: 1, frac_part: 0 });
}

#[test]
fn fixed_point_minus_one_decodes_sign_extended() {
    // Raw 0xFFFF0000: integer part -1 (sign-extended), fractional part 0.
    let bytes = vec![0xFFu8, 0xFF, 0x00, 0x00];
    let f = read_fixed_at(&bytes, 0);
    assert_eq!(f, FixedPoint { int_part: -1, frac_part: 0 });
}

#[test]
fn fixed_point_fraction_is_low_half() {
    let bytes = vec![0x00u8, 0x02, 0x80, 0x00];
    let f = read_fixed_at(&bytes, 0);
    assert_eq!(f, FixedPoint { int_part: 2, frac_part: 0x8000 });
}

#[test]
fn decode_field_reports_short_buffers() {
    let bytes = vec![0u8, 1, 2];
    assert_eq!(decode_field(FieldCodec::U32, &bytes, 0), Err(ParseError::FieldTooShort));
    assert_eq!(decode_field(FieldCodec::U16, &bytes, 2), Err(ParseError::FieldTooShort));
    assert_eq!(decode_field(FieldCodec::DateTime, &bytes, 0), Err(ParseError::FieldTooShort));
    assert_eq!(decode_field(FieldCodec::U16, &bytes, 1), Ok(FieldValue::U16(0x0102)));
}

#[test]
fn decode_field_reads_big_endian() {
    let bytes = encode_u64(0x0102_0304_0506_0708);
    assert_eq!(bytes, vec![1u8, 2, 3, 4, 5, 6, 7, 8]);
    assert_eq!(decode_field(FieldCodec::U32, &bytes, 2), Ok(FieldValue::U32(0x0304_0506)));
    assert_eq!(
        decode_field(FieldCodec::DateTime, &bytes, 0),
        Ok(FieldValue::DateTime(0x0102_0304_0506_0708))
    );
}

#[test]
fn codec_widths_match_format() {
    assert_eq!(FieldCodec::U16.width(), 2);
    assert_eq!(FieldCodec::I16.width(), 2);
    assert_eq!(FieldCodec::U32.width(), 4);
    assert_eq!(FieldCodec::FixedPoint.width(), 4);
    assert_eq!(FieldCodec::Tag.width(), 4);
    assert_eq!(FieldCodec::DateTime.width(), 8);
}
