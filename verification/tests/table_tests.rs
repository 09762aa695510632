use victor::codec::{encode_fixed, encode_i16, encode_i64, encode_tag, encode_u16, encode_u32,
    FieldCodec, FieldValue, FixedPoint};
use victor::descriptor::{FieldDef, TableDescriptor};
use victor::error::{ParseError, SchemaError};
use victor::tag::Tag;

fn field(name: &str, offset: u32, codec: FieldCodec) -> FieldDef {
    FieldDef { name: name.to_string(), offset, codec }
}

fn sample_descriptor() -> TableDescriptor {
    TableDescriptor::new(
        Tag::new(b't', b'e', b's', b't'),
        24,
        vec![
            field("count", 0, FieldCodec::U16),
            field("delta", 2, FieldCodec::I16),
            field("magic", 4, FieldCodec::U32),
            field("scale", 8, FieldCodec::FixedPoint),
            field("ident", 12, FieldCodec::Tag),
            field("created", 16, FieldCodec::DateTime),
        ],
    )
    .expect("the sample schema is well-formed")
}

#[test]
fn validate_accepts_exact_size_and_rejects_one_byte_less() {
    let descriptor = sample_descriptor();
    let exact = vec![0u8; 24];
    assert!(descriptor.validate(&exact).is_ok());
    let one_short = vec![0u8; 23];
    match descriptor.validate(&one_short) {
        Err(ParseError::TooShort) => {}
        other => panic!("expected TooShort, got {:?}", other.map(|_| ())),
    }
    let larger = vec![0u8; 100];
    assert!(descriptor.validate(&larger).is_ok());
}

#[test]
fn validate_rejects_misaligned_schema() {
    // Built directly, bypassing the eager construction check, so the
    // re-verification inside validate has to catch it.
    let descriptor = TableDescriptor {
        tag: Tag::new(b'b', b'a', b'd', b'1'),
        byte_size: 8,
        fields: vec![field("skewed", 1, FieldCodec::U16)],
    };
    let buffer = vec![0u8; 8];
    match descriptor.validate(&buffer) {
        Err(ParseError::Misaligned) => {}
        other => panic!("expected Misaligned, got {:?}", other.map(|_| ())),
    }
}

#[test]
fn new_rejects_misaligned_fields() {
    let r = TableDescriptor::new(
        Tag::new(b'b', b'a', b'd', b'2'),
        8,
        vec![field("skewed", 2, FieldCodec::U32)],
    );
    assert_eq!(r.err(), Some(SchemaError::FieldMisaligned));
}

#[test]
fn new_rejects_fields_beyond_declared_end() {
    let r = TableDescriptor::new(
        Tag::new(b'b', b'a', b'd', b'3'),
        2,
        vec![field("wide", 0, FieldCodec::U32)],
    );
    assert!(matches!(r.err(), Some(SchemaError::FieldBeyondEnd)));
}

#[test]
fn new_rejects_overlapping_fields() {
    let r = TableDescriptor::new(
        Tag::new(b'b', b'a', b'd', b'4'),
        8,
        vec![field("wide", 0, FieldCodec::U32), field("tail", 2, FieldCodec::U16)],
    );
    assert!(matches!(r.err(), Some(SchemaError::FieldOverlap)));
}

#[test]
fn encoded_fields_decode_back_through_the_table() {
    let descriptor = sample_descriptor();
    let ident = Tag::new(b'g', b'l', b'y', b'f');
    let scale = FixedPoint { int_part: -3, frac_part: 0x4000 };

    let mut buffer: Vec<u8> = Vec::new();
    buffer.extend_from_slice(&encode_u16(0xFFFF));
    buffer.extend_from_slice(&encode_i16(i16::MIN));
    buffer.extend_from_slice(&encode_u32(0xDEAD_BEEF));
    buffer.extend_from_slice(&encode_fixed(scale));
    buffer.extend_from_slice(&encode_tag(&ident));
    buffer.extend_from_slice(&encode_i64(-2_082_844_800));
    assert_eq!(buffer.len(), 24);

    let table = descriptor.validate(&buffer).expect("the buffer covers the schema");
    assert_eq!(table.field_count(), 6);
    assert_eq!(table.read_field(0), FieldValue::U16(0xFFFF));
    assert_eq!(table.read_field(1), FieldValue::I16(i16::MIN));
    assert_eq!(table.read_field(2), FieldValue::U32(0xDEAD_BEEF));
    assert_eq!(table.read_field(3), FieldValue::Fixed(scale));
    assert_eq!(table.read_field(4), FieldValue::Tag(ident));
    assert_eq!(table.read_field(5), FieldValue::DateTime(-2_082_844_800));
}

#[test]
fn packed_layout_accumulates_offsets() {
    let descriptor = TableDescriptor::packed(
        Tag::new(b'h', b'e', b'a', b'd'),
        vec![
            ("major_version".to_string(), FieldCodec::U16),
            ("minor_version".to_string(), FieldCodec::U16),
            ("font_revision".to_string(), FieldCodec::FixedPoint),
            ("checksum_adjustment".to_string(), FieldCodec::U32),
            ("magic_number".to_string(), FieldCodec::U32),
            ("flags".to_string(), FieldCodec::U16),
            ("units_per_em".to_string(), FieldCodec::U16),
            ("created".to_string(), FieldCodec::DateTime),
            ("modified".to_string(), FieldCodec::DateTime),
        ],
    )
    .expect("the packed layout is self-aligning");
    assert_eq!(descriptor.byte_size, 36);
    assert_eq!(descriptor.fields.len(), 9);
    assert_eq!(descriptor.fields[2].offset, 4);
    assert_eq!(descriptor.fields[7].offset, 20);
    assert_eq!(descriptor.field_index(&"created".to_string()), Some(7));

    let mut buffer = vec![0u8; 36];
    buffer[20] = 0x01;
    let table = descriptor.validate(&buffer).expect("the buffer covers the schema");
    assert_eq!(table.read_field(7), FieldValue::DateTime(0x0100_0000_0000_0000));
}

#[test]
fn packed_layout_rejects_a_misaligned_accumulation() {
    let r = TableDescriptor::packed(
        Tag::new(b'b', b'a', b'd', b'5'),
        vec![
            ("half".to_string(), FieldCodec::U16),
            ("word".to_string(), FieldCodec::U32),
        ],
    );
    assert_eq!(r.err(), Some(SchemaError::FieldMisaligned));
}

#[test]
fn field_index_finds_names_and_misses_absent_ones() {
    let descriptor = sample_descriptor();
    assert_eq!(descriptor.field_index(&"magic".to_string()), Some(2));
    assert_eq!(descriptor.field_index(&"count".to_string()), Some(0));
    assert_eq!(descriptor.field_index(&"missing".to_string()), None);
}
