use victor::codec::{encode_u16, encode_u32, FieldCodec, FieldValue};
use victor::descriptor::{FieldDef, TableDescriptor};
use victor::directory::{parse_directory, resolve_table, DirectoryEntry, Registry};
use victor::error::ParseError;
use victor::tag::Tag;

fn directory_with_one_entry(tag: Tag, offset: u32, length: u32, total_len: usize) -> Vec<u8> {
    let mut buffer: Vec<u8> = Vec::new();
    buffer.extend_from_slice(&encode_u16(1));
    buffer.push(tag.b0);
    buffer.push(tag.b1);
    buffer.push(tag.b2);
    buffer.push(tag.b3);
    buffer.extend_from_slice(&encode_u32(offset));
    buffer.extend_from_slice(&encode_u32(length));
    let mut filler: u8 = 0xA0;
    while buffer.len() < total_len {
        buffer.push(filler);
        filler = filler.wrapping_add(1);
    }
    buffer
}

#[test]
fn parse_reads_count_and_records() {
    let tag = Tag::new(b'a', b'b', b'c', b'd');
    let buffer = directory_with_one_entry(tag, 14, 6, 20);
    let entries = parse_directory(&buffer).expect("a complete directory parses");
    assert_eq!(entries, vec![DirectoryEntry { tag, offset: 14, length: 6 }]);
}

#[test]
fn parse_rejects_truncated_header() {
    assert_eq!(parse_directory(&[]), Err(ParseError::TooShort));
    assert_eq!(parse_directory(&[0u8]), Err(ParseError::TooShort));
}

#[test]
fn parse_rejects_truncated_records() {
    // A count of 2 with only one 12-byte record present.
    let mut buffer = directory_with_one_entry(Tag::new(b'a', b'b', b'c', b'd'), 0, 0, 14);
    buffer[1] = 2;
    assert_eq!(parse_directory(&buffer), Err(ParseError::TooShort));
}

#[test]
fn entry_ending_exactly_at_buffer_end_parses() {
    let tag = Tag::new(b'a', b'b', b'c', b'd');
    // offset + length == buffer length exactly.
    let buffer = directory_with_one_entry(tag, 14, 6, 20);
    assert_eq!(buffer.len(), 20);
    assert!(parse_directory(&buffer).is_ok());
}

#[test]
fn entry_ending_one_past_buffer_end_is_out_of_bounds() {
    let tag = Tag::new(b'a', b'b', b'c', b'd');
    // offset + length == buffer length + 1.
    let buffer = directory_with_one_entry(tag, 14, 7, 20);
    assert_eq!(parse_directory(&buffer), Err(ParseError::EntryOutOfBounds));
}

#[test]
fn parse_is_repeatable_over_the_same_buffer() {
    let tag = Tag::new(b'w', b'x', b'y', b'z');
    let buffer = directory_with_one_entry(tag, 2, 12, 20);
    let first = parse_directory(&buffer);
    let second = parse_directory(&buffer);
    assert_eq!(first, second);
}

#[test]
fn lookup_of_unregistered_tag_is_absent_not_an_error() {
    let mut registry = Registry::new();
    assert!(registry.lookup(Tag::new(b'n', b'o', b'n', b'e')).is_none());
    let descriptor = TableDescriptor::new(Tag::new(b'a', b'b', b'c', b'd'), 4, vec![])
        .expect("an empty schema is well-formed");
    registry.register(descriptor);
    assert!(registry.lookup(Tag::new(b'n', b'o', b'n', b'e')).is_none());
    assert!(registry.lookup(Tag::new(b'a', b'b', b'c', b'd')).is_some());
}

#[test]
fn resolve_of_unknown_tag_is_absent() {
    let registry = Registry::new();
    let buffer = vec![0u8; 8];
    let entry = DirectoryEntry { tag: Tag::new(b'a', b'b', b'c', b'd'), offset: 0, length: 8 };
    match resolve_table(&registry, &entry, &buffer) {
        Ok(None) => {}
        _ => panic!("an unregistered tag must resolve to an absent table"),
    }
}

#[test]
fn resolve_rejects_out_of_bounds_entry() {
    let registry = Registry::new();
    let buffer = vec![0u8; 8];
    let entry = DirectoryEntry { tag: Tag::new(b'a', b'b', b'c', b'd'), offset: 4, length: 5 };
    match resolve_table(&registry, &entry, &buffer) {
        Err(ParseError::EntryOutOfBounds) => {}
        _ => panic!("a range past the buffer must be rejected"),
    }
}

#[test]
fn one_entry_table_reads_through_end_to_end() {
    // A directory declaring one entry {tag "abcd", offset 12, length 8},
    // with the table region lying at absolute offsets 12..20.
    let tag = Tag::new(b'a', b'b', b'c', b'd');
    let buffer = directory_with_one_entry(tag, 12, 8, 20);

    let mut registry = Registry::new();
    let descriptor = TableDescriptor::new(
        tag,
        4,
        vec![FieldDef { name: "value".to_string(), offset: 0, codec: FieldCodec::U32 }],
    )
    .expect("a single aligned field is well-formed");
    registry.register(descriptor);

    let entries = parse_directory(&buffer).expect("the directory is complete");
    assert_eq!(entries.len(), 1);
    let table = resolve_table(&registry, &entries[0], &buffer)
        .expect("the entry lies inside the buffer")
        .expect("the tag is registered");

    // The field must read back the 4 bytes at absolute offset 12,
    // big-endian: the last two length bytes then the first two filler
    // bytes.
    let expected = u32::from_be_bytes([buffer[12], buffer[13], buffer[14], buffer[15]]);
    assert_eq!(table.read_field(0), FieldValue::U32(expected));
    assert_eq!(expected, 0x0008_A0A1);

    // A second, independent resolution over the same immutable buffer
    // and registry reads the same value.
    let again = resolve_table(&registry, &entries[0], &buffer)
        .expect("the entry lies inside the buffer")
        .expect("the tag is registered");
    assert_eq!(again.read_field(0), table.read_field(0));
}
