//! Per-primitive decode and encode rules.
//!
//! Every multi-byte value is big-endian. Decoding is total bar an explicit
//! `FieldTooShort` failure; out-of-range values are preserved as-is, since
//! the binary format does not forbid them. Each codec has an encoding
//! inverse, proved exact by the round-trip lemmas at the end of this file.

use vstd::prelude::*;

use crate::error::ParseError;
use crate::tag::{spec_tag_at, Tag};

verus! {

/// The decode rule of one primitive field category.
#[derive(Clone, Copy, Debug, PartialEq, Eq, Structural)]
pub enum FieldCodec {
    /// 2-byte unsigned integer.
    U16,
    /// 2-byte signed integer (two's complement).
    I16,
    /// 4-byte unsigned integer.
    U32,
    /// 4-byte signed 16.16 fixed-point number.
    FixedPoint,
    /// 4 raw tag bytes.
    Tag,
    /// 8-byte signed count of seconds since the format's epoch.
    DateTime,
}

/// A decoded 16.16 fixed-point number: `int_part + frac_part / 65536`.
#[derive(Clone, Copy, Debug, PartialEq, Eq, Structural)]
pub struct FixedPoint {
    /// The sign-extended high 16 bits.
    pub int_part: i16,
    /// The low 16 bits, a fraction over 65536.
    pub frac_part: u16,
}

/// One decoded field, tagged by its codec's category.
#[derive(Clone, Copy, Debug, PartialEq, Eq, Structural)]
pub enum FieldValue {
    U16(u16),
    I16(i16),
    U32(u32),
    Fixed(FixedPoint),
    Tag(Tag),
    DateTime(i64),
}

impl FieldCodec {
    /// How many bytes the codec consumes.
    pub open spec fn spec_width(self) -> nat {
        match self {
            FieldCodec::U16 => 2,
            FieldCodec::I16 => 2,
            FieldCodec::U32 => 4,
            FieldCodec::FixedPoint => 4,
            FieldCodec::Tag => 4,
            FieldCodec::DateTime => 8,
        }
    }

    /// The divisor the codec's field offset must satisfy: the field's
    /// natural alignment, `min(width, 4)`.
    pub open spec fn spec_align(self) -> nat {
        if self.spec_width() < 4 {
            self.spec_width()
        } else {
            4
        }
    }

    /// How many bytes the codec consumes.
    pub fn width(&self) -> (w: usize)
        ensures
            w == self.spec_width(),
    {
        match self {
            FieldCodec::U16 => 2,
            FieldCodec::I16 => 2,
            FieldCodec::U32 => 4,
            FieldCodec::FixedPoint => 4,
            FieldCodec::Tag => 4,
            FieldCodec::DateTime => 8,
        }
    }

    /// The field's natural alignment, `min(width, 4)`.
    pub fn align(&self) -> (a: usize)
        ensures
            a == self.spec_align(),
    {
        match self {
            FieldCodec::U16 => 2,
            FieldCodec::I16 => 2,
            _ => 4,
        }
    }
}

/// The unsigned big-endian value of the 2 bytes at `offset`.
pub open spec fn spec_be_u16(s: Seq<u8>, offset: int) -> int
    recommends
        0 <= offset,
        offset + 2 <= s.len(),
{
    s[offset] * 0x100 + s[offset + 1]
}

/// The unsigned big-endian value of the 4 bytes at `offset`.
pub open spec fn spec_be_u32(s: Seq<u8>, offset: int) -> int
    recommends
        0 <= offset,
        offset + 4 <= s.len(),
{
    s[offset] * 0x100_0000 + s[offset + 1] * 0x1_0000 + s[offset + 2] * 0x100 + s[offset + 3]
}

/// The unsigned big-endian value of the 8 bytes at `offset`.
pub open spec fn spec_be_u64(s: Seq<u8>, offset: int) -> int
    recommends
        0 <= offset,
        offset + 8 <= s.len(),
{
    spec_be_u32(s, offset) * 0x1_0000_0000 + spec_be_u32(s, offset + 4)
}

/// The two's-complement reading of an unsigned 16-bit value.
pub open spec fn spec_i16_of_raw(raw: int) -> int
    recommends
        0 <= raw < 0x1_0000,
{
    if raw < 0x8000 {
        raw
    } else {
        raw - 0x1_0000
    }
}

/// The two's-complement reading of an unsigned 64-bit value.
pub open spec fn spec_i64_of_raw(raw: int) -> int
    recommends
        0 <= raw < 0x1_0000_0000_0000_0000,
{
    if raw < 0x8000_0000_0000_0000 {
        raw
    } else {
        raw - 0x1_0000_0000_0000_0000
    }
}

/// The 16.16 split of a raw 4-byte value: integer part is the high half,
/// sign-extended; fractional part is the low half.
pub open spec fn spec_fixed_of_raw(raw: int) -> FixedPoint
    recommends
        0 <= raw < 0x1_0000_0000,
{
    FixedPoint {
        int_part: spec_i16_of_raw(raw / 0x1_0000) as i16,
        frac_part: (raw % 0x1_0000) as u16,
    }
}

/// What decoding with `codec` at `offset` yields.
pub open spec fn spec_field_value(codec: FieldCodec, s: Seq<u8>, offset: int) -> FieldValue
    recommends
        0 <= offset,
        offset + codec.spec_width() <= s.len(),
{
    match codec {
        FieldCodec::U16 => FieldValue::U16(spec_be_u16(s, offset) as u16),
        FieldCodec::I16 => FieldValue::I16(spec_i16_of_raw(spec_be_u16(s, offset)) as i16),
        FieldCodec::U32 => FieldValue::U32(spec_be_u32(s, offset) as u32),
        FieldCodec::FixedPoint => FieldValue::Fixed(spec_fixed_of_raw(spec_be_u32(s, offset))),
        FieldCodec::Tag => FieldValue::Tag(spec_tag_at(s, offset)),
        FieldCodec::DateTime => FieldValue::DateTime(
            spec_i64_of_raw(spec_be_u64(s, offset)) as i64,
        ),
    }
}

/// Read the 2-byte big-endian integer at `offset`; the bounds are already
/// established by the caller's validation.
pub fn read_u16_at(bytes: &[u8], offset: usize) -> (r: u16)
    requires
        offset + 2 <= bytes.len(),
    ensures
        r == spec_be_u16(bytes@, offset as int),
{
    let b0 = *vstd::slice::slice_index_get(bytes, offset);
    let b1 = *vstd::slice::slice_index_get(bytes, offset + 1);
    (b0 as u16) * 0x100 + (b1 as u16)
}

/// Read the 4-byte big-endian integer at `offset`.
pub fn read_u32_at(bytes: &[u8], offset: usize) -> (r: u32)
    requires
        offset + 4 <= bytes.len(),
    ensures
        r == spec_be_u32(bytes@, offset as int),
{
    let b0 = *vstd::slice::slice_index_get(bytes, offset);
    let b1 = *vstd::slice::slice_index_get(bytes, offset + 1);
    let b2 = *vstd::slice::slice_index_get(bytes, offset + 2);
    let b3 = *vstd::slice::slice_index_get(bytes, offset + 3);
    (b0 as u32) * 0x100_0000 + (b1 as u32) * 0x1_0000 + (b2 as u32) * 0x100 + (b3 as u32)
}

/// Read the 8-byte big-endian integer at `offset`.
pub fn read_u64_at(bytes: &[u8], offset: usize) -> (r: u64)
    requires
        offset + 8 <= bytes.len(),
    ensures
        r == spec_be_u64(bytes@, offset as int),
{
    let hi = read_u32_at(bytes, offset);
    let lo = read_u32_at(bytes, offset + 4);
    (hi as u64) * 0x1_0000_0000 + (lo as u64)
}

/// Read the 2-byte two's-complement integer at `offset`.
pub fn read_i16_at(bytes: &[u8], offset: usize) -> (r: i16)
    requires
        offset + 2 <= bytes.len(),
    ensures
        r == spec_i16_of_raw(spec_be_u16(bytes@, offset as int)),
{
    let raw = read_u16_at(bytes, offset);
    if raw < 0x8000 {
        raw as i16
    } else {
        ((raw as i32) - 0x1_0000) as i16
    }
}

/// Read the 8-byte two's-complement integer at `offset`.
pub fn read_i64_at(bytes: &[u8], offset: usize) -> (r: i64)
    requires
        offset + 8 <= bytes.len(),
    ensures
        r == spec_i64_of_raw(spec_be_u64(bytes@, offset as int)),
{
    let raw = read_u64_at(bytes, offset);
    if raw < 0x8000_0000_0000_0000 {
        raw as i64
    } else {
        -((0xFFFF_FFFF_FFFF_FFFF - raw) as i64) - 1
    }
}

/// Read the 16.16 fixed-point number at `offset`.
pub fn read_fixed_at(bytes: &[u8], offset: usize) -> (r: FixedPoint)
    requires
        offset + 4 <= bytes.len(),
    ensures
        r == spec_fixed_of_raw(spec_be_u32(bytes@, offset as int)),
{
    let raw = read_u32_at(bytes, offset);
    let high: u16 = (raw / 0x1_0000) as u16;
    let low: u16 = (raw % 0x1_0000) as u16;
    let int_part: i16 = if high < 0x8000 {
        high as i16
    } else {
        ((high as i32) - 0x1_0000) as i16
    };
    FixedPoint { int_part, frac_part: low }
}

/// Read the 4 tag bytes at `offset`.
pub fn read_tag_at(bytes: &[u8], offset: usize) -> (r: Tag)
    requires
        offset + 4 <= bytes.len(),
    ensures
        r == spec_tag_at(bytes@, offset as int),
{
    Tag {
        b0: *vstd::slice::slice_index_get(bytes, offset),
        b1: *vstd::slice::slice_index_get(bytes, offset + 1),
        b2: *vstd::slice::slice_index_get(bytes, offset + 2),
        b3: *vstd::slice::slice_index_get(bytes, offset + 3),
    }
}

/// The big-endian encoding of a 16-bit unsigned value.
pub open spec fn spec_encode_u16(v: u16) -> Seq<u8> {
    seq![(v / 0x100) as u8, (v % 0x100) as u8]
}

/// The big-endian encoding of a 32-bit unsigned value.
pub open spec fn spec_encode_u32(v: u32) -> Seq<u8> {
    seq![
        (v / 0x100_0000) as u8,
        ((v / 0x1_0000) % 0x100) as u8,
        ((v / 0x100) % 0x100) as u8,
        (v % 0x100) as u8,
    ]
}

/// The big-endian encoding of a 64-bit unsigned value.
pub open spec fn spec_encode_u64(v: u64) -> Seq<u8> {
    spec_encode_u32((v / 0x1_0000_0000) as u32) + spec_encode_u32((v % 0x1_0000_0000) as u32)
}

/// The unsigned 16-bit carrier of a two's-complement value.
pub open spec fn spec_raw_of_i16(v: i16) -> int {
    if v >= 0 {
        v as int
    } else {
        v + 0x1_0000
    }
}

/// The unsigned 64-bit carrier of a two's-complement value.
pub open spec fn spec_raw_of_i64(v: i64) -> int {
    if v >= 0 {
        v as int
    } else {
        v + 0x1_0000_0000_0000_0000
    }
}

/// The raw 4-byte carrier of a 16.16 fixed-point value.
pub open spec fn spec_raw_of_fixed(f: FixedPoint) -> int {
    spec_raw_of_i16(f.int_part) * 0x1_0000 + f.frac_part
}

/// Encode a 16-bit unsigned value, big-endian.
pub fn encode_u16(v: u16) -> (r: Vec<u8>)
    ensures
        r@ == spec_encode_u16(v),
{
    let mut out: Vec<u8> = Vec::new();
    out.push((v / 0x100) as u8);
    out.push((v % 0x100) as u8);
    proof {
        assert(out@ =~= spec_encode_u16(v));
    }
    out
}

/// Encode a 32-bit unsigned value, big-endian.
pub fn encode_u32(v: u32) -> (r: Vec<u8>)
    ensures
        r@ == spec_encode_u32(v),
{
    let mut out: Vec<u8> = Vec::new();
    out.push((v / 0x100_0000) as u8);
    out.push(((v / 0x1_0000) % 0x100) as u8);
    out.push(((v / 0x100) % 0x100) as u8);
    out.push((v % 0x100) as u8);
    proof {
        assert(out@ =~= spec_encode_u32(v));
    }
    out
}

/// Encode a 64-bit unsigned value, big-endian.
pub fn encode_u64(v: u64) -> (r: Vec<u8>)
    ensures
        r@ == spec_encode_u64(v),
{
    let mut out = encode_u32((v / 0x1_0000_0000) as u32);
    let mut low = encode_u32((v % 0x1_0000_0000) as u32);
    out.append(&mut low);
    proof {
        assert(out@ =~= spec_encode_u64(v));
    }
    out
}

/// Encode a 16-bit two's-complement value, big-endian.
pub fn encode_i16(v: i16) -> (r: Vec<u8>)
    ensures
        r@ == spec_encode_u16(spec_raw_of_i16(v) as u16),
{
    let raw: u16 = if v >= 0 {
        v as u16
    } else {
        ((v as i32) + 0x1_0000) as u16
    };
    encode_u16(raw)
}

/// Encode a 64-bit two's-complement value, big-endian.
pub fn encode_i64(v: i64) -> (r: Vec<u8>)
    ensures
        r@ == spec_encode_u64(spec_raw_of_i64(v) as u64),
{
    let raw: u64 = if v >= 0 {
        v as u64
    } else {
        (0xFFFF_FFFF_FFFF_FFFF - ((-(v + 1)) as u64))
    };
    proof {
        assert(raw == spec_raw_of_i64(v));
    }
    encode_u64(raw)
}

/// Encode a 16.16 fixed-point value as its raw 4 bytes, big-endian.
pub fn encode_fixed(f: FixedPoint) -> (r: Vec<u8>)
    ensures
        r@ == spec_encode_u32(spec_raw_of_fixed(f) as u32),
{
    let high: u16 = if f.int_part >= 0 {
        f.int_part as u16
    } else {
        ((f.int_part as i32) + 0x1_0000) as u16
    };
    let raw: u32 = (high as u32) * 0x1_0000 + (f.frac_part as u32);
    encode_u32(raw)
}

/// Encode a tag: its 4 bytes in buffer order.
pub fn encode_tag(t: &Tag) -> (r: Vec<u8>)
    ensures
        r@ == t@,
{
    let mut out: Vec<u8> = Vec::new();
    out.push(t.b0);
    out.push(t.b1);
    out.push(t.b2);
    out.push(t.b3);
    proof {
        assert(out@ =~= t@);
    }
    out
}

/// Decoding a 16-bit value from its encoding gives the value back, for
/// every representable value.
pub proof fn lemma_u16_round_trip(v: u16)
    ensures
        spec_be_u16(spec_encode_u16(v), 0) == v,
        spec_field_value(FieldCodec::U16, spec_encode_u16(v), 0) == FieldValue::U16(v),
{
    assert(v / 0x100 * 0x100 + v % 0x100 == v) by (bit_vector);
    assert(v / 0x100 < 0x100) by (bit_vector);
}

/// Decoding a 32-bit value from its encoding gives the value back, for
/// every representable value.
pub proof fn lemma_u32_round_trip(v: u32)
    ensures
        spec_be_u32(spec_encode_u32(v), 0) == v,
        spec_field_value(FieldCodec::U32, spec_encode_u32(v), 0) == FieldValue::U32(v),
{
    assert(v / 0x100_0000 < 0x100) by (bit_vector);
    assert(v / 0x100_0000 * 0x100_0000 + (v / 0x1_0000) % 0x100 * 0x1_0000 + (v / 0x100) % 0x100
        * 0x100 + v % 0x100 == v) by (bit_vector);
}

/// Decoding a 64-bit value from its encoding gives the value back, for
/// every representable value.
pub proof fn lemma_u64_round_trip(v: u64)
    ensures
        spec_be_u64(spec_encode_u64(v), 0) == v,
{
    let hi: u32 = (v / 0x1_0000_0000) as u32;
    let lo: u32 = (v % 0x1_0000_0000) as u32;
    assert(v / 0x1_0000_0000 < 0x1_0000_0000) by (bit_vector);
    lemma_u32_round_trip(hi);
    lemma_u32_round_trip(lo);
    let s = spec_encode_u64(v);
    assert(spec_be_u32(s, 0) == spec_be_u32(spec_encode_u32(hi), 0));
    assert(spec_be_u32(s, 4) == spec_be_u32(spec_encode_u32(lo), 0));
    assert(v / 0x1_0000_0000 * 0x1_0000_0000 + v % 0x1_0000_0000 == v) by (bit_vector);
}

/// The two's-complement carrier round-trips: reading back the unsigned
/// carrier of any signed 16-bit value gives that value.
pub proof fn lemma_i16_round_trip(v: i16)
    ensures
        spec_i16_of_raw(spec_raw_of_i16(v)) == v,
        spec_field_value(
            FieldCodec::I16,
            spec_encode_u16(spec_raw_of_i16(v) as u16),
            0,
        ) == FieldValue::I16(v),
{
    lemma_u16_round_trip(spec_raw_of_i16(v) as u16);
}

/// The two's-complement carrier round-trips for 64-bit values.
pub proof fn lemma_i64_round_trip(v: i64)
    ensures
        spec_i64_of_raw(spec_raw_of_i64(v)) == v,
        spec_field_value(
            FieldCodec::DateTime,
            spec_encode_u64(spec_raw_of_i64(v) as u64),
            0,
        ) == FieldValue::DateTime(v),
{
    lemma_u64_round_trip(spec_raw_of_i64(v) as u64);
}

/// Splitting the raw carrier of any 16.16 fixed-point value gives the
/// original integer and fractional parts back.
pub proof fn lemma_fixed_round_trip(f: FixedPoint)
    ensures
        spec_fixed_of_raw(spec_raw_of_fixed(f)) == f,
        spec_field_value(
            FieldCodec::FixedPoint,
            spec_encode_u32(spec_raw_of_fixed(f) as u32),
            0,
        ) == FieldValue::Fixed(f),
{
    lemma_u32_round_trip(spec_raw_of_fixed(f) as u32);
    let r16 = spec_raw_of_i16(f.int_part);
    let raw = spec_raw_of_fixed(f);
    assert(0 <= r16 < 0x1_0000);
    assert(raw / 0x1_0000 == r16 && raw % 0x1_0000 == f.frac_part) by (nonlinear_arith)
        requires
            0 <= r16 < 0x1_0000,
            0 <= f.frac_part < 0x1_0000,
            raw == r16 * 0x1_0000 + f.frac_part,
    ;
    lemma_i16_round_trip(f.int_part);
}

/// Reading a tag's 4 encoded bytes gives the tag back.
pub proof fn lemma_tag_round_trip(t: Tag)
    ensures
        spec_tag_at(t@, 0) == t,
        spec_field_value(FieldCodec::Tag, t@, 0) == FieldValue::Tag(t),
{
}

/// Decode with `codec` at `offset` in `bytes`, failing with
/// `FieldTooShort` when fewer than `codec.width()` bytes remain.
pub fn decode_field(codec: FieldCodec, bytes: &[u8], offset: usize) -> (r: Result<
    FieldValue,
    ParseError,
>)
    ensures
        r is Ok <==> offset + codec.spec_width() <= bytes@.len(),
        r matches Ok(v) ==> v == spec_field_value(codec, bytes@, offset as int),
        r is Err ==> r == Err::<FieldValue, ParseError>(ParseError::FieldTooShort),
{
    let width = codec.width();
    if offset > bytes.len() || width > bytes.len() - offset {
        return Err(ParseError::FieldTooShort);
    }
    Ok(
        match codec {
            FieldCodec::U16 => FieldValue::U16(read_u16_at(bytes, offset)),
            FieldCodec::I16 => FieldValue::I16(read_i16_at(bytes, offset)),
            FieldCodec::U32 => FieldValue::U32(read_u32_at(bytes, offset)),
            FieldCodec::FixedPoint => FieldValue::Fixed(read_fixed_at(bytes, offset)),
            FieldCodec::Tag => FieldValue::Tag(read_tag_at(bytes, offset)),
            FieldCodec::DateTime => FieldValue::DateTime(read_i64_at(bytes, offset)),
        },
    )
}

} // verus!
