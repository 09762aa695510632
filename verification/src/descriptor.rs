//! Table schemas and their validation against candidate buffers.
//!
//! A `TableDescriptor` describes one tagged record type: its 4-byte tag,
//! its total byte size, and its ordered field table. The schema invariant
//! — fields sorted by offset, non-overlapping, each aligned to
//! `min(width, 4)` and inside the declared size — is checked eagerly when
//! the descriptor is built, since schemas may come from external data and
//! an ill-formed schema is a bug, not bad input. Validation of a buffer
//! is O(field count): the buffer must hold `byte_size` bytes and the
//! alignment rule is re-checked, and only then does a `ParsedTable` hand
//! out field reads.

use vstd::prelude::*;

use crate::codec::{
    read_fixed_at, read_i16_at, read_i64_at, read_tag_at, read_u16_at, read_u32_at,
    spec_field_value, FieldCodec, FieldValue,
};
use crate::error::{ParseError, SchemaError};
use crate::tag::Tag;

verus! {

/// One declared field of a table: its name, its byte offset from the
/// table's start, and the codec that decodes it.
pub struct FieldDef {
    pub name: String,
    pub offset: u32,
    pub codec: FieldCodec,
}

/// Whether one field's offset is divisible by its natural alignment.
pub open spec fn spec_field_aligned(f: FieldDef) -> bool {
    f.offset as int % f.codec.spec_align() as int == 0
}

/// Whether every field satisfies its alignment rule.
pub open spec fn all_aligned(fields: Seq<FieldDef>) -> bool {
    forall|i: int| 0 <= i < fields.len() ==> spec_field_aligned(#[trigger] fields[i])
}

/// Whether every field lies inside the declared table size.
pub open spec fn all_within(fields: Seq<FieldDef>, byte_size: int) -> bool {
    forall|i: int|
        0 <= i < fields.len() ==> (#[trigger] fields[i]).offset + fields[i].codec.spec_width()
            <= byte_size
}

/// Whether the fields are sorted by offset and non-overlapping: each one
/// ends at or before the next one starts.
pub open spec fn fields_ordered(fields: Seq<FieldDef>) -> bool {
    forall|i: int|
        0 <= i && i + 1 < fields.len() ==> (#[trigger] fields[i]).offset
            + fields[i].codec.spec_width() <= fields[i + 1].offset
}

/// Where the `i`th field starts when the declared fields are laid out
/// back to back from the table's start: the sum of the widths before it.
pub open spec fn spec_packed_offset(specs: Seq<(String, FieldCodec)>, i: int) -> int
    decreases i,
{
    if i <= 0 {
        0
    } else {
        spec_packed_offset(specs, i - 1) + specs[i - 1].1.spec_width()
    }
}

/// Whether the `i`th back-to-back field lands on its required alignment.
pub open spec fn spec_packed_aligned(specs: Seq<(String, FieldCodec)>, i: int) -> bool
    recommends
        0 <= i < specs.len(),
{
    spec_packed_offset(specs, i) % specs[i].1.spec_align() as int == 0
}

/// Packed offsets only grow as fields are added.
proof fn lemma_packed_offset_monotonic(specs: Seq<(String, FieldCodec)>, i: int, j: int)
    requires
        i <= j,
    ensures
        spec_packed_offset(specs, i) <= spec_packed_offset(specs, j),
    decreases j - i,
{
    if i < j {
        lemma_packed_offset_monotonic(specs, i, j - 1);
    }
}

/// The structural description of one tagged record type.
pub struct TableDescriptor {
    /// The 4-byte identity of the format this schema describes.
    pub tag: Tag,
    /// The total byte size a valid table of this type occupies.
    pub byte_size: u32,
    /// The declared fields, ordered by offset.
    pub fields: Vec<FieldDef>,
}

impl TableDescriptor {
    /// The schema invariant: aligned, inside the table, and ordered.
    pub open spec fn well_formed(&self) -> bool {
        &&& all_aligned(self.fields@)
        &&& all_within(self.fields@, self.byte_size as int)
        &&& fields_ordered(self.fields@)
    }

    /// Build a descriptor, rejecting an ill-formed schema eagerly: first
    /// any misaligned field, then any field past the declared end, then
    /// any overlap or misordering.
    #[verifier::rlimit(100)]
    #[verifier::spinoff_prover]
    pub fn new(tag: Tag, byte_size: u32, fields: Vec<FieldDef>) -> (r: Result<
        TableDescriptor,
        SchemaError,
    >)
        ensures
            r is Ok <==> all_aligned(fields@) && all_within(fields@, byte_size as int)
                && fields_ordered(fields@),
            r matches Ok(d) ==> d.tag == tag && d.byte_size == byte_size && d.fields@ == fields@
                && d.well_formed(),
            r == Err::<TableDescriptor, SchemaError>(SchemaError::FieldMisaligned) <==> !all_aligned(
                fields@,
            ),
            r == Err::<TableDescriptor, SchemaError>(SchemaError::FieldBeyondEnd) <==> all_aligned(
                fields@,
            ) && !all_within(fields@, byte_size as int),
            r == Err::<TableDescriptor, SchemaError>(SchemaError::FieldOverlap) <==> all_aligned(
                fields@,
            ) && all_within(fields@, byte_size as int) && !fields_ordered(fields@),
    {
        let n = fields.len();
        let mut i: usize = 0;
        while i < n
            invariant
                n == fields@.len(),
                i <= n,
                forall|k: int| 0 <= k < i ==> spec_field_aligned(#[trigger] fields@[k]),
            decreases n - i,
        {
            let f = &fields[i];
            let a = f.codec.align() as u32;
            if f.offset % a != 0 {
                proof {
                    assert(!spec_field_aligned(fields@[i as int]));
                }
                return Err(SchemaError::FieldMisaligned);
            }
            i = i + 1;
        }
        let mut i: usize = 0;
        while i < n
            invariant
                n == fields@.len(),
                i <= n,
                all_aligned(fields@),
                forall|k: int|
                    0 <= k < i ==> (#[trigger] fields@[k]).offset + fields@[k].codec.spec_width()
                        <= byte_size,
            decreases n - i,
        {
            let f = &fields[i];
            if (f.offset as u64) + (f.codec.width() as u64) > (byte_size as u64) {
                proof {
                    assert(!all_within(fields@, byte_size as int));
                }
                return Err(SchemaError::FieldBeyondEnd);
            }
            i = i + 1;
        }
        let mut i: usize = 1;
        while i < n
            invariant
                n == fields@.len(),
                1 <= i,
                all_aligned(fields@),
                all_within(fields@, byte_size as int),
                forall|k: int|
                    0 <= k && k + 1 < i ==> (#[trigger] fields@[k]).offset
                        + fields@[k].codec.spec_width() <= fields@[k + 1].offset,
            decreases n - i,
        {
            let prev = &fields[i - 1];
            let cur = &fields[i];
            if (prev.offset as u64) + (prev.codec.width() as u64) > (cur.offset as u64) {
                proof {
                    assert(!fields_ordered(fields@));
                }
                return Err(SchemaError::FieldOverlap);
            }
            i = i + 1;
        }
        Ok(TableDescriptor { tag, byte_size, fields })
    }

    /// Lay fields out back to back, as a self-aligning binary format
    /// does: each field starts where the previous one ended, and the
    /// table's size is the sum of the widths. Fails with a misalignment
    /// error when a running offset violates its field's alignment rule —
    /// the format is designed so that this does not happen, but a schema
    /// assembled from external data may still get it wrong.
    pub fn packed(tag: Tag, specs: Vec<(String, FieldCodec)>) -> (r: Result<
        TableDescriptor,
        SchemaError,
    >)
        requires
            spec_packed_offset(specs@, specs@.len() as int) <= u32::MAX,
        ensures
            r is Ok <==> (forall|i: int|
                0 <= i < specs@.len() ==> spec_packed_aligned(specs@, i)),
            r matches Ok(d) ==> d.tag == tag && d.byte_size == spec_packed_offset(
                specs@,
                specs@.len() as int,
            ) && d.fields@.len() == specs@.len() && d.well_formed() && (forall|i: int|
                0 <= i < specs@.len() ==> (#[trigger] d.fields@[i]).name == specs@[i].0
                    && d.fields@[i].codec == specs@[i].1 && d.fields@[i].offset
                    == spec_packed_offset(specs@, i)),
            r is Err ==> r == Err::<TableDescriptor, SchemaError>(SchemaError::FieldMisaligned),
    {
        let n = specs.len();
        let mut fields: Vec<FieldDef> = Vec::new();
        let mut offset: u32 = 0;
        let mut i: usize = 0;
        while i < n
            invariant
                n == specs@.len(),
                i <= n,
                offset == spec_packed_offset(specs@, i as int),
                spec_packed_offset(specs@, n as int) <= u32::MAX,
                fields@.len() == i,
                forall|k: int|
                    0 <= k < i ==> (#[trigger] fields@[k]).name == specs@[k].0
                        && fields@[k].codec == specs@[k].1 && fields@[k].offset
                        == spec_packed_offset(specs@, k),
                forall|k: int| 0 <= k < i ==> spec_packed_aligned(specs@, k),
            decreases n - i,
        {
            let name = specs[i].0.clone();
            let codec = specs[i].1;
            let a = codec.align() as u32;
            if offset % a != 0 {
                proof {
                    assert(!spec_packed_aligned(specs@, i as int));
                }
                return Err(SchemaError::FieldMisaligned);
            }
            fields.push(FieldDef { name, offset, codec });
            proof {
                lemma_packed_offset_monotonic(specs@, i + 1, n as int);
            }
            offset = offset + codec.width() as u32;
            i = i + 1;
        }
        let byte_size = offset;
        proof {
            assert forall|k: int| 0 <= k < fields@.len() implies spec_field_aligned(
                #[trigger] fields@[k],
            ) by {
                assert(spec_packed_aligned(specs@, k));
            }
            assert forall|k: int|
                0 <= k < fields@.len() implies (#[trigger] fields@[k]).offset
                + fields@[k].codec.spec_width() <= byte_size by {
                lemma_packed_offset_monotonic(specs@, k + 1, n as int);
            }
        }
        Ok(TableDescriptor { tag, byte_size, fields })
    }

    /// The index of the first field bearing `name`, if any.
    pub fn field_index(&self, name: &String) -> (r: Option<usize>)
        ensures
            r matches Some(i) ==> i < self.fields@.len() && self.fields@[i as int].name@ == name@
                && (forall|k: int| 0 <= k < i ==> (#[trigger] self.fields@[k]).name@ != name@),
            r is None <==> forall|k: int|
                0 <= k < self.fields@.len() ==> (#[trigger] self.fields@[k]).name@ != name@,
    {
        let n = self.fields.len();
        let mut i: usize = 0;
        while i < n
            invariant
                n == self.fields@.len(),
                i <= n,
                forall|k: int| 0 <= k < i ==> (#[trigger] self.fields@[k]).name@ != name@,
            decreases n - i,
        {
            let f = &self.fields[i];
            if f.name == *name {
                return Some(i);
            }
            i = i + 1;
        }
        None
    }

    /// Hold a candidate buffer against this schema: the buffer must be at
    /// least `byte_size` bytes (else `TooShort`), and every field's
    /// alignment rule must hold (else `Misaligned`; the rule is re-checked
    /// here because descriptors may come from external schema data). On
    /// success the returned `ParsedTable` is the proof that the checks
    /// passed, and its accessors read fields without further validation.
    pub fn validate<'a>(&'a self, buffer: &'a [u8]) -> (r: Result<ParsedTable<'a>, ParseError>)
        ensures
            r is Ok <==> self.byte_size <= buffer@.len() && all_aligned(self.fields@),
            r matches Ok(t) ==> t.descriptor() == *self && t.bytes() == buffer@,
            r == Err::<ParsedTable<'a>, ParseError>(ParseError::TooShort) <==> buffer@.len()
                < self.byte_size,
            r == Err::<ParsedTable<'a>, ParseError>(ParseError::Misaligned) <==> self.byte_size
                <= buffer@.len() && !all_aligned(self.fields@),
    {
        if buffer.len() < self.byte_size as usize {
            return Err(ParseError::TooShort);
        }
        let n = self.fields.len();
        let mut i: usize = 0;
        while i < n
            invariant
                n == self.fields@.len(),
                i <= n,
                self.byte_size <= buffer@.len(),
                forall|k: int| 0 <= k < i ==> spec_field_aligned(#[trigger] self.fields@[k]),
            decreases n - i,
        {
            let f = &self.fields[i];
            let a = f.codec.align() as u32;
            if f.offset % a != 0 {
                proof {
                    assert(!spec_field_aligned(self.fields@[i as int]));
                }
                return Err(ParseError::Misaligned);
            }
            i = i + 1;
        }
        Ok(ParsedTable { descriptor: self, bytes: buffer })
    }
}

/// A validated (descriptor, byte-range) pair. A value of this type exists
/// only after `TableDescriptor::validate` succeeded on its bytes; it is
/// never mutated, and its field accessors cannot go out of bounds.
pub struct ParsedTable<'a> {
    descriptor: &'a TableDescriptor,
    bytes: &'a [u8],
}

impl<'a> ParsedTable<'a> {
    /// The schema this table was validated against.
    pub closed spec fn descriptor(&self) -> TableDescriptor {
        *self.descriptor
    }

    /// The validated bytes, one whole table.
    pub closed spec fn bytes(&self) -> Seq<u8> {
        self.bytes@
    }

    /// What a table must satisfy for its accessors to be exact: the
    /// buffer covers the declared size and the fields lie inside it.
    pub open spec fn wf(&self) -> bool {
        &&& self.descriptor().byte_size <= self.bytes().len()
        &&& all_within(self.descriptor().fields@, self.descriptor().byte_size as int)
    }

    /// How many fields the schema declares.
    pub fn field_count(&self) -> (n: usize)
        ensures
            n == self.descriptor().fields@.len(),
    {
        self.descriptor.fields.len()
    }

    /// Read the `i`th declared field out of the validated bytes. The
    /// result is exactly what the field's codec decodes at the field's
    /// offset; no bytes outside the table are touched.
    pub fn read_field(&self, i: usize) -> (r: FieldValue)
        requires
            self.wf(),
            i < self.descriptor().fields@.len(),
        ensures
            r == spec_field_value(
                self.descriptor().fields@[i as int].codec,
                self.bytes(),
                self.descriptor().fields@[i as int].offset as int,
            ),
    {
        let f = &self.descriptor.fields[i];
        let offset = f.offset as usize;
        match f.codec {
            FieldCodec::U16 => FieldValue::U16(read_u16_at(self.bytes, offset)),
            FieldCodec::I16 => FieldValue::I16(read_i16_at(self.bytes, offset)),
            FieldCodec::U32 => FieldValue::U32(read_u32_at(self.bytes, offset)),
            FieldCodec::FixedPoint => FieldValue::Fixed(read_fixed_at(self.bytes, offset)),
            FieldCodec::Tag => FieldValue::Tag(read_tag_at(self.bytes, offset)),
            FieldCodec::DateTime => FieldValue::DateTime(read_i64_at(self.bytes, offset)),
        }
    }
}

} // verus!
