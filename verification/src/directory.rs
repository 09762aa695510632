//! The table directory and the registry of known schemas.
//!
//! A whole-file buffer begins with a directory: a big-endian 2-byte entry
//! count, then fixed 12-byte records of (tag, offset, length), each
//! naming the byte range of one table inside the same buffer. Parsing
//! validates every record's range against the buffer before handing any
//! entry out. A registry maps tags to descriptors; a tag nobody
//! registered is an absent result, never an error — the caller decides
//! whether an unknown table matters.

use vstd::prelude::*;

use crate::codec::spec_be_u16;
use crate::codec::spec_be_u32;
use crate::cursor::ByteCursor;
use crate::descriptor::{all_aligned, ParsedTable, TableDescriptor};
use crate::error::ParseError;
use crate::tag::{spec_tag_at, Tag};

verus! {

/// The byte size of the directory header: the 2-byte entry count.
pub const DIRECTORY_HEADER_SIZE: usize = 2;

/// The byte size of one directory record: 4 tag bytes, a 4-byte offset
/// and a 4-byte length.
pub const DIRECTORY_ENTRY_SIZE: usize = 12;

/// One directory record: the byte range of the table carrying `tag`,
/// counted from the start of the whole buffer.
#[derive(Clone, Copy, Debug, PartialEq, Eq, Structural)]
pub struct DirectoryEntry {
    pub tag: Tag,
    pub offset: u32,
    pub length: u32,
}

/// The entry count the header declares.
pub open spec fn spec_dir_count(s: Seq<u8>) -> int
    recommends
        s.len() >= DIRECTORY_HEADER_SIZE,
{
    spec_be_u16(s, 0)
}

/// Whether the buffer holds the header and every declared record.
pub open spec fn spec_header_complete(s: Seq<u8>) -> bool {
    s.len() >= DIRECTORY_HEADER_SIZE && DIRECTORY_HEADER_SIZE + DIRECTORY_ENTRY_SIZE
        * spec_dir_count(s) <= s.len()
}

/// The `i`th declared record.
pub open spec fn spec_entry(s: Seq<u8>, i: int) -> DirectoryEntry
    recommends
        spec_header_complete(s),
        0 <= i < spec_dir_count(s),
{
    let base = DIRECTORY_HEADER_SIZE + DIRECTORY_ENTRY_SIZE * i;
    DirectoryEntry {
        tag: spec_tag_at(s, base),
        offset: spec_be_u32(s, base + 4) as u32,
        length: spec_be_u32(s, base + 8) as u32,
    }
}

/// Whether the `i`th record's range lies inside the buffer.
pub open spec fn spec_entry_in_bounds(s: Seq<u8>, i: int) -> bool
    recommends
        spec_header_complete(s),
        0 <= i < spec_dir_count(s),
{
    spec_entry(s, i).offset + spec_entry(s, i).length <= s.len()
}

/// Whether every declared record's range lies inside the buffer.
pub open spec fn spec_all_entries_in_bounds(s: Seq<u8>) -> bool {
    forall|i: int| 0 <= i < spec_dir_count(s) ==> spec_entry_in_bounds(s, i)
}

/// The sequence of records a complete, in-bounds directory declares.
pub open spec fn spec_directory(s: Seq<u8>) -> Seq<DirectoryEntry> {
    Seq::new(spec_dir_count(s) as nat, |i: int| spec_entry(s, i))
}

/// What parsing the directory of `s` must return.
pub open spec fn spec_parse_directory(s: Seq<u8>) -> Result<Seq<DirectoryEntry>, ParseError> {
    if !spec_header_complete(s) {
        Err(ParseError::TooShort)
    } else if !spec_all_entries_in_bounds(s) {
        Err(ParseError::EntryOutOfBounds)
    } else {
        Ok(spec_directory(s))
    }
}

/// Whether an executable parse result agrees with the directory `s`
/// declares: same success, same entries, same error.
pub open spec fn dir_result_matches(r: Result<Vec<DirectoryEntry>, ParseError>, s: Seq<u8>) -> bool {
    match spec_parse_directory(s) {
        Ok(entries) => r matches Ok(v) && v@ == entries,
        Err(e) => r == Err::<Vec<DirectoryEntry>, ParseError>(e),
    }
}

/// Read the directory at the start of `buffer`: the entry count, then
/// every record. Fails with `TooShort` when the header or any record is
/// truncated, and with `EntryOutOfBounds` when any record's range runs
/// past the buffer's end.
pub fn parse_directory(buffer: &[u8]) -> (r: Result<Vec<DirectoryEntry>, ParseError>)
    ensures
        dir_result_matches(r, buffer@),
        r is Ok <==> spec_header_complete(buffer@) && spec_all_entries_in_bounds(buffer@),
        r matches Ok(v) ==> v@ == spec_directory(buffer@),
        r == Err::<Vec<DirectoryEntry>, ParseError>(ParseError::TooShort) <==> !spec_header_complete(
            buffer@,
        ),
        r == Err::<Vec<DirectoryEntry>, ParseError>(ParseError::EntryOutOfBounds)
            <==> spec_header_complete(buffer@) && !spec_all_entries_in_bounds(buffer@),
    {
    let len = buffer.len();
    let mut cursor = ByteCursor::new(buffer);
    let count = match cursor.read_u16() {
        Ok(c) => c,
        Err(_) => {
            return Err(ParseError::TooShort);
        },
    };
    if (count as usize) > (len - DIRECTORY_HEADER_SIZE) / DIRECTORY_ENTRY_SIZE {
        return Err(ParseError::TooShort);
    }
    let mut out: Vec<DirectoryEntry> = Vec::new();
    let mut i: usize = 0;
    while i < count as usize
        invariant
            len == buffer@.len(),
            spec_header_complete(buffer@),
            count == spec_dir_count(buffer@),
            i <= count,
            cursor.buf() == buffer@,
            cursor.pos() == DIRECTORY_HEADER_SIZE + DIRECTORY_ENTRY_SIZE * i,
            out@.len() == i,
            forall|k: int| 0 <= k < i ==> out@[k] == spec_entry(buffer@, k),
            forall|k: int| 0 <= k < i ==> spec_entry_in_bounds(buffer@, k),
        decreases count - i,
    {
        let tag = match cursor.read_tag() {
            Ok(t) => t,
            Err(e) => {
                return Err(e);
            },
        };
        let offset = match cursor.read_u32() {
            Ok(o) => o,
            Err(e) => {
                return Err(e);
            },
        };
        let length = match cursor.read_u32() {
            Ok(l) => l,
            Err(e) => {
                return Err(e);
            },
        };
        if (offset as u64) + (length as u64) > (len as u64) {
            proof {
                assert(!spec_entry_in_bounds(buffer@, i as int));
            }
            return Err(ParseError::EntryOutOfBounds);
        }
        out.push(DirectoryEntry { tag, offset, length });
        i = i + 1;
    }
    proof {
        assert(out@ =~= spec_directory(buffer@));
    }
    Ok(out)
}

/// Any two parses of the same bytes agree entirely: parsing keeps no
/// shared mutable state, so independent calls over one immutable buffer
/// — sequential or concurrent — return the same entries or the same
/// error.
pub proof fn lemma_parse_directory_agreement(
    s: Seq<u8>,
    r1: Result<Vec<DirectoryEntry>, ParseError>,
    r2: Result<Vec<DirectoryEntry>, ParseError>,
)
    requires
        dir_result_matches(r1, s),
        dir_result_matches(r2, s),
    ensures
        r1 is Ok <==> r2 is Ok,
        r1 matches Ok(v1) ==> (r2 matches Ok(v2) && v1@ == v2@),
        r1 is Err ==> r1 == r2,
{
}

/// The descriptors registered so far, looked up by tag.
pub struct Registry {
    descriptors: Vec<TableDescriptor>,
}

impl Registry {
    /// The registered descriptors, in registration order.
    pub closed spec fn descriptors(&self) -> Seq<TableDescriptor> {
        self.descriptors@
    }

    /// Whether some registered descriptor carries `tag`.
    pub open spec fn spec_has_tag(&self, tag: Tag) -> bool {
        exists|i: int|
            0 <= i < self.descriptors().len() && (#[trigger] self.descriptors()[i]).tag == tag
    }

    /// Whether `d` is the first registered descriptor carrying `tag`.
    pub open spec fn spec_first_match(&self, tag: Tag, d: TableDescriptor) -> bool {
        exists|i: int|
            0 <= i < self.descriptors().len() && (#[trigger] self.descriptors()[i]) == d
                && self.descriptors()[i].tag == tag && (forall|k: int|
                0 <= k < i ==> (#[trigger] self.descriptors()[k]).tag != tag)
    }

    /// An empty registry.
    pub fn new() -> (r: Registry)
        ensures
            r.descriptors().len() == 0,
    {
        Registry { descriptors: Vec::new() }
    }

    /// Add a descriptor, after any registered earlier.
    pub fn register(&mut self, d: TableDescriptor)
        ensures
            final(self).descriptors() == old(self).descriptors().push(d),
    {
        self.descriptors.push(d);
    }

    /// The first descriptor registered under `tag`, or an absent result
    /// when nobody registered the tag — an unregistered tag is not an
    /// error; the caller decides whether an unknown table is fatal.
    pub fn lookup(&self, tag: Tag) -> (r: Option<&TableDescriptor>)
        ensures
            r is None <==> !self.spec_has_tag(tag),
            r matches Some(d) ==> self.spec_first_match(tag, *d),
    {
        let n = self.descriptors.len();
        let mut i: usize = 0;
        while i < n
            invariant
                n == self.descriptors().len(),
                i <= n,
                forall|k: int| 0 <= k < i ==> (#[trigger] self.descriptors()[k]).tag != tag,
            decreases n - i,
        {
            let d = &self.descriptors[i];
            if d.tag == tag {
                return Some(d);
            }
            i = i + 1;
        }
        None
    }
}

/// At most one descriptor is the registry's first match for a tag, so
/// what resolution consults is a function of the registry's contents
/// alone: independent resolutions over one immutable registry agree on
/// the schema they apply.
pub proof fn lemma_first_match_unique(
    reg: &Registry,
    tag: Tag,
    d1: TableDescriptor,
    d2: TableDescriptor,
)
    requires
        reg.spec_first_match(tag, d1),
        reg.spec_first_match(tag, d2),
    ensures
        d1 == d2,
{
    let s = reg.descriptors();
    let i1 = choose|i: int|
        0 <= i < s.len() && (#[trigger] s[i]) == d1 && s[i].tag == tag && (forall|k: int|
            0 <= k < i ==> (#[trigger] s[k]).tag != tag);
    let i2 = choose|i: int|
        0 <= i < s.len() && (#[trigger] s[i]) == d2 && s[i].tag == tag && (forall|k: int|
            0 <= k < i ==> (#[trigger] s[k]).tag != tag);
    if i1 < i2 {
        assert(s[i1].tag != tag);
    }
    if i2 < i1 {
        assert(s[i2].tag != tag);
    }
    assert(i1 == i2);
}

/// Resolve one directory record against the whole buffer and the
/// registry: check the record's range, slice the table's bytes out, look
/// the tag up, and hand the slice to the matching descriptor's
/// validation. An unknown tag resolves to an absent table.
pub fn resolve_table<'a>(
    registry: &'a Registry,
    entry: &DirectoryEntry,
    buffer: &'a [u8],
) -> (r: Result<Option<ParsedTable<'a>>, ParseError>)
    ensures
        r == Err::<Option<ParsedTable<'a>>, ParseError>(ParseError::EntryOutOfBounds)
            <==> entry.offset + entry.length > buffer@.len(),
        r matches Ok(None) <==> entry.offset + entry.length <= buffer@.len()
            && !registry.spec_has_tag(entry.tag),
        r matches Ok(Some(t)) ==> registry.spec_first_match(entry.tag, t.descriptor())
            && t.bytes() == buffer@.subrange(
            entry.offset as int,
            entry.offset + entry.length,
        ) && t.descriptor().byte_size <= entry.length && all_aligned(t.descriptor().fields@),
        r matches Ok(Some(t)) ==> entry.offset + entry.length <= buffer@.len(),
        entry.offset + entry.length <= buffer@.len() ==> (forall|d: TableDescriptor|
            #[trigger] registry.spec_first_match(entry.tag, d) ==> spec_resolution_agrees(
                r,
                *entry,
                d,
            )),
{
    let len = buffer.len();
    if (entry.offset as u64) + (entry.length as u64) > (len as u64) {
        return Err(ParseError::EntryOutOfBounds);
    }
    let start = entry.offset as usize;
    let end = start + entry.length as usize;
    let table_bytes = vstd::slice::slice_subrange(buffer, start, end);
    match registry.lookup(entry.tag) {
        None => Ok(None),
        Some(descriptor) => {
            let result = match descriptor.validate(table_bytes) {
                Ok(table) => Ok(Some(table)),
                Err(e) => Err(e),
            };
            proof {
                assert forall|d: TableDescriptor|
                    #[trigger] registry.spec_first_match(entry.tag, d) implies spec_resolution_agrees(
                    result,
                    *entry,
                    d,
                ) by {
                    lemma_first_match_unique(registry, entry.tag, d, *descriptor);
                }
            }
            result
        },
    }
}

/// How a resolution outcome is determined by the descriptor resolution
/// consults (the registry's first match for the entry's tag), once the
/// entry's range is known to lie inside the buffer: the table's bytes
/// are too short exactly below the descriptor's size, misaligned exactly
/// when the schema's re-checked alignment rule fails, and a table comes
/// back exactly otherwise.
pub open spec fn spec_resolution_agrees<'a>(
    r: Result<Option<ParsedTable<'a>>, ParseError>,
    entry: DirectoryEntry,
    d: TableDescriptor,
) -> bool {
    &&& (r == Err::<Option<ParsedTable<'a>>, ParseError>(ParseError::TooShort) <==> entry.length
        < d.byte_size)
    &&& (r == Err::<Option<ParsedTable<'a>>, ParseError>(ParseError::Misaligned) <==> d.byte_size
        <= entry.length && !all_aligned(d.fields@))
    &&& ((r matches Ok(Some(_))) <==> d.byte_size <= entry.length && all_aligned(d.fields@))
}

} // verus!
