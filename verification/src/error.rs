//! Typed failures of the parsing layer.
//!
//! Malformed input is an expected, recoverable condition: every parsing
//! function returns one of these instead of panicking. An ill-formed
//! schema, by contrast, is a programmer error and is rejected eagerly at
//! descriptor construction time with a `SchemaError`.

use vstd::prelude::*;

verus! {

/// A failure while reading external bytes.
#[derive(Clone, Copy, Debug, PartialEq, Eq, Structural)]
pub enum ParseError {
    /// A cursor read or seek went past the end of the buffer.
    OutOfBounds,
    /// Fewer bytes remain than one codec's width needs.
    FieldTooShort,
    /// A whole table or directory is smaller than its minimum size.
    TooShort,
    /// A field offset violates the field's required alignment.
    Misaligned,
    /// A directory entry's byte range exceeds the outer buffer.
    EntryOutOfBounds,
}

/// A violation of a table schema's own invariants, reported when a
/// descriptor is built, before any buffer is ever inspected.
#[derive(Clone, Copy, Debug, PartialEq, Eq, Structural)]
pub enum SchemaError {
    /// A field's offset is not divisible by its required alignment.
    FieldMisaligned,
    /// Two declared fields overlap, or they are not ordered by offset.
    FieldOverlap,
    /// A field extends past the declared table size.
    FieldBeyondEnd,
}

} // verus!
