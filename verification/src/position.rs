//! Typed offsets into a table.
//!
//! A `Position<V>` asserts "at this byte offset inside the table there is
//! a value decodable as `V`". It is pure offset algebra: building or
//! combining positions never reads memory. Bytes are touched only when a
//! position is resolved against a cursor, through `seek` plus the typed
//! read — and that resolution is itself bounds-checked.

use core::marker::PhantomData;
use vstd::prelude::*;

use crate::codec::{
    spec_be_u16, spec_be_u32, spec_be_u64, spec_fixed_of_raw, spec_i16_of_raw, spec_i64_of_raw,
    FixedPoint,
};
use crate::cursor::ByteCursor;
use crate::error::ParseError;
use crate::tag::{spec_tag_at, Tag};

verus! {

/// A byte offset carrying the type of the value expected there.
pub struct Position<V> {
    offset: u32,
    marker: PhantomData<V>,
}

impl<V> Clone for Position<V> {
    fn clone(&self) -> (p: Position<V>)
        ensures
            p.spec_offset() == self.spec_offset(),
    {
        Position { offset: self.offset, marker: PhantomData }
    }
}

impl<V> Position<V> {
    /// The byte offset this position denotes.
    pub closed spec fn spec_offset(&self) -> int {
        self.offset as int
    }

    /// The position `offset` bytes into a table.
    pub fn new(offset: u32) -> (p: Position<V>)
        ensures
            p.spec_offset() == offset,
    {
        Position { offset, marker: PhantomData }
    }

    /// The byte offset this position denotes.
    pub fn byte_offset(&self) -> (o: u32)
        ensures
            o == self.spec_offset(),
    {
        self.offset
    }

    /// The position of a field of type `W` standing `delta` bytes into
    /// the value this position points at. Pure offset arithmetic.
    pub fn field<W>(&self, delta: u32) -> (p: Position<W>)
        requires
            self.spec_offset() + delta <= u32::MAX,
        ensures
            p.spec_offset() == self.spec_offset() + delta,
    {
        Position { offset: self.offset + delta, marker: PhantomData }
    }
}

impl Position<u16> {
    /// Resolve against a cursor: seek here, then read the typed value.
    pub fn resolve(&self, cursor: &mut ByteCursor) -> (r: Result<u16, ParseError>)
        ensures
            final(cursor).buf() == old(cursor).buf(),
            r is Ok <==> self.spec_offset() + 2 <= old(cursor).buf().len(),
            r matches Ok(v) ==> v == spec_be_u16(old(cursor).buf(), self.spec_offset()),
            r is Err ==> r == Err::<u16, ParseError>(ParseError::OutOfBounds),
    {
        cursor.seek(self.offset as usize)?;
        cursor.read_u16()
    }
}

impl Position<i16> {
    /// Resolve against a cursor: seek here, then read the typed value.
    pub fn resolve(&self, cursor: &mut ByteCursor) -> (r: Result<i16, ParseError>)
        ensures
            final(cursor).buf() == old(cursor).buf(),
            r is Ok <==> self.spec_offset() + 2 <= old(cursor).buf().len(),
            r matches Ok(v) ==> v == spec_i16_of_raw(
                spec_be_u16(old(cursor).buf(), self.spec_offset()),
            ),
            r is Err ==> r == Err::<i16, ParseError>(ParseError::OutOfBounds),
    {
        cursor.seek(self.offset as usize)?;
        cursor.read_i16()
    }
}

impl Position<u32> {
    /// Resolve against a cursor: seek here, then read the typed value.
    pub fn resolve(&self, cursor: &mut ByteCursor) -> (r: Result<u32, ParseError>)
        ensures
            final(cursor).buf() == old(cursor).buf(),
            r is Ok <==> self.spec_offset() + 4 <= old(cursor).buf().len(),
            r matches Ok(v) ==> v == spec_be_u32(old(cursor).buf(), self.spec_offset()),
            r is Err ==> r == Err::<u32, ParseError>(ParseError::OutOfBounds),
    {
        cursor.seek(self.offset as usize)?;
        cursor.read_u32()
    }
}

impl Position<FixedPoint> {
    /// Resolve against a cursor: seek here, then read the typed value.
    pub fn resolve(&self, cursor: &mut ByteCursor) -> (r: Result<FixedPoint, ParseError>)
        ensures
            final(cursor).buf() == old(cursor).buf(),
            r is Ok <==> self.spec_offset() + 4 <= old(cursor).buf().len(),
            r matches Ok(v) ==> v == spec_fixed_of_raw(
                spec_be_u32(old(cursor).buf(), self.spec_offset()),
            ),
            r is Err ==> r == Err::<FixedPoint, ParseError>(ParseError::OutOfBounds),
    {
        cursor.seek(self.offset as usize)?;
        cursor.read_fixed_point()
    }
}

impl Position<Tag> {
    /// Resolve against a cursor: seek here, then read the typed value.
    pub fn resolve(&self, cursor: &mut ByteCursor) -> (r: Result<Tag, ParseError>)
        ensures
            final(cursor).buf() == old(cursor).buf(),
            r is Ok <==> self.spec_offset() + 4 <= old(cursor).buf().len(),
            r matches Ok(v) ==> v == spec_tag_at(old(cursor).buf(), self.spec_offset()),
            r is Err ==> r == Err::<Tag, ParseError>(ParseError::OutOfBounds),
    {
        cursor.seek(self.offset as usize)?;
        cursor.read_tag()
    }
}

impl Position<i64> {
    /// Resolve against a cursor: seek here, then read the typed value.
    pub fn resolve(&self, cursor: &mut ByteCursor) -> (r: Result<i64, ParseError>)
        ensures
            final(cursor).buf() == old(cursor).buf(),
            r is Ok <==> self.spec_offset() + 8 <= old(cursor).buf().len(),
            r matches Ok(v) ==> v == spec_i64_of_raw(
                spec_be_u64(old(cursor).buf(), self.spec_offset()),
            ),
            r is Err ==> r == Err::<i64, ParseError>(ParseError::OutOfBounds),
    {
        cursor.seek(self.offset as usize)?;
        cursor.read_date_time()
    }
}

} // verus!
