//! A bounds-checked, read-only view over a byte buffer.
//!
//! All field reads go through a cursor: each read checks that the full
//! width of the value lies inside the buffer, decodes big-endian, and
//! advances the offset; each failure is `OutOfBounds` and leaves the
//! cursor exactly where it was. The cursor never writes to the buffer.

use vstd::prelude::*;

use crate::codec::{
    read_fixed_at, read_i16_at, read_i64_at, read_tag_at, read_u16_at, read_u32_at, spec_be_u16,
    spec_be_u32, spec_be_u64, spec_fixed_of_raw, spec_i16_of_raw, spec_i64_of_raw, FixedPoint,
};
use crate::error::ParseError;
use crate::tag::{spec_tag_at, Tag};

verus! {

/// A byte slice together with a movable read offset.
pub struct ByteCursor<'a> {
    data: &'a [u8],
    offset: usize,
}

impl<'a> ByteCursor<'a> {
    /// The bytes the cursor reads from.
    pub closed spec fn buf(&self) -> Seq<u8> {
        self.data@
    }

    /// The current read offset.
    pub closed spec fn pos(&self) -> int {
        self.offset as int
    }

    /// A cursor over `data`, positioned at its start.
    pub fn new(data: &'a [u8]) -> (c: ByteCursor<'a>)
        ensures
            c.buf() == data@,
            c.pos() == 0,
    {
        ByteCursor { data, offset: 0 }
    }

    /// The current read offset.
    pub fn position(&self) -> (p: usize)
        ensures
            p == self.pos(),
    {
        self.offset
    }

    /// How many bytes the buffer holds in all.
    pub fn len(&self) -> (n: usize)
        ensures
            n == self.buf().len(),
    {
        self.data.len()
    }

    /// Reposition absolutely. Fails with `OutOfBounds`, moving nothing,
    /// when `pos` lies past the end of the buffer; the end itself is a
    /// valid position.
    pub fn seek(&mut self, pos: usize) -> (r: Result<(), ParseError>)
        ensures
            final(self).buf() == old(self).buf(),
            r is Ok <==> pos <= final(self).buf().len(),
            r is Ok ==> final(self).pos() == pos,
            r is Err ==> r == Err::<(), ParseError>(ParseError::OutOfBounds) && final(self).pos() == old(
                self,
            ).pos(),
    {
        if pos <= self.data.len() {
            self.offset = pos;
            Ok(())
        } else {
            Err(ParseError::OutOfBounds)
        }
    }

    /// Read a 2-byte big-endian unsigned integer and advance past it.
    pub fn read_u16(&mut self) -> (r: Result<u16, ParseError>)
        ensures
            final(self).buf() == old(self).buf(),
            r is Ok <==> old(self).pos() + 2 <= final(self).buf().len(),
            r matches Ok(v) ==> v == spec_be_u16(final(self).buf(), old(self).pos()) && final(self).pos() == old(
                self,
            ).pos() + 2,
            r is Err ==> r == Err::<u16, ParseError>(ParseError::OutOfBounds) && final(self).pos() == old(
                self,
            ).pos(),
    {
        let n = self.data.len();
        if self.offset <= n && 2 <= n - self.offset {
            let v = read_u16_at(self.data, self.offset);
            self.offset = self.offset + 2;
            Ok(v)
        } else {
            Err(ParseError::OutOfBounds)
        }
    }

    /// Read a 2-byte big-endian two's-complement integer and advance.
    pub fn read_i16(&mut self) -> (r: Result<i16, ParseError>)
        ensures
            final(self).buf() == old(self).buf(),
            r is Ok <==> old(self).pos() + 2 <= final(self).buf().len(),
            r matches Ok(v) ==> v == spec_i16_of_raw(spec_be_u16(final(self).buf(), old(self).pos()))
                && final(self).pos() == old(self).pos() + 2,
            r is Err ==> r == Err::<i16, ParseError>(ParseError::OutOfBounds) && final(self).pos() == old(
                self,
            ).pos(),
    {
        let n = self.data.len();
        if self.offset <= n && 2 <= n - self.offset {
            let v = read_i16_at(self.data, self.offset);
            self.offset = self.offset + 2;
            Ok(v)
        } else {
            Err(ParseError::OutOfBounds)
        }
    }

    /// Read a 4-byte big-endian unsigned integer and advance past it.
    pub fn read_u32(&mut self) -> (r: Result<u32, ParseError>)
        ensures
            final(self).buf() == old(self).buf(),
            r is Ok <==> old(self).pos() + 4 <= final(self).buf().len(),
            r matches Ok(v) ==> v == spec_be_u32(final(self).buf(), old(self).pos()) && final(self).pos() == old(
                self,
            ).pos() + 4,
            r is Err ==> r == Err::<u32, ParseError>(ParseError::OutOfBounds) && final(self).pos() == old(
                self,
            ).pos(),
    {
        let n = self.data.len();
        if self.offset <= n && 4 <= n - self.offset {
            let v = read_u32_at(self.data, self.offset);
            self.offset = self.offset + 4;
            Ok(v)
        } else {
            Err(ParseError::OutOfBounds)
        }
    }

    /// Read a 16.16 fixed-point number and advance past its 4 bytes.
    pub fn read_fixed_point(&mut self) -> (r: Result<FixedPoint, ParseError>)
        ensures
            final(self).buf() == old(self).buf(),
            r is Ok <==> old(self).pos() + 4 <= final(self).buf().len(),
            r matches Ok(v) ==> v == spec_fixed_of_raw(spec_be_u32(final(self).buf(), old(self).pos()))
                && final(self).pos() == old(self).pos() + 4,
            r is Err ==> r == Err::<FixedPoint, ParseError>(ParseError::OutOfBounds) && final(self).pos()
                == old(self).pos(),
    {
        let n = self.data.len();
        if self.offset <= n && 4 <= n - self.offset {
            let v = read_fixed_at(self.data, self.offset);
            self.offset = self.offset + 4;
            Ok(v)
        } else {
            Err(ParseError::OutOfBounds)
        }
    }

    /// Read 4 raw tag bytes and advance past them.
    pub fn read_tag(&mut self) -> (r: Result<Tag, ParseError>)
        ensures
            final(self).buf() == old(self).buf(),
            r is Ok <==> old(self).pos() + 4 <= final(self).buf().len(),
            r matches Ok(v) ==> v == spec_tag_at(final(self).buf(), old(self).pos()) && final(self).pos() == old(
                self,
            ).pos() + 4,
            r is Err ==> r == Err::<Tag, ParseError>(ParseError::OutOfBounds) && final(self).pos() == old(
                self,
            ).pos(),
    {
        let n = self.data.len();
        if self.offset <= n && 4 <= n - self.offset {
            let v = read_tag_at(self.data, self.offset);
            self.offset = self.offset + 4;
            Ok(v)
        } else {
            Err(ParseError::OutOfBounds)
        }
    }

    /// Read an 8-byte big-endian signed count of seconds since the
    /// format's epoch, and advance past it.
    pub fn read_date_time(&mut self) -> (r: Result<i64, ParseError>)
        ensures
            final(self).buf() == old(self).buf(),
            r is Ok <==> old(self).pos() + 8 <= final(self).buf().len(),
            r matches Ok(v) ==> v == spec_i64_of_raw(spec_be_u64(final(self).buf(), old(self).pos()))
                && final(self).pos() == old(self).pos() + 8,
            r is Err ==> r == Err::<i64, ParseError>(ParseError::OutOfBounds) && final(self).pos() == old(
                self,
            ).pos(),
    {
        let n = self.data.len();
        if self.offset <= n && 8 <= n - self.offset {
            let v = read_i64_at(self.data, self.offset);
            self.offset = self.offset + 8;
            Ok(v)
        } else {
            Err(ParseError::OutOfBounds)
        }
    }
}

} // verus!
