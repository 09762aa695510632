//! Four-byte table tags.

use vstd::prelude::*;

verus! {

/// A table's identity: exactly 4 raw bytes, compared byte for byte.
///
/// A tag is never normalized and never validated as printable text; any
/// four byte values form a tag.
#[derive(Clone, Copy, Debug, PartialEq, Eq, Structural)]
pub struct Tag {
    pub b0: u8,
    pub b1: u8,
    pub b2: u8,
    pub b3: u8,
}

impl View for Tag {
    type V = Seq<u8>;

    open spec fn view(&self) -> Seq<u8> {
        seq![self.b0, self.b1, self.b2, self.b3]
    }
}

impl Tag {
    /// Build a tag from its four bytes, in buffer order.
    pub fn new(b0: u8, b1: u8, b2: u8, b3: u8) -> (t: Tag)
        ensures
            t@ == seq![b0, b1, b2, b3],
    {
        Tag { b0, b1, b2, b3 }
    }
}

/// The tag whose bytes stand at `offset` in `s`.
pub open spec fn spec_tag_at(s: Seq<u8>, offset: int) -> Tag
    recommends
        0 <= offset,
        offset + 4 <= s.len(),
{
    Tag { b0: s[offset], b1: s[offset + 1], b2: s[offset + 2], b3: s[offset + 3] }
}

} // verus!
