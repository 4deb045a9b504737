use vstd::prelude::*;

verus! {

/// Errors of validating a [`BitRange`].
#[derive(Clone, Debug, PartialEq, Eq)]
pub enum Error {
    /// A bit field of width 0 makes no sense.
    ZeroWidth,
}

/// The form in which a document gave a bit range.
#[derive(Clone, Copy, Debug, PartialEq, Eq, Structural)]
pub enum BitRangeType {
    /// A `bitRange` text of the form `[msb:lsb]`.
    BitRange,
    /// The pair `bitOffset` and `bitWidth`.
    OffsetWidth,
    /// The pair `lsb` and `msb`.
    MsbLsb,
}

/// The position of a field within its register: offset and width, and the
/// form it was written in.
#[derive(Clone, Copy, Debug, PartialEq, Eq, Structural)]
pub struct BitRange {
    /// Index of the lowest bit.
    pub offset: u32,
    /// Number of bits.
    pub width: u32,
    /// The form used in the document.
    pub range_type: BitRangeType,
}

impl BitRange {
    /// Index of the lowest bit, as a number.
    pub open spec fn lsb_of(self) -> int {
        self.offset as int
    }

    /// Index of the highest bit, as a number.
    pub open spec fn msb_of(self) -> int {
        self.offset + self.width - 1
    }

    /// Index of the lowest bit.
    pub fn lsb(&self) -> (res: u32)
        ensures
            res == self.lsb_of(),
    {
        self.offset
    }

    /// Index of the highest bit, where it is a `u32`.
    pub fn msb(&self) -> (res: Option<u32>)
        ensures
            res is Some <==> 0 <= self.msb_of() <= u32::MAX,
            res is Some ==> res->0 == self.msb_of(),
    {
        if self.width == 0 {
            if self.offset == 0 {
                None
            } else {
                Some(self.offset - 1)
            }
        } else if self.offset > u32::MAX - (self.width - 1) {
            None
        } else {
            Some(self.offset + (self.width - 1))
        }
    }
}

} // verus!
