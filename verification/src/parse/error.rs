use vstd::prelude::*;
use crate::error::SvdError;
use crate::validate_level::ValidateLevel;

verus! {

/// What the parser is asked to do.
#[derive(Clone, Copy, Debug, PartialEq, Eq, Structural)]
pub struct Config {
    /// The level at which every entity is validated.
    pub validate_level: ValidateLevel,
    /// Whether enumerated values and write constraints of fields are left
    /// out.
    pub ignore_enums: bool,
}

/// The kinds of failure of reading an element.
#[derive(Clone, Debug, PartialEq, Eq)]
pub enum SVDError {
    /// The element does not have the expected tag, which is given.
    NotExpectedTag(String),
    /// A required child with the given tag is missing.
    MissingTag(String),
    /// The element with the given tag holds no text.
    EmptyTag(String),
    /// The given text is not a number in any of the accepted forms, or is
    /// too large.
    InvalidNumber(String),
    /// The given text is not `true`, `false`, `1` or `0`.
    InvalidBool(String),
    /// The given text names no variant of the enumeration it was read for.
    UnknownVariant(String),
    /// The element holds no bit range in any of the three forms, or one
    /// whose bounds are in the wrong order.
    InvalidBitRange,
    /// The write constraint holds none of the three kinds.
    UnknownWriteConstraint,
    /// The entity was read and then refused by its builder.
    Svd(SvdError),
}

/// A failure of reading, with the identity of the element it was found at.
#[derive(Clone, Debug, PartialEq, Eq)]
pub struct SVDErrorAt {
    pub error: SVDError,
    pub id: usize,
}

impl SVDErrorAt {
    /// Whether this is the unexpected-tag error for `tag` at the element `id`.
    pub open spec fn is_not_expected_tag(self, tag: Seq<char>, id: usize) -> bool {
        self.id == id && (self.error matches SVDError::NotExpectedTag(t) && t@ == tag)
    }

    /// Whether this is the missing-child error for `tag` at the element `id`.
    pub open spec fn is_missing_tag(self, tag: Seq<char>, id: usize) -> bool {
        self.id == id && (self.error matches SVDError::MissingTag(t) && t@ == tag)
    }

    /// Whether this is the no-text error for `tag` at the element `id`.
    pub open spec fn is_empty_tag(self, tag: Seq<char>, id: usize) -> bool {
        self.id == id && (self.error matches SVDError::EmptyTag(t) && t@ == tag)
    }

    /// Whether this is the malformed-number error for `text` at the element
    /// `id`.
    pub open spec fn is_invalid_number(self, text: Seq<char>, id: usize) -> bool {
        self.id == id && (self.error matches SVDError::InvalidNumber(t) && t@ == text)
    }

    /// Whether this is the malformed-truth-value error for `text` at the
    /// element `id`.
    pub open spec fn is_invalid_bool(self, text: Seq<char>, id: usize) -> bool {
        self.id == id && (self.error matches SVDError::InvalidBool(t) && t@ == text)
    }

    /// Whether this is the unknown-variant error for `text` at the element
    /// `id`.
    pub open spec fn is_unknown_variant(self, text: Seq<char>, id: usize) -> bool {
        self.id == id && (self.error matches SVDError::UnknownVariant(t) && t@ == text)
    }
}

impl SVDError {
    /// This failure, placed at the element with the given identity.
    pub fn at(self, id: usize) -> (res: SVDErrorAt)
        ensures
            res == (SVDErrorAt { error: self, id }),
    {
        SVDErrorAt { error: self, id }
    }
}

/// The unexpected-tag error for `tag` at the element `id`.
pub fn not_expected_tag(tag: &str, id: usize) -> (res: SVDErrorAt)
    ensures
        res.is_not_expected_tag(tag@, id),
{
    SVDError::NotExpectedTag(tag.to_owned()).at(id)
}

/// The builder's refusal `e`, placed at the element `id`.
pub fn refused(e: SvdError, id: usize) -> (res: SVDErrorAt)
    ensures
        res == (SVDErrorAt { error: SVDError::Svd(e), id }),
{
    SVDError::Svd(e).at(id)
}

} // verus!
