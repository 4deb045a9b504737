use vstd::prelude::*;

verus! {

/// A builder was asked to build before a required field was set.
#[derive(Clone, Debug, PartialEq, Eq)]
pub enum BuildError {
    /// The named field has no default and was never set.
    Uninitialized(String),
}

/// A name breaks the naming convention of its place.
#[derive(Clone, Debug, PartialEq, Eq)]
pub enum NameError {
    /// The name (first) given for the tag (second) does not match the pattern.
    Invalid(String, String),
    /// The name (first) of an array entity under the tag (second) has no placeholder.
    MissingPlaceholder(String, String),
}

/// Any failure of building or validating an entity.
#[derive(Clone, Debug, PartialEq, Eq)]
pub enum SvdError {
    Build(BuildError),
    Name(NameError),
    Device(crate::device::Error),
    Field(crate::fieldinfo::Error),
    BitRange(crate::bitrange::Error),
    EnumeratedValue(crate::enumeratedvalue::Error),
    DimElement(crate::dimelement::Error),
}

impl SvdError {
    /// Whether this is the uninitialized-field error naming `field`.
    pub open spec fn is_uninitialized(self, field: Seq<char>) -> bool {
        self matches SvdError::Build(BuildError::Uninitialized(f)) && f@ == field
    }

    /// Whether this is the invalid-name error for `name` under `tag`.
    pub open spec fn is_invalid_name(self, name: Seq<char>, tag: Seq<char>) -> bool {
        self matches SvdError::Name(NameError::Invalid(n, t)) && n@ == name && t@ == tag
    }

    /// Whether this is the missing-placeholder error for `name` under `tag`.
    pub open spec fn is_missing_placeholder(self, name: Seq<char>, tag: Seq<char>) -> bool {
        self matches SvdError::Name(NameError::MissingPlaceholder(n, t)) && n@ == name && t@ == tag
    }
}

/// The uninitialized-field error naming `field`.
pub fn uninitialized(field: &str) -> (res: SvdError)
    ensures
        res.is_uninitialized(field@),
{
    SvdError::Build(BuildError::Uninitialized(field.to_owned()))
}

} // verus!
