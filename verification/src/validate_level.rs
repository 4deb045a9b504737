use vstd::prelude::*;

verus! {

/// How much checking a builder performs before it accepts an entity.
#[derive(Clone, Copy, Debug, PartialEq, Eq, Structural)]
pub enum ValidateLevel {
    /// No validation.
    Disabled,
    /// Non-contradiction checks only.
    Weak,
    /// All checks, naming conventions included.
    Strict,
}

impl ValidateLevel {
    /// Whether no validation is asked for.
    pub fn is_disabled(self) -> (res: bool)
        ensures
            res == (self == ValidateLevel::Disabled),
    {
        matches!(self, ValidateLevel::Disabled)
    }

    /// Whether the weak level is asked for.
    pub fn is_weak(self) -> (res: bool)
        ensures
            res == (self == ValidateLevel::Weak),
    {
        matches!(self, ValidateLevel::Weak)
    }

    /// Whether the strict level is asked for.
    pub fn is_strict(self) -> (res: bool)
        ensures
            res == (self == ValidateLevel::Strict),
    {
        matches!(self, ValidateLevel::Strict)
    }
}

} // verus!
