use vstd::prelude::*;

verus! {

/// The least and greatest value that may be written.
#[derive(Clone, Copy, Debug, PartialEq, Eq, Structural)]
pub struct WriteConstraintRange {
    pub min: u64,
    pub max: u64,
}

/// Which values may be written to a register or field.
#[derive(Clone, Copy, Debug, PartialEq, Eq, Structural)]
pub enum WriteConstraint {
    /// Only the value last read may be written.
    WriteAsRead(bool),
    /// Only the enumerated values may be written.
    UseEnumeratedValues(bool),
    /// Only values within the range may be written.
    Range(WriteConstraintRange),
}

} // verus!
