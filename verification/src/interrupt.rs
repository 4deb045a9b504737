use vstd::prelude::*;

verus! {

/// An interrupt of a peripheral.
#[derive(Clone, Debug, PartialEq, Eq)]
pub struct Interrupt {
    /// Name of the interrupt.
    pub name: String,
    /// What the interrupt is for.
    pub description: Option<String>,
    /// Index of the interrupt.
    pub value: u32,
}

} // verus!
