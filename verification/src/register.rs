use vstd::prelude::*;
use crate::dimelement::DimElement;
use crate::fieldinfo::FieldInfo;
use crate::registerinfo::RegisterInfo;

verus! {

/// A field, alone or as an array.
#[derive(Clone, Debug, PartialEq, Eq)]
pub enum Field {
    /// One field.
    Single(FieldInfo),
    /// A field repeated as the array description says.
    Array(FieldInfo, DimElement),
}

/// A register, alone or as an array.
#[derive(Clone, Debug, PartialEq, Eq)]
pub enum Register {
    /// One register.
    Single(RegisterInfo),
    /// A register repeated as the array description says.
    Array(RegisterInfo, DimElement),
}

impl Field {
    /// The field's own content.
    pub open spec fn info(&self) -> FieldInfo {
        match *self {
            Field::Single(i) => i,
            Field::Array(i, _) => i,
        }
    }

    /// Whether the array description, if any, keeps the array invariant.
    pub open spec fn well_formed(&self) -> bool {
        self matches Field::Array(_, d) ==> d.well_formed()
    }
}

impl Register {
    /// The register's own content.
    pub open spec fn info(&self) -> RegisterInfo {
        match *self {
            Register::Single(i) => i,
            Register::Array(i, _) => i,
        }
    }

    /// Whether the array description, if any, keeps the array invariant.
    pub open spec fn well_formed(&self) -> bool {
        self matches Register::Array(_, d) ==> d.well_formed()
    }
}

} // verus!
