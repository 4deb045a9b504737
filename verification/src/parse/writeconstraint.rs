use vstd::prelude::*;
use vstd::string::*;
use crate::parse::elementext::{child_bool, child_u64};
use crate::parse::error::{SVDError, SVDErrorAt};
use crate::tree::Element;
use crate::writeconstraint::{WriteConstraint, WriteConstraintRange};

verus! {

/// The write constraint that a `writeConstraint` element holds: the first
/// present of `writeAsRead`, `useEnumeratedValues` and `range`.
pub open spec fn write_constraint_of(tree: Element) -> Option<WriteConstraint> {
    if tree.child("writeAsRead"@) is Some {
        match child_bool(tree, "writeAsRead"@) {
            Some(b) => Some(WriteConstraint::WriteAsRead(b)),
            None => None,
        }
    } else if tree.child("useEnumeratedValues"@) is Some {
        match child_bool(tree, "useEnumeratedValues"@) {
            Some(b) => Some(WriteConstraint::UseEnumeratedValues(b)),
            None => None,
        }
    } else {
        match tree.child("range"@) {
            Some(r) => match (child_u64(r, "minimum"@), child_u64(r, "maximum"@)) {
                (Some(min), Some(max)) => Some(
                    WriteConstraint::Range(WriteConstraintRange { min, max }),
                ),
                _ => None,
            },
            None => None,
        }
    }
}

/// The write constraint in the `writeConstraint` child of an entity's
/// element, where it has one that can be read.
pub open spec fn child_write_constraint(tree: Element) -> Option<WriteConstraint> {
    match tree.child("writeConstraint"@) {
        Some(c) => write_constraint_of(c),
        None => None,
    }
}

/// Whether the `writeConstraint` child of an entity's element, if there is
/// one, can be read.
pub open spec fn write_constraint_ok(tree: Element) -> bool {
    tree.child("writeConstraint"@) is Some ==> child_write_constraint(tree) is Some
}

impl WriteConstraint {
    /// Reads a write constraint from a `writeConstraint` element.
    pub fn parse(tree: &Element) -> (res: Result<WriteConstraint, SVDErrorAt>)
        ensures
            res is Ok <==> write_constraint_of(*tree) is Some,
            res is Ok ==> Some(res->Ok_0) == write_constraint_of(*tree),
    {
        if tree.get_child("writeAsRead").is_some() {
            match tree.get_child_bool_opt("writeAsRead")? {
                Some(b) => Ok(WriteConstraint::WriteAsRead(b)),
                None => Err(SVDError::UnknownWriteConstraint.at(tree.id)),
            }
        } else if tree.get_child("useEnumeratedValues").is_some() {
            match tree.get_child_bool_opt("useEnumeratedValues")? {
                Some(b) => Ok(WriteConstraint::UseEnumeratedValues(b)),
                None => Err(SVDError::UnknownWriteConstraint.at(tree.id)),
            }
        } else {
            match tree.get_child("range") {
                Some(r) => {
                    let min: u64 = r.get_child_u64("minimum")?;
                    let max: u64 = r.get_child_u64("maximum")?;
                    Ok(WriteConstraint::Range(WriteConstraintRange { min, max }))
                },
                None => Err(SVDError::UnknownWriteConstraint.at(tree.id)),
            }
        }
    }
}

/// Reads the write constraint of an entity, `None` where its element has
/// no `writeConstraint` child.
pub fn optional_write_constraint(tree: &Element) -> (res: Result<
    Option<WriteConstraint>,
    SVDErrorAt,
>)
    ensures
        res is Ok <==> write_constraint_ok(*tree),
        res is Ok ==> res->Ok_0 == child_write_constraint(*tree),
{
    match tree.get_child("writeConstraint") {
        Some(c) => Ok(Some(WriteConstraint::parse(c)?)),
        None => Ok(None),
    }
}

} // verus!
