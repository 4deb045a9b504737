use vstd::prelude::*;
use vstd::string::*;

use crate::access::Access;
use crate::usage::Usage;
use crate::modifiedwritevalues::ModifiedWriteValues;
use crate::readaction::ReadAction;
use crate::protection::Protection;
use crate::endian::Endian;
use crate::parse::elementext::{child_text, text_ok};
use crate::parse::error::{SVDError, SVDErrorAt};
use crate::tree::Element;

verus! {

/// The Access that the first child with the tag names.
pub open spec fn child_access(e: Element, tag: Seq<char>) -> Option<Access> {
    match child_text(e, tag) {
        Some(t) => Access::from_text(t@),
        None => None,
    }
}

/// Whether the first child with the tag, if there is one, names a
/// Access.
pub open spec fn access_ok(e: Element, tag: Seq<char>) -> bool {
    e.child(tag) is Some ==> child_access(e, tag) is Some
}

/// Reads an optional Access from the first child with the tag: `None`
/// where there is no such child; a text that names no variant is an error.
pub fn optional_access(tree: &Element, tag: &str) -> (res: Result<Option<Access>, SVDErrorAt>)
    ensures
        res is Ok <==> access_ok(*tree, tag@),
        res is Ok ==> res->Ok_0 == child_access(*tree, tag@),
        res is Err && text_ok(*tree, tag@) ==> res->Err_0.is_unknown_variant(
            child_text(*tree, tag@)->0@,
            tree.child(tag@)->0.id,
        ),
        res is Err && !text_ok(*tree, tag@) ==> res->Err_0.is_empty_tag(
            tag@,
            tree.child(tag@)->0.id,
        ),
{
    match tree.get_child(tag) {
        None => Ok(None),
        Some(c) => {
            let t: &String = c.get_text()?;
            match Access::parse_str(t.as_str()) {
                Some(v) => Ok(Some(v)),
                None => Err(SVDError::UnknownVariant(t.clone()).at(c.id)),
            }
        },
    }
}

/// The Usage that the first child with the tag names.
pub open spec fn child_usage(e: Element, tag: Seq<char>) -> Option<Usage> {
    match child_text(e, tag) {
        Some(t) => Usage::from_text(t@),
        None => None,
    }
}

/// Whether the first child with the tag, if there is one, names a
/// Usage.
pub open spec fn usage_ok(e: Element, tag: Seq<char>) -> bool {
    e.child(tag) is Some ==> child_usage(e, tag) is Some
}

/// Reads an optional Usage from the first child with the tag: `None`
/// where there is no such child; a text that names no variant is an error.
pub fn optional_usage(tree: &Element, tag: &str) -> (res: Result<Option<Usage>, SVDErrorAt>)
    ensures
        res is Ok <==> usage_ok(*tree, tag@),
        res is Ok ==> res->Ok_0 == child_usage(*tree, tag@),
        res is Err && text_ok(*tree, tag@) ==> res->Err_0.is_unknown_variant(
            child_text(*tree, tag@)->0@,
            tree.child(tag@)->0.id,
        ),
        res is Err && !text_ok(*tree, tag@) ==> res->Err_0.is_empty_tag(
            tag@,
            tree.child(tag@)->0.id,
        ),
{
    match tree.get_child(tag) {
        None => Ok(None),
        Some(c) => {
            let t: &String = c.get_text()?;
            match Usage::parse_str(t.as_str()) {
                Some(v) => Ok(Some(v)),
                None => Err(SVDError::UnknownVariant(t.clone()).at(c.id)),
            }
        },
    }
}

/// The ModifiedWriteValues that the first child with the tag names.
pub open spec fn child_modified_write_values(e: Element, tag: Seq<char>) -> Option<ModifiedWriteValues> {
    match child_text(e, tag) {
        Some(t) => ModifiedWriteValues::from_text(t@),
        None => None,
    }
}

/// Whether the first child with the tag, if there is one, names a
/// ModifiedWriteValues.
pub open spec fn modified_write_values_ok(e: Element, tag: Seq<char>) -> bool {
    e.child(tag) is Some ==> child_modified_write_values(e, tag) is Some
}

/// Reads an optional ModifiedWriteValues from the first child with the tag: `None`
/// where there is no such child; a text that names no variant is an error.
pub fn optional_modified_write_values(tree: &Element, tag: &str) -> (res: Result<Option<ModifiedWriteValues>, SVDErrorAt>)
    ensures
        res is Ok <==> modified_write_values_ok(*tree, tag@),
        res is Ok ==> res->Ok_0 == child_modified_write_values(*tree, tag@),
        res is Err && text_ok(*tree, tag@) ==> res->Err_0.is_unknown_variant(
            child_text(*tree, tag@)->0@,
            tree.child(tag@)->0.id,
        ),
        res is Err && !text_ok(*tree, tag@) ==> res->Err_0.is_empty_tag(
            tag@,
            tree.child(tag@)->0.id,
        ),
{
    match tree.get_child(tag) {
        None => Ok(None),
        Some(c) => {
            let t: &String = c.get_text()?;
            match ModifiedWriteValues::parse_str(t.as_str()) {
                Some(v) => Ok(Some(v)),
                None => Err(SVDError::UnknownVariant(t.clone()).at(c.id)),
            }
        },
    }
}

/// The ReadAction that the first child with the tag names.
pub open spec fn child_read_action(e: Element, tag: Seq<char>) -> Option<ReadAction> {
    match child_text(e, tag) {
        Some(t) => ReadAction::from_text(t@),
        None => None,
    }
}

/// Whether the first child with the tag, if there is one, names a
/// ReadAction.
pub open spec fn read_action_ok(e: Element, tag: Seq<char>) -> bool {
    e.child(tag) is Some ==> child_read_action(e, tag) is Some
}

/// Reads an optional ReadAction from the first child with the tag: `None`
/// where there is no such child; a text that names no variant is an error.
pub fn optional_read_action(tree: &Element, tag: &str) -> (res: Result<Option<ReadAction>, SVDErrorAt>)
    ensures
        res is Ok <==> read_action_ok(*tree, tag@),
        res is Ok ==> res->Ok_0 == child_read_action(*tree, tag@),
        res is Err && text_ok(*tree, tag@) ==> res->Err_0.is_unknown_variant(
            child_text(*tree, tag@)->0@,
            tree.child(tag@)->0.id,
        ),
        res is Err && !text_ok(*tree, tag@) ==> res->Err_0.is_empty_tag(
            tag@,
            tree.child(tag@)->0.id,
        ),
{
    match tree.get_child(tag) {
        None => Ok(None),
        Some(c) => {
            let t: &String = c.get_text()?;
            match ReadAction::parse_str(t.as_str()) {
                Some(v) => Ok(Some(v)),
                None => Err(SVDError::UnknownVariant(t.clone()).at(c.id)),
            }
        },
    }
}

/// The Protection that the first child with the tag names.
pub open spec fn child_protection(e: Element, tag: Seq<char>) -> Option<Protection> {
    match child_text(e, tag) {
        Some(t) => Protection::from_text(t@),
        None => None,
    }
}

/// Whether the first child with the tag, if there is one, names a
/// Protection.
pub open spec fn protection_ok(e: Element, tag: Seq<char>) -> bool {
    e.child(tag) is Some ==> child_protection(e, tag) is Some
}

/// Reads an optional Protection from the first child with the tag: `None`
/// where there is no such child; a text that names no variant is an error.
pub fn optional_protection(tree: &Element, tag: &str) -> (res: Result<Option<Protection>, SVDErrorAt>)
    ensures
        res is Ok <==> protection_ok(*tree, tag@),
        res is Ok ==> res->Ok_0 == child_protection(*tree, tag@),
        res is Err && text_ok(*tree, tag@) ==> res->Err_0.is_unknown_variant(
            child_text(*tree, tag@)->0@,
            tree.child(tag@)->0.id,
        ),
        res is Err && !text_ok(*tree, tag@) ==> res->Err_0.is_empty_tag(
            tag@,
            tree.child(tag@)->0.id,
        ),
{
    match tree.get_child(tag) {
        None => Ok(None),
        Some(c) => {
            let t: &String = c.get_text()?;
            match Protection::parse_str(t.as_str()) {
                Some(v) => Ok(Some(v)),
                None => Err(SVDError::UnknownVariant(t.clone()).at(c.id)),
            }
        },
    }
}

/// The Endian that the first child with the tag names.
pub open spec fn child_endian(e: Element, tag: Seq<char>) -> Option<Endian> {
    match child_text(e, tag) {
        Some(t) => Endian::from_text(t@),
        None => None,
    }
}

/// Whether the first child with the tag, if there is one, names a
/// Endian.
pub open spec fn endian_ok(e: Element, tag: Seq<char>) -> bool {
    e.child(tag) is Some ==> child_endian(e, tag) is Some
}

/// Reads an optional Endian from the first child with the tag: `None`
/// where there is no such child; a text that names no variant is an error.
pub fn optional_endian(tree: &Element, tag: &str) -> (res: Result<Option<Endian>, SVDErrorAt>)
    ensures
        res is Ok <==> endian_ok(*tree, tag@),
        res is Ok ==> res->Ok_0 == child_endian(*tree, tag@),
        res is Err && text_ok(*tree, tag@) ==> res->Err_0.is_unknown_variant(
            child_text(*tree, tag@)->0@,
            tree.child(tag@)->0.id,
        ),
        res is Err && !text_ok(*tree, tag@) ==> res->Err_0.is_empty_tag(
            tag@,
            tree.child(tag@)->0.id,
        ),
{
    match tree.get_child(tag) {
        None => Ok(None),
        Some(c) => {
            let t: &String = c.get_text()?;
            match Endian::parse_str(t.as_str()) {
                Some(v) => Ok(Some(v)),
                None => Err(SVDError::UnknownVariant(t.clone()).at(c.id)),
            }
        },
    }
}

impl Endian {
    /// Reads the byte order from an element's text: one of `little`, `big`,
    /// `selectable` and `other`; any other text is an error that holds it.
    pub fn parse(tree: &Element) -> (res: Result<Endian, SVDErrorAt>)
        ensures
            tree.text is None ==> res is Err && res->Err_0.is_empty_tag(tree.name@, tree.id),
            tree.text is Some && Endian::from_text(tree.text->0@) is Some ==> res == Ok::<
                Endian,
                SVDErrorAt,
            >(Endian::from_text(tree.text->0@)->0),
            tree.text is Some && Endian::from_text(tree.text->0@) is None ==> res is Err
                && res->Err_0.is_unknown_variant(tree.text->0@, tree.id),
    {
        let text: &String = tree.get_text()?;
        match Endian::parse_str(text.as_str()) {
            Some(v) => Ok(v),
            None => Err(SVDError::UnknownVariant(text.clone()).at(tree.id)),
        }
    }
}

} // verus!
