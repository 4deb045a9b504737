use vstd::prelude::*;
use vstd::string::*;
use crate::enumeratedvalue::{EnumeratedValue, EnumeratedValues};
use crate::parse::elementext::{
    bool_ok, child_bool, child_text, child_u64, pointed, text_ok, u64_ok, with_tag,
};
use crate::parse::error::{not_expected_tag, refused, Config, SVDErrorAt};
use crate::parse::leaf::{child_usage, optional_usage, usage_ok};
use crate::tree::Element;
use crate::validate_level::ValidateLevel;

verus! {

/// The enumerated value that the children of an element give.
pub open spec fn enumerated_value_of(tree: Element) -> EnumeratedValue {
    EnumeratedValue {
        name: child_text(tree, "name"@)->0,
        description: child_text(tree, "description"@),
        value: child_u64(tree, "value"@),
        is_default: child_bool(tree, "isDefault"@),
    }
}

/// Whether an element is an `enumeratedValue` that can be read and passes
/// validation at the given level.
pub open spec fn enumerated_value_ok(tree: Element, lvl: ValidateLevel) -> bool {
    &&& tree.name@ == "enumeratedValue"@
    &&& child_text(tree, "name"@) is Some
    &&& text_ok(tree, "description"@)
    &&& u64_ok(tree, "value"@)
    &&& bool_ok(tree, "isDefault"@)
    &&& (lvl == ValidateLevel::Disabled || enumerated_value_of(tree).well_formed())
}

/// The enumerated values that a sequence of elements gives.
pub open spec fn enumerated_values_from(s: Seq<Element>) -> Seq<EnumeratedValue> {
    Seq::new(s.len(), |i: int| enumerated_value_of(s[i]))
}

/// Whether an `enumeratedValues` element can be read, `v` holds what it
/// says (its name, usage and derivation reference, and one entry for each
/// `enumeratedValue` child, in order), and `v` passes validation at the
/// given level.
pub open spec fn enumerated_values_parsed(
    tree: Element,
    lvl: ValidateLevel,
    v: EnumeratedValues,
) -> bool {
    &&& tree.name@ == "enumeratedValues"@
    &&& text_ok(tree, "name"@)
    &&& v.name == child_text(tree, "name"@)
    &&& usage_ok(tree, "usage"@)
    &&& v.usage == child_usage(tree, "usage"@)
    &&& v.derived_from == tree.attribute_value("derivedFrom"@)
    &&& v.values@ == enumerated_values_from(with_tag(tree.children@, "enumeratedValue"@))
    &&& forall|j: int|
        0 <= j < with_tag(tree.children@, "enumeratedValue"@).len() ==> enumerated_value_ok(
            #[trigger] with_tag(tree.children@, "enumeratedValue"@)[j],
            lvl,
        )
    &&& (lvl != ValidateLevel::Disabled ==> v.at_most_one_default())
}

impl EnumeratedValue {
    /// Reads an enumerated value from an `enumeratedValue` element and
    /// validates it at the configured level.
    pub fn parse(tree: &Element, config: &Config) -> (res: Result<EnumeratedValue, SVDErrorAt>)
        ensures
            res is Ok <==> enumerated_value_ok(*tree, config.validate_level),
            res is Ok ==> res->Ok_0 == enumerated_value_of(*tree),
            tree.name@ != "enumeratedValue"@ ==> res is Err && res->Err_0.is_not_expected_tag(
                "enumeratedValue"@,
                tree.id,
            ),
    {
        if !tree.has_tag_name("enumeratedValue") {
            return Err(not_expected_tag("enumeratedValue", tree.id));
        }
        let name: String = tree.get_child_text("name")?;
        let description: Option<String> = tree.get_child_text_opt("description")?;
        let value: Option<u64> = tree.get_child_u64_opt("value")?;
        let is_default: Option<bool> = tree.get_child_bool_opt("isDefault")?;
        let v = EnumeratedValue { name, description, value, is_default };
        match v.validate(config.validate_level) {
            Ok(()) => Ok(v),
            Err(e) => Err(refused(e, tree.id)),
        }
    }
}

impl EnumeratedValues {
    /// Reads a set of enumerated values from an `enumeratedValues` element
    /// and validates it at the configured level.
    pub fn parse(tree: &Element, config: &Config) -> (res: Result<EnumeratedValues, SVDErrorAt>)
        ensures
            res is Ok <==> exists|v: EnumeratedValues|
                enumerated_values_parsed(*tree, config.validate_level, v),
            res is Ok ==> enumerated_values_parsed(*tree, config.validate_level, res->Ok_0),
            tree.name@ != "enumeratedValues"@ ==> res is Err && res->Err_0.is_not_expected_tag(
                "enumeratedValues"@,
                tree.id,
            ),
    {
        if !tree.has_tag_name("enumeratedValues") {
            return Err(not_expected_tag("enumeratedValues", tree.id));
        }
        let name: Option<String> = tree.get_child_text_opt("name")?;
        let usage = optional_usage(tree, "usage")?;
        let derived_from: Option<String> = match tree.attribute("derivedFrom") {
            Some(s) => Some(s.clone()),
            None => None,
        };
        let elements: Vec<&Element> = tree.children_with_tag("enumeratedValue");
        let ghost wanted = with_tag(tree.children@, "enumeratedValue"@);
        assert(pointed(elements@).len() == elements@.len());
        let mut values: Vec<EnumeratedValue> = Vec::new();
        let n: usize = elements.len();
        let mut i: usize = 0;
        while i < n
            invariant
                tree.name@ == "enumeratedValues"@,
                wanted == with_tag(tree.children@, "enumeratedValue"@),
                n == elements@.len(),
                i <= n,
                pointed(elements@) == wanted,
                values@.len() == i,
                forall|j: int| 0 <= j < i ==> values@[j] == enumerated_value_of(#[trigger] wanted[j]),
                forall|j: int|
                    0 <= j < i ==> enumerated_value_ok(#[trigger] wanted[j], config.validate_level),
            decreases n - i,
        {
            assert(wanted[i as int] == *elements@[i as int]);
            match EnumeratedValue::parse(elements[i], config) {
                Ok(v) => {
                    values.push(v);
                },
                Err(e) => {
                    assert(!enumerated_value_ok(wanted[i as int], config.validate_level));
                    return Err(e);
                },
            }
            i += 1;
        }
        assert(values@ =~= enumerated_values_from(wanted));
        let set = EnumeratedValues { name, usage, derived_from, values };
        match set.validate(config.validate_level) {
            Ok(()) => {
                assert(enumerated_values_parsed(*tree, config.validate_level, set));
                Ok(set)
            },
            Err(e) => {
                assert forall|j: int| 0 <= j < set.values@.len() implies (
                #[trigger] set.values@[j]).well_formed() by {
                    assert(enumerated_value_ok(wanted[j], config.validate_level));
                }
                assert forall|v: EnumeratedValues|
                    !enumerated_values_parsed(*tree, config.validate_level, v) by {
                    if enumerated_values_parsed(*tree, config.validate_level, v) {
                        assert(v.values@ == set.values@);
                    }
                }
                Err(refused(e, tree.id))
            },
        }
    }
}

} // verus!
