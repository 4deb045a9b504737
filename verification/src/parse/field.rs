use vstd::prelude::*;
use vstd::string::*;
use crate::bitrange::BitRange;
use crate::dimelement::DimElement;
use crate::enumeratedvalue::EnumeratedValues;
use crate::error::{NameError, SvdError};
use crate::fieldinfo::FieldInfo;
use crate::names::{contains_placeholder, has_placeholder};
use crate::parse::bitrange::bit_range_of;
use crate::parse::dimelement::dim_parsed;
use crate::parse::elementext::{child_text, pointed, text_ok, with_tag};
use crate::parse::enumeratedvalue::enumerated_values_parsed;
use crate::parse::error::{not_expected_tag, refused, Config, SVDErrorAt};
use crate::parse::leaf::{
    access_ok, child_access, child_modified_write_values, child_read_action,
    modified_write_values_ok, optional_access, optional_modified_write_values,
    optional_read_action, read_action_ok,
};
use crate::parse::writeconstraint::{
    child_write_constraint, optional_write_constraint, write_constraint_ok,
};
use crate::register::Field;
use crate::tree::Element;
use crate::validate_level::ValidateLevel;

verus! {

/// Whether `sets` holds what the `enumeratedValues` children of a field's
/// element say, one set for each child, in order; nothing where enumerated
/// values are left out.
pub open spec fn sets_parsed(tree: Element, config: Config, sets: Seq<EnumeratedValues>) -> bool {
    if config.ignore_enums {
        sets.len() == 0
    } else {
        &&& sets.len() == with_tag(tree.children@, "enumeratedValues"@).len()
        &&& forall|j: int|
            0 <= j < sets.len() ==> enumerated_values_parsed(
                #[trigger] with_tag(tree.children@, "enumeratedValues"@)[j],
                config.validate_level,
                sets[j],
            )
    }
}

/// Whether a `field` element can be read and `f` holds what it says.
pub open spec fn field_info_read(tree: Element, config: Config, f: FieldInfo) -> bool {
    &&& tree.name@ == "field"@
    &&& Some(f.name) == child_text(tree, "name"@)
    &&& text_ok(tree, "description"@)
    &&& f.description == child_text(tree, "description"@)
    &&& Some(f.bit_range) == bit_range_of(tree)
    &&& access_ok(tree, "access"@)
    &&& f.access == child_access(tree, "access"@)
    &&& modified_write_values_ok(tree, "modifiedWriteValues"@)
    &&& f.modified_write_values == child_modified_write_values(tree, "modifiedWriteValues"@)
    &&& (config.ignore_enums || write_constraint_ok(tree))
    &&& f.write_constraint == if config.ignore_enums {
        None
    } else {
        child_write_constraint(tree)
    }
    &&& read_action_ok(tree, "readAction"@)
    &&& f.read_action == child_read_action(tree, "readAction"@)
    &&& sets_parsed(tree, config, f.enumerated_values@)
    &&& f.derived_from == tree.attribute_value("derivedFrom"@)
}

/// Whether a `field` element can be read, `f` holds what it says, and `f`
/// passes validation at the configured level.
pub open spec fn field_info_parsed(tree: Element, config: Config, f: FieldInfo) -> bool {
    &&& field_info_read(tree, config, f)
    &&& (config.validate_level != ValidateLevel::Disabled ==> f.validation(
        config.validate_level,
        Ok(()),
    ))
}

/// Whether `err` is the refusal of the builder of a field that was read as
/// `f`: the validation error of `f`, placed at the field's element.
pub open spec fn field_refused(tree: Element, config: Config, f: FieldInfo, err: SVDErrorAt) -> bool {
    &&& err.id == tree.id
    &&& err.error is Svd
    &&& f.validation(config.validate_level, Err(err.error->Svd_0))
}

/// Whether the name of an array passes the placeholder rule: at the strict
/// level an array of more than one instance has the placeholder token in
/// its name.
pub open spec fn placeholder_rule(name: Seq<char>, dim: u32, lvl: ValidateLevel) -> bool {
    lvl == ValidateLevel::Strict && dim > 1 ==> has_placeholder(name)
}

/// Whether `f` holds what a `field` element says: an array where the
/// element has a `dimIncrement` child, a single field where it has none.
pub open spec fn field_parsed(tree: Element, config: Config, f: Field) -> bool {
    match f {
        Field::Single(info) => tree.child("dimIncrement"@) is None && field_info_parsed(
            tree,
            config,
            info,
        ),
        Field::Array(info, dim) => {
            &&& tree.child("dimIncrement"@) is Some
            &&& field_info_parsed(tree, config, info)
            &&& dim_parsed(tree, config.validate_level, dim)
            &&& dim.well_formed()
            &&& placeholder_rule(info.name@, dim.dim, config.validate_level)
        },
    }
}

/// What is read from one element validates alike: where one field read
/// from an element passes validation, every field read from it does.
pub proof fn lemma_read_fields_agree(tree: Element, config: Config, a: FieldInfo, b: FieldInfo)
    requires
        field_info_read(tree, config, a),
        field_info_parsed(tree, config, b),
    ensures
        field_info_parsed(tree, config, a),
{
    let wanted = with_tag(tree.children@, "enumeratedValues"@);
    let x = a.enumerated_values@;
    let y = b.enumerated_values@;
    assert forall|j: int| 0 <= j < x.len() implies (#[trigger] x[j]).usage == y[j].usage
        && x[j].values@ == y[j].values@ by {
        assert(enumerated_values_parsed(wanted[j], config.validate_level, x[j]));
        assert(enumerated_values_parsed(wanted[j], config.validate_level, y[j]));
    }
    if config.validate_level != ValidateLevel::Disabled {
        crate::fieldinfo::lemma_outcome_same(
            b.name@,
            crate::fieldinfo::opt_view(b.derived_from),
            b.bit_range.width,
            x,
            y,
            config.validate_level,
            Ok(()),
        );
    }
}

/// Checks the placeholder rule for the name of an array under `tag`.
pub fn check_placeholder_rule(name: &String, dim: u32, lvl: ValidateLevel, tag: &str) -> (res:
    Result<(), SvdError>)
    ensures
        res is Ok <==> placeholder_rule(name@, dim, lvl),
        res is Err ==> res->Err_0.is_missing_placeholder(name@, tag@),
{
    if lvl.is_strict() && dim > 1 && !contains_placeholder(name.as_str()) {
        Err(SvdError::Name(NameError::MissingPlaceholder(name.clone(), tag.to_owned())))
    } else {
        Ok(())
    }
}

fn parse_sets(tree: &Element, config: &Config) -> (res: Result<Vec<EnumeratedValues>, SVDErrorAt>)
    ensures
        res is Ok ==> sets_parsed(*tree, *config, res->Ok_0@),
        res is Err ==> forall|s: Seq<EnumeratedValues>| !sets_parsed(*tree, *config, s),
{
    let mut sets: Vec<EnumeratedValues> = Vec::new();
    if config.ignore_enums {
        return Ok(sets);
    }
    let elements: Vec<&Element> = tree.children_with_tag("enumeratedValues");
    let ghost wanted = with_tag(tree.children@, "enumeratedValues"@);
    assert(pointed(elements@).len() == elements@.len());
    let n: usize = elements.len();
    let mut i: usize = 0;
    while i < n
        invariant
            n == elements@.len(),
            i <= n,
            pointed(elements@) == wanted,
            sets@.len() == i,
            !config.ignore_enums,
            wanted == with_tag(tree.children@, "enumeratedValues"@),
            forall|j: int|
                0 <= j < i ==> enumerated_values_parsed(
                    #[trigger] wanted[j],
                    config.validate_level,
                    sets@[j],
                ),
        decreases n - i,
    {
        assert(wanted[i as int] == *elements@[i as int]);
        match EnumeratedValues::parse(elements[i], config) {
            Ok(set) => {
                sets.push(set);
            },
            Err(e) => {
                assert forall|s: Seq<EnumeratedValues>| !sets_parsed(*tree, *config, s) by {
                    if sets_parsed(*tree, *config, s) {
                        assert(enumerated_values_parsed(
                            wanted[i as int],
                            config.validate_level,
                            s[i as int],
                        ));
                    }
                }
                return Err(e);
            },
        }
        i += 1;
    }
    Ok(sets)
}

impl FieldInfo {
    /// Reads the content of a field from a `field` element and builds it at
    /// the configured level. The bit range is read first, then the children
    /// in the order of the fields; enumerated values and write constraint
    /// are left out where the configuration says so.
    pub fn parse(tree: &Element, config: &Config) -> (res: Result<FieldInfo, SVDErrorAt>)
        ensures
            tree.name@ != "field"@ ==> res is Err && res->Err_0.is_not_expected_tag(
                "field"@,
                tree.id,
            ),
            res is Ok <==> exists|f: FieldInfo| field_info_parsed(*tree, *config, f),
            res is Ok ==> field_info_parsed(*tree, *config, res->Ok_0),
            forall|f: FieldInfo|
                res is Err && #[trigger] field_info_read(*tree, *config, f) ==> field_refused(
                    *tree,
                    *config,
                    f,
                    res->Err_0,
                ),
            tree.name@ == "field"@ && bit_range_of(*tree) is Some && tree.child("name"@) is None
                ==> res is Err && res->Err_0.is_missing_tag("name"@, tree.id),
    {
        if !tree.has_tag_name("field") {
            return Err(not_expected_tag("field", tree.id));
        }
        let bit_range: BitRange = BitRange::parse(tree)?;
        let name: String = tree.get_child_text("name")?;
        let description: Option<String> = tree.get_child_text_opt("description")?;
        let access = optional_access(tree, "access")?;
        let modified_write_values = optional_modified_write_values(tree, "modifiedWriteValues")?;
        let write_constraint = if !config.ignore_enums {
            optional_write_constraint(tree)?
        } else {
            None
        };
        let read_action = optional_read_action(tree, "readAction")?;
        let enumerated_values: Vec<EnumeratedValues> = parse_sets(tree, config)?;
        let derived_from: Option<String> = match tree.attribute("derivedFrom") {
            Some(s) => Some(s.clone()),
            None => None,
        };
        let ghost sets = enumerated_values@;
        let ghost reference = crate::fieldinfo::opt_view(derived_from);
        let built = FieldInfo::builder().name(name).description(description).bit_range(
            bit_range,
        ).access(access).modified_write_values(modified_write_values).write_constraint(
            write_constraint,
        ).read_action(read_action).enumerated_values(enumerated_values).derived_from(
            derived_from,
        ).build(config.validate_level);
        match built {
            Ok(f) => {
                assert(field_info_parsed(*tree, *config, f));
                Ok(f)
            },
            Err(e) => {
                assert forall|f: FieldInfo| #[trigger]
                    field_info_read(*tree, *config, f) implies f.validation(
                    config.validate_level,
                    Err(e),
                ) by {
                    let other = f.enumerated_values@;
                    let wanted = with_tag(tree.children@, "enumeratedValues"@);
                    assert forall|j: int| 0 <= j < other.len() implies (#[trigger] other[j]).usage
                        == sets[j].usage && other[j].values@ == sets[j].values@ by {
                        assert(enumerated_values_parsed(
                            wanted[j],
                            config.validate_level,
                            other[j],
                        ));
                        assert(enumerated_values_parsed(wanted[j], config.validate_level, sets[j]));
                    }
                    crate::fieldinfo::lemma_outcome_same(
                        name@,
                        reference,
                        bit_range.width,
                        other,
                        sets,
                        config.validate_level,
                        Err(e),
                    );
                }
                assert forall|f: FieldInfo| !field_info_parsed(*tree, *config, f) by {
                    if field_info_parsed(*tree, *config, f) {
                        let other = f.enumerated_values@;
                        let wanted = with_tag(tree.children@, "enumeratedValues"@);
                        assert forall|j: int| 0 <= j < other.len() implies (#[trigger] other[j]).usage
                            == sets[j].usage && other[j].values@ == sets[j].values@ by {
                            assert(enumerated_values_parsed(
                                wanted[j],
                                config.validate_level,
                                other[j],
                            ));
                            assert(enumerated_values_parsed(
                                wanted[j],
                                config.validate_level,
                                sets[j],
                            ));
                        }
                        crate::fieldinfo::lemma_outcome_by_content(
                            name@,
                            reference,
                            bit_range.width,
                            f.enumerated_values@,
                            sets,
                            config.validate_level,
                            Err(e),
                        );
                    }
                }
                Err(refused(e, tree.id))
            },
        }
    }
}

impl Field {
    /// Reads a field or a field array from a `field` element: an array
    /// where the element has a `dimIncrement` child.
    pub fn parse(tree: &Element, config: &Config) -> (res: Result<Field, SVDErrorAt>)
        ensures
            tree.name@ != "field"@ ==> res is Err && res->Err_0.is_not_expected_tag(
                "field"@,
                tree.id,
            ),
            res is Ok <==> exists|f: Field| field_parsed(*tree, *config, f),
            res is Ok ==> field_parsed(*tree, *config, res->Ok_0),
            forall|info: FieldInfo|
                res is Err && #[trigger] field_info_read(*tree, *config, info) && !field_info_parsed(
                    *tree,
                    *config,
                    info,
                ) ==> field_refused(*tree, *config, info, res->Err_0),
            forall|info: FieldInfo, d: DimElement|
                res is Err && #[trigger] field_info_parsed(*tree, *config, info)
                    && #[trigger] dim_parsed(*tree, config.validate_level, d) ==> res->Err_0.id
                    == tree.id && res->Err_0.error is Svd
                    && res->Err_0.error->Svd_0.is_missing_placeholder(info.name@, "field"@),
    {
        let info: FieldInfo = match FieldInfo::parse(tree, config) {
            Ok(i) => i,
            Err(e) => {
                assert forall|f: Field| !field_parsed(*tree, *config, f) by {
                    if field_parsed(*tree, *config, f) {
                        assert(field_info_parsed(*tree, *config, f.info()));
                    }
                }
                return Err(e);
            },
        };
        if tree.get_child("dimIncrement").is_some() {
            proof {
                assert forall|x: FieldInfo| #[trigger]
                    field_info_read(*tree, *config, x) implies field_info_parsed(
                    *tree,
                    *config,
                    x,
                ) by {
                    lemma_read_fields_agree(*tree, *config, x, info);
                }
            }
            let dim: DimElement = match DimElement::parse(tree, config) {
                Ok(d) => d,
                Err(e) => {
                    assert forall|f: Field| !field_parsed(*tree, *config, f) by {}
                    return Err(e);
                },
            };
            match check_placeholder_rule(&info.name, dim.dim, config.validate_level, "field") {
                Ok(()) => {},
                Err(e) => {
                    assert forall|f: Field| !field_parsed(*tree, *config, f) by {}
                    return Err(refused(e, tree.id));
                },
            }
            let field = Field::Array(info, dim);
            assert(field_parsed(*tree, *config, field));
            Ok(field)
        } else {
            let field = Field::Single(info);
            assert(field_parsed(*tree, *config, field));
            Ok(field)
        }
    }
}

} // verus!
