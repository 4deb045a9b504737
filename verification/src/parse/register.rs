use vstd::prelude::*;
use vstd::string::*;
use crate::dimelement::DimElement;
use crate::parse::dimelement::dim_parsed;
use crate::parse::elementext::{child_text, child_u32, pointed, text_ok, with_tag};
use crate::parse::error::{not_expected_tag, refused, Config, SVDErrorAt};
use crate::parse::field::{check_placeholder_rule, field_parsed, placeholder_rule};
use crate::parse::leaf::{
    child_modified_write_values, child_read_action, modified_write_values_ok,
    optional_modified_write_values, optional_read_action, read_action_ok,
};
use crate::parse::registerproperties::{properties_of, properties_ok};
use crate::parse::writeconstraint::{
    child_write_constraint, optional_write_constraint, write_constraint_ok,
};
use crate::register::{Field, Register};
use crate::registerinfo::RegisterInfo;
use crate::registerproperties::RegisterProperties;
use crate::tree::Element;
use crate::validate_level::ValidateLevel;

verus! {

/// Whether `fields` holds what the `fields` child of a register's element
/// says: nothing where there is no such child, else one field for each of
/// its `field` children, in order.
pub open spec fn fields_parsed(tree: Element, config: Config, fields: Option<Vec<Field>>) -> bool {
    match tree.child("fields"@) {
        None => fields is None,
        Some(c) => {
            &&& fields is Some
            &&& fields->0@.len() == with_tag(c.children@, "field"@).len()
            &&& forall|j: int|
                0 <= j < fields->0@.len() ==> field_parsed(
                    #[trigger] with_tag(c.children@, "field"@)[j],
                    config,
                    fields->0@[j],
                )
        },
    }
}

/// Whether a `register` element can be read and `r` holds what it says.
pub open spec fn register_info_read(tree: Element, config: Config, r: RegisterInfo) -> bool {
    &&& tree.name@ == "register"@
    &&& Some(r.name) == child_text(tree, "name"@)
    &&& text_ok(tree, "displayName"@)
    &&& r.display_name == child_text(tree, "displayName"@)
    &&& text_ok(tree, "description"@)
    &&& r.description == child_text(tree, "description"@)
    &&& text_ok(tree, "alternateGroup"@)
    &&& r.alternate_group == child_text(tree, "alternateGroup"@)
    &&& text_ok(tree, "alternateRegister"@)
    &&& r.alternate_register == child_text(tree, "alternateRegister"@)
    &&& Some(r.address_offset) == child_u32(tree, "addressOffset"@)
    &&& properties_ok(tree)
    &&& r.properties == properties_of(tree)
    &&& modified_write_values_ok(tree, "modifiedWriteValues"@)
    &&& r.modified_write_values == child_modified_write_values(tree, "modifiedWriteValues"@)
    &&& write_constraint_ok(tree)
    &&& r.write_constraint == child_write_constraint(tree)
    &&& read_action_ok(tree, "readAction"@)
    &&& r.read_action == child_read_action(tree, "readAction"@)
    &&& fields_parsed(tree, config, r.fields)
    &&& r.derived_from == tree.attribute_value("derivedFrom"@)
}

/// Whether a `register` element can be read, `r` holds what it says, and
/// `r` passes validation at the configured level.
pub open spec fn register_info_parsed(tree: Element, config: Config, r: RegisterInfo) -> bool {
    &&& register_info_read(tree, config, r)
    &&& (config.validate_level != ValidateLevel::Disabled ==> crate::registerinfo::outcome(
        r.name@,
        crate::fieldinfo::opt_view(r.derived_from),
        config.validate_level,
        Ok(()),
    ))
}

/// Whether `err` is the refusal of the builder of a register that was read
/// as `r`: the validation error of `r`, placed at the register's element.
pub open spec fn register_refused(
    tree: Element,
    config: Config,
    r: RegisterInfo,
    err: SVDErrorAt,
) -> bool {
    &&& err.id == tree.id
    &&& err.error is Svd
    &&& crate::registerinfo::outcome(
        r.name@,
        crate::fieldinfo::opt_view(r.derived_from),
        config.validate_level,
        Err(err.error->Svd_0),
    )
}

/// Whether `r` holds what a `register` element says: an array where the
/// element has a `dimIncrement` child, a single register where it has none.
pub open spec fn register_parsed(tree: Element, config: Config, r: Register) -> bool {
    match r {
        Register::Single(info) => tree.child("dimIncrement"@) is None && register_info_parsed(
            tree,
            config,
            info,
        ),
        Register::Array(info, dim) => {
            &&& tree.child("dimIncrement"@) is Some
            &&& register_info_parsed(tree, config, info)
            &&& dim_parsed(tree, config.validate_level, dim)
            &&& dim.well_formed()
            &&& placeholder_rule(info.name@, dim.dim, config.validate_level)
        },
    }
}

/// A register whose element has no property child sets no property, and
/// its encoding holds no property element: what a register inherits is
/// never written out as its own.
pub proof fn lemma_inherited_properties_stay_out(tree: Element, config: Config, r: RegisterInfo)
    requires
        crate::parse::registerproperties::sets_no_property(tree),
        register_info_parsed(tree, config, r),
    ensures
        r.properties.is_unset(),
        crate::encode::properties_trees(r.properties) =~= Seq::empty(),
{
}

fn parse_fields(tree: &Element, config: &Config) -> (res: Result<Option<Vec<Field>>, SVDErrorAt>)
    ensures
        res is Ok ==> fields_parsed(*tree, *config, res->Ok_0),
        res is Err ==> forall|f: Option<Vec<Field>>| !fields_parsed(*tree, *config, f),
{
    match tree.get_child("fields") {
        None => Ok(None),
        Some(c) => {
            let elements: Vec<&Element> = c.children_with_tag("field");
            let ghost wanted = with_tag(c.children@, "field"@);
            assert(pointed(elements@).len() == elements@.len());
            let mut fields: Vec<Field> = Vec::new();
            let n: usize = elements.len();
            let mut i: usize = 0;
            while i < n
                invariant
                    n == elements@.len(),
                    i <= n,
                    pointed(elements@) == wanted,
                    fields@.len() == i,
                    tree.child("fields"@) == Some(*c),
                    wanted == with_tag(c.children@, "field"@),
                    forall|j: int|
                        0 <= j < i ==> field_parsed(#[trigger] wanted[j], *config, fields@[j]),
                decreases n - i,
            {
                assert(wanted[i as int] == *elements@[i as int]);
                match Field::parse(elements[i], config) {
                    Ok(f) => {
                        fields.push(f);
                    },
                    Err(e) => {
                        assert forall|f: Option<Vec<Field>>| !fields_parsed(*tree, *config, f) by {
                            if fields_parsed(*tree, *config, f) {
                                assert(field_parsed(wanted[i as int], *config, f->0@[i as int]));
                            }
                        }
                        return Err(e);
                    },
                }
                i += 1;
            }
            Ok(Some(fields))
        },
    }
}

impl RegisterInfo {
    /// Reads the content of a register from a `register` element and
    /// builds it at the configured level.
    pub fn parse(tree: &Element, config: &Config) -> (res: Result<RegisterInfo, SVDErrorAt>)
        ensures
            tree.name@ != "register"@ ==> res is Err && res->Err_0.is_not_expected_tag(
                "register"@,
                tree.id,
            ),
            res is Ok <==> exists|r: RegisterInfo| register_info_parsed(*tree, *config, r),
            res is Ok ==> register_info_parsed(*tree, *config, res->Ok_0),
            forall|r: RegisterInfo|
                res is Err && #[trigger] register_info_read(*tree, *config, r) ==> register_refused(
                    *tree,
                    *config,
                    r,
                    res->Err_0,
                ),
            tree.name@ == "register"@ && tree.child("name"@) is None ==> res is Err
                && res->Err_0.is_missing_tag("name"@, tree.id),
    {
        if !tree.has_tag_name("register") {
            return Err(not_expected_tag("register", tree.id));
        }
        let name: String = tree.get_child_text("name")?;
        let display_name: Option<String> = tree.get_child_text_opt("displayName")?;
        let description: Option<String> = tree.get_child_text_opt("description")?;
        let alternate_group: Option<String> = tree.get_child_text_opt("alternateGroup")?;
        let alternate_register: Option<String> = tree.get_child_text_opt("alternateRegister")?;
        let address_offset: u32 = tree.get_child_u32("addressOffset")?;
        let properties: RegisterProperties = RegisterProperties::parse(tree)?;
        let modified_write_values = optional_modified_write_values(tree, "modifiedWriteValues")?;
        let write_constraint = optional_write_constraint(tree)?;
        let read_action = optional_read_action(tree, "readAction")?;
        let fields: Option<Vec<Field>> = parse_fields(tree, config)?;
        let derived_from: Option<String> = match tree.attribute("derivedFrom") {
            Some(s) => Some(s.clone()),
            None => None,
        };
        let built = RegisterInfo::builder().name(name).display_name(display_name).description(
            description,
        ).alternate_group(alternate_group).alternate_register(alternate_register).address_offset(
            address_offset,
        ).properties(properties).modified_write_values(modified_write_values).write_constraint(
            write_constraint,
        ).read_action(read_action).fields(fields).derived_from(derived_from).build(
            config.validate_level,
        );
        match built {
            Ok(r) => {
                assert(register_info_parsed(*tree, *config, r));
                Ok(r)
            },
            Err(e) => {
                assert forall|r: RegisterInfo| !register_info_parsed(*tree, *config, r) by {}
                Err(refused(e, tree.id))
            },
        }
    }
}

impl Register {
    /// Reads a register or a register array from a `register` element: an
    /// array where the element has a `dimIncrement` child. The array
    /// description is built before it is used, so its labels match its
    /// count.
    pub fn parse(tree: &Element, config: &Config) -> (res: Result<Register, SVDErrorAt>)
        ensures
            tree.name@ != "register"@ ==> res is Err && res->Err_0.is_not_expected_tag(
                "register"@,
                tree.id,
            ),
            res is Ok <==> exists|r: Register| register_parsed(*tree, *config, r),
            res is Ok ==> register_parsed(*tree, *config, res->Ok_0),
            res is Ok ==> res->Ok_0.well_formed(),
            forall|info: RegisterInfo|
                res is Err && #[trigger] register_info_read(*tree, *config, info)
                    && !register_info_parsed(*tree, *config, info) ==> register_refused(
                    *tree,
                    *config,
                    info,
                    res->Err_0,
                ),
            forall|info: RegisterInfo, d: DimElement|
                res is Err && #[trigger] register_info_parsed(*tree, *config, info)
                    && #[trigger] dim_parsed(*tree, config.validate_level, d) ==> res->Err_0.id
                    == tree.id && res->Err_0.error is Svd
                    && res->Err_0.error->Svd_0.is_missing_placeholder(info.name@, "register"@),
    {
        if !tree.has_tag_name("register") {
            return Err(not_expected_tag("register", tree.id));
        }
        let info: RegisterInfo = match RegisterInfo::parse(tree, config) {
            Ok(i) => i,
            Err(e) => {
                assert forall|r: Register| !register_parsed(*tree, *config, r) by {
                    if register_parsed(*tree, *config, r) {
                        assert(register_info_parsed(*tree, *config, r.info()));
                    }
                }
                return Err(e);
            },
        };
        if tree.get_child("dimIncrement").is_some() {
            let dim: DimElement = match DimElement::parse(tree, config) {
                Ok(d) => d,
                Err(e) => {
                    assert forall|r: Register| !register_parsed(*tree, *config, r) by {}
                    return Err(e);
                },
            };
            match check_placeholder_rule(&info.name, dim.dim, config.validate_level, "register") {
                Ok(()) => {},
                Err(e) => {
                    assert forall|r: Register| !register_parsed(*tree, *config, r) by {}
                    return Err(refused(e, tree.id));
                },
            }
            let register = Register::Array(info, dim);
            assert(register_parsed(*tree, *config, register));
            Ok(register)
        } else {
            let register = Register::Single(info);
            assert(register_parsed(*tree, *config, register));
            Ok(register)
        }
    }
}

} // verus!
