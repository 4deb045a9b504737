use vstd::prelude::*;
use crate::access::Access;
use crate::error::SvdError;
use crate::fieldinfo::opt_view;
use crate::modifiedwritevalues::ModifiedWriteValues;
use crate::names::{check_derived_name, check_dimable_name, is_dimable_name, is_plain_name};
use crate::protection::Protection;
use crate::readaction::ReadAction;
use crate::register::Field;
use crate::registerproperties::RegisterProperties;
use crate::validate_level::ValidateLevel;
use crate::writeconstraint::WriteConstraint;

verus! {

/// The content of a register.
#[derive(Clone, Debug, PartialEq, Eq)]
pub struct RegisterInfo {
    /// Name of the register, unique within its peripheral.
    pub name: String,
    /// Name shown in place of `name` by a graphical front end.
    pub display_name: Option<String>,
    /// What the register is for.
    pub description: Option<String>,
    /// Name of a group of registers that share the address.
    pub alternate_group: Option<String>,
    /// Name of the register that this one is another view of.
    pub alternate_register: Option<String>,
    /// Offset of the register from the base of what encloses it.
    pub address_offset: u32,
    /// Register properties that the register sets itself.
    pub properties: RegisterProperties,
    /// How a write changes the register.
    pub modified_write_values: Option<ModifiedWriteValues>,
    /// Which values may be written.
    pub write_constraint: Option<WriteConstraint>,
    /// The side effect of a read.
    pub read_action: Option<ReadAction>,
    /// The fields of the register, in document order.
    pub fields: Option<Vec<Field>>,
    /// Name of the register from which this one takes its content.
    pub derived_from: Option<String>,
}

/// Builder for [`RegisterInfo`].
#[derive(Clone, Debug, PartialEq, Eq)]
pub struct RegisterInfoBuilder {
    pub name: Option<String>,
    pub display_name: Option<String>,
    pub description: Option<String>,
    pub alternate_group: Option<String>,
    pub alternate_register: Option<String>,
    pub address_offset: Option<u32>,
    pub properties: RegisterProperties,
    pub modified_write_values: Option<ModifiedWriteValues>,
    pub write_constraint: Option<WriteConstraint>,
    pub read_action: Option<ReadAction>,
    pub fields: Option<Vec<Field>>,
    pub derived_from: Option<String>,
}

/// What validating a register with the given names at level `lvl` returns:
/// at the strict level the name must match the dimensioned-name pattern and
/// the derivation reference the plain-name pattern, checked in this order.
pub open spec fn outcome(
    name: Seq<char>,
    derived_from: Option<Seq<char>>,
    lvl: ValidateLevel,
    res: Result<(), SvdError>,
) -> bool {
    if lvl == ValidateLevel::Strict && !is_dimable_name(name) {
        res is Err && res->Err_0.is_invalid_name(name, "name"@)
    } else if lvl == ValidateLevel::Strict && derived_from is Some && !is_plain_name(
        derived_from->0,
    ) {
        res is Err && res->Err_0.is_invalid_name(derived_from->0, "derivedFrom"@)
    } else {
        res is Ok
    }
}

impl RegisterInfoBuilder {
    /// The builder with nothing set.
    pub open spec fn empty() -> RegisterInfoBuilder {
        RegisterInfoBuilder {
            name: None,
            display_name: None,
            description: None,
            alternate_group: None,
            alternate_register: None,
            address_offset: None,
            properties: RegisterProperties::unset(),
            modified_write_values: None,
            write_constraint: None,
            read_action: None,
            fields: None,
            derived_from: None,
        }
    }

    /// Set the name of the register.
    pub fn name(self, value: String) -> (res: Self)
        ensures
            res == (RegisterInfoBuilder { name: Some(value), ..self }),
    {
        let mut b = self;
        b.name = Some(value);
        b
    }

    /// Set the display name of the register.
    pub fn display_name(self, value: Option<String>) -> (res: Self)
        ensures
            res == (RegisterInfoBuilder { display_name: value, ..self }),
    {
        let mut b = self;
        b.display_name = value;
        b
    }

    /// Set the description of the register.
    pub fn description(self, value: Option<String>) -> (res: Self)
        ensures
            res == (RegisterInfoBuilder { description: value, ..self }),
    {
        let mut b = self;
        b.description = value;
        b
    }

    /// Set the alternate group of the register.
    pub fn alternate_group(self, value: Option<String>) -> (res: Self)
        ensures
            res == (RegisterInfoBuilder { alternate_group: value, ..self }),
    {
        let mut b = self;
        b.alternate_group = value;
        b
    }

    /// Set the alternate register of the register.
    pub fn alternate_register(self, value: Option<String>) -> (res: Self)
        ensures
            res == (RegisterInfoBuilder { alternate_register: value, ..self }),
    {
        let mut b = self;
        b.alternate_register = value;
        b
    }

    /// Set the address offset of the register.
    pub fn address_offset(self, value: u32) -> (res: Self)
        ensures
            res == (RegisterInfoBuilder { address_offset: Some(value), ..self }),
    {
        let mut b = self;
        b.address_offset = Some(value);
        b
    }

    /// Set all register properties of the register.
    pub fn properties(self, value: RegisterProperties) -> (res: Self)
        ensures
            res == (RegisterInfoBuilder { properties: value, ..self }),
    {
        let mut b = self;
        b.properties = value;
        b
    }

    /// Set the size of the register.
    pub fn size(self, value: Option<u32>) -> (res: Self)
        ensures
            res == (RegisterInfoBuilder {
                properties: RegisterProperties { size: value, ..self.properties },
                ..self
            }),
    {
        let mut b = self;
        b.properties.size = value;
        b
    }

    /// Set the access of the register.
    pub fn access(self, value: Option<Access>) -> (res: Self)
        ensures
            res == (RegisterInfoBuilder {
                properties: RegisterProperties { access: value, ..self.properties },
                ..self
            }),
    {
        let mut b = self;
        b.properties.access = value;
        b
    }

    /// Set the protection of the register.
    pub fn protection(self, value: Option<Protection>) -> (res: Self)
        ensures
            res == (RegisterInfoBuilder {
                properties: RegisterProperties { protection: value, ..self.properties },
                ..self
            }),
    {
        let mut b = self;
        b.properties.protection = value;
        b
    }

    /// Set the reset value of the register.
    pub fn reset_value(self, value: Option<u64>) -> (res: Self)
        ensures
            res == (RegisterInfoBuilder {
                properties: RegisterProperties { reset_value: value, ..self.properties },
                ..self
            }),
    {
        let mut b = self;
        b.properties.reset_value = value;
        b
    }

    /// Set the reset mask of the register.
    pub fn reset_mask(self, value: Option<u64>) -> (res: Self)
        ensures
            res == (RegisterInfoBuilder {
                properties: RegisterProperties { reset_mask: value, ..self.properties },
                ..self
            }),
    {
        let mut b = self;
        b.properties.reset_mask = value;
        b
    }

    /// Set the modified write values of the register.
    pub fn modified_write_values(self, value: Option<ModifiedWriteValues>) -> (res: Self)
        ensures
            res == (RegisterInfoBuilder { modified_write_values: value, ..self }),
    {
        let mut b = self;
        b.modified_write_values = value;
        b
    }

    /// Set the write constraint of the register.
    pub fn write_constraint(self, value: Option<WriteConstraint>) -> (res: Self)
        ensures
            res == (RegisterInfoBuilder { write_constraint: value, ..self }),
    {
        let mut b = self;
        b.write_constraint = value;
        b
    }

    /// Set the read action of the register.
    pub fn read_action(self, value: Option<ReadAction>) -> (res: Self)
        ensures
            res == (RegisterInfoBuilder { read_action: value, ..self }),
    {
        let mut b = self;
        b.read_action = value;
        b
    }

    /// Set the fields of the register.
    pub fn fields(self, value: Option<Vec<Field>>) -> (res: Self)
        ensures
            res == (RegisterInfoBuilder { fields: value, ..self }),
    {
        let mut b = self;
        b.fields = value;
        b
    }

    /// Set the derivation reference of the register.
    pub fn derived_from(self, value: Option<String>) -> (res: Self)
        ensures
            res == (RegisterInfoBuilder { derived_from: value, ..self }),
    {
        let mut b = self;
        b.derived_from = value;
        b
    }

    /// The register that holds exactly what the builder was given.
    pub open spec fn built(self) -> RegisterInfo {
        RegisterInfo {
            name: self.name->0,
            display_name: self.display_name,
            description: self.description,
            alternate_group: self.alternate_group,
            alternate_register: self.alternate_register,
            address_offset: self.address_offset->0,
            properties: self.properties,
            modified_write_values: self.modified_write_values,
            write_constraint: self.write_constraint,
            read_action: self.read_action,
            fields: self.fields,
            derived_from: self.derived_from,
        }
    }

    /// Validate and build a [`RegisterInfo`]. A missing name, then a missing
    /// address offset, is reported as uninitialized; a register that is put
    /// together is validated unless the level is disabled.
    pub fn build(self, lvl: ValidateLevel) -> (res: Result<RegisterInfo, SvdError>)
        ensures
            self.name is None ==> res is Err && res->Err_0.is_uninitialized("name"@),
            self.name is Some && self.address_offset is None ==> res is Err
                && res->Err_0.is_uninitialized("address_offset"@),
            self.name is Some && self.address_offset is Some ==> {
                &&& res is Ok ==> res->Ok_0 == self.built()
                &&& lvl == ValidateLevel::Disabled ==> res is Ok
                &&& lvl != ValidateLevel::Disabled ==> outcome(
                    self.name->0@,
                    opt_view(self.derived_from),
                    lvl,
                    match res {
                        Ok(_) => Ok(()),
                        Err(e) => Err(e),
                    },
                )
            },
    {
        let name: String = match self.name {
            Some(n) => n,
            None => { return Err(crate::error::uninitialized("name")); },
        };
        let address_offset: u32 = match self.address_offset {
            Some(a) => a,
            None => { return Err(crate::error::uninitialized("address_offset")); },
        };
        let info = RegisterInfo {
            name,
            display_name: self.display_name,
            description: self.description,
            alternate_group: self.alternate_group,
            alternate_register: self.alternate_register,
            address_offset,
            properties: self.properties,
            modified_write_values: self.modified_write_values,
            write_constraint: self.write_constraint,
            read_action: self.read_action,
            fields: self.fields,
            derived_from: self.derived_from,
        };
        if !lvl.is_disabled() {
            match info.validate(lvl) {
                Ok(()) => {},
                Err(e) => { return Err(e); },
            }
        }
        Ok(info)
    }
}

impl RegisterInfo {
    /// Make a builder for [`RegisterInfo`].
    pub fn builder() -> (res: RegisterInfoBuilder)
        ensures
            res == RegisterInfoBuilder::empty(),
    {
        RegisterInfoBuilder {
            name: None,
            display_name: None,
            description: None,
            alternate_group: None,
            alternate_register: None,
            address_offset: None,
            properties: RegisterProperties::new(),
            modified_write_values: None,
            write_constraint: None,
            read_action: None,
            fields: None,
            derived_from: None,
        }
    }

    /// Validate the [`RegisterInfo`].
    pub fn validate(&self, lvl: ValidateLevel) -> (res: Result<(), SvdError>)
        ensures
            outcome(self.name@, opt_view(self.derived_from), lvl, res),
    {
        if lvl.is_strict() {
            check_dimable_name(self.name.as_str(), "name")?;
            if let Some(d) = &self.derived_from {
                check_derived_name(d.as_str(), "derivedFrom")?;
            }
        }
        Ok(())
    }
}

} // verus!
