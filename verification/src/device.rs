use vstd::prelude::*;
use vstd::string::*;
use vstd::std_specs::convert::FromSpecImpl;
use crate::cpu::Cpu;
use crate::error::SvdError;
use crate::peripheral::Peripheral;
use crate::registerproperties::{first_set, RegisterProperties};
use crate::validate_level::ValidateLevel;

verus! {

/// Errors of validating a [`Device`].
#[derive(Clone, Debug, PartialEq, Eq)]
pub enum Error {
    /// Device has no peripherals.
    EmptyDevice,
}

impl Error {
    /// What the error says, as a sentence for a person.
    pub open spec fn message_text(self) -> Seq<char> {
        "Device must contain at least one peripheral"@
    }

    /// What the error says, as a sentence for a person.
    pub fn message(&self) -> (res: String)
        ensures
            res@ == self.message_text(),
    {
        "Device must contain at least one peripheral".to_owned()
    }
}

/// The top element of a description: what is specific to one device.
#[derive(Debug, PartialEq, Eq)]
pub struct Device {
    /// Full name of the vendor.
    pub vendor: Option<String>,
    /// Short name of the vendor.
    pub vendor_id: Option<String>,
    /// Name of the device or device series; device names are unique.
    pub name: String,
    /// Name of the device series.
    pub series: Option<String>,
    /// Version of the description.
    pub version: String,
    /// The main features of the device.
    pub description: String,
    /// Legal text for the head of a generated header file.
    pub license_text: Option<String>,
    /// The processor of the device.
    pub cpu: Option<Cpu>,
    /// File name, without extension, of the system include file.
    pub header_system_filename: Option<String>,
    /// Prefix of the type names in a generated header file.
    pub header_definitions_prefix: Option<String>,
    /// Number of data bits that one address selects.
    pub address_unit_bits: u32,
    /// Bit width of the widest single transfer on the bus.
    pub width: u32,
    /// Default properties for all registers.
    pub default_register_properties: RegisterProperties,
    /// The peripherals, in document order.
    pub peripherals: Vec<Peripheral>,
    /// The XML schema instance namespace.
    pub xmlns_xs: String,
    /// File name of the schema.
    pub no_namespace_schema_location: String,
    /// Version of the schema.
    pub schema_version: String,
}

/// Builder for [`Device`].
#[derive(Debug, PartialEq, Eq)]
pub struct DeviceBuilder {
    pub vendor: Option<String>,
    pub vendor_id: Option<String>,
    pub name: Option<String>,
    pub series: Option<String>,
    pub version: Option<String>,
    pub description: Option<String>,
    pub license_text: Option<String>,
    pub cpu: Option<Cpu>,
    pub header_system_filename: Option<String>,
    pub header_definitions_prefix: Option<String>,
    pub address_unit_bits: Option<u32>,
    pub width: Option<u32>,
    pub default_register_properties: RegisterProperties,
    pub peripherals: Option<Vec<Peripheral>>,
    pub xmlns_xs: Option<String>,
    pub no_namespace_schema_location: Option<String>,
    pub schema_version: Option<String>,
}

/// The schema instance namespace of a device that sets none.
pub open spec fn default_xmlns_xs() -> Seq<char> {
    "http://www.w3.org/2001/XMLSchema-instance"@
}

/// The schema file name of a device that sets none.
pub open spec fn default_schema_location() -> Seq<char> {
    "CMSIS-SVD_Schema_1_1.xsd"@
}

/// The schema version of a device that sets none.
pub open spec fn default_schema_version() -> Seq<char> {
    "1.1"@
}

/// The text that is set, else the default.
pub open spec fn text_or(value: Option<String>, default: Seq<char>) -> Seq<char> {
    match value {
        Some(s) => s@,
        None => default,
    }
}

/// The value that is set, else the one already there.
pub open spec fn set_or<T>(value: Option<T>, current: T) -> T {
    match value {
        Some(v) => v,
        None => current,
    }
}

/// Puts `value` in place of an optional field where it is set.
fn replace_if_some<T>(target: &mut Option<T>, value: Option<T>)
    ensures
        *final(target) == first_set(value, *old(target)),
{
    if value.is_some() {
        *target = value;
    }
}

/// Puts the content of `value` in place of a field where it is set.
fn replace_if_set<T>(target: &mut T, value: Option<T>)
    ensures
        *final(target) == set_or(value, *old(target)),
{
    if let Some(v) = value {
        *target = v;
    }
}

impl FromSpecImpl<Device> for DeviceBuilder {
    open spec fn obeys_from_spec() -> bool {
        true
    }

    open spec fn from_spec(d: Device) -> DeviceBuilder {
        DeviceBuilder {
            vendor: d.vendor,
            vendor_id: d.vendor_id,
            name: Some(d.name),
            series: d.series,
            version: Some(d.version),
            description: Some(d.description),
            license_text: d.license_text,
            cpu: d.cpu,
            header_system_filename: d.header_system_filename,
            header_definitions_prefix: d.header_definitions_prefix,
            address_unit_bits: Some(d.address_unit_bits),
            width: Some(d.width),
            default_register_properties: d.default_register_properties,
            peripherals: Some(d.peripherals),
            xmlns_xs: Some(d.xmlns_xs),
            no_namespace_schema_location: Some(d.no_namespace_schema_location),
            schema_version: Some(d.schema_version),
        }
    }
}

impl From<Device> for DeviceBuilder {
    /// A builder with every field set to what `d` holds.
    fn from(d: Device) -> (res: DeviceBuilder) {
        DeviceBuilder {
            vendor: d.vendor,
            vendor_id: d.vendor_id,
            name: Some(d.name),
            series: d.series,
            version: Some(d.version),
            description: Some(d.description),
            license_text: d.license_text,
            cpu: d.cpu,
            header_system_filename: d.header_system_filename,
            header_definitions_prefix: d.header_definitions_prefix,
            address_unit_bits: Some(d.address_unit_bits),
            width: Some(d.width),
            default_register_properties: d.default_register_properties,
            peripherals: Some(d.peripherals),
            xmlns_xs: Some(d.xmlns_xs),
            no_namespace_schema_location: Some(d.no_namespace_schema_location),
            schema_version: Some(d.schema_version),
        }
    }
}

impl DeviceBuilder {
    /// The builder with nothing set.
    pub open spec fn empty() -> DeviceBuilder {
        DeviceBuilder {
            vendor: None,
            vendor_id: None,
            name: None,
            series: None,
            version: None,
            description: None,
            license_text: None,
            cpu: None,
            header_system_filename: None,
            header_definitions_prefix: None,
            address_unit_bits: None,
            width: None,
            default_register_properties: RegisterProperties::unset(),
            peripherals: None,
            xmlns_xs: None,
            no_namespace_schema_location: None,
            schema_version: None,
        }
    }

    /// Set the vendor of the device.
    pub fn vendor(self, value: Option<String>) -> (res: Self)
        ensures
            res == (DeviceBuilder { vendor: value, ..self }),
    {
        let mut b = self;
        b.vendor = value;
        b
    }

    /// Set the vendor_id of the device.
    pub fn vendor_id(self, value: Option<String>) -> (res: Self)
        ensures
            res == (DeviceBuilder { vendor_id: value, ..self }),
    {
        let mut b = self;
        b.vendor_id = value;
        b
    }

    /// Set the name of the device.
    pub fn name(self, value: String) -> (res: Self)
        ensures
            res == (DeviceBuilder { name: Some(value), ..self }),
    {
        let mut b = self;
        b.name = Some(value);
        b
    }

    /// Set the series of the device.
    pub fn series(self, value: Option<String>) -> (res: Self)
        ensures
            res == (DeviceBuilder { series: value, ..self }),
    {
        let mut b = self;
        b.series = value;
        b
    }

    /// Set the version of the device.
    pub fn version(self, value: String) -> (res: Self)
        ensures
            res == (DeviceBuilder { version: Some(value), ..self }),
    {
        let mut b = self;
        b.version = Some(value);
        b
    }

    /// Set the description of the device.
    pub fn description(self, value: String) -> (res: Self)
        ensures
            res == (DeviceBuilder { description: Some(value), ..self }),
    {
        let mut b = self;
        b.description = Some(value);
        b
    }

    /// Set the license text of the device.
    pub fn license_text(self, value: Option<String>) -> (res: Self)
        ensures
            res == (DeviceBuilder { license_text: value, ..self }),
    {
        let mut b = self;
        b.license_text = value;
        b
    }

    /// Set the cpu of the device.
    pub fn cpu(self, value: Option<Cpu>) -> (res: Self)
        ensures
            res == (DeviceBuilder { cpu: value, ..self }),
    {
        let mut b = self;
        b.cpu = value;
        b
    }

    /// Set the name of the system include file of the device.
    pub fn header_system_filename(self, value: Option<String>) -> (res: Self)
        ensures
            res == (DeviceBuilder { header_system_filename: value, ..self }),
    {
        let mut b = self;
        b.header_system_filename = value;
        b
    }

    /// Set the prefix of the header type names of the device.
    pub fn header_definitions_prefix(self, value: Option<String>) -> (res: Self)
        ensures
            res == (DeviceBuilder { header_definitions_prefix: value, ..self }),
    {
        let mut b = self;
        b.header_definitions_prefix = value;
        b
    }

    /// Set the address unit bits of the device.
    pub fn address_unit_bits(self, value: u32) -> (res: Self)
        ensures
            res == (DeviceBuilder { address_unit_bits: Some(value), ..self }),
    {
        let mut b = self;
        b.address_unit_bits = Some(value);
        b
    }

    /// Set the width of the device.
    pub fn width(self, value: u32) -> (res: Self)
        ensures
            res == (DeviceBuilder { width: Some(value), ..self }),
    {
        let mut b = self;
        b.width = Some(value);
        b
    }

    /// Set the default register properties of the device.
    pub fn default_register_properties(self, value: RegisterProperties) -> (res: Self)
        ensures
            res == (DeviceBuilder { default_register_properties: value, ..self }),
    {
        let mut b = self;
        b.default_register_properties = value;
        b
    }

    /// Set the peripherals of the device.
    pub fn peripherals(self, value: Vec<Peripheral>) -> (res: Self)
        ensures
            res == (DeviceBuilder { peripherals: Some(value), ..self }),
    {
        let mut b = self;
        b.peripherals = Some(value);
        b
    }

    /// Set the xmlns_xs version of the device.
    pub fn xmlns_xs(self, value: String) -> (res: Self)
        ensures
            res == (DeviceBuilder { xmlns_xs: Some(value), ..self }),
    {
        let mut b = self;
        b.xmlns_xs = Some(value);
        b
    }

    /// Set the no_namespace_schema_location version of the device.
    pub fn no_namespace_schema_location(self, value: String) -> (res: Self)
        ensures
            res == (DeviceBuilder { no_namespace_schema_location: Some(value), ..self }),
    {
        let mut b = self;
        b.no_namespace_schema_location = Some(value);
        b
    }

    /// Set the schema version of the device.
    pub fn schema_version(self, value: String) -> (res: Self)
        ensures
            res == (DeviceBuilder { schema_version: Some(value), ..self }),
    {
        let mut b = self;
        b.schema_version = Some(value);
        b
    }

    /// The required field that is missing and comes first in the order of
    /// the checks, if any is missing.
    pub open spec fn first_missing(self) -> Option<Seq<char>> {
        if self.name is None {
            Some("name"@)
        } else if self.version is None {
            Some("version"@)
        } else if self.description is None {
            Some("description"@)
        } else if self.address_unit_bits is None {
            Some("address_unit_bits"@)
        } else if self.width is None {
            Some("width"@)
        } else if self.peripherals is None {
            Some("peripherals"@)
        } else {
            None
        }
    }

    /// Whether `d` holds exactly what the builder was given, with the
    /// defaults for the schema data it was not given.
    pub open spec fn builds(self, d: Device) -> bool {
        &&& d.vendor == self.vendor
        &&& d.vendor_id == self.vendor_id
        &&& self.name == Some(d.name)
        &&& d.series == self.series
        &&& self.version == Some(d.version)
        &&& self.description == Some(d.description)
        &&& d.license_text == self.license_text
        &&& d.cpu == self.cpu
        &&& d.header_system_filename == self.header_system_filename
        &&& d.header_definitions_prefix == self.header_definitions_prefix
        &&& self.address_unit_bits == Some(d.address_unit_bits)
        &&& self.width == Some(d.width)
        &&& d.default_register_properties == self.default_register_properties
        &&& self.peripherals == Some(d.peripherals)
        &&& d.xmlns_xs@ == text_or(self.xmlns_xs, default_xmlns_xs())
        &&& d.no_namespace_schema_location@ == text_or(
            self.no_namespace_schema_location,
            default_schema_location(),
        )
        &&& d.schema_version@ == text_or(self.schema_version, default_schema_version())
    }

    /// Validate and build a [`Device`]. The first required field that is
    /// missing is reported as uninitialized. A device that is put together
    /// is validated unless the level is disabled: it must hold a peripheral.
    pub fn build(self, lvl: ValidateLevel) -> (res: Result<Device, SvdError>)
        ensures
            self.first_missing() is Some ==> res is Err && res->Err_0.is_uninitialized(
                self.first_missing()->0,
            ),
            self.first_missing() is None && lvl != ValidateLevel::Disabled
                && self.peripherals->0@.len() == 0 ==> res == Err::<Device, SvdError>(
                SvdError::Device(Error::EmptyDevice),
            ),
            self.first_missing() is None && (lvl == ValidateLevel::Disabled
                || self.peripherals->0@.len() > 0) ==> res is Ok && self.builds(res->Ok_0),
    {
        let name: String = match self.name {
            Some(v) => v,
            None => { return Err(crate::error::uninitialized("name")); },
        };
        let version: String = match self.version {
            Some(v) => v,
            None => { return Err(crate::error::uninitialized("version")); },
        };
        let description: String = match self.description {
            Some(v) => v,
            None => { return Err(crate::error::uninitialized("description")); },
        };
        let address_unit_bits: u32 = match self.address_unit_bits {
            Some(v) => v,
            None => { return Err(crate::error::uninitialized("address_unit_bits")); },
        };
        let width: u32 = match self.width {
            Some(v) => v,
            None => { return Err(crate::error::uninitialized("width")); },
        };
        let peripherals: Vec<Peripheral> = match self.peripherals {
            Some(v) => v,
            None => { return Err(crate::error::uninitialized("peripherals")); },
        };
        let xmlns_xs: String = match self.xmlns_xs {
            Some(v) => v,
            None => "http://www.w3.org/2001/XMLSchema-instance".to_owned(),
        };
        let no_namespace_schema_location: String = match self.no_namespace_schema_location {
            Some(v) => v,
            None => "CMSIS-SVD_Schema_1_1.xsd".to_owned(),
        };
        let schema_version: String = match self.schema_version {
            Some(v) => v,
            None => "1.1".to_owned(),
        };
        let mut device = Device {
            vendor: self.vendor,
            vendor_id: self.vendor_id,
            name,
            series: self.series,
            version,
            description,
            license_text: self.license_text,
            cpu: self.cpu,
            header_system_filename: self.header_system_filename,
            header_definitions_prefix: self.header_definitions_prefix,
            address_unit_bits,
            width,
            default_register_properties: self.default_register_properties,
            peripherals,
            xmlns_xs,
            no_namespace_schema_location,
            schema_version,
        };
        if !lvl.is_disabled() {
            match device.validate(lvl) {
                Ok(()) => {},
                Err(e) => { return Err(e); },
            }
        }
        Ok(device)
    }
}

impl Device {
    /// Whether the device passes validation at level `lvl`: above the
    /// disabled level it holds at least one peripheral.
    pub open spec fn valid(&self, lvl: ValidateLevel) -> bool {
        lvl == ValidateLevel::Disabled || self.peripherals@.len() > 0
    }

    /// Whether `after` is this device with the fields that `b` sets taken
    /// over and the others as they were.
    pub open spec fn modified_by(&self, b: DeviceBuilder, after: Device) -> bool {
        &&& after.vendor == first_set(b.vendor, self.vendor)
        &&& after.vendor_id == first_set(b.vendor_id, self.vendor_id)
        &&& after.name == set_or(b.name, self.name)
        &&& after.series == first_set(b.series, self.series)
        &&& after.version == set_or(b.version, self.version)
        &&& after.description == set_or(b.description, self.description)
        &&& after.license_text == first_set(b.license_text, self.license_text)
        &&& after.cpu == first_set(b.cpu, self.cpu)
        &&& after.header_system_filename == first_set(
            b.header_system_filename,
            self.header_system_filename,
        )
        &&& after.header_definitions_prefix == first_set(
            b.header_definitions_prefix,
            self.header_definitions_prefix,
        )
        &&& after.address_unit_bits == set_or(b.address_unit_bits, self.address_unit_bits)
        &&& after.width == set_or(b.width, self.width)
        &&& after.default_register_properties == b.default_register_properties.over(
            self.default_register_properties,
        )
        &&& after.peripherals == set_or(b.peripherals, self.peripherals)
        &&& after.xmlns_xs == set_or(b.xmlns_xs, self.xmlns_xs)
        &&& after.no_namespace_schema_location == set_or(
            b.no_namespace_schema_location,
            self.no_namespace_schema_location,
        )
        &&& after.schema_version == set_or(b.schema_version, self.schema_version)
    }

    /// Make a builder for [`Device`].
    pub fn builder() -> (res: DeviceBuilder)
        ensures
            res == DeviceBuilder::empty(),
    {
        DeviceBuilder {
            vendor: None,
            vendor_id: None,
            name: None,
            series: None,
            version: None,
            description: None,
            license_text: None,
            cpu: None,
            header_system_filename: None,
            header_definitions_prefix: None,
            address_unit_bits: None,
            width: None,
            default_register_properties: RegisterProperties::new(),
            peripherals: None,
            xmlns_xs: None,
            no_namespace_schema_location: None,
            schema_version: None,
        }
    }

    /// Modify an existing [`Device`] based on a builder: the fields that
    /// the builder sets are taken over. Unless the level is disabled the
    /// result must hold a peripheral; where it does not, the device stays
    /// as it was.
    pub fn modify_from(&mut self, builder: DeviceBuilder, lvl: ValidateLevel) -> (res: Result<
        (),
        SvdError,
    >)
        ensures
            res is Ok ==> old(self).modified_by(builder, *final(self)),
            res is Err ==> *final(self) == *old(self) && res == Err::<(), SvdError>(
                SvdError::Device(Error::EmptyDevice),
            ),
            res is Ok <==> lvl == ValidateLevel::Disabled || set_or(
                builder.peripherals,
                old(self).peripherals,
            )@.len() > 0,
    {
        if !lvl.is_disabled() {
            let count: usize = match &builder.peripherals {
                Some(p) => p.len(),
                None => self.peripherals.len(),
            };
            if count == 0 {
                return Err(SvdError::Device(Error::EmptyDevice));
            }
        }
        replace_if_some(&mut self.vendor, builder.vendor);
        replace_if_some(&mut self.vendor_id, builder.vendor_id);
        replace_if_set(&mut self.name, builder.name);
        replace_if_some(&mut self.series, builder.series);
        replace_if_set(&mut self.version, builder.version);
        replace_if_set(&mut self.description, builder.description);
        replace_if_some(&mut self.license_text, builder.license_text);
        replace_if_some(&mut self.cpu, builder.cpu);
        replace_if_some(&mut self.header_system_filename, builder.header_system_filename);
        replace_if_some(&mut self.header_definitions_prefix, builder.header_definitions_prefix);
        replace_if_set(&mut self.address_unit_bits, builder.address_unit_bits);
        replace_if_set(&mut self.width, builder.width);
        self.default_register_properties.modify_from(builder.default_register_properties);
        replace_if_set(&mut self.peripherals, builder.peripherals);
        replace_if_set(&mut self.xmlns_xs, builder.xmlns_xs);
        replace_if_set(&mut self.no_namespace_schema_location, builder.no_namespace_schema_location);
        replace_if_set(&mut self.schema_version, builder.schema_version);
        Ok(())
    }

    /// Validate the [`Device`]: it must hold at least one peripheral. The
    /// device is not changed.
    pub fn validate(&mut self, _lvl: ValidateLevel) -> (res: Result<(), SvdError>)
        ensures
            *final(self) == *old(self),
            old(self).peripherals@.len() > 0 ==> res is Ok,
            old(self).peripherals@.len() == 0 ==> res == Err::<(), SvdError>(
                SvdError::Device(Error::EmptyDevice),
            ),
    {
        if self.peripherals.len() == 0 {
            return Err(SvdError::Device(Error::EmptyDevice));
        }
        Ok(())
    }
}

} // verus!
