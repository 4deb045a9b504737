use svd_model::device::{Device, DeviceBuilder, Error};
use svd_model::error::{BuildError, SvdError};
use svd_model::peripheral::{Peripheral, PeripheralInfo};
use svd_model::registerproperties::RegisterProperties;
use svd_model::validate_level::ValidateLevel;

fn minimal() -> DeviceBuilder {
    Device::builder()
        .name("STM32".to_string())
        .version("1.0".to_string())
        .description("A device".to_string())
        .address_unit_bits(8)
        .width(32)
}

fn peripheral(name: &str) -> Peripheral {
    Peripheral::Single(PeripheralInfo {
        name: name.to_string(),
        description: None,
        base_address: 0x4000_0000,
        interrupt: Vec::new(),
        default_register_properties: RegisterProperties::new(),
        registers: None,
        derived_from: None,
    })
}

#[test]
fn empty_device_fails_at_strict() {
    let res = minimal().peripherals(Vec::new()).build(ValidateLevel::Strict);
    assert_eq!(res, Err(SvdError::Device(Error::EmptyDevice)));
}

#[test]
fn empty_device_fails_at_weak() {
    let res = minimal().peripherals(Vec::new()).build(ValidateLevel::Weak);
    assert_eq!(res, Err(SvdError::Device(Error::EmptyDevice)));
}

#[test]
fn empty_device_builds_at_disabled() {
    let device = minimal().peripherals(Vec::new()).build(ValidateLevel::Disabled).unwrap();
    assert_eq!(device.name, "STM32");
    assert!(device.peripherals.is_empty());
    assert_eq!(device.xmlns_xs, "http://www.w3.org/2001/XMLSchema-instance");
    assert_eq!(device.no_namespace_schema_location, "CMSIS-SVD_Schema_1_1.xsd");
    assert_eq!(device.schema_version, "1.1");
}

#[test]
fn device_missing_fields_are_named() {
    let res = Device::builder().build(ValidateLevel::Strict);
    assert_eq!(res, Err(SvdError::Build(BuildError::Uninitialized("name".to_string()))));
    let res = Device::builder().name("D".to_string()).build(ValidateLevel::Strict);
    assert_eq!(res, Err(SvdError::Build(BuildError::Uninitialized("version".to_string()))));
    let res = minimal().build(ValidateLevel::Disabled);
    assert_eq!(res, Err(SvdError::Build(BuildError::Uninitialized("peripherals".to_string()))));
}

#[test]
fn device_modify_from_applies_set_fields_only() {
    let mut device = minimal()
        .vendor(Some("ACME".to_string()))
        .peripherals(vec![peripheral("UART0")])
        .build(ValidateLevel::Strict)
        .unwrap();
    let change = Device::builder().name("OTHER".to_string()).width(16);
    assert_eq!(device.modify_from(change, ValidateLevel::Strict), Ok(()));
    assert_eq!(device.name, "OTHER");
    assert_eq!(device.width, 16);
    assert_eq!(device.vendor, Some("ACME".to_string()));
    assert_eq!(device.version, "1.0");
    assert_eq!(device.peripherals.len(), 1);
}

#[test]
fn device_modify_from_failure_leaves_device_unchanged() {
    let mut device = minimal()
        .peripherals(vec![peripheral("UART0")])
        .build(ValidateLevel::Strict)
        .unwrap();
    let change = Device::builder().name("OTHER".to_string()).peripherals(Vec::new());
    assert_eq!(
        device.modify_from(change, ValidateLevel::Weak),
        Err(SvdError::Device(Error::EmptyDevice))
    );
    assert_eq!(device.name, "STM32");
    assert_eq!(device.peripherals.len(), 1);
}

#[test]
fn device_builder_from_device_rebuilds_it() {
    let device = minimal()
        .series(Some("S".to_string()))
        .peripherals(vec![peripheral("UART0")])
        .build(ValidateLevel::Strict)
        .unwrap();
    let again = DeviceBuilder::from(
        minimal()
            .series(Some("S".to_string()))
            .peripherals(vec![peripheral("UART0")])
            .build(ValidateLevel::Strict)
            .unwrap(),
    )
    .build(ValidateLevel::Strict)
    .unwrap();
    assert_eq!(device, again);
}

#[test]
fn device_validate_needs_a_peripheral() {
    let mut device = minimal().peripherals(Vec::new()).build(ValidateLevel::Disabled).unwrap();
    assert_eq!(device.validate(ValidateLevel::Strict), Err(SvdError::Device(Error::EmptyDevice)));
    device.peripherals.push(peripheral("P"));
    assert_eq!(device.validate(ValidateLevel::Strict), Ok(()));
}
