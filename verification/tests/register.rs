use svd_model::access::Access;
use svd_model::bitrange::{BitRange, BitRangeType};
use svd_model::dimelement::DimElement;
use svd_model::encode::EncodeError;
use svd_model::error::{BuildError, NameError, SvdError};
use svd_model::fieldinfo::FieldInfo;
use svd_model::modifiedwritevalues::ModifiedWriteValues;
use svd_model::parse::error::{Config, SVDError, SVDErrorAt};
use svd_model::register::{Field, Register};
use svd_model::registerinfo::RegisterInfo;
use svd_model::tree::{Attribute, Element};
use svd_model::validate_level::ValidateLevel;

fn leaf(name: &str, text: &str) -> Element {
    Element::new_node(name, text.to_string())
}

fn node(name: &str, children: Vec<Element>) -> Element {
    Element::with_children(name, children)
}

fn strict() -> Config {
    Config { validate_level: ValidateLevel::Strict, ignore_enums: false }
}

fn mode_array_tree() -> Element {
    node(
        "register",
        vec![
            leaf("dim", "2"),
            leaf("dimIncrement", "0x4"),
            leaf("dimIndex", "10,20"),
            leaf("name", "MODE%s"),
            leaf("addressOffset", "0x8"),
        ],
    )
}

fn mode_array() -> Register {
    Register::Array(
        RegisterInfo::builder()
            .name("MODE%s".to_string())
            .address_offset(8)
            .build(ValidateLevel::Strict)
            .unwrap(),
        DimElement::builder()
            .dim(2)
            .dim_increment(4)
            .dim_index(Some(vec!["10".to_string(), "20".to_string()]))
            .build(ValidateLevel::Strict)
            .unwrap(),
    )
}

#[test]
fn decode_encode() {
    let tests = vec![(mode_array(), mode_array_tree())];
    for (value, tree) in tests {
        let parsed = Register::parse(&tree, &strict()).unwrap();
        assert_eq!(parsed, value);
        let encoded = value.encode().unwrap();
        assert_eq!(encoded, tree);
    }
}

#[test]
fn decode_encode_info() {
    let mut tree = node(
        "register",
        vec![
            leaf("name", "WRITECTRL"),
            leaf("description", "Write Control Register"),
            leaf("alternateGroup", "alternate_group"),
            leaf("alternateRegister", "alternate_register"),
            leaf("addressOffset", "0x8"),
            leaf("size", "0x20"),
            leaf("access", "read-write"),
            leaf("resetValue", "0x00000000"),
            leaf("resetMask", "0x00000023"),
            leaf("modifiedWriteValues", "oneToToggle"),
            node(
                "fields",
                vec![node(
                    "field",
                    vec![
                        leaf("name", "WREN"),
                        leaf("description", "Enable Write/Erase Controller"),
                        leaf("bitOffset", "0"),
                        leaf("bitWidth", "1"),
                        leaf("access", "read-write"),
                    ],
                )],
            ),
        ],
    );
    tree.set_attribute("derivedFrom", "derived_from".to_string());
    let tests = vec![(
        RegisterInfo::builder()
            .name("WRITECTRL".to_string())
            .alternate_group(Some("alternate_group".to_string()))
            .alternate_register(Some("alternate_register".to_string()))
            .derived_from(Some("derived_from".to_string()))
            .description(Some("Write Control Register".to_string()))
            .address_offset(8)
            .size(Some(32))
            .access(Some(Access::ReadWrite))
            .reset_value(Some(0x00000000))
            .reset_mask(Some(0x00000023))
            .fields(Some(vec![Field::Single(
                FieldInfo::builder()
                    .name("WREN".to_string())
                    .description(Some("Enable Write/Erase Controller".to_string()))
                    .bit_range(BitRange {
                        offset: 0,
                        width: 1,
                        range_type: BitRangeType::OffsetWidth,
                    })
                    .access(Some(Access::ReadWrite))
                    .build(ValidateLevel::Strict)
                    .unwrap(),
            )]))
            .modified_write_values(Some(ModifiedWriteValues::OneToToggle))
            .build(ValidateLevel::Strict)
            .unwrap(),
        tree,
    )];
    for (value, tree) in tests {
        let parsed = RegisterInfo::parse(&tree, &strict()).unwrap();
        assert_eq!(parsed, value);
        let encoded = value.encode().unwrap();
        assert_eq!(encoded, tree);
    }
}

#[test]
fn register_array_scenario_fields() {
    match Register::parse(&mode_array_tree(), &strict()).unwrap() {
        Register::Array(info, dim) => {
            assert_eq!(dim.dim, 2);
            assert_eq!(dim.dim_increment, 4);
            assert_eq!(dim.dim_index, Some(vec!["10".to_string(), "20".to_string()]));
            assert_eq!(info.name, "MODE%s");
            assert_eq!(info.address_offset, 8);
        },
        Register::Single(_) => panic!("an array was expected"),
    }
}

#[test]
fn register_without_dim_increment_is_single() {
    let tree = node("register", vec![leaf("name", "CTRL"), leaf("addressOffset", "16")]);
    let parsed = Register::parse(&tree, &strict()).unwrap();
    match &parsed {
        Register::Single(info) => assert_eq!(info.address_offset, 16),
        Register::Array(_, _) => panic!("a single register was expected"),
    }
    let encoded = parsed.encode().unwrap();
    assert_eq!(
        encoded,
        node("register", vec![leaf("name", "CTRL"), leaf("addressOffset", "0x10")])
    );
}

#[test]
fn register_round_trip_of_encoded_tree() {
    let tree = mode_array().encode().unwrap();
    let again = Register::parse(&tree, &strict()).unwrap().encode().unwrap();
    assert_eq!(again, tree);
}

#[test]
fn register_with_wrong_tag_is_refused() {
    let mut tree = node("cluster", vec![leaf("name", "A"), leaf("addressOffset", "0")]);
    tree.id = 7;
    assert_eq!(
        Register::parse(&tree, &strict()),
        Err(SVDErrorAt { error: SVDError::NotExpectedTag("register".to_string()), id: 7 })
    );
    assert_eq!(
        RegisterInfo::parse(&tree, &strict()),
        Err(SVDErrorAt { error: SVDError::NotExpectedTag("register".to_string()), id: 7 })
    );
}

#[test]
fn register_missing_name_is_reported() {
    let mut tree = node("register", vec![leaf("addressOffset", "0")]);
    tree.id = 3;
    assert_eq!(
        Register::parse(&tree, &strict()),
        Err(SVDErrorAt { error: SVDError::MissingTag("name".to_string()), id: 3 })
    );
}

#[test]
fn register_malformed_offset_is_reported() {
    let mut offset = leaf("addressOffset", "0xZZ");
    offset.id = 9;
    let tree = node("register", vec![leaf("name", "A"), offset]);
    assert_eq!(
        Register::parse(&tree, &strict()),
        Err(SVDErrorAt { error: SVDError::InvalidNumber("0xZZ".to_string()), id: 9 })
    );
}

#[test]
fn register_array_with_mismatched_index_is_refused() {
    let mut tree = node(
        "register",
        vec![
            leaf("dim", "3"),
            leaf("dimIncrement", "4"),
            leaf("dimIndex", "10,20"),
            leaf("name", "MODE%s"),
            leaf("addressOffset", "0x8"),
        ],
    );
    tree.id = 5;
    assert_eq!(
        Register::parse(&tree, &strict()),
        Err(SVDErrorAt {
            error: SVDError::Svd(SvdError::DimElement(
                svd_model::dimelement::Error::IndexCountMismatch
            )),
            id: 5
        })
    );
}

#[test]
fn register_array_name_needs_placeholder_at_strict_only() {
    let tree = node(
        "register",
        vec![
            leaf("dim", "2"),
            leaf("dimIncrement", "4"),
            leaf("name", "MODE"),
            leaf("addressOffset", "0x8"),
        ],
    );
    assert_eq!(
        Register::parse(&tree, &strict()),
        Err(SVDErrorAt {
            error: SVDError::Svd(SvdError::Name(NameError::MissingPlaceholder(
                "MODE".to_string(),
                "register".to_string()
            ))),
            id: 0
        })
    );
    let weak = Config { validate_level: ValidateLevel::Weak, ignore_enums: false };
    assert!(Register::parse(&tree, &weak).is_ok());
}

#[test]
fn register_unset_properties_are_not_emitted() {
    let tree = node("register", vec![leaf("name", "CTRL"), leaf("addressOffset", "0x0")]);
    let parsed = RegisterInfo::parse(&tree, &strict()).unwrap();
    assert_eq!(parsed.properties.size, None);
    assert_eq!(parsed.properties.access, None);
    assert_eq!(parsed.properties.reset_value, None);
    let encoded = parsed.encode().unwrap();
    let tags: Vec<String> = encoded.children.iter().map(|c| c.name.clone()).collect();
    assert_eq!(tags, vec!["name".to_string(), "addressOffset".to_string()]);
}

#[test]
fn register_derived_from_is_an_attribute() {
    let info = RegisterInfo::builder()
        .name("B".to_string())
        .address_offset(4)
        .derived_from(Some("A".to_string()))
        .build(ValidateLevel::Strict)
        .unwrap();
    let encoded = info.encode().unwrap();
    assert_eq!(
        encoded.attributes,
        vec![Attribute { name: "derivedFrom".to_string(), value: "A".to_string() }]
    );
    assert!(encoded.children.iter().all(|c| c.name != "derivedFrom"));
    assert_eq!(RegisterInfo::parse(&encoded, &strict()).unwrap(), info);
}

#[test]
fn register_with_broken_array_cannot_be_encoded() {
    let register = Register::Array(
        RegisterInfo::builder().name("R%s".to_string()).address_offset(0).build(ValidateLevel::Strict).unwrap(),
        DimElement {
            dim: 3,
            dim_increment: 4,
            dim_index: Some(vec!["a".to_string()]),
            dim_name: None,
            dim_array_index: None,
        },
    );
    assert_eq!(register.encode(), Err(EncodeError::IndexCountMismatch));
}

#[test]
fn register_builder_reports_missing_fields() {
    assert_eq!(
        RegisterInfo::builder().build(ValidateLevel::Weak),
        Err(SvdError::Build(BuildError::Uninitialized("name".to_string())))
    );
    assert_eq!(
        RegisterInfo::builder().name("A".to_string()).build(ValidateLevel::Weak),
        Err(SvdError::Build(BuildError::Uninitialized("address_offset".to_string())))
    );
    assert_eq!(
        RegisterInfo::builder().name("a b".to_string()).address_offset(0).build(ValidateLevel::Strict),
        Err(SvdError::Name(NameError::Invalid("a b".to_string(), "name".to_string())))
    );
    assert!(RegisterInfo::builder()
        .name("a b".to_string())
        .address_offset(0)
        .build(ValidateLevel::Weak)
        .is_ok());
}

#[test]
fn register_array_index_names_round_trip() {
    let tree = node(
        "register",
        vec![
            leaf("dim", "2"),
            leaf("dimIncrement", "0x4"),
            node(
                "dimArrayIndex",
                vec![
                    leaf("headerEnumName", "Channel"),
                    node("enumeratedValue", vec![leaf("name", "LEFT"), leaf("value", "0")]),
                    node("enumeratedValue", vec![leaf("name", "RIGHT"), leaf("value", "1")]),
                ],
            ),
            leaf("name", "GAIN%s"),
            leaf("addressOffset", "0x0"),
        ],
    );
    let parsed = Register::parse(&tree, &strict()).unwrap();
    match &parsed {
        Register::Array(_, dim) => {
            let names = dim.dim_array_index.as_ref().unwrap();
            assert_eq!(names.header_enum_name, Some("Channel".to_string()));
            assert_eq!(names.values.len(), 2);
            assert_eq!(names.values[1].name, "RIGHT");
            assert_eq!(names.values[1].value, Some(1));
        },
        Register::Single(_) => panic!("an array was expected"),
    }
    assert_eq!(parsed.encode().unwrap(), tree);
}
