use svd_model::access::Access;
use svd_model::bitrange::{BitRange, BitRangeType};
use svd_model::dimelement::{DimElement, Error as DimError};
use svd_model::encode::EncodeError;
use svd_model::enumeratedvalue::{EnumeratedValue, EnumeratedValues, Error as ValueError};
use svd_model::error::{BuildError, NameError, SvdError};
use svd_model::fieldinfo::{Error, FieldInfo, FieldInfoBuilder};
use svd_model::modifiedwritevalues::ModifiedWriteValues;
use svd_model::parse::error::{Config, SVDError, SVDErrorAt};
use svd_model::readaction::ReadAction;
use svd_model::register::Field;
use svd_model::tree::Element;
use svd_model::usage::Usage;
use svd_model::validate_level::ValidateLevel;
use svd_model::writeconstraint::{WriteConstraint, WriteConstraintRange};

fn leaf(name: &str, text: &str) -> Element {
    Element::new_node(name, text.to_string())
}

fn node(name: &str, children: Vec<Element>) -> Element {
    Element::with_children(name, children)
}

fn strict() -> Config {
    Config { validate_level: ValidateLevel::Strict, ignore_enums: false }
}

fn range(width: u32) -> BitRange {
    BitRange { offset: 0, width, range_type: BitRangeType::OffsetWidth }
}

fn value(name: &str, v: u64) -> EnumeratedValue {
    EnumeratedValue { name: name.to_string(), description: None, value: Some(v), is_default: None }
}

fn set(usage: Option<Usage>, values: Vec<EnumeratedValue>) -> EnumeratedValues {
    EnumeratedValues { name: None, usage, derived_from: None, values }
}

fn with_usages(usages: &[Usage]) -> Result<FieldInfo, SvdError> {
    FieldInfo::builder()
        .name("F".to_string())
        .bit_range(range(4))
        .enumerated_values(usages.iter().map(|u| set(Some(*u), vec![value("A", 1)])).collect())
        .build(ValidateLevel::Strict)
}

#[test]
fn field_usage_combinations_that_validate() {
    assert!(with_usages(&[]).is_ok());
    assert!(with_usages(&[Usage::Read]).is_ok());
    assert!(with_usages(&[Usage::Write]).is_ok());
    assert!(with_usages(&[Usage::ReadWrite]).is_ok());
    assert!(with_usages(&[Usage::Read, Usage::Write]).is_ok());
    assert!(with_usages(&[Usage::Write, Usage::Read]).is_ok());
}

#[test]
fn field_usage_combinations_that_fail() {
    let err = Err(SvdError::Field(Error::IncompatibleEnumeratedValues));
    assert_eq!(with_usages(&[Usage::Read, Usage::Read]), err);
    assert_eq!(with_usages(&[Usage::Write, Usage::Write]), err);
    assert_eq!(with_usages(&[Usage::ReadWrite, Usage::Read]), err);
    assert_eq!(with_usages(&[Usage::Read, Usage::Write, Usage::ReadWrite]), err);
    assert_eq!(with_usages(&[Usage::Read, Usage::Write, Usage::Read]), err);
}

#[test]
fn field_usage_is_unchecked_below_strict() {
    let f = FieldInfo::builder()
        .name("F".to_string())
        .bit_range(range(4))
        .enumerated_values(vec![set(Some(Usage::Read), vec![]), set(Some(Usage::Read), vec![])])
        .build(ValidateLevel::Weak);
    assert!(f.is_ok());
}

#[test]
fn field_missing_usage_counts_as_read_write() {
    assert_eq!(set(None, vec![]).usage(), Usage::ReadWrite);
    let f = FieldInfo::builder()
        .name("F".to_string())
        .bit_range(range(4))
        .enumerated_values(vec![set(None, vec![]), set(Some(Usage::Write), vec![])])
        .build(ValidateLevel::Strict);
    assert_eq!(f, Err(SvdError::Field(Error::IncompatibleEnumeratedValues)));
}

#[test]
fn field_value_out_of_range_fails() {
    for lvl in [ValidateLevel::Weak, ValidateLevel::Strict] {
        let f = FieldInfo::builder()
            .name("F".to_string())
            .bit_range(range(3))
            .enumerated_values(vec![set(None, vec![value("A", 7), value("B", 8), value("C", 9)])])
            .build(lvl);
        assert_eq!(f, Err(SvdError::EnumeratedValue(ValueError::OutOfRange(8, 8))));
    }
    let ok = FieldInfo::builder()
        .name("F".to_string())
        .bit_range(range(3))
        .enumerated_values(vec![set(None, vec![value("A", 7), value("B", 0)])])
        .build(ValidateLevel::Strict);
    assert!(ok.is_ok());
}

#[test]
fn field_value_range_of_wide_fields() {
    let f = FieldInfo::builder()
        .name("F".to_string())
        .bit_range(range(63))
        .enumerated_values(vec![set(None, vec![value("A", 1 << 63)])])
        .build(ValidateLevel::Strict);
    assert_eq!(f, Err(SvdError::EnumeratedValue(ValueError::OutOfRange(1 << 63, 1 << 63))));
    let f = FieldInfo::builder()
        .name("F".to_string())
        .bit_range(range(64))
        .enumerated_values(vec![set(None, vec![value("A", u64::MAX)])])
        .build(ValidateLevel::Strict);
    assert!(f.is_ok());
}

#[test]
fn field_value_range_is_unchecked_when_disabled() {
    let f = FieldInfo::builder()
        .name("F".to_string())
        .bit_range(range(1))
        .enumerated_values(vec![set(None, vec![value("A", 9)])])
        .build(ValidateLevel::Disabled);
    assert!(f.is_ok());
}

#[test]
fn field_zero_width_fails() {
    let f = FieldInfo::builder().name("F".to_string()).bit_range(range(0)).build(ValidateLevel::Weak);
    assert_eq!(f, Err(SvdError::BitRange(svd_model::bitrange::Error::ZeroWidth)));
    assert!(FieldInfo::builder()
        .name("F".to_string())
        .bit_range(range(0))
        .build(ValidateLevel::Disabled)
        .is_ok());
}

#[test]
fn field_builder_reports_missing_fields() {
    assert_eq!(
        FieldInfo::builder().build(ValidateLevel::Strict),
        Err(SvdError::Build(BuildError::Uninitialized("name".to_string())))
    );
    assert_eq!(
        FieldInfo::builder().name("F".to_string()).build(ValidateLevel::Disabled),
        Err(SvdError::Build(BuildError::Uninitialized("bit_range".to_string())))
    );
}

#[test]
fn field_names_are_checked_at_strict() {
    let bad = FieldInfo::builder().name("a-b".to_string()).bit_range(range(1));
    assert_eq!(
        bad.build(ValidateLevel::Strict),
        Err(SvdError::Name(NameError::Invalid("a-b".to_string(), "name".to_string())))
    );
    let bad = FieldInfo::builder()
        .name("F%s".to_string())
        .bit_range(range(1))
        .derived_from(Some("other field".to_string()));
    assert_eq!(
        bad.build(ValidateLevel::Strict),
        Err(SvdError::Name(NameError::Invalid(
            "other field".to_string(),
            "derivedFrom".to_string()
        )))
    );
    let fine = FieldInfo::builder()
        .name("F[%s]".to_string())
        .bit_range(range(1))
        .derived_from(Some("PERIPH.REG.F0".to_string()));
    assert!(fine.build(ValidateLevel::Strict).is_ok());
}

fn loaded_field() -> FieldInfo {
    FieldInfo::builder()
        .name("F".to_string())
        .bit_range(range(4))
        .access(Some(Access::ReadOnly))
        .modified_write_values(Some(ModifiedWriteValues::OneToClear))
        .write_constraint(Some(WriteConstraint::WriteAsRead(true)))
        .read_action(Some(ReadAction::Clear))
        .enumerated_values(vec![set(Some(Usage::Read), vec![value("A", 1)])])
        .build(ValidateLevel::Strict)
        .unwrap()
}

#[test]
fn field_derivation_clears_overrides() {
    let mut f = loaded_field();
    let change = FieldInfo::builder()
        .derived_from(Some("OTHER".to_string()))
        .modified_write_values(Some(ModifiedWriteValues::Modify))
        .enumerated_values(vec![set(None, vec![value("B", 2)])]);
    assert_eq!(f.modify_from(change, ValidateLevel::Strict), Ok(()));
    assert_eq!(f.derived_from, Some("OTHER".to_string()));
    assert_eq!(f.modified_write_values, None);
    assert_eq!(f.write_constraint, None);
    assert_eq!(f.enumerated_values, Vec::new());
    assert_eq!(f.name, "F");
    assert_eq!(f.access, Some(Access::ReadOnly));
}

#[test]
fn field_modify_from_applies_set_fields_only() {
    let mut f = loaded_field();
    let change = FieldInfo::builder().name("G".to_string()).access(Some(Access::WriteOnly));
    assert_eq!(f.modify_from(change, ValidateLevel::Strict), Ok(()));
    assert_eq!(f.name, "G");
    assert_eq!(f.access, Some(Access::WriteOnly));
    assert_eq!(f.modified_write_values, Some(ModifiedWriteValues::OneToClear));
    assert_eq!(f.write_constraint, Some(WriteConstraint::WriteAsRead(true)));
    assert_eq!(f.enumerated_values.len(), 1);
    assert_eq!(f.bit_range, range(4));
}

#[test]
fn field_modify_from_failure_leaves_field_unchanged() {
    let mut f = loaded_field();
    let change = FieldInfo::builder().name("G".to_string()).bit_range(range(0));
    assert_eq!(
        f.modify_from(change, ValidateLevel::Weak),
        Err(SvdError::BitRange(svd_model::bitrange::Error::ZeroWidth))
    );
    assert_eq!(f, loaded_field());
}

#[test]
fn field_validate_reports_and_keeps_the_field() {
    let mut f = loaded_field();
    assert_eq!(f.validate(ValidateLevel::Strict), Ok(()));
    f.bit_range.width = 0;
    assert_eq!(
        f.validate(ValidateLevel::Weak),
        Err(SvdError::BitRange(svd_model::bitrange::Error::ZeroWidth))
    );
    assert_eq!(f.name, "F");
}

#[test]
fn field_builder_from_field_rebuilds_it() {
    let again = FieldInfoBuilder::from(loaded_field()).build(ValidateLevel::Strict).unwrap();
    assert_eq!(again, loaded_field());
}

#[test]
fn dim_index_length_must_match_dim() {
    for lvl in [ValidateLevel::Disabled, ValidateLevel::Weak, ValidateLevel::Strict] {
        let bad = DimElement::builder()
            .dim(3)
            .dim_increment(4)
            .dim_index(Some(vec!["a".to_string(), "b".to_string()]))
            .build(lvl);
        assert_eq!(bad, Err(SvdError::DimElement(DimError::IndexCountMismatch)));
        let good = DimElement::builder()
            .dim(2)
            .dim_increment(4)
            .dim_index(Some(vec!["a".to_string(), "b".to_string()]))
            .build(lvl)
            .unwrap();
        assert_eq!(good.dim_index.as_ref().map(|v| v.len()), Some(2));
        assert!(good.is_well_formed());
    }
    assert!(DimElement::builder().dim(5).dim_increment(1).build(ValidateLevel::Strict).is_ok());
    assert_eq!(
        DimElement::builder().dim_increment(1).build(ValidateLevel::Strict),
        Err(SvdError::Build(BuildError::Uninitialized("dim".to_string())))
    );
    assert_eq!(
        DimElement::builder().dim(1).build(ValidateLevel::Strict),
        Err(SvdError::Build(BuildError::Uninitialized("dim_increment".to_string())))
    );
}

fn full_field_tree() -> Element {
    let mut values = node(
        "enumeratedValues",
        vec![
            leaf("name", "MODES"),
            leaf("usage", "read"),
            node(
                "enumeratedValue",
                vec![leaf("name", "OFF"), leaf("description", "Switched off"), leaf("value", "0")],
            ),
            node("enumeratedValue", vec![leaf("name", "ANY"), leaf("isDefault", "true")]),
        ],
    );
    values.set_attribute("derivedFrom", "BASE".to_string());
    node(
        "field",
        vec![
            leaf("name", "MODE"),
            leaf("bitRange", "[7:4]"),
            leaf("access", "read-only"),
            leaf("modifiedWriteValues", "zeroToSet"),
            node(
                "writeConstraint",
                vec![node("range", vec![leaf("minimum", "0x1"), leaf("maximum", "0xF")])],
            ),
            leaf("readAction", "modifyExternal"),
            values,
        ],
    )
}

#[test]
fn field_parse_reads_every_child() {
    let f = FieldInfo::parse(&full_field_tree(), &strict()).unwrap();
    assert_eq!(f.name, "MODE");
    assert_eq!(f.bit_range, BitRange { offset: 4, width: 4, range_type: BitRangeType::BitRange });
    assert_eq!(f.access, Some(Access::ReadOnly));
    assert_eq!(f.modified_write_values, Some(ModifiedWriteValues::ZeroToSet));
    assert_eq!(
        f.write_constraint,
        Some(WriteConstraint::Range(WriteConstraintRange { min: 1, max: 15 }))
    );
    assert_eq!(f.read_action, Some(ReadAction::ModifyExternal));
    assert_eq!(
        f.enumerated_values,
        vec![EnumeratedValues {
            name: Some("MODES".to_string()),
            usage: Some(Usage::Read),
            derived_from: Some("BASE".to_string()),
            values: vec![
                EnumeratedValue {
                    name: "OFF".to_string(),
                    description: Some("Switched off".to_string()),
                    value: Some(0),
                    is_default: None
                },
                EnumeratedValue {
                    name: "ANY".to_string(),
                    description: None,
                    value: None,
                    is_default: Some(true)
                },
            ],
        }]
    );
    assert_eq!(f.encode().unwrap(), full_field_tree());
}

#[test]
fn field_parse_can_leave_enums_out() {
    let config = Config { validate_level: ValidateLevel::Strict, ignore_enums: true };
    let f = FieldInfo::parse(&full_field_tree(), &config).unwrap();
    assert_eq!(f.write_constraint, None);
    assert!(f.enumerated_values.is_empty());
    assert_eq!(f.modified_write_values, Some(ModifiedWriteValues::ZeroToSet));
}

#[test]
fn field_parse_errors() {
    let mut wrong = node("register", vec![]);
    wrong.id = 4;
    assert_eq!(
        FieldInfo::parse(&wrong, &strict()),
        Err(SVDErrorAt { error: SVDError::NotExpectedTag("field".to_string()), id: 4 })
    );
    let no_range = node("field", vec![leaf("name", "A")]);
    assert_eq!(
        FieldInfo::parse(&no_range, &strict()),
        Err(SVDErrorAt { error: SVDError::MissingTag("lsb".to_string()), id: 0 })
    );
    let no_name = node("field", vec![leaf("bitOffset", "0"), leaf("bitWidth", "1")]);
    assert_eq!(
        FieldInfo::parse(&no_name, &strict()),
        Err(SVDErrorAt { error: SVDError::MissingTag("name".to_string()), id: 0 })
    );
    let bad_access = node(
        "field",
        vec![leaf("name", "A"), leaf("bitOffset", "0"), leaf("bitWidth", "1"), leaf("access", "rw")],
    );
    assert_eq!(
        FieldInfo::parse(&bad_access, &strict()),
        Err(SVDErrorAt { error: SVDError::UnknownVariant("rw".to_string()), id: 0 })
    );
    let zero = node("field", vec![leaf("name", "A"), leaf("bitOffset", "0"), leaf("bitWidth", "0")]);
    assert_eq!(
        FieldInfo::parse(&zero, &strict()),
        Err(SVDErrorAt {
            error: SVDError::Svd(SvdError::BitRange(svd_model::bitrange::Error::ZeroWidth)),
            id: 0
        })
    );
    let swapped = node("field", vec![leaf("name", "A"), leaf("lsb", "5"), leaf("msb", "2")]);
    assert_eq!(
        FieldInfo::parse(&swapped, &strict()),
        Err(SVDErrorAt { error: SVDError::InvalidBitRange, id: 0 })
    );
    let empty = node("field", vec![node("name", vec![]), leaf("bitOffset", "0"), leaf("bitWidth", "1")]);
    assert_eq!(
        FieldInfo::parse(&empty, &strict()),
        Err(SVDErrorAt { error: SVDError::EmptyTag("name".to_string()), id: 0 })
    );
}

#[test]
fn field_bit_range_forms_round_trip() {
    let msb_lsb = node("field", vec![leaf("name", "A"), leaf("lsb", "8"), leaf("msb", "15")]);
    let f = FieldInfo::parse(&msb_lsb, &strict()).unwrap();
    assert_eq!(f.bit_range, BitRange { offset: 8, width: 8, range_type: BitRangeType::MsbLsb });
    assert_eq!(f.encode().unwrap(), msb_lsb);
    let text = node("field", vec![leaf("name", "A"), leaf("bitRange", "[31:0]")]);
    let f = FieldInfo::parse(&text, &strict()).unwrap();
    assert_eq!(f.bit_range, BitRange { offset: 0, width: 32, range_type: BitRangeType::BitRange });
    assert_eq!(f.encode().unwrap(), text);
    let offset = node("field", vec![leaf("name", "A"), leaf("bitOffset", "3"), leaf("bitWidth", "2")]);
    let f = FieldInfo::parse(&offset, &strict()).unwrap();
    assert_eq!(f.bit_range, BitRange { offset: 3, width: 2, range_type: BitRangeType::OffsetWidth });
    assert_eq!(f.encode().unwrap(), offset);
}

#[test]
fn field_bit_range_without_highest_bit_cannot_be_encoded() {
    let f = FieldInfo::builder()
        .name("A".to_string())
        .bit_range(BitRange { offset: 0, width: 0, range_type: BitRangeType::MsbLsb })
        .build(ValidateLevel::Disabled)
        .unwrap();
    assert_eq!(f.encode(), Err(EncodeError::BitRange));
    assert_eq!(Field::Single(f).encode(), Err(EncodeError::BitRange));
}

#[test]
fn field_array_round_trip() {
    let tree = node(
        "field",
        vec![
            leaf("dim", "4"),
            leaf("dimIncrement", "0x1"),
            leaf("dimName", "bits"),
            leaf("name", "BIT%s"),
            leaf("bitOffset", "0"),
            leaf("bitWidth", "1"),
        ],
    );
    let f = Field::parse(&tree, &strict()).unwrap();
    match &f {
        Field::Array(info, dim) => {
            assert_eq!(info.name, "BIT%s");
            assert_eq!(dim.dim, 4);
            assert_eq!(dim.dim_increment, 1);
            assert_eq!(dim.dim_index, None);
            assert_eq!(dim.dim_name, Some("bits".to_string()));
        },
        Field::Single(_) => panic!("an array was expected"),
    }
    assert_eq!(f.encode().unwrap(), tree);
}

#[test]
fn enumerated_value_needs_value_or_default() {
    let both = EnumeratedValue {
        name: "A".to_string(),
        description: None,
        value: Some(1),
        is_default: Some(true),
    };
    assert_eq!(
        both.validate(ValidateLevel::Weak),
        Err(SvdError::EnumeratedValue(ValueError::ValueAndDefault))
    );
    let neither =
        EnumeratedValue { name: "A".to_string(), description: None, value: None, is_default: None };
    assert_eq!(
        neither.validate(ValidateLevel::Weak),
        Err(SvdError::EnumeratedValue(ValueError::AbsentValue))
    );
    assert_eq!(neither.validate(ValidateLevel::Disabled), Ok(()));
    assert_eq!(value("A", 3).validate(ValidateLevel::Strict), Ok(()));
}

#[test]
fn enumerated_values_allow_one_default() {
    let default = |n: &str| EnumeratedValue {
        name: n.to_string(),
        description: None,
        value: None,
        is_default: Some(true),
    };
    assert_eq!(set(None, vec![value("A", 1), default("D")]).validate(ValidateLevel::Weak), Ok(()));
    assert_eq!(
        set(None, vec![default("D"), value("A", 1), default("E")]).validate(ValidateLevel::Weak),
        Err(SvdError::EnumeratedValue(ValueError::MultipleDefaults))
    );
    assert_eq!(
        set(None, vec![default("D"), default("E")]).validate(ValidateLevel::Disabled),
        Ok(())
    );
    assert_eq!(
        set(None, vec![value("A", 1), value("B", 4)]).check_range(4),
        Err(SvdError::EnumeratedValue(ValueError::OutOfRange(4, 4)))
    );
    assert_eq!(set(None, vec![value("A", 1), value("B", 3)]).check_range(4), Ok(()));
}

#[test]
fn write_constraint_forms_and_errors() {
    let as_read = node("writeConstraint", vec![leaf("writeAsRead", "true")]);
    assert_eq!(WriteConstraint::parse(&as_read), Ok(WriteConstraint::WriteAsRead(true)));
    assert_eq!(WriteConstraint::WriteAsRead(true).encode(), as_read);
    let enumerated = node("writeConstraint", vec![leaf("useEnumeratedValues", "0")]);
    assert_eq!(
        WriteConstraint::parse(&enumerated),
        Ok(WriteConstraint::UseEnumeratedValues(false))
    );
    let mut bad = leaf("writeAsRead", "yes");
    bad.id = 6;
    assert_eq!(
        WriteConstraint::parse(&node("writeConstraint", vec![bad])),
        Err(SVDErrorAt { error: SVDError::InvalidBool("yes".to_string()), id: 6 })
    );
    let mut empty = node("writeConstraint", vec![]);
    empty.id = 8;
    assert_eq!(
        WriteConstraint::parse(&empty),
        Err(SVDErrorAt { error: SVDError::UnknownWriteConstraint, id: 8 })
    );
}

#[test]
fn error_sentences() {
    assert_eq!(
        Error::IncompatibleEnumeratedValues.message(),
        "You can have 0, 1 or 2 enumeratedValues with different usage"
    );
    assert_eq!(
        svd_model::device::Error::EmptyDevice.message(),
        "Device must contain at least one peripheral"
    );
}

#[test]
fn bit_range_bounds() {
    let r = BitRange { offset: 4, width: 4, range_type: BitRangeType::OffsetWidth };
    assert_eq!(r.lsb(), 4);
    assert_eq!(r.msb(), Some(7));
    let r = BitRange { offset: 0, width: 0, range_type: BitRangeType::OffsetWidth };
    assert_eq!(r.msb(), None);
    let r = BitRange { offset: u32::MAX, width: 2, range_type: BitRangeType::OffsetWidth };
    assert_eq!(r.msb(), None);
    let r = BitRange { offset: u32::MAX, width: 1, range_type: BitRangeType::OffsetWidth };
    assert_eq!(r.msb(), Some(u32::MAX));
}
