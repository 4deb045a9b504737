use svd_model::access::Access;
use svd_model::encode::join_labels;
use svd_model::endian::Endian;
use svd_model::interrupt::Interrupt;
use svd_model::modifiedwritevalues::ModifiedWriteValues;
use svd_model::names::{
    check_derived_name, check_dimable_name, check_has_placeholder, contains_placeholder,
    matches_dimable_name, matches_plain_name,
};
use svd_model::number::{format_dec, format_hex, format_hex_padded, parse_u32, parse_u64};
use svd_model::parse::dimelement::split_labels;
use svd_model::parse::error::{Config, SVDError, SVDErrorAt};
use svd_model::parse::interrupt::parse_interrupt;
use svd_model::protection::Protection;
use svd_model::readaction::ReadAction;
use svd_model::registerproperties::{resolve, RegisterProperties};
use svd_model::text::{chars_of, str_eq};
use svd_model::tree::Element;
use svd_model::usage::Usage;
use svd_model::validate_level::ValidateLevel;

#[test]
fn hex_text_has_prefix_and_upper_case_digits() {
    assert_eq!(format_hex(8), "0x8");
    assert_eq!(format_hex(0), "0x0");
    assert_eq!(format_hex(32), "0x20");
    assert_eq!(format_hex(0xdead_beef), "0xDEADBEEF");
    assert_eq!(format_hex(u64::MAX), "0xFFFFFFFFFFFFFFFF");
}

#[test]
fn padded_hex_text_has_eight_digits_at_least() {
    assert_eq!(format_hex_padded(0), "0x00000000");
    assert_eq!(format_hex_padded(0x23), "0x00000023");
    assert_eq!(format_hex_padded(0xffff_ffff), "0xFFFFFFFF");
    assert_eq!(format_hex_padded(0x1_0000_0000), "0x100000000");
}

#[test]
fn decimal_text() {
    assert_eq!(format_dec(0), "0");
    assert_eq!(format_dec(10), "10");
    assert_eq!(format_dec(4294967295), "4294967295");
}

#[test]
fn numbers_are_read_in_three_forms() {
    assert_eq!(parse_u32("42"), Some(42));
    assert_eq!(parse_u32("0x2A"), Some(42));
    assert_eq!(parse_u32("0X2a"), Some(42));
    assert_eq!(parse_u32("#101010"), Some(42));
    assert_eq!(parse_u32("#1x1x1x"), Some(42));
    assert_eq!(parse_u32("#1X1X1X"), Some(42));
    assert_eq!(parse_u32("0"), Some(0));
    assert_eq!(parse_u64("0xFFFFFFFFFFFFFFFF"), Some(u64::MAX));
    assert_eq!(parse_u64("18446744073709551615"), Some(u64::MAX));
}

#[test]
fn malformed_numbers_are_refused() {
    assert_eq!(parse_u32(""), None);
    assert_eq!(parse_u32("0x"), None);
    assert_eq!(parse_u32("#"), None);
    assert_eq!(parse_u32("12a"), None);
    assert_eq!(parse_u32("0xG"), None);
    assert_eq!(parse_u32("#102"), None);
    assert_eq!(parse_u32("x1"), None);
    assert_eq!(parse_u32("-1"), None);
    assert_eq!(parse_u32("4294967296"), None);
    assert_eq!(parse_u32("4294967295"), Some(u32::MAX));
    assert_eq!(parse_u32("0x100000000"), None);
    assert_eq!(parse_u64("18446744073709551616"), None);
    assert_eq!(parse_u64("0x10000000000000000"), None);
}

#[test]
fn number_text_round_trip() {
    for v in [0u64, 1, 9, 10, 15, 16, 255, 256, 0xabcdef, u32::MAX as u64, u64::MAX] {
        assert_eq!(parse_u64(&format_hex(v)), Some(v));
        assert_eq!(parse_u64(&format_hex_padded(v)), Some(v));
        assert_eq!(parse_u64(&format_dec(v)), Some(v));
    }
}

#[test]
fn text_helpers() {
    assert!(str_eq("abc", "abc"));
    assert!(!str_eq("abc", "abd"));
    assert!(!str_eq("abc", "ab"));
    assert!(str_eq("", ""));
    assert_eq!(chars_of("a%s"), vec!['a', '%', 's']);
}

#[test]
fn dimable_names() {
    assert!(matches_dimable_name("MODE"));
    assert!(matches_dimable_name("MODE%s"));
    assert!(matches_dimable_name("%sMODE"));
    assert!(matches_dimable_name("MODE[%s]"));
    assert!(matches_dimable_name("_a1"));
    assert!(!matches_dimable_name(""));
    assert!(!matches_dimable_name("MODE%"));
    assert!(!matches_dimable_name("MODE%d"));
    assert!(!matches_dimable_name("MODE[%s"));
    assert!(!matches_dimable_name("a b"));
    assert_eq!(check_dimable_name("MODE%s", "name"), Ok(()));
    assert!(check_dimable_name("MO DE", "name").is_err());
}

#[test]
fn plain_names_and_placeholders() {
    assert!(matches_plain_name("derived_from"));
    assert!(matches_plain_name("A.B.C"));
    assert!(!matches_plain_name(""));
    assert!(!matches_plain_name("A%s"));
    assert_eq!(check_derived_name("TIMER0", "derivedFrom"), Ok(()));
    assert!(check_derived_name("TIMER 0", "derivedFrom").is_err());
    assert!(contains_placeholder("A%sB"));
    assert!(contains_placeholder("%s"));
    assert!(!contains_placeholder("A%"));
    assert!(!contains_placeholder("As"));
    assert_eq!(check_has_placeholder("A[%s]", "register"), Ok(()));
    assert!(check_has_placeholder("A", "register").is_err());
}

#[test]
fn labels_split_and_join() {
    assert_eq!(split_labels("10,20"), vec!["10".to_string(), "20".to_string()]);
    assert_eq!(split_labels("A"), vec!["A".to_string()]);
    assert_eq!(split_labels(""), vec!["".to_string()]);
    assert_eq!(split_labels("a,,b,"), vec!["a", "", "b", ""]);
    assert_eq!(join_labels(&vec!["10".to_string(), "20".to_string()]), "10,20");
    assert_eq!(join_labels(&vec!["A".to_string()]), "A");
    assert_eq!(join_labels(&Vec::new()), "");
    assert_eq!(split_labels(&join_labels(&vec!["x".to_string(), "y".to_string(), "z".to_string()])).len(), 3);
}

#[test]
fn leaf_enums_read_back_their_text() {
    for a in [Access::ReadOnly, Access::ReadWrite, Access::ReadWriteOnce, Access::WriteOnce, Access::WriteOnly] {
        assert_eq!(Access::parse_str(a.as_str()), Some(a));
    }
    for u in [Usage::Read, Usage::Write, Usage::ReadWrite] {
        assert_eq!(Usage::parse_str(u.as_str()), Some(u));
    }
    for p in [Protection::Secure, Protection::NonSecure, Protection::Privileged] {
        assert_eq!(Protection::parse_str(p.as_str()), Some(p));
    }
    for r in [ReadAction::Clear, ReadAction::SetBits, ReadAction::Modify, ReadAction::ModifyExternal] {
        assert_eq!(ReadAction::parse_str(r.as_str()), Some(r));
    }
    assert_eq!(ModifiedWriteValues::parse_str("oneToToggle"), Some(ModifiedWriteValues::OneToToggle));
    assert_eq!(ModifiedWriteValues::SetBits.as_str(), "set");
    assert_eq!(Access::ReadWrite.as_str(), "read-write");
    assert_eq!(Access::parse_str("readwrite"), None);
}

#[test]
fn endian_parse_and_encode() {
    let cases = [
        ("little", Endian::Little),
        ("big", Endian::Big),
        ("selectable", Endian::Selectable),
        ("other", Endian::Other),
    ];
    for (text, value) in cases {
        let tree = Element::new_node("endian", text.to_string());
        assert_eq!(Endian::parse(&tree), Ok(value));
        assert_eq!(value.encode(), tree);
    }
    let mut tree = Element::new_node("endian", "middle".to_string());
    tree.id = 2;
    assert_eq!(
        Endian::parse(&tree),
        Err(SVDErrorAt { error: SVDError::UnknownVariant("middle".to_string()), id: 2 })
    );
    assert_eq!(
        Endian::parse(&Element::new("endian")),
        Err(SVDErrorAt { error: SVDError::EmptyTag("endian".to_string()), id: 0 })
    );
}

#[test]
fn interrupt_parse() {
    let config = Config { validate_level: ValidateLevel::Strict, ignore_enums: false };
    let tree = Element::with_children(
        "interrupt",
        vec![
            Element::new_node("name", "UART0".to_string()),
            Element::new_node("description", "Serial port".to_string()),
            Element::new_node("value", "0x11".to_string()),
        ],
    );
    let expected = Interrupt {
        name: "UART0".to_string(),
        description: Some("Serial port".to_string()),
        value: 17,
    };
    assert_eq!(Interrupt::parse(&tree, &config), Ok(expected));
    assert_eq!(
        parse_interrupt(&tree, "OTHER".to_string()),
        Ok(Interrupt {
            name: "OTHER".to_string(),
            description: Some("Serial port".to_string()),
            value: 17
        })
    );
    let no_value =
        Element::with_children("interrupt", vec![Element::new_node("name", "A".to_string())]);
    assert_eq!(
        Interrupt::parse(&no_value, &config),
        Err(SVDErrorAt { error: SVDError::MissingTag("value".to_string()), id: 0 })
    );
    let wrong = Element::new("irq");
    assert_eq!(
        Interrupt::parse(&wrong, &config),
        Err(SVDErrorAt { error: SVDError::NotExpectedTag("interrupt".to_string()), id: 0 })
    );
}

#[test]
fn properties_resolve_from_the_nearest_level() {
    let register = RegisterProperties { access: Some(Access::ReadOnly), ..RegisterProperties::new() };
    let peripheral = RegisterProperties { size: Some(16), ..RegisterProperties::new() };
    let device = RegisterProperties {
        size: Some(32),
        access: Some(Access::ReadWrite),
        protection: None,
        reset_value: Some(0),
        reset_mask: Some(0xffff_ffff),
    };
    let resolved = resolve(&vec![register, peripheral, device]);
    assert_eq!(resolved.size, Some(16));
    assert_eq!(resolved.access, Some(Access::ReadOnly));
    assert_eq!(resolved.protection, None);
    assert_eq!(resolved.reset_value, Some(0));
    assert_eq!(resolved.reset_mask, Some(0xffff_ffff));
    assert_eq!(register.size, None);
    assert_eq!(resolve(&Vec::new()), RegisterProperties::new());
    assert_eq!(register.inherit(&device).size, Some(32));
    assert!(register.encode().len() == 1);
}

#[test]
fn properties_encode_only_what_is_set() {
    assert!(RegisterProperties::new().encode().is_empty());
    let p = RegisterProperties {
        size: Some(32),
        access: None,
        protection: Some(Protection::Secure),
        reset_value: None,
        reset_mask: Some(0x23),
    };
    assert_eq!(
        p.encode(),
        vec![
            Element::new_node("size", "0x20".to_string()),
            Element::new_node("protection", "s".to_string()),
            Element::new_node("resetMask", "0x00000023".to_string()),
        ]
    );
    let tree = Element::with_children("register", p.encode());
    assert_eq!(RegisterProperties::parse(&tree), Ok(p));
}

#[test]
fn validate_levels() {
    assert!(ValidateLevel::Disabled.is_disabled());
    assert!(ValidateLevel::Weak.is_weak());
    assert!(ValidateLevel::Strict.is_strict());
    assert!(!ValidateLevel::Weak.is_strict());
}
