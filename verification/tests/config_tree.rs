use aaronia_rtsa::config::{
    config_chain_outcome, parse_item, ConfigItem, ConfigType, RawNode, CONFIG_TYPE_BLOB,
    CONFIG_TYPE_BOOL, CONFIG_TYPE_ENUM, CONFIG_TYPE_GROUP, CONFIG_TYPE_NUMBER,
    CONFIG_TYPE_STRING,
};
use aaronia_rtsa::Error;

fn wide(s: &str) -> Vec<u32> {
    s.chars().map(|c| c as u32).collect()
}

fn leaf(name: &str, type_code: u32) -> RawNode {
    RawNode {
        name: wide(name),
        type_code,
        options: Vec::new(),
        int_code: 1,
        int_value: 0,
        float_code: 1,
        float_bits: 0,
        children: Vec::new(),
        end_code: 1,
    }
}

fn number(name: &str, value: f64) -> RawNode {
    let mut n = leaf(name, CONFIG_TYPE_NUMBER);
    n.float_code = 0;
    n.float_bits = value.to_bits();
    n
}

fn boolean(name: &str, value: i64) -> RawNode {
    let mut n = leaf(name, CONFIG_TYPE_BOOL);
    n.int_code = 0;
    n.int_value = value;
    n
}

#[test]
fn number_extraction_yields_the_float_bits() {
    let (name, item) = parse_item(&number("frequency", 42.0)).unwrap();
    assert_eq!(name, "frequency");
    match item {
        ConfigItem::Number(bits) => assert!((f64::from_bits(bits) - 42.0).abs() < 1e-12),
        other => panic!("expected a number, got {other:?}"),
    }
}

#[test]
fn number_extraction_error_propagates() {
    let mut n = leaf("broken", CONFIG_TYPE_NUMBER);
    n.float_code = 0x8000000c;
    assert_eq!(parse_item(&n), Err(Error::ErrorValueInvalid));
}

#[test]
fn bool_extraction_is_positive_integer() {
    let (_, item) = parse_item(&boolean("flag", 1)).unwrap();
    assert_eq!(item, ConfigItem::Bool(true));
    let (_, item) = parse_item(&boolean("flag", 0)).unwrap();
    assert_eq!(item, ConfigItem::Bool(false));
    let (_, item) = parse_item(&boolean("flag", -3)).unwrap();
    assert_eq!(item, ConfigItem::Bool(false));
}

#[test]
fn bool_with_invalid_config_is_a_button_not_an_error() {
    let mut n = leaf("trigger", CONFIG_TYPE_BOOL);
    n.int_code = 0x80000006;
    let (name, item) = parse_item(&n).unwrap();
    assert_eq!(name, "trigger");
    assert_eq!(item, ConfigItem::Button);
}

#[test]
fn bool_with_any_other_error_propagates() {
    let mut n = leaf("flag", CONFIG_TYPE_BOOL);
    n.int_code = 0x80000001;
    assert_eq!(parse_item(&n), Err(Error::ErrorNotInitialized));
}

#[test]
fn enum_decodes_selection_and_semicolon_separated_labels() {
    let mut n = leaf("mode", CONFIG_TYPE_ENUM);
    n.int_code = 0;
    n.int_value = 1;
    let mut options = wide("Off;On;Auto");
    options.extend([0u32; 4]);
    n.options = options;
    let (_, item) = parse_item(&n).unwrap();
    assert_eq!(
        item,
        ConfigItem::Enum(1, vec!["Off".to_string(), "On".to_string(), "Auto".to_string()])
    );
}

#[test]
fn enum_with_empty_options_has_one_empty_label() {
    let mut n = leaf("mode", CONFIG_TYPE_ENUM);
    n.int_code = 0;
    n.int_value = 0;
    let (_, item) = parse_item(&n).unwrap();
    assert_eq!(item, ConfigItem::Enum(0, vec![String::new()]));
}

#[test]
fn string_node_decodes_its_metadata_buffer() {
    let mut n = leaf("label", CONFIG_TYPE_STRING);
    let mut options = wide("hello");
    options.extend([0u32; 3]);
    n.options = options;
    let (_, item) = parse_item(&n).unwrap();
    assert_eq!(item, ConfigItem::String("hello".to_string()));
}

#[test]
fn blob_and_unknown_tags_classify_without_extraction() {
    let (_, item) = parse_item(&leaf("data", CONFIG_TYPE_BLOB)).unwrap();
    assert_eq!(item, ConfigItem::Blob);
    let (_, item) = parse_item(&leaf("weird", 99)).unwrap();
    assert_eq!(item, ConfigItem::Other);
    let (_, item) = parse_item(&leaf("zero", 0)).unwrap();
    assert_eq!(item, ConfigItem::Other);
}

#[test]
fn group_collects_all_children_depth_first() {
    let mut g = leaf("main", CONFIG_TYPE_GROUP);
    g.children = vec![boolean("a", 1), number("b", 2.5)];
    let (name, item) = parse_item(&g).unwrap();
    assert_eq!(name, "main");
    match item {
        ConfigItem::Group(entries) => {
            assert_eq!(entries.len(), 2);
            assert_eq!(entries[0], ("a".to_string(), ConfigItem::Bool(true)));
            assert_eq!(entries[1], ("b".to_string(), ConfigItem::Number(2.5f64.to_bits())));
        }
        other => panic!("expected a group, got {other:?}"),
    }
}

#[test]
fn nested_groups_recurse() {
    let mut inner = leaf("inner", CONFIG_TYPE_GROUP);
    inner.children = vec![boolean("x", 1)];
    let mut outer = leaf("outer", CONFIG_TYPE_GROUP);
    outer.children = vec![inner];
    let (_, item) = parse_item(&outer).unwrap();
    let inner_item = item.group_get(&"inner".to_string()).unwrap();
    let x = inner_item.group_get(&"x".to_string()).unwrap();
    assert_eq!(*x, ConfigItem::Bool(true));
}

#[test]
fn group_with_no_child_is_an_empty_group() {
    // The sibling iteration stopped on "empty" at its very first step: the
    // group closes normally, with no entry.
    let g = leaf("hollow", CONFIG_TYPE_GROUP);
    let (name, item) = parse_item(&g).unwrap();
    assert_eq!(name, "hollow");
    assert_eq!(item, ConfigItem::Group(Vec::new()));
}

#[test]
fn childless_group_whose_iteration_failed_is_an_error() {
    let mut g = leaf("hollow", CONFIG_TYPE_GROUP);
    g.end_code = 0x80000000;
    assert_eq!(parse_item(&g), Err(Error::Error));
}

#[test]
fn group_aborts_on_the_first_failing_child() {
    let mut bad = leaf("bad", CONFIG_TYPE_NUMBER);
    bad.float_code = 0x80000002;
    let mut g = leaf("main", CONFIG_TYPE_GROUP);
    g.children = vec![boolean("a", 1), bad, boolean("c", 0)];
    assert_eq!(parse_item(&g), Err(Error::ErrorNotFound));
}

#[test]
fn group_iteration_ending_with_an_error_fails_the_group() {
    let mut g = leaf("main", CONFIG_TYPE_GROUP);
    g.children = vec![boolean("a", 1)];
    g.end_code = 0x80000000;
    assert_eq!(parse_item(&g), Err(Error::Error));
}

#[test]
fn sibling_name_collisions_resolve_last_write_wins() {
    let mut g = leaf("main", CONFIG_TYPE_GROUP);
    g.children = vec![boolean("dup", 0), number("other", 1.0), boolean("dup", 1)];
    let (_, item) = parse_item(&g).unwrap();
    let got = item.group_get(&"dup".to_string()).unwrap();
    assert_eq!(*got, ConfigItem::Bool(true));
}

#[test]
fn group_lookup_misses_and_non_groups() {
    let mut g = leaf("main", CONFIG_TYPE_GROUP);
    g.children = vec![boolean("a", 1)];
    let (_, item) = parse_item(&g).unwrap();
    assert!(item.group_get(&"missing".to_string()).is_none());
    assert!(ConfigItem::Blob.group_get(&"a".to_string()).is_none());
}

#[test]
fn type_tags_decode() {
    assert_eq!(ConfigType::from_code(1), ConfigType::Group);
    assert_eq!(ConfigType::from_code(2), ConfigType::Blob);
    assert_eq!(ConfigType::from_code(3), ConfigType::Number);
    assert_eq!(ConfigType::from_code(4), ConfigType::Bool);
    assert_eq!(ConfigType::from_code(5), ConfigType::Enum);
    assert_eq!(ConfigType::from_code(6), ConfigType::String);
    assert_eq!(ConfigType::from_code(0), ConfigType::Other);
    assert_eq!(ConfigType::from_code(42), ConfigType::Other);
}

#[test]
fn write_chain_surfaces_the_first_failing_step() {
    assert_eq!(config_chain_outcome(0, 0, 0), Ok(()));
    assert_eq!(config_chain_outcome(0x80000001, 0, 0), Err(Error::ErrorNotInitialized));
    assert_eq!(
        config_chain_outcome(0, 0x80000002, 0x80000000),
        Err(Error::ErrorNotFound)
    );
    assert_eq!(config_chain_outcome(0, 0, 0x8000000d), Err(Error::ErrorValueMalformed));
}

// Round trip of a numeric setting: writing "42" makes the vendor store the
// number 42, and reading the node back extracts 42.0 within float tolerance.
#[test]
fn numeric_set_then_get_round_trips() {
    assert_eq!(config_chain_outcome(0, 0, 0), Ok(()));
    let n = number("demodcenterfreq", 42.0);
    let (_, item) = parse_item(&n).unwrap();
    match item {
        ConfigItem::Number(bits) => assert!((f64::from_bits(bits) - 42.0).abs() < 1e-9),
        other => panic!("expected a number, got {other:?}"),
    }
}
