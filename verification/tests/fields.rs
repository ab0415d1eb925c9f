use cappie::{FieldSet, FieldValue};

fn s(text: &str) -> String {
    text.to_string()
}

#[test]
fn empty_set_renders_nothing() {
    let set = FieldSet::new();
    assert!(set.is_empty());
    assert_eq!(set.render_pairs(), "");
}

#[test]
fn pairs_keep_insertion_order() {
    let mut set = FieldSet::new();
    set.insert(s("b"), FieldValue::Int(2));
    set.insert(s("a"), FieldValue::Int(1));
    assert_eq!(set.render_pairs(), "b=2 a=1");
}

#[test]
fn insert_overwrites_in_place() {
    let mut set = FieldSet::new();
    set.insert(s("a"), FieldValue::Int(1));
    set.insert(s("b"), FieldValue::Int(2));
    set.insert(s("a"), FieldValue::Str(s("x")));
    assert_eq!(set.render_pairs(), "a=x b=2");
}

#[test]
fn scalar_plain_forms() {
    let mut set = FieldSet::new();
    set.insert(s("s"), FieldValue::Str(s("text")));
    set.insert(s("n"), FieldValue::Int(-42));
    set.insert(s("t"), FieldValue::Bool(true));
    set.insert(s("f"), FieldValue::Bool(false));
    set.insert(s("z"), FieldValue::Null);
    assert_eq!(set.render_pairs(), "s=text n=-42 t=true f=false z=null");
}

#[test]
fn extreme_integers() {
    let mut set = FieldSet::new();
    set.insert(s("min"), FieldValue::Int(i64::MIN));
    set.insert(s("max"), FieldValue::Int(i64::MAX));
    set.insert(s("zero"), FieldValue::Int(0));
    assert_eq!(
        set.render_pairs(),
        "min=-9223372036854775808 max=9223372036854775807 zero=0"
    );
}

#[test]
fn nested_array_serializes_compactly() {
    let mut set = FieldSet::new();
    set.insert(
        s("v"),
        FieldValue::Arr(vec![
            FieldValue::Str(s("a")),
            FieldValue::Int(-3),
            FieldValue::Bool(true),
            FieldValue::Null,
        ]),
    );
    assert_eq!(set.render_pairs(), "v=[\"a\",-3,true,null]");
}

#[test]
fn nested_object_serializes_compactly() {
    let mut set = FieldSet::new();
    set.insert(
        s("o"),
        FieldValue::Obj(vec![
            (s("k"), FieldValue::Int(1)),
            (s("m"), FieldValue::Arr(vec![FieldValue::Obj(vec![])])),
        ]),
    );
    assert_eq!(set.render_pairs(), "o={\"k\":1,\"m\":[{}]}");
}

#[test]
fn nested_strings_are_escaped() {
    let mut set = FieldSet::new();
    set.insert(
        s("v"),
        FieldValue::Arr(vec![FieldValue::Str(s("he said \"hi\"\\\n"))]),
    );
    assert_eq!(set.render_pairs(), "v=[\"he said \\\"hi\\\"\\\\\\n\"]");
}

#[test]
fn control_characters_escape_as_hex() {
    let mut set = FieldSet::new();
    set.insert(
        s("v"),
        FieldValue::Arr(vec![FieldValue::Str(s("\u{1}\u{8}\u{c}\t\r\u{1f}"))]),
    );
    assert_eq!(
        set.render_pairs(),
        "v=[\"\\u0001\\b\\f\\t\\r\\u001f\"]"
    );
}

#[test]
fn plain_string_is_not_escaped() {
    let mut set = FieldSet::new();
    set.insert(s("raw"), FieldValue::Str(s("a\"b\\c")));
    assert_eq!(set.render_pairs(), "raw=a\"b\\c");
}

#[test]
fn merge_overlays_call_fields() {
    let mut base = FieldSet::new();
    base.insert(s("a"), FieldValue::Int(1));
    base.insert(s("b"), FieldValue::Int(2));
    let mut call = FieldSet::new();
    call.insert(s("b"), FieldValue::Int(20));
    call.insert(s("c"), FieldValue::Int(3));
    let merged = base.merge(&call);
    assert_eq!(merged.render_pairs(), "a=1 b=20 c=3");
    // neither input is changed
    assert_eq!(base.render_pairs(), "a=1 b=2");
    assert_eq!(call.render_pairs(), "b=20 c=3");
}

#[test]
fn merge_with_empty_sides() {
    let empty = FieldSet::new();
    let mut base = FieldSet::new();
    base.insert(s("a"), FieldValue::Int(1));
    assert_eq!(base.merge(&empty).render_pairs(), "a=1");
    assert_eq!(empty.merge(&base).render_pairs(), "a=1");
}

#[test]
fn json_object_rendering() {
    let mut set = FieldSet::new();
    set.insert(s("a"), FieldValue::Int(1));
    set.insert(s("b"), FieldValue::Str(s("x")));
    assert_eq!(set.render_json_object(), "{\"a\":1,\"b\":\"x\"}");
    assert_eq!(FieldSet::new().render_json_object(), "{}");
}
