use cappie::{
    ComponentPosition, ComponentType, FieldSet, FieldValue, FlexibleFormatter, Formatter,
    JsonFormatter, Level, PrettyFormatter, Timestamp,
};

fn s(text: &str) -> String {
    text.to_string()
}

fn noon() -> Timestamp {
    Timestamp::new(2025, 6, 21, 12, 0, 0, 0)
}

fn one_field() -> FieldSet {
    let mut set = FieldSet::new();
    set.insert(s("n"), FieldValue::Int(1));
    set
}

#[test]
fn default_template_example() {
    let formatter = FlexibleFormatter::new();
    let line = formatter.format(Level::Info, "hello", &one_field(), &noon(), "svc");
    assert_eq!(line, "[12:00:00] (svc) INFO: hello n=1");
}

#[test]
fn default_template_without_fields_has_no_trailing_space() {
    let formatter = FlexibleFormatter::new();
    let line = formatter.format(Level::Warn, "careful", &FieldSet::new(), &noon(), "svc");
    assert_eq!(line, "[12:00:00] (svc) WARN: careful");
}

#[test]
fn cleared_template_renders_nothing() {
    let formatter = FlexibleFormatter::new().clear_components();
    let line = formatter.format(Level::Error, "ignored", &one_field(), &noon(), "svc");
    assert_eq!(line, "");
}

#[test]
fn message_only_template_renders_exactly_the_message() {
    let formatter = FlexibleFormatter::new().clear_components().add_message(
        ComponentPosition::Start,
        None,
        None,
        None,
    );
    for msg in ["hello", "", "two words", "%H:%M:%S"] {
        let line = formatter.format(Level::Debug, msg, &one_field(), &noon(), "svc");
        assert_eq!(line, msg);
    }
}

#[test]
fn fields_component_is_skipped_entirely_without_fields() {
    let formatter = FlexibleFormatter::new().clear_components().add_fields(
        ComponentPosition::End,
        None,
        Some(s(" ")),
        None,
    );
    let empty = formatter.format(Level::Info, "m", &FieldSet::new(), &noon(), "svc");
    assert_eq!(empty, "");
    let full = formatter.format(Level::Info, "m", &one_field(), &noon(), "svc");
    assert_eq!(full, " n=1");
}

#[test]
fn color_and_reset_are_paired() {
    let formatter = FlexibleFormatter::new().clear_components().add_level(
        ComponentPosition::Start,
        Some(s("\x1b[31m")),
        None,
        None,
    );
    let line = formatter.format(Level::Error, "m", &FieldSet::new(), &noon(), "svc");
    assert_eq!(line, "\x1b[31mERROR\x1b[0m");
}

#[test]
fn uncolored_component_emits_no_escape() {
    let formatter = FlexibleFormatter::new().clear_components().add_level(
        ComponentPosition::Start,
        None,
        None,
        None,
    );
    let line = formatter.format(Level::Error, "m", &FieldSet::new(), &noon(), "svc");
    assert_eq!(line, "ERROR");
}

#[test]
fn color_without_reset_emits_color_only() {
    let formatter = FlexibleFormatter::new()
        .clear_components()
        .add_level(ComponentPosition::Start, Some(s("\x1b[31m")), None, None)
        .with_no_colors()
        .add_level(ComponentPosition::Start, Some(s("\x1b[34m")), None, None);
    // the second component was added after the strip, so it keeps its color,
    // but the shared reset is gone
    let line = formatter.format(Level::Warn, "m", &FieldSet::new(), &noon(), "svc");
    assert_eq!(line, "WARN\x1b[34mWARN");
}

#[test]
fn strip_colors_matches_template_built_without_colors() {
    let record = (Level::Info, "msg", one_field(), noon(), "svc");
    let stripped = FlexibleFormatter::new()
        .clear_components()
        .add_timestamp(ComponentPosition::Start, Some(s("\x1b[90m")), Some(s("[")), Some(s("]")))
        .add_message(ComponentPosition::AfterTime, Some(s("\x1b[32m")), Some(s(" ")), None)
        .add_fields(ComponentPosition::End, Some(s("\x1b[33m")), Some(s(" ")), None)
        .with_no_colors();
    let plain = FlexibleFormatter::new()
        .clear_components()
        .add_timestamp(ComponentPosition::Start, None, Some(s("[")), Some(s("]")))
        .add_message(ComponentPosition::AfterTime, None, Some(s(" ")), None)
        .add_fields(ComponentPosition::End, None, Some(s(" ")), None);
    let a = stripped.format(record.0, record.1, &record.2, &record.3, record.4);
    let b = plain.format(record.0, record.1, &record.2, &record.3, record.4);
    assert_eq!(a, b);
    assert_eq!(a, "[12:00:00] msg n=1");
}

#[test]
fn same_position_components_keep_insertion_order() {
    let formatter = FlexibleFormatter::new()
        .clear_components()
        .add_level(ComponentPosition::Start, None, None, None)
        .add_message(ComponentPosition::Start, None, Some(s(" ")), None);
    let line = formatter.format(Level::Info, "m", &FieldSet::new(), &noon(), "svc");
    assert_eq!(line, "INFO m");
    let swapped = FlexibleFormatter::new()
        .clear_components()
        .add_message(ComponentPosition::Start, None, None, None)
        .add_level(ComponentPosition::Start, None, Some(s(" ")), None);
    let line2 = swapped.format(Level::Info, "m", &FieldSet::new(), &noon(), "svc");
    assert_eq!(line2, "m INFO");
}

#[test]
fn rendering_is_deterministic() {
    let make = || {
        FlexibleFormatter::new().add_custom_text("!", ComponentPosition::End, Some(s("\x1b[35m")))
    };
    let fields = one_field();
    let a = make().format(Level::Info, "x", &fields, &noon(), "svc");
    let b = make().format(Level::Info, "x", &fields, &noon(), "svc");
    assert_eq!(a, b);
}

#[test]
fn positions_are_visited_in_fixed_order() {
    let formatter = FlexibleFormatter::new()
        .clear_components()
        .add_custom_text("6", ComponentPosition::End, None)
        .add_custom_text("5", ComponentPosition::AfterMessage, None)
        .add_custom_text("4", ComponentPosition::AfterLevel, None)
        .add_custom_text("3", ComponentPosition::AfterName, None)
        .add_custom_text("2", ComponentPosition::AfterTime, None)
        .add_custom_text("1", ComponentPosition::Start, None);
    let line = formatter.format(Level::Info, "m", &FieldSet::new(), &noon(), "svc");
    assert_eq!(line, "123456");
}

#[test]
fn custom_time_format_is_used() {
    let formatter = FlexibleFormatter::new().with_time_format("%Y%m%d");
    let line = formatter.format(Level::Info, "m", &FieldSet::new(), &noon(), "svc");
    assert_eq!(line, "[20250621] (svc) INFO: m");
}

#[test]
fn add_component_with_everything() {
    let formatter = FlexibleFormatter::new().clear_components().add_component(
        ComponentType::LoggerName,
        ComponentPosition::Start,
        Some(s("\x1b[36m")),
        Some(s("<")),
        Some(s(">")),
    );
    let line = formatter.format(Level::Info, "m", &FieldSet::new(), &noon(), "auth");
    assert_eq!(line, "<\x1b[36mauth\x1b[0m>");
}

#[test]
fn json_formatter_reserved_keys() {
    let line = JsonFormatter.format(Level::Info, "user created", &FieldSet::new(), &noon(), "backend.api");
    assert_eq!(
        line,
        "{\"level\":30,\"time\":\"2025-06-21T12:00:00Z\",\"name\":\"backend.api\",\"msg\":\"user created\"}"
    );
}

#[test]
fn json_formatter_flattens_fields() {
    let mut fields = FieldSet::new();
    fields.insert(s("user_id"), FieldValue::Int(42));
    fields.insert(s("plan"), FieldValue::Str(s("pro")));
    let line = JsonFormatter.format(Level::Warn, "m", &fields, &noon(), "svc");
    assert_eq!(
        line,
        "{\"level\":40,\"time\":\"2025-06-21T12:00:00Z\",\"name\":\"svc\",\"msg\":\"m\",\"user_id\":42,\"plan\":\"pro\"}"
    );
}

#[test]
fn json_formatter_caller_field_overwrites_reserved_key() {
    let mut fields = FieldSet::new();
    fields.insert(s("level"), FieldValue::Str(s("loud")));
    let line = JsonFormatter.format(Level::Info, "m", &fields, &noon(), "svc");
    assert_eq!(
        line,
        "{\"level\":\"loud\",\"time\":\"2025-06-21T12:00:00Z\",\"name\":\"svc\",\"msg\":\"m\"}"
    );
}

#[test]
fn json_formatter_escapes_message() {
    let line = JsonFormatter.format(Level::Info, "say \"hi\"\n", &FieldSet::new(), &noon(), "svc");
    assert_eq!(
        line,
        "{\"level\":30,\"time\":\"2025-06-21T12:00:00Z\",\"name\":\"svc\",\"msg\":\"say \\\"hi\\\"\\n\"}"
    );
}

#[test]
fn pretty_formatter_default_colors() {
    let formatter = PrettyFormatter::new();
    let mut fields = FieldSet::new();
    fields.insert(s("user"), FieldValue::Int(42));
    let line = formatter.format(Level::Info, "login succeeded", &fields, &noon(), "auth");
    assert_eq!(
        line,
        "[12:00:00] (auth) \x1b[32mINFO\x1b[0m: login succeeded user=42"
    );
}

#[test]
fn pretty_formatter_without_colors_emits_no_escape() {
    let formatter = PrettyFormatter::new().with_no_colors();
    let line = formatter.format(Level::Error, "boom", &FieldSet::new(), &noon(), "svc");
    assert_eq!(line, "[12:00:00] (svc) ERROR: boom");
}

#[test]
fn pretty_formatter_custom_color() {
    let formatter = PrettyFormatter::new().with_color(Level::Info, "\x1b[94m");
    let line = formatter.format(Level::Info, "m", &FieldSet::new(), &noon(), "svc");
    assert_eq!(line, "[12:00:00] (svc) \x1b[94mINFO\x1b[0m: m");
    // other levels keep their palette entry
    let other = formatter.format(Level::Error, "m", &FieldSet::new(), &noon(), "svc");
    assert_eq!(other, "[12:00:00] (svc) \x1b[31mERROR\x1b[0m: m");
}

#[test]
fn pretty_formatter_custom_time_format() {
    let formatter = PrettyFormatter::new().with_no_colors().with_time_format("%H%M");
    let line = formatter.format(Level::Info, "m", &FieldSet::new(), &noon(), "svc");
    assert_eq!(line, "[1200] (svc) INFO: m");
}
