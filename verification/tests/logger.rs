use cappie::{
    create_logger, FieldSet, FieldValue, FileOutput, FlexibleFormatter, FormatterChoice,
    Level, LogBuilder, Logger, MultiOutput, Output, PrettyFormatter, SinkChoice, StdoutOutput,
    Timestamp,
};

fn s(text: &str) -> String {
    text.to_string()
}

fn noon() -> Timestamp {
    Timestamp::new(2025, 6, 21, 12, 0, 0, 0)
}

fn pretty_plain(name: &str) -> Logger {
    Logger::new(name).with_formatter(FormatterChoice::Pretty(
        PrettyFormatter::new().with_no_colors(),
    ))
}

#[test]
fn level_filter_drops_and_emits() {
    let logger = Logger::new("svc").with_level(Level::Warn);
    assert!(logger
        .format_record(Level::Trace, "m", None, &noon())
        .is_none());
    assert!(logger
        .format_record(Level::Debug, "m", None, &noon())
        .is_none());
    assert!(logger
        .format_record(Level::Info, "m", None, &noon())
        .is_none());
    assert!(logger
        .format_record(Level::Warn, "m", None, &noon())
        .is_some());
    assert!(logger
        .format_record(Level::Error, "m", None, &noon())
        .is_some());
    assert!(logger
        .format_record(Level::Fatal, "m", None, &noon())
        .is_some());
}

#[test]
fn should_log_matches_filter() {
    let logger = Logger::new("svc").with_level(Level::Error);
    assert!(!logger.should_log(Level::Warn));
    assert!(logger.should_log(Level::Error));
    assert!(logger.should_log(Level::Fatal));
}

#[test]
fn default_logger_renders_structured_lines() {
    let logger = create_logger("svc");
    let line = logger
        .format_record(Level::Info, "hello", None, &noon())
        .unwrap();
    assert_eq!(
        line,
        "{\"level\":30,\"time\":\"2025-06-21T12:00:00Z\",\"name\":\"svc\",\"msg\":\"hello\"}"
    );
}

#[test]
fn base_fields_appear_in_every_record() {
    let logger = pretty_plain("svc").with_field("version", FieldValue::Str(s("1.2")));
    let line = logger
        .format_record(Level::Info, "up", None, &noon())
        .unwrap();
    assert_eq!(line, "[12:00:00] (svc) INFO: up version=1.2");
}

#[test]
fn call_fields_overlay_base_fields() {
    let logger = pretty_plain("svc")
        .with_field("a", FieldValue::Int(1))
        .with_field("b", FieldValue::Int(2));
    let mut builder = LogBuilder::new();
    builder.number("b", 20);
    builder.string("c", "x");
    builder.bool("d", true);
    builder.field("e", FieldValue::Null);
    let line = logger
        .format_record(Level::Info, "m", Some(&builder.fields), &noon())
        .unwrap();
    assert_eq!(line, "[12:00:00] (svc) INFO: m a=1 b=20 c=x d=true e=null");
}

#[test]
fn child_inherits_base_fields_and_level() {
    let parent = Logger::new("backend")
        .with_level(Level::Debug)
        .with_field("version", FieldValue::Str(s("2")));
    let child = parent.child("http");
    assert!(child.should_log(Level::Debug));
    let line = child
        .format_record(Level::Info, "m", None, &noon())
        .unwrap();
    assert_eq!(
        line,
        "{\"level\":30,\"time\":\"2025-06-21T12:00:00Z\",\"name\":\"backend.http\",\"msg\":\"m\",\"version\":\"2\"}"
    );
}

#[test]
fn child_of_unnamed_logger_takes_bare_suffix() {
    let parent = Logger::new("");
    let child = parent.child("worker");
    let line = child
        .format_record(Level::Info, "m", None, &noon())
        .unwrap();
    assert!(line.contains("\"name\":\"worker\""));
}

#[test]
fn pretty_constructor_uses_the_readable_layout() {
    let logger = Logger::pretty();
    let line = logger
        .format_record(Level::Info, "hi", None, &noon())
        .unwrap();
    assert_eq!(line, "[12:00:00] (app) \x1b[32mINFO\x1b[0m: hi");
}

#[test]
fn flexible_formatter_through_logger() {
    let formatter = FlexibleFormatter::new()
        .clear_components()
        .add_message(cappie::ComponentPosition::Start, None, None, None);
    let logger = Logger::new("svc").with_formatter(FormatterChoice::Flexible(formatter));
    let line = logger
        .format_record(Level::Info, "just this", None, &noon())
        .unwrap();
    assert_eq!(line, "just this");
}

#[test]
fn format_record_now_filters_and_renders() {
    let logger = pretty_plain("svc").with_level(Level::Warn);
    assert!(logger.format_record_now(Level::Info, "m", None).is_none());
    let line = logger.format_record_now(Level::Error, "m", None).unwrap();
    assert!(line.ends_with("(svc) ERROR: m"));
    assert!(line.starts_with('['));
}

#[test]
fn file_output_keeps_its_path() {
    let sink = FileOutput::new("logs/app.log");
    assert_eq!(sink.path(), "logs/app.log");
}

#[test]
fn multi_output_collects_sinks_in_order() {
    let multi = MultiOutput::new()
        .add_output(SinkChoice::Stdout(StdoutOutput))
        .add_output(SinkChoice::File(FileOutput::new("a.log")));
    assert_eq!(multi.outputs.len(), 2);
    assert!(matches!(multi.outputs[0], SinkChoice::Stdout(_)));
    match &multi.outputs[1] {
        SinkChoice::File(f) => assert_eq!(f.path(), "a.log"),
        _ => panic!("expected the file sink"),
    }
}

#[test]
fn console_sinks_accept_lines() {
    StdoutOutput.write("stdout sink line");
    cappie::StderrOutput.write("stderr sink line");
}

#[test]
fn empty_message_and_name_render() {
    let logger = pretty_plain("");
    let line = logger.format_record(Level::Info, "", None, &noon()).unwrap();
    assert_eq!(line, "[12:00:00] () INFO: ");
}

#[test]
fn builder_collects_fields_without_logger() {
    let mut builder = LogBuilder::new();
    builder.string("k", "v");
    let mut expected = FieldSet::new();
    expected.insert(s("k"), FieldValue::Str(s("v")));
    assert_eq!(builder.fields.render_pairs(), expected.render_pairs());
}
