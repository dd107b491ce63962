use stackdriver_format::event::{select_scope, EventData, Field, FieldValue, SpanData};
use stackdriver_format::formatter::{decimal_string, EventFormatter};
use stackdriver_format::severity::{Level, LogSeverity};
use stackdriver_format::trace::{
    resolve_trace, unquote_trace_id, AttachedContext, ParentContext, TraceIdVisitor,
    TraceStrategy,
};

const TIME: &str = "2024-05-06T07:08:09.5Z";

fn field(name: &str, value: FieldValue) -> Field {
    Field::new(name.to_string(), value)
}

fn event(level: Level, target: &str, fields: Vec<Field>) -> EventData {
    EventData {
        level,
        target: target.to_string(),
        file: None,
        line: None,
        fields,
    }
}

fn span(name: &str, fields: Vec<Field>, attached: Option<AttachedContext>) -> SpanData {
    SpanData {
        name: name.to_string(),
        fields,
        attached,
    }
}

fn plain() -> EventFormatter {
    EventFormatter::new(false, None, TraceStrategy::FieldScan)
}

fn is_rfc3339_text(s: &str) -> bool {
    let b = s.as_bytes();
    if b.len() < 20 {
        return false;
    }
    let digits = |r: std::ops::Range<usize>| r.into_iter().all(|i| b[i].is_ascii_digit());
    if !(digits(0..4)
        && b[4] == b'-'
        && digits(5..7)
        && b[7] == b'-'
        && digits(8..10)
        && b[10] == b'T'
        && digits(11..13)
        && b[13] == b':'
        && digits(14..16)
        && b[16] == b':'
        && digits(17..19))
    {
        return false;
    }
    let mut i = 19;
    if b[i] == b'.' {
        i += 1;
        let start = i;
        while i < b.len() && b[i].is_ascii_digit() {
            i += 1;
        }
        if i == start {
            return false;
        }
    }
    let rest = &s[i..];
    rest == "Z"
        || (rest.len() == 6
            && (rest.starts_with('+') || rest.starts_with('-'))
            && rest.as_bytes()[3] == b':')
}

#[test]
fn severity_follows_fixed_table() {
    let cases = [
        (Level::Trace, "DEBUG"),
        (Level::Debug, "DEBUG"),
        (Level::Info, "INFO"),
        (Level::Warn, "WARNING"),
        (Level::Error, "ERROR"),
    ];
    for (level, expected) in cases {
        assert_eq!(LogSeverity::from_level(level).as_str(), expected);
        let line = plain()
            .format_event_at(TIME.to_string(), &event(level, "t", vec![]), &vec![]);
        assert!(line.contains(&format!("\"severity\":\"{}\"", expected)));
    }
    assert_eq!(LogSeverity::Critical.as_str(), "CRITICAL");
    assert_eq!(LogSeverity::Default.as_str(), "DEFAULT");
}

#[test]
fn error_event_without_span_is_exact() {
    let ev = event(
        Level::Error,
        "svc",
        vec![field("message", FieldValue::Str("boom".to_string()))],
    );
    let line = plain().format_event_at(TIME.to_string(), &ev, &vec![]);
    assert_eq!(
        line,
        "{\"time\":\"2024-05-06T07:08:09.5Z\",\"target\":\"svc\",\"severity\":\"ERROR\",\"message\":\"boom\"}\n"
    );
}

#[test]
fn current_time_is_rfc3339() {
    let ev = event(
        Level::Error,
        "svc",
        vec![field("message", FieldValue::Str("boom".to_string()))],
    );
    let line = plain().format_event(&ev, &vec![]).unwrap();
    assert!(line.starts_with("{\"time\":\""));
    let rest = &line["{\"time\":\"".len()..];
    let end = rest.find('"').unwrap();
    let time = &rest[..end];
    assert!(is_rfc3339_text(time), "{}", time);
    assert!(line.ends_with(",\"target\":\"svc\",\"severity\":\"ERROR\",\"message\":\"boom\"}\n"));
}

#[test]
fn span_and_trace_reference_from_attached_context() {
    let attached = AttachedContext {
        trace_id: Some("t1".to_string()),
        span_id: None,
        parent: None,
    };
    let spans = vec![span(
        "request",
        vec![field("user", FieldValue::I64(42))],
        Some(attached),
    )];
    let f = EventFormatter::new(false, Some("proj1".to_string()), TraceStrategy::AttachedContext);
    let line = f
        .format_event_at(TIME.to_string(), &event(Level::Info, "svc", vec![]), &spans);
    assert!(line.contains("\"span\":{\"name\":\"request\",\"user\":42}"));
    assert!(line.contains("\"logging.googleapis.com/trace\":\"projects/proj1/traces/t1\""));
    assert!(!line.contains("spanId"));
    assert!(!line.contains("trace_sampled"));
}

#[test]
fn attached_parent_wins_and_sets_sampled() {
    let attached = AttachedContext {
        trace_id: Some("builder".to_string()),
        span_id: Some("00f067aa0ba902b7".to_string()),
        parent: Some(ParentContext {
            trace_id: "parent".to_string(),
            sampled: true,
        }),
    };
    let spans = vec![span("s", vec![], Some(attached))];
    let f = EventFormatter::new(false, Some("p".to_string()), TraceStrategy::AttachedContext);
    let line = f
        .format_event_at(TIME.to_string(), &event(Level::Warn, "x", vec![]), &spans);
    assert_eq!(
        line,
        "{\"time\":\"2024-05-06T07:08:09.5Z\",\"target\":\"x\",\"span\":{\"name\":\"s\"},\
         \"logging.googleapis.com/trace\":\"projects/p/traces/parent\",\
         \"logging.googleapis.com/spanId\":\"00f067aa0ba902b7\",\
         \"logging.googleapis.com/trace_sampled\":true,\"severity\":\"WARNING\"}\n"
    );
}

#[test]
fn attached_without_trace_id_writes_no_trace_fields() {
    let attached = AttachedContext {
        trace_id: None,
        span_id: Some("abc".to_string()),
        parent: None,
    };
    let spans = vec![span("s", vec![], Some(attached))];
    assert!(resolve_trace(TraceStrategy::AttachedContext, &spans).is_none());
    let f = EventFormatter::new(false, Some("p".to_string()), TraceStrategy::AttachedContext);
    let line = f
        .format_event_at(TIME.to_string(), &event(Level::Info, "x", vec![]), &spans);
    assert!(!line.contains("logging.googleapis.com"));
}

#[test]
fn trace_id_unquoting() {
    assert_eq!(unquote_trace_id("field:\"abc123\""), "abc123");
    assert_eq!(unquote_trace_id("abc123"), "abc123");
    assert_eq!(unquote_trace_id("a:b"), "a:b");
    assert_eq!(unquote_trace_id("a:\""), "a:\"");
    assert_eq!(unquote_trace_id("a:\"\""), "");
    assert_eq!(unquote_trace_id("x:\"a:b\""), "a:b");
    assert_eq!(unquote_trace_id(""), "");
}

#[test]
fn field_scan_takes_innermost_trace_id() {
    let spans = vec![
        span("inner", vec![field("trace_id", FieldValue::Str("field:\"abc123\"".to_string()))], None),
        span("outer", vec![field("trace_id", FieldValue::Str("outer".to_string()))], None),
    ];
    let tc = resolve_trace(TraceStrategy::FieldScan, &spans).unwrap();
    assert_eq!(tc.trace_id, "abc123");
    assert_eq!(tc.span_id, None);
    assert!(!tc.sampled);
    let f = EventFormatter::default().with_source_location(false).with_project_id("proj".to_string());
    let line = f
        .format_event_at(TIME.to_string(), &event(Level::Info, "x", vec![]), &spans);
    assert!(line.contains("\"logging.googleapis.com/trace\":\"projects/proj/traces/abc123\""));
}

#[test]
fn field_scan_reaches_outer_span() {
    let spans = vec![
        span("inner", vec![field("user", FieldValue::U64(7))], None),
        span("outer", vec![field("trace_id", FieldValue::Debug("xyz".to_string()))], None),
    ];
    let tc = resolve_trace(TraceStrategy::FieldScan, &spans).unwrap();
    assert_eq!(tc.trace_id, "xyz");
    assert!(resolve_trace(TraceStrategy::FieldScan, &vec![]).is_none());
}

#[test]
fn field_scan_reads_numbers_and_booleans_as_text() {
    let number = vec![span("s", vec![field("trace_id", FieldValue::I64(-42))], None)];
    assert_eq!(resolve_trace(TraceStrategy::FieldScan, &number).unwrap().trace_id, "-42");
    let big = vec![span("s", vec![field("trace_id", FieldValue::U64(u64::MAX))], None)];
    assert_eq!(
        resolve_trace(TraceStrategy::FieldScan, &big).unwrap().trace_id,
        "18446744073709551615"
    );
    let flag = vec![span("s", vec![field("trace_id", FieldValue::Bool(true))], None)];
    assert_eq!(resolve_trace(TraceStrategy::FieldScan, &flag).unwrap().trace_id, "true");
}

#[test]
fn trace_without_project_writes_no_reference() {
    let spans = vec![span("s", vec![field("trace_id", FieldValue::Str("t".to_string()))], None)];
    let line = plain()
        .format_event_at(TIME.to_string(), &event(Level::Info, "x", vec![]), &spans);
    assert!(!line.contains("logging.googleapis.com/trace"));
    assert!(line.contains("\"span\":{\"name\":\"s\",\"trace_id\":\"t\"}"));
}

#[test]
fn source_location_only_when_enabled_and_known() {
    let mut ev = event(Level::Info, "x", vec![]);
    ev.file = Some("src/main.rs".to_string());
    ev.line = Some(42);
    let on = EventFormatter::new(true, None, TraceStrategy::FieldScan);
    let line = on.format_event_at(TIME.to_string(), &ev, &vec![]);
    assert_eq!(
        line,
        "{\"time\":\"2024-05-06T07:08:09.5Z\",\"target\":\"x\",\
         \"logging.googleapis.com/sourceLocation\":{\"file\":\"src/main.rs\",\"line\":\"42\"},\
         \"severity\":\"INFO\"}\n"
    );
    let off = plain().format_event_at(TIME.to_string(), &ev, &vec![]);
    assert!(!off.contains("sourceLocation"));
    ev.line = None;
    let no_line = on.format_event_at(TIME.to_string(), &ev, &vec![]);
    assert!(no_line.contains("{\"file\":\"src/main.rs\"}"));
    ev.file = None;
    let no_file = on.format_event_at(TIME.to_string(), &ev, &vec![]);
    assert!(!no_file.contains("sourceLocation"));
}

#[test]
fn no_span_means_no_span_or_trace_fields() {
    let f = EventFormatter::new(false, Some("p".to_string()), TraceStrategy::AttachedContext);
    let line = f
        .format_event_at(TIME.to_string(), &event(Level::Info, "x", vec![]), &vec![]);
    assert!(!line.contains("\"span\""));
    assert!(!line.contains("logging.googleapis.com"));
}

#[test]
fn fields_keep_names_and_types() {
    let ev = event(
        Level::Debug,
        "x",
        vec![
            field("count", FieldValue::I64(-12)),
            field("min", FieldValue::I64(i64::MIN)),
            field("big", FieldValue::U64(u64::MAX)),
            field("ok", FieldValue::Bool(false)),
            field("name", FieldValue::Str("a\"b\\c\nd\te\u{1}".to_string())),
            field("dbg", FieldValue::Debug("Some(3)".to_string())),
            field("zero", FieldValue::U64(0)),
        ],
    );
    let line = plain().format_event_at(TIME.to_string(), &ev, &vec![]);
    assert!(line.ends_with(
        "\"severity\":\"DEBUG\",\"count\":-12,\"min\":-9223372036854775808,\
         \"big\":18446744073709551615,\"ok\":false,\
         \"name\":\"a\\\"b\\\\c\\nd\\te\\u0001\",\"dbg\":\"Some(3)\",\"zero\":0}\n"
    ));
}

#[test]
fn colliding_names_are_not_deduplicated() {
    let ev = event(
        Level::Info,
        "x",
        vec![
            field("time", FieldValue::Str("late".to_string())),
            field("time", FieldValue::Bool(true)),
        ],
    );
    let line = plain().format_event_at(TIME.to_string(), &ev, &vec![]);
    assert!(line.ends_with("\"severity\":\"INFO\",\"time\":\"late\",\"time\":true}\n"));
}

#[test]
fn trace_id_visitor_keeps_last_trace_id() {
    let mut v = TraceIdVisitor::new();
    assert!(v.trace_id.is_none());
    v.record_str("other", "x:\"y\"");
    assert!(v.trace_id.is_none());
    v.record_str("trace_id", "field:\"abc123\"");
    assert_eq!(v.trace_id.as_deref(), Some("abc123"));
    v.record_str("trace_id", "plain");
    assert_eq!(v.trace_id.as_deref(), Some("plain"));
}

#[test]
fn scope_prefers_declared_parent() {
    let a = vec![span("a", vec![], None)];
    let b = vec![span("b", vec![], None)];
    assert_eq!(select_scope(Some(a.clone()), Some(b.clone()))[0].name, "a");
    assert_eq!(select_scope(None, Some(b))[0].name, "b");
    assert!(select_scope(None, None).is_empty());
}

#[test]
fn default_and_builders() {
    let d = EventFormatter::default();
    assert!(d.include_source_location);
    assert_eq!(d.project_id, None);
    assert_eq!(d.trace_strategy, TraceStrategy::FieldScan);
    let f = d
        .with_source_location(false)
        .with_project_id("p".to_string())
        .with_trace_strategy(TraceStrategy::AttachedContext);
    assert!(!f.include_source_location);
    assert_eq!(f.project_id.as_deref(), Some("p"));
    assert_eq!(f.trace_strategy, TraceStrategy::AttachedContext);
}

#[test]
fn decimal_digits() {
    assert_eq!(decimal_string(0), "0");
    assert_eq!(decimal_string(1907), "1907");
    assert_eq!(decimal_string(u64::MAX), "18446744073709551615");
}
