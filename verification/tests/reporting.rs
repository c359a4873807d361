use fastrace_google_cloud::AttrMap;
use fastrace_google_cloud::EventRecord;
use fastrace_google_cloud::GoogleCloudReporter;
use fastrace_google_cloud::SpanKind;
use fastrace_google_cloud::SpanRecord;
use fastrace_google_cloud::convert_parent_span_id;
use fastrace_google_cloud::convert_unix_ns;
use fastrace_google_cloud::u64_to_decimal;

fn span(
    trace_id: &str,
    span_id: u64,
    parent_id: u64,
    name: &str,
    begin: u64,
    duration: u64,
    properties: Vec<(String, String)>,
    events: Vec<EventRecord>,
) -> SpanRecord {
    SpanRecord {
        trace_id: trace_id.to_string(),
        span_id,
        parent_id,
        begin_time_unix_ns: begin,
        duration_ns: duration,
        name: name.to_string(),
        properties,
        events,
    }
}

#[test]
fn timestamp_split() {
    let t = convert_unix_ns(1_700_000_001_500_000_000);
    assert_eq!(t.seconds, 1_700_000_001);
    assert_eq!(t.nanos, 500_000_000);
}

#[test]
fn timestamp_split_zero() {
    let t = convert_unix_ns(0);
    assert_eq!(t.seconds, 0);
    assert_eq!(t.nanos, 0);
}

#[test]
fn timestamp_split_largest() {
    let t = convert_unix_ns(u64::MAX);
    assert_eq!(t.seconds, 18_446_744_073);
    assert_eq!(t.nanos, 709_551_615);
}

#[test]
fn decimal_rendering() {
    assert_eq!(u64_to_decimal(0), "0");
    assert_eq!(u64_to_decimal(7), "7");
    assert_eq!(u64_to_decimal(42), "42");
    assert_eq!(u64_to_decimal(1000), "1000");
    assert_eq!(u64_to_decimal(u64::MAX), "18446744073709551615");
}

#[test]
fn parent_id_zero_is_root() {
    assert_eq!(convert_parent_span_id(0), None);
}

#[test]
fn parent_id_nonzero_is_stringified() {
    assert_eq!(convert_parent_span_id(7), Some("7".to_string()));
    assert_eq!(convert_parent_span_id(981), Some("981".to_string()));
}

#[test]
fn empty_batch_prepares_no_call() {
    let reporter = GoogleCloudReporter::builder("p".to_string()).build();
    assert!(reporter.report(Vec::new()).is_none());
}

#[test]
fn nonempty_batch_prepares_one_call() {
    let reporter = GoogleCloudReporter::builder("p".to_string()).build();
    let spans = vec![
        span("t", 1, 0, "a", 0, 1, Vec::new(), Vec::new()),
        span("t", 2, 1, "b", 5, 1, Vec::new(), Vec::new()),
    ];
    let req = reporter.report(spans).expect("a non-empty batch prepares one call");
    assert_eq!(req.name, "projects/p");
    assert_eq!(req.spans.len(), 2);
}

#[test]
fn attribute_mapping_precedence() {
    let mut table = AttrMap::new();
    table.insert("a.b".to_string(), "x/y".to_string());
    let reporter = GoogleCloudReporter::builder("p".to_string())
        .attribute_name_mappings(table)
        .build();
    let props = vec![
        ("a.b".to_string(), "1".to_string()),
        ("c.d".to_string(), "2".to_string()),
    ];
    let attrs = reporter.convert_properties(&props);
    assert_eq!(attrs.get(&"x/y".to_string()), Some(&"1".to_string()));
    assert_eq!(attrs.get(&"c.d".to_string()), Some(&"2".to_string()));
    assert_eq!(attrs.get(&"a.b".to_string()), None);
}

#[test]
fn service_name_is_inserted() {
    let reporter = GoogleCloudReporter::builder("p".to_string())
        .service_name("svc".to_string())
        .build();
    let attrs = reporter.convert_properties(&Vec::new());
    assert_eq!(attrs.get(&"service.name".to_string()), Some(&"svc".to_string()));
}

#[test]
fn service_name_override_later_insertion_wins() {
    let mut table = AttrMap::new();
    table.insert("app.svc".to_string(), "service.name".to_string());
    let reporter = GoogleCloudReporter::builder("p".to_string())
        .service_name("svc".to_string())
        .attribute_name_mappings(table)
        .build();
    let props = vec![("app.svc".to_string(), "real".to_string())];
    let attrs = reporter.convert_properties(&props);
    assert_eq!(attrs.get(&"service.name".to_string()), Some(&"real".to_string()));
}

#[test]
fn span_kind_default_extraction() {
    let reporter = GoogleCloudReporter::builder("p".to_string()).build();
    let props = vec![("span.kind".to_string(), "server".to_string())];
    let s = span("t", 1, 0, "a", 0, 1, props, Vec::new());
    let b = reporter.convert_span(s);
    assert_eq!(b.span_kind, SpanKind::Server);
    assert_eq!(b.attributes.get(&"span.kind".to_string()), None);
}

#[test]
fn span_kind_defaults_to_internal_when_absent() {
    let reporter = GoogleCloudReporter::builder("p".to_string()).build();
    let s = span("t", 1, 0, "a", 0, 1, Vec::new(), Vec::new());
    let b = reporter.convert_span(s);
    assert_eq!(b.span_kind, SpanKind::Internal);
}

#[test]
fn span_kind_defaults_to_internal_when_unrecognized() {
    let reporter = GoogleCloudReporter::builder("p".to_string()).build();
    let props = vec![("span.kind".to_string(), "blimp".to_string())];
    let s = span("t", 1, 0, "a", 0, 1, props, Vec::new());
    let b = reporter.convert_span(s);
    assert_eq!(b.span_kind, SpanKind::Internal);
}

#[test]
fn end_to_end_root_span_with_event() {
    let reporter = GoogleCloudReporter::builder("p".to_string()).build();
    let event = EventRecord {
        name: "note".to_string(),
        timestamp_unix_ns: 500_000_000,
        properties: Vec::new(),
    };
    let s = span("t1", 42, 0, "simple", 0, 1_000_000_000, Vec::new(), vec![event]);
    let req = reporter.report(vec![s]).expect("one span prepares one call");
    assert_eq!(req.name, "projects/p");
    assert_eq!(req.spans.len(), 1);
    let b = &req.spans[0];
    assert_eq!(b.name, "projects/p/traces/t1/spans/42");
    assert_eq!(b.span_id, "42");
    assert_eq!(b.parent_span_id, None);
    assert_eq!(b.display_name, "simple");
    assert_eq!(b.start_time.seconds, 0);
    assert_eq!(b.start_time.nanos, 0);
    assert_eq!(b.end_time.seconds, 1);
    assert_eq!(b.end_time.nanos, 0);
    assert!(b.status.is_none());
    assert!(b.stack_trace.is_none());
    assert_eq!(b.time_events.len(), 1);
    let e = &b.time_events[0];
    assert_eq!(e.time.seconds, 0);
    assert_eq!(e.time.nanos, 500_000_000);
    assert_eq!(e.description, "note");
}

#[test]
fn child_span_carries_parent_and_kind() {
    let reporter = GoogleCloudReporter::builder("p".to_string())
        .service_name("svc".to_string())
        .build();
    let props = vec![
        ("span.kind".to_string(), "client".to_string()),
        ("note".to_string(), "v".to_string()),
    ];
    let s = span("t1", 43, 42, "child", 1_500_000_000, 250_000_000, props, Vec::new());
    let b = reporter.convert_span(s);
    assert_eq!(b.name, "projects/p/traces/t1/spans/43");
    assert_eq!(b.parent_span_id, Some("42".to_string()));
    assert_eq!(b.span_kind, SpanKind::Client);
    assert_eq!(b.start_time.seconds, 1);
    assert_eq!(b.start_time.nanos, 500_000_000);
    assert_eq!(b.end_time.seconds, 1);
    assert_eq!(b.end_time.nanos, 750_000_000);
    assert_eq!(b.attributes.get(&"service.name".to_string()), Some(&"svc".to_string()));
    assert_eq!(b.attributes.get(&"note".to_string()), Some(&"v".to_string()));
    assert_eq!(b.attributes.get(&"span.kind".to_string()), None);
}

#[test]
fn event_properties_are_converted_too() {
    let mut table = AttrMap::new();
    table.insert("a.b".to_string(), "x/y".to_string());
    let reporter = GoogleCloudReporter::builder("p".to_string())
        .service_name("svc".to_string())
        .attribute_name_mappings(table)
        .build();
    let event = EventRecord {
        name: "note".to_string(),
        timestamp_unix_ns: 1,
        properties: vec![("a.b".to_string(), "1".to_string())],
    };
    let t = reporter.convert_event(event);
    assert_eq!(t.attributes.get(&"x/y".to_string()), Some(&"1".to_string()));
    assert_eq!(t.attributes.get(&"service.name".to_string()), Some(&"svc".to_string()));
}
