use fastrace_google_cloud::AttrMap;
use fastrace_google_cloud::SpanKind;
use fastrace_google_cloud::opentelemetry_semantic_mapping;
use fastrace_google_cloud::parse_span_kind;
use fastrace_google_cloud::str_equal;
use opentelemetry_semantic_conventions::attribute;

fn lookup(m: &AttrMap, k: &str) -> Option<String> {
    m.get(&k.to_string()).cloned()
}

#[test]
fn attr_map_insert_get_remove() {
    let mut m = AttrMap::new();
    assert_eq!(m.len(), 0);
    m.insert("k".to_string(), "v1".to_string());
    assert_eq!(lookup(&m, "k"), Some("v1".to_string()));
    m.insert("k".to_string(), "v2".to_string());
    assert_eq!(lookup(&m, "k"), Some("v2".to_string()));
    assert_eq!(m.remove(&"k".to_string()), Some("v2".to_string()));
    assert_eq!(lookup(&m, "k"), None);
    assert_eq!(m.remove(&"k".to_string()), None);
}

#[test]
fn string_content_equality() {
    assert!(str_equal("abc", "abc"));
    assert!(!str_equal("abc", "abd"));
    assert!(!str_equal("abc", "ab"));
    assert!(str_equal("", ""));
}

#[test]
fn span_kind_names() {
    assert_eq!(parse_span_kind("unspecified"), SpanKind::Unspecified);
    assert_eq!(parse_span_kind("SPAN_KIND_UNSPECIFIED"), SpanKind::Unspecified);
    assert_eq!(parse_span_kind("internal"), SpanKind::Internal);
    assert_eq!(parse_span_kind("INTERNAL"), SpanKind::Internal);
    assert_eq!(parse_span_kind("server"), SpanKind::Server);
    assert_eq!(parse_span_kind("SERVER"), SpanKind::Server);
    assert_eq!(parse_span_kind("client"), SpanKind::Client);
    assert_eq!(parse_span_kind("CLIENT"), SpanKind::Client);
    assert_eq!(parse_span_kind("producer"), SpanKind::Producer);
    assert_eq!(parse_span_kind("PRODUCER"), SpanKind::Producer);
    assert_eq!(parse_span_kind("consumer"), SpanKind::Consumer);
    assert_eq!(parse_span_kind("CONSUMER"), SpanKind::Consumer);
    assert_eq!(parse_span_kind("Server"), SpanKind::Internal);
    assert_eq!(parse_span_kind(""), SpanKind::Internal);
}

#[test]
fn semantic_mapping_matches_convention_keys() {
    let m = opentelemetry_semantic_mapping();
    assert_eq!(lookup(&m, attribute::OTEL_COMPONENT_TYPE), Some("/component".to_string()));
    assert_eq!(lookup(&m, attribute::EXCEPTION_MESSAGE), Some("/error/message".to_string()));
    assert_eq!(lookup(&m, attribute::EXCEPTION_TYPE), Some("/error/name".to_string()));
    assert_eq!(
        lookup(&m, attribute::NETWORK_PROTOCOL_VERSION),
        Some("/http/client_protocol".to_string())
    );
    assert_eq!(lookup(&m, attribute::SERVER_ADDRESS), Some("/http/host".to_string()));
    assert_eq!(lookup(&m, attribute::CLIENT_ADDRESS), Some("/http/host".to_string()));
    assert_eq!(lookup(&m, attribute::HTTP_HOST), Some("/http/host".to_string()));
    assert_eq!(lookup(&m, attribute::HTTP_METHOD), Some("/http/method".to_string()));
    assert_eq!(lookup(&m, attribute::HTTP_REQUEST_METHOD), Some("/http/method".to_string()));
    assert_eq!(lookup(&m, "http.path"), Some("/http/path".to_string()));
    assert_eq!(lookup(&m, attribute::URL_PATH), Some("/http/path".to_string()));
    assert_eq!(lookup(&m, attribute::HTTP_REQUEST_SIZE), Some("/http/request/size".to_string()));
    assert_eq!(lookup(&m, attribute::HTTP_RESPONSE_SIZE), Some("/http/response/size".to_string()));
    assert_eq!(lookup(&m, attribute::HTTP_ROUTE), Some("/http/route".to_string()));
    assert_eq!(
        lookup(&m, attribute::HTTP_RESPONSE_STATUS_CODE),
        Some("/http/status_code".to_string())
    );
    assert_eq!(lookup(&m, attribute::HTTP_STATUS_CODE), Some("/http/status_code".to_string()));
    assert_eq!(lookup(&m, attribute::HTTP_USER_AGENT), Some("/http/user_agent".to_string()));
    assert_eq!(lookup(&m, attribute::USER_AGENT_ORIGINAL), Some("/http/user_agent".to_string()));
    assert_eq!(
        lookup(&m, attribute::K8S_CLUSTER_NAME),
        Some("g.co/r/k8s_container/cluster_name".to_string())
    );
    assert_eq!(
        lookup(&m, attribute::K8S_NAMESPACE_NAME),
        Some("g.co/r/k8s_container/namespace".to_string())
    );
    assert_eq!(
        lookup(&m, attribute::K8S_POD_NAME),
        Some("g.co/r/k8s_container/pod_name".to_string())
    );
    assert_eq!(
        lookup(&m, attribute::K8S_CONTAINER_NAME),
        Some("g.co/r/k8s_container/container_name".to_string())
    );
    assert_eq!(lookup(&m, "something.else"), None);
    assert_eq!(m.len(), 22);
}
