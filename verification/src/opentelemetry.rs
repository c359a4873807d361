//! The stock attribute-name mapping from tracing semantic-convention keys
//! to the backend's attribute paths.

use vstd::prelude::*;

use crate::attrs::AttrMap;

verus! {

/// The mapping [`opentelemetry_semantic_mapping`] returns, as a map.
pub open spec fn spec_opentelemetry_semantic_mapping() -> Map<Seq<char>, Seq<char>> {
    Map::<Seq<char>, Seq<char>>::empty().insert("otel.component.type"@, "/component"@).insert(
        "exception.message"@,
        "/error/message"@,
    ).insert("exception.type"@, "/error/name"@).insert(
        "network.protocol.version"@,
        "/http/client_protocol"@,
    ).insert("server.address"@, "/http/host"@).insert("client.address"@, "/http/host"@).insert(
        "http.host"@,
        "/http/host"@,
    ).insert("http.method"@, "/http/method"@).insert("http.request.method"@, "/http/method"@)
        .insert("http.path"@, "/http/path"@).insert("url.path"@, "/http/path"@).insert(
        "http.request.size"@,
        "/http/request/size"@,
    ).insert("http.response.size"@, "/http/response/size"@).insert(
        "http.route"@,
        "/http/route"@,
    ).insert("http.response.status_code"@, "/http/status_code"@).insert(
        "http.status_code"@,
        "/http/status_code"@,
    ).insert("http.user_agent"@, "/http/user_agent"@).insert(
        "user_agent.original"@,
        "/http/user_agent"@,
    ).insert("k8s.cluster.name"@, "g.co/r/k8s_container/cluster_name"@).insert(
        "k8s.namespace.name"@,
        "g.co/r/k8s_container/namespace"@,
    ).insert("k8s.pod.name"@, "g.co/r/k8s_container/pod_name"@).insert(
        "k8s.container.name"@,
        "g.co/r/k8s_container/container_name"@,
    )
}

/// The stock mapping from semantic-convention attribute keys (HTTP, error,
/// network and Kubernetes names) to the backend's attribute paths. Callers
/// who want semantic-convention compatibility hand it to the builder as the
/// attribute-name mapping table; it performs no translation by itself.
pub fn opentelemetry_semantic_mapping() -> (r: AttrMap)
    ensures
        r@ == spec_opentelemetry_semantic_mapping(),
{
    let mut m = AttrMap::new();
    m.insert("otel.component.type".to_owned(), "/component".to_owned());
    m.insert("exception.message".to_owned(), "/error/message".to_owned());
    m.insert("exception.type".to_owned(), "/error/name".to_owned());
    m.insert("network.protocol.version".to_owned(), "/http/client_protocol".to_owned());
    m.insert("server.address".to_owned(), "/http/host".to_owned());
    m.insert("client.address".to_owned(), "/http/host".to_owned());
    m.insert("http.host".to_owned(), "/http/host".to_owned());
    m.insert("http.method".to_owned(), "/http/method".to_owned());
    m.insert("http.request.method".to_owned(), "/http/method".to_owned());
    m.insert("http.path".to_owned(), "/http/path".to_owned());
    m.insert("url.path".to_owned(), "/http/path".to_owned());
    m.insert("http.request.size".to_owned(), "/http/request/size".to_owned());
    m.insert("http.response.size".to_owned(), "/http/response/size".to_owned());
    m.insert("http.route".to_owned(), "/http/route".to_owned());
    m.insert("http.response.status_code".to_owned(), "/http/status_code".to_owned());
    m.insert("http.status_code".to_owned(), "/http/status_code".to_owned());
    m.insert("http.user_agent".to_owned(), "/http/user_agent".to_owned());
    m.insert("user_agent.original".to_owned(), "/http/user_agent".to_owned());
    m.insert("k8s.cluster.name".to_owned(), "g.co/r/k8s_container/cluster_name".to_owned());
    m.insert("k8s.namespace.name".to_owned(), "g.co/r/k8s_container/namespace".to_owned());
    m.insert("k8s.pod.name".to_owned(), "g.co/r/k8s_container/pod_name".to_owned());
    m.insert("k8s.container.name".to_owned(), "g.co/r/k8s_container/container_name".to_owned());
    m
}

} // verus!
