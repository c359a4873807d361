use vstd::prelude::*;

use crate::attrs::AttrMap;
use crate::timestamp::Timestamp;

verus! {

/// A completed span as the instrumentation library hands it over: a named,
/// timed unit of work with key/value string properties and timestamped
/// events. A `parent_id` of zero is the sentinel for a root span.
pub struct SpanRecord {
    pub trace_id: String,
    pub span_id: u64,
    pub parent_id: u64,
    pub begin_time_unix_ns: u64,
    pub duration_ns: u64,
    pub name: String,
    pub properties: Vec<(String, String)>,
    pub events: Vec<EventRecord>,
}

/// A timestamped, named sub-occurrence within a span's lifetime.
pub struct EventRecord {
    pub name: String,
    pub timestamp_unix_ns: u64,
    pub properties: Vec<(String, String)>,
}

/// An outcome code and message, as a status converter produces it for the
/// backend span message.
pub struct Status {
    pub code: i32,
    pub message: String,
}

/// One frame of a reported call stack.
pub struct StackFrame {
    pub function_name: String,
    pub file_name: String,
    pub line_number: i64,
    pub column_number: i64,
}

/// A call stack, as a stack-trace converter produces it for the backend
/// span message.
pub struct StackTrace {
    pub frames: Vec<StackFrame>,
    pub stack_trace_hash_id: i64,
}

/// The backend's classification of a span.
#[derive(Clone, Copy, PartialEq, Eq, Structural, Debug)]
pub enum SpanKind {
    Unspecified,
    Internal,
    Server,
    Client,
    Producer,
    Consumer,
}

/// A backend time event: an annotation on the enclosing span, carrying its
/// own timestamp, description and attribute set.
pub struct TimeEvent {
    pub time: Timestamp,
    pub description: String,
    pub attributes: AttrMap,
}

/// A span in the shape the backend's batch-write call takes: the
/// `projects/{project}/traces/{trace}/spans/{span}` resource name, ids in
/// string form (a root span carries no parent id), split timestamps, the
/// final attribute set, the three converter outcomes, and one time event
/// per input event.
pub struct BackendSpan {
    pub name: String,
    pub span_id: String,
    pub parent_span_id: Option<String>,
    pub display_name: String,
    pub start_time: Timestamp,
    pub end_time: Timestamp,
    pub attributes: AttrMap,
    pub status: Option<Status>,
    pub span_kind: SpanKind,
    pub stack_trace: Option<StackTrace>,
    pub time_events: Vec<TimeEvent>,
}

/// One batch-write call's worth of data: the destination project resource
/// name and the translated spans.
pub struct BatchWriteRequest {
    pub name: String,
    pub spans: Vec<BackendSpan>,
}

} // verus!
