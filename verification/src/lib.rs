//! Translation of in-process trace spans into the wire shape expected by the
//! Google Cloud Trace backend.
//!
//! The crate turns a batch of completed span records into backend span
//! messages: it rewrites attribute keys through an optional mapping table,
//! splits nanosecond timestamps into seconds and nanoseconds, builds the
//! `projects/{id}/traces/{trace}/spans/{span}` resource name, drops the
//! zero parent-id sentinel, and carries events over as time events. The
//! network call itself is left to the caller, which hands every prepared
//! batch to the backend client.

mod attrs;
mod converters;
mod opentelemetry;
mod records;
mod reporter;
mod text;
mod timestamp;

pub use attrs::AttrMap;
pub use attrs::assoc_find;
pub use converters::Converters;
pub use converters::DefaultConverters;
pub use converters::parse_span_kind;
pub use converters::spec_parse_span_kind;
pub use opentelemetry::opentelemetry_semantic_mapping;
pub use opentelemetry::spec_opentelemetry_semantic_mapping;
pub use records::BackendSpan;
pub use records::BatchWriteRequest;
pub use records::EventRecord;
pub use records::SpanKind;
pub use records::SpanRecord;
pub use records::StackFrame;
pub use records::StackTrace;
pub use records::Status;
pub use records::TimeEvent;
pub use reporter::GoogleCloudReporter;
pub use reporter::GoogleCloudReporterBuilder;
pub use reporter::convert_parent_span_id;
pub use reporter::lemma_add_props_key_origin;
pub use reporter::lemma_add_props_last_wins;
pub use reporter::lemma_add_props_untouched_key;
pub use reporter::spec_add_props;
pub use reporter::spec_apply_mapping;
pub use reporter::spec_resource_name;
pub use text::spec_u64_decimal;
pub use text::str_equal;
pub use text::u64_to_decimal;
pub use timestamp::Timestamp;
pub use timestamp::convert_unix_ns;
pub use timestamp::spec_timestamp_of;
