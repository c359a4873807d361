use vstd::prelude::*;

use crate::attrs::AttrMap;
use crate::records::SpanKind;
use crate::records::SpanRecord;
use crate::records::StackTrace;
use crate::records::Status;
use crate::text::str_equal;

verus! {

/// The span kind a `span.kind` property value names. Both the conventional
/// lowercase names and the backend's wire names are recognized; anything
/// else falls back to the internal kind.
pub open spec fn spec_parse_span_kind(s: Seq<char>) -> SpanKind {
    if s == "unspecified"@ || s == "SPAN_KIND_UNSPECIFIED"@ {
        SpanKind::Unspecified
    } else if s == "internal"@ || s == "INTERNAL"@ {
        SpanKind::Internal
    } else if s == "server"@ || s == "SERVER"@ {
        SpanKind::Server
    } else if s == "client"@ || s == "CLIENT"@ {
        SpanKind::Client
    } else if s == "producer"@ || s == "PRODUCER"@ {
        SpanKind::Producer
    } else if s == "consumer"@ || s == "CONSUMER"@ {
        SpanKind::Consumer
    } else {
        SpanKind::Internal
    }
}

/// Maps a `span.kind` property value to the backend's span kind, falling
/// back to the internal kind on anything unrecognized.
pub fn parse_span_kind(s: &str) -> (r: SpanKind)
    ensures
        r == spec_parse_span_kind(s@),
{
    if str_equal(s, "unspecified") || str_equal(s, "SPAN_KIND_UNSPECIFIED") {
        SpanKind::Unspecified
    } else if str_equal(s, "internal") || str_equal(s, "INTERNAL") {
        SpanKind::Internal
    } else if str_equal(s, "server") || str_equal(s, "SERVER") {
        SpanKind::Server
    } else if str_equal(s, "client") || str_equal(s, "CLIENT") {
        SpanKind::Client
    } else if str_equal(s, "producer") || str_equal(s, "PRODUCER") {
        SpanKind::Producer
    } else if str_equal(s, "consumer") || str_equal(s, "CONSUMER") {
        SpanKind::Consumer
    } else {
        SpanKind::Internal
    }
}

/// The three converter slots a reporter applies to every span, in order:
/// status, span kind, stack trace. Each one reads the span record and may
/// consume entries of the in-progress attribute map before the map is
/// frozen as the backend span's attribute set. Each implementation states
/// its own behaviour as two spec functions per slot — the produced value
/// and the attribute map it leaves behind — which the reporter's contracts
/// then quote.
pub trait Converters: Sized {
    /// The status the converter produces from a span and the attribute map.
    spec fn spec_status(&self, span: &SpanRecord, attrs: Map<Seq<char>, Seq<char>>) -> Option<
        Status,
    >;

    /// The attribute map left behind by the status converter.
    spec fn spec_status_attrs(&self, span: &SpanRecord, attrs: Map<Seq<char>, Seq<char>>) -> Map<
        Seq<char>,
        Seq<char>,
    >;

    /// Produces the optional backend status, consuming whatever attribute
    /// entries it recognizes.
    fn convert_status(&self, span: &SpanRecord, attrs: &mut AttrMap) -> (r: Option<Status>)
        ensures
            r == self.spec_status(span, old(attrs)@),
            final(attrs)@ == self.spec_status_attrs(span, old(attrs)@),
    ;

    /// The span kind the converter produces from a span and the attribute
    /// map.
    spec fn spec_span_kind(&self, span: &SpanRecord, attrs: Map<Seq<char>, Seq<char>>) -> SpanKind;

    /// The attribute map left behind by the span-kind converter.
    spec fn spec_span_kind_attrs(&self, span: &SpanRecord, attrs: Map<Seq<char>, Seq<char>>) -> Map<
        Seq<char>,
        Seq<char>,
    >;

    /// Produces the backend span kind, consuming whatever attribute entries
    /// it recognizes.
    fn convert_span_kind(&self, span: &SpanRecord, attrs: &mut AttrMap) -> (r: SpanKind)
        ensures
            r == self.spec_span_kind(span, old(attrs)@),
            final(attrs)@ == self.spec_span_kind_attrs(span, old(attrs)@),
    ;

    /// The stack trace the converter produces from a span and the attribute
    /// map.
    spec fn spec_stack_trace(&self, span: &SpanRecord, attrs: Map<Seq<char>, Seq<char>>) -> Option<
        StackTrace,
    >;

    /// The attribute map left behind by the stack-trace converter.
    spec fn spec_stack_trace_attrs(
        &self,
        span: &SpanRecord,
        attrs: Map<Seq<char>, Seq<char>>,
    ) -> Map<Seq<char>, Seq<char>>;

    /// Produces the optional backend stack trace, consuming whatever
    /// attribute entries it recognizes.
    fn convert_stack_trace(&self, span: &SpanRecord, attrs: &mut AttrMap) -> (r: Option<StackTrace>)
        ensures
            r == self.spec_stack_trace(span, old(attrs)@),
            final(attrs)@ == self.spec_stack_trace_attrs(span, old(attrs)@),
    ;
}

/// The default converter slots: no status, no stack trace, and a span kind
/// read from the `span.kind` property (which is removed from the attribute
/// map), falling back to the internal kind when the property is absent or
/// unrecognized.
pub struct DefaultConverters;

impl Converters for DefaultConverters {
    open spec fn spec_status(&self, span: &SpanRecord, attrs: Map<Seq<char>, Seq<char>>) -> Option<
        Status,
    > {
        None
    }

    open spec fn spec_status_attrs(
        &self,
        span: &SpanRecord,
        attrs: Map<Seq<char>, Seq<char>>,
    ) -> Map<Seq<char>, Seq<char>> {
        attrs
    }

    fn convert_status(&self, span: &SpanRecord, attrs: &mut AttrMap) -> (r: Option<Status>) {
        None
    }

    open spec fn spec_span_kind(
        &self,
        span: &SpanRecord,
        attrs: Map<Seq<char>, Seq<char>>,
    ) -> SpanKind {
        if attrs.contains_key("span.kind"@) {
            spec_parse_span_kind(attrs["span.kind"@])
        } else {
            SpanKind::Internal
        }
    }

    open spec fn spec_span_kind_attrs(
        &self,
        span: &SpanRecord,
        attrs: Map<Seq<char>, Seq<char>>,
    ) -> Map<Seq<char>, Seq<char>> {
        attrs.remove("span.kind"@)
    }

    fn convert_span_kind(&self, span: &SpanRecord, attrs: &mut AttrMap) -> (r: SpanKind) {
        let key = "span.kind".to_owned();
        let value = attrs.remove(&key);
        match value {
            Some(s) => parse_span_kind(s.as_str()),
            None => SpanKind::Internal,
        }
    }

    open spec fn spec_stack_trace(
        &self,
        span: &SpanRecord,
        attrs: Map<Seq<char>, Seq<char>>,
    ) -> Option<StackTrace> {
        None
    }

    open spec fn spec_stack_trace_attrs(
        &self,
        span: &SpanRecord,
        attrs: Map<Seq<char>, Seq<char>>,
    ) -> Map<Seq<char>, Seq<char>> {
        attrs
    }

    fn convert_stack_trace(&self, span: &SpanRecord, attrs: &mut AttrMap) -> (r: Option<
        StackTrace,
    >) {
        None
    }
}

} // verus!
