use vstd::prelude::*;
use vstd::string::StringExecFns;

use crate::attrs::AttrMap;
use crate::converters::Converters;
use crate::converters::DefaultConverters;
use crate::records::BackendSpan;
use crate::records::BatchWriteRequest;
use crate::records::EventRecord;
use crate::records::SpanRecord;
use crate::records::TimeEvent;
use crate::text::spec_u64_decimal;
use crate::text::u64_to_decimal;
use crate::timestamp::convert_unix_ns;
use crate::timestamp::spec_timestamp_of;

verus! {

/// The backend attribute key a property key converts to: the mapping
/// table's entry when the table has one, the key itself otherwise.
pub open spec fn spec_apply_mapping(
    mappings: Option<Map<Seq<char>, Seq<char>>>,
    k: Seq<char>,
) -> Seq<char> {
    match mappings {
        Some(m) => if m.contains_key(k) {
            m[k]
        } else {
            k
        },
        None => k,
    }
}

/// The attribute map after merging a property list into `m`, each key
/// rewritten through the mapping table, in property-list order, later
/// insertions winning on key collisions.
pub open spec fn spec_add_props(
    m: Map<Seq<char>, Seq<char>>,
    mappings: Option<Map<Seq<char>, Seq<char>>>,
    props: Seq<(String, String)>,
) -> Map<Seq<char>, Seq<char>>
    decreases props.len(),
{
    if props.len() == 0 {
        m
    } else {
        spec_add_props(m, mappings, props.drop_last()).insert(
            spec_apply_mapping(mappings, props.last().0@),
            props.last().1@,
        )
    }
}

/// The backend span resource name for a span:
/// `projects/{project}/traces/{trace}/spans/{span_id}`, with the span id in
/// decimal.
pub open spec fn spec_resource_name(
    project: Seq<char>,
    trace: Seq<char>,
    span_id: u64,
) -> Seq<char> {
    "projects/"@ + project + "/traces/"@ + trace + "/spans/"@ + spec_u64_decimal(span_id as nat)
}

/// Builds the backend span resource name.
fn resource_name(project: &String, trace: &String, span_id: u64) -> (r: String)
    ensures
        r@ == spec_resource_name(project@, trace@, span_id),
{
    let mut s = "projects/".to_owned();
    s.append(project.as_str());
    s.append("/traces/");
    s.append(trace.as_str());
    s.append("/spans/");
    let id = u64_to_decimal(span_id);
    s.append(id.as_str());
    proof {
        assert(s@ =~= spec_resource_name(project@, trace@, span_id));
    }
    s
}

/// The string form of a parent span id, or `None` for the zero sentinel
/// that marks a root span.
pub fn convert_parent_span_id(parent_id: u64) -> (r: Option<String>)
    ensures
        match r {
            Some(p) => parent_id != 0 && p@ == spec_u64_decimal(parent_id as nat),
            None => parent_id == 0,
        },
{
    if parent_id != 0 {
        Some(u64_to_decimal(parent_id))
    } else {
        None
    }
}

/// Law: on key collisions the later insertion wins. If property `i` is the
/// last one in the list whose key rewrites to some backend key, the
/// converted attribute map binds that backend key to property `i`'s value —
/// whatever the starting map held there.
pub proof fn lemma_add_props_last_wins(
    m: Map<Seq<char>, Seq<char>>,
    mappings: Option<Map<Seq<char>, Seq<char>>>,
    props: Seq<(String, String)>,
    i: int,
)
    requires
        0 <= i < props.len(),
        forall|j: int|
            i < j < props.len() ==> spec_apply_mapping(mappings, (#[trigger] props[j]).0@)
                != spec_apply_mapping(mappings, props[i].0@),
    ensures
        spec_add_props(m, mappings, props).contains_key(spec_apply_mapping(mappings, props[i].0@)),
        spec_add_props(m, mappings, props)[spec_apply_mapping(mappings, props[i].0@)]
            == props[i].1@,
    decreases props.len(),
{
    if i == props.len() - 1 {
    } else {
        assert(props.drop_last()[i] == props[i]);
        lemma_add_props_last_wins(m, mappings, props.drop_last(), i);
    }
}

/// Law: a backend key that no property rewrites to is exactly as the
/// starting map had it — present with the same value, or absent.
pub proof fn lemma_add_props_untouched_key(
    m: Map<Seq<char>, Seq<char>>,
    mappings: Option<Map<Seq<char>, Seq<char>>>,
    props: Seq<(String, String)>,
    k: Seq<char>,
)
    requires
        forall|j: int|
            0 <= j < props.len() ==> spec_apply_mapping(mappings, (#[trigger] props[j]).0@) != k,
    ensures
        spec_add_props(m, mappings, props).contains_key(k) == m.contains_key(k),
        m.contains_key(k) ==> spec_add_props(m, mappings, props)[k] == m[k],
    decreases props.len(),
{
    if props.len() > 0 {
        assert(props[props.len() - 1] == props.last());
        lemma_add_props_untouched_key(m, mappings, props.drop_last(), k);
    }
}

/// Law: the converted attribute map holds a backend key exactly when the
/// starting map held it or some property's key rewrites to it — so an
/// unmapped original key never appears unless a property carries it.
pub proof fn lemma_add_props_key_origin(
    m: Map<Seq<char>, Seq<char>>,
    mappings: Option<Map<Seq<char>, Seq<char>>>,
    props: Seq<(String, String)>,
    k: Seq<char>,
)
    ensures
        spec_add_props(m, mappings, props).contains_key(k) <==> (m.contains_key(k) || exists|j: int|
            0 <= j < props.len() && k == spec_apply_mapping(mappings, (#[trigger] props[j]).0@)),
    decreases props.len(),
{
    if props.len() == 0 {
    } else {
        lemma_add_props_key_origin(m, mappings, props.drop_last(), k);
        if k == spec_apply_mapping(mappings, props.last().0@) {
            assert(props[props.len() - 1] == props.last());
            assert(exists|j: int|
                0 <= j < props.len() && k == spec_apply_mapping(
                    mappings,
                    (#[trigger] props[j]).0@,
                ));
        } else if exists|j: int|
            0 <= j < props.drop_last().len() && k == spec_apply_mapping(
                mappings,
                (#[trigger] props.drop_last()[j]).0@,
            ) {
            let j = choose|j: int|
                0 <= j < props.drop_last().len() && k == spec_apply_mapping(
                    mappings,
                    (#[trigger] props.drop_last()[j]).0@,
                );
            assert(props[j] == props.drop_last()[j]);
            assert(0 <= j < props.len() && k == spec_apply_mapping(
                mappings,
                (#[trigger] props[j]).0@,
            ));
        } else if exists|j: int|
            0 <= j < props.len() && k == spec_apply_mapping(mappings, (#[trigger] props[j]).0@) {
            let j = choose|j: int|
                0 <= j < props.len() && k == spec_apply_mapping(mappings, (#[trigger] props[j]).0@);
            assert(j < props.len() - 1);
            assert(props.drop_last()[j] == props[j]);
            assert(0 <= j < props.drop_last().len() && k == spec_apply_mapping(
                mappings,
                (#[trigger] props.drop_last()[j]).0@,
            ));
        }
    }
}

/// Translates span batches into the backend's wire shape. Holds the
/// immutable configuration captured at construction: the destination
/// project, an optional service name inserted as a synthetic attribute on
/// every span and event, an optional attribute-name mapping table, and the
/// three converter slots.
pub struct GoogleCloudReporter<C: Converters> {
    pub trace_project_id: String,
    pub service_name: Option<String>,
    pub attribute_name_mappings: Option<AttrMap>,
    pub converters: C,
}

/// Assembles a [`GoogleCloudReporter`] from the required project id and the
/// optional pieces of configuration.
pub struct GoogleCloudReporterBuilder<C: Converters> {
    pub trace_project_id: String,
    pub service_name: Option<String>,
    pub attribute_name_mappings: Option<AttrMap>,
    pub converters: C,
}

impl GoogleCloudReporter<DefaultConverters> {
    /// Starts a builder for the given destination project, with no service
    /// name, no mapping table, and the default converter slots.
    pub fn builder(trace_project_id: String) -> (r: GoogleCloudReporterBuilder<DefaultConverters>)
        ensures
            r.trace_project_id == trace_project_id,
            r.service_name is None,
            r.attribute_name_mappings is None,
    {
        GoogleCloudReporterBuilder {
            trace_project_id,
            service_name: None,
            attribute_name_mappings: None,
            converters: DefaultConverters,
        }
    }
}

impl<C: Converters> GoogleCloudReporterBuilder<C> {
    /// Sets the service name inserted as a synthetic `service.name`
    /// attribute on every span and event.
    pub fn service_name(self, name: String) -> (r: Self)
        ensures
            r.trace_project_id == self.trace_project_id,
            r.service_name == Some(name),
            r.attribute_name_mappings == self.attribute_name_mappings,
            r.converters == self.converters,
    {
        GoogleCloudReporterBuilder { service_name: Some(name), ..self }
    }

    /// Sets the attribute-name mapping table.
    pub fn attribute_name_mappings(self, mappings: AttrMap) -> (r: Self)
        ensures
            r.trace_project_id == self.trace_project_id,
            r.service_name == self.service_name,
            r.attribute_name_mappings == Some(mappings),
            r.converters == self.converters,
    {
        GoogleCloudReporterBuilder { attribute_name_mappings: Some(mappings), ..self }
    }

    /// Replaces the converter slots.
    pub fn converters<C2: Converters>(self, converters: C2) -> (r: GoogleCloudReporterBuilder<C2>)
        ensures
            r.trace_project_id == self.trace_project_id,
            r.service_name == self.service_name,
            r.attribute_name_mappings == self.attribute_name_mappings,
            r.converters == converters,
    {
        GoogleCloudReporterBuilder {
            trace_project_id: self.trace_project_id,
            service_name: self.service_name,
            attribute_name_mappings: self.attribute_name_mappings,
            converters,
        }
    }

    /// Finishes the builder.
    pub fn build(self) -> (r: GoogleCloudReporter<C>)
        ensures
            r.trace_project_id == self.trace_project_id,
            r.service_name == self.service_name,
            r.attribute_name_mappings == self.attribute_name_mappings,
            r.converters == self.converters,
    {
        GoogleCloudReporter {
            trace_project_id: self.trace_project_id,
            service_name: self.service_name,
            attribute_name_mappings: self.attribute_name_mappings,
            converters: self.converters,
        }
    }
}

impl<C: Converters> GoogleCloudReporter<C> {
    /// The configured mapping table read as a map, if one is configured.
    pub open spec fn spec_mappings(&self) -> Option<Map<Seq<char>, Seq<char>>> {
        match self.attribute_name_mappings {
            Some(m) => Some(m@),
            None => None,
        }
    }

    /// The attribute map every property conversion starts from: the
    /// synthetic `service.name` entry when a service name is configured,
    /// empty otherwise.
    pub open spec fn spec_initial_attrs(&self) -> Map<Seq<char>, Seq<char>> {
        match self.service_name {
            Some(s) => Map::empty().insert("service.name"@, s@),
            None => Map::empty(),
        }
    }

    /// The attribute map a property list converts to.
    pub open spec fn spec_convert_properties(&self, props: Seq<(String, String)>) -> Map<
        Seq<char>,
        Seq<char>,
    > {
        spec_add_props(self.spec_initial_attrs(), self.spec_mappings(), props)
    }

    /// Converts a property list to the backend attribute map: the synthetic
    /// service name first (so that a real property can overwrite it), then
    /// every property in order, keys rewritten through the mapping table.
    pub fn convert_properties(&self, properties: &Vec<(String, String)>) -> (r: AttrMap)
        ensures
            r@ == self.spec_convert_properties(properties@),
    {
        let mut attrs = AttrMap::new();
        if let Some(service_name) = &self.service_name {
            attrs.insert("service.name".to_owned(), service_name.clone());
        }
        proof {
            assert(attrs@ =~= self.spec_initial_attrs());
            assert(properties@.take(0) =~= Seq::<(String, String)>::empty());
        }
        let n = properties.len();
        let mut i: usize = 0;
        while i < n
            invariant
                n == properties@.len(),
                i <= n,
                attrs@ == spec_add_props(
                    self.spec_initial_attrs(),
                    self.spec_mappings(),
                    properties@.take(i as int),
                ),
            decreases n - i,
        {
            let ghost pre = properties@.take(i as int + 1);
            proof {
                assert(pre.drop_last() =~= properties@.take(i as int));
                assert(pre.last() == properties@[i as int]);
            }
            let key_ref = &properties[i].0;
            let mapped: String = match &self.attribute_name_mappings {
                Some(m) => match m.get(key_ref) {
                    Some(v) => v.clone(),
                    None => key_ref.clone(),
                },
                None => key_ref.clone(),
            };
            proof {
                assert(mapped@ == spec_apply_mapping(
                    self.spec_mappings(),
                    properties@[i as int].0@,
                ));
            }
            attrs.insert(mapped, properties[i].1.clone());
            i = i + 1;
        }
        proof {
            assert(properties@.take(n as int) =~= properties@);
        }
        attrs
    }

    /// Law: when a service name is configured and a real property's key
    /// rewrites to `service.name` (property `i` being the last such), the
    /// converted map carries that property's value — the synthetic entry is
    /// inserted first and loses on the collision.
    pub proof fn lemma_service_name_override(self, props: Seq<(String, String)>, i: int)
        requires
            self.service_name is Some,
            0 <= i < props.len(),
            spec_apply_mapping(self.spec_mappings(), props[i].0@) == "service.name"@,
            forall|j: int|
                i < j < props.len() ==> spec_apply_mapping(
                    self.spec_mappings(),
                    (#[trigger] props[j]).0@,
                ) != "service.name"@,
        ensures
            self.spec_convert_properties(props).contains_key("service.name"@),
            self.spec_convert_properties(props)["service.name"@] == props[i].1@,
    {
        lemma_add_props_last_wins(self.spec_initial_attrs(), self.spec_mappings(), props, i);
    }

    /// Law: when a service name is configured and no property's key rewrites
    /// to `service.name`, the synthetic entry survives with the configured
    /// value.
    pub proof fn lemma_service_name_synthetic(self, props: Seq<(String, String)>)
        requires
            self.service_name is Some,
            forall|j: int|
                0 <= j < props.len() ==> spec_apply_mapping(
                    self.spec_mappings(),
                    (#[trigger] props[j]).0@,
                ) != "service.name"@,
        ensures
            self.spec_convert_properties(props).contains_key("service.name"@),
            self.spec_convert_properties(props)["service.name"@] == self.service_name->0@,
    {
        lemma_add_props_untouched_key(
            self.spec_initial_attrs(),
            self.spec_mappings(),
            props,
            "service.name"@,
        );
    }

    /// Whether `t` is the time event that `e` translates to: the split
    /// timestamp, the event's name as the description, and the event's
    /// properties converted like a span's.
    pub open spec fn spec_event_matches(&self, e: EventRecord, t: TimeEvent) -> bool {
        &&& t.time == spec_timestamp_of(e.timestamp_unix_ns)
        &&& t.description@ == e.name@
        &&& t.attributes@ == self.spec_convert_properties(e.properties@)
    }

    /// Translates one event record into a backend time event.
    pub fn convert_event(&self, event: EventRecord) -> (r: TimeEvent)
        ensures
            self.spec_event_matches(event, r),
    {
        let attributes = self.convert_properties(&event.properties);
        TimeEvent {
            time: convert_unix_ns(event.timestamp_unix_ns),
            description: event.name,
            attributes,
        }
    }

    /// The attribute map a span's properties convert to, after the three
    /// converter slots have consumed what they recognize, in order: status,
    /// span kind, stack trace.
    pub open spec fn spec_final_attrs(&self, span: SpanRecord) -> Map<Seq<char>, Seq<char>> {
        let a0 = self.spec_convert_properties(span.properties@);
        let a1 = self.converters.spec_status_attrs(&span, a0);
        let a2 = self.converters.spec_span_kind_attrs(&span, a1);
        self.converters.spec_stack_trace_attrs(&span, a2)
    }

    /// Whether `r` is the backend span message that `span` translates to.
    pub open spec fn spec_span_matches(&self, span: SpanRecord, r: BackendSpan) -> bool {
        let a0 = self.spec_convert_properties(span.properties@);
        let a1 = self.converters.spec_status_attrs(&span, a0);
        let a2 = self.converters.spec_span_kind_attrs(&span, a1);
        &&& r.name@ == spec_resource_name(self.trace_project_id@, span.trace_id@, span.span_id)
        &&& r.span_id@ == spec_u64_decimal(span.span_id as nat)
        &&& match r.parent_span_id {
            Some(p) => span.parent_id != 0 && p@ == spec_u64_decimal(span.parent_id as nat),
            None => span.parent_id == 0,
        }
        &&& r.display_name@ == span.name@
        &&& r.start_time == spec_timestamp_of(span.begin_time_unix_ns)
        &&& r.end_time == spec_timestamp_of((span.begin_time_unix_ns + span.duration_ns) as u64)
        &&& r.attributes@ == self.spec_final_attrs(span)
        &&& r.status == self.converters.spec_status(&span, a0)
        &&& r.span_kind == self.converters.spec_span_kind(&span, a1)
        &&& r.stack_trace == self.converters.spec_stack_trace(&span, a2)
        &&& r.time_events@.len() == span.events@.len()
        &&& forall|i: int|
            0 <= i < span.events@.len() ==> self.spec_event_matches(
                span.events@[i],
                #[trigger] r.time_events@[i],
            )
    }

    /// Translates one span record into a backend span message.
    pub fn convert_span(&self, span: SpanRecord) -> (r: BackendSpan)
        requires
            span.begin_time_unix_ns + span.duration_ns <= u64::MAX,
        ensures
            self.spec_span_matches(span, r),
    {
        let name = resource_name(&self.trace_project_id, &span.trace_id, span.span_id);
        let span_id = u64_to_decimal(span.span_id);
        let parent_span_id = convert_parent_span_id(span.parent_id);
        let display_name = span.name.clone();
        let start_time = convert_unix_ns(span.begin_time_unix_ns);
        let end_time = convert_unix_ns(span.begin_time_unix_ns + span.duration_ns);
        let mut attributes = self.convert_properties(&span.properties);
        let status = self.converters.convert_status(&span, &mut attributes);
        let span_kind = self.converters.convert_span_kind(&span, &mut attributes);
        let stack_trace = self.converters.convert_stack_trace(&span, &mut attributes);
        let ghost orig_events = span.events@;
        let mut events = span.events;
        let mut time_events: Vec<TimeEvent> = Vec::new();
        proof {
            assert(events@ =~= orig_events.subrange(0, orig_events.len() as int));
        }
        while events.len() > 0
            invariant
                time_events@.len() + events@.len() == orig_events.len(),
                events@ == orig_events.subrange(
                    time_events@.len() as int,
                    orig_events.len() as int,
                ),
                forall|j: int|
                    0 <= j < time_events@.len() ==> self.spec_event_matches(
                        orig_events[j],
                        #[trigger] time_events@[j],
                    ),
            decreases events@.len(),
        {
            let ghost done = time_events@.len() as int;
            let e = events.remove(0);
            proof {
                assert(e == orig_events[done]);
                assert(events@ =~= orig_events.subrange(done + 1, orig_events.len() as int));
            }
            let t = self.convert_event(e);
            time_events.push(t);
        }
        BackendSpan {
            name,
            span_id,
            parent_span_id,
            display_name,
            start_time,
            end_time,
            attributes,
            status,
            span_kind,
            stack_trace,
            time_events,
        }
    }

    /// Prepares one batch-write call for a batch of completed spans. An
    /// empty batch prepares nothing — no call is to be issued — and a
    /// non-empty batch prepares exactly one call, addressed to
    /// `projects/{project}` and carrying every span translated, in order.
    /// The caller performs the prepared call against the backend client and
    /// is free to drop its error: reporting is best effort.
    pub fn report(&self, spans: Vec<SpanRecord>) -> (r: Option<BatchWriteRequest>)
        requires
            forall|i: int|
                0 <= i < spans@.len() ==> (#[trigger] spans@[i]).begin_time_unix_ns
                    + spans@[i].duration_ns <= u64::MAX,
        ensures
            (r is Some) <==> spans@.len() > 0,
            match r {
                Some(req) => {
                    &&& req.name@ == "projects/"@ + self.trace_project_id@
                    &&& req.spans@.len() == spans@.len()
                    &&& forall|i: int|
                        0 <= i < spans@.len() ==> self.spec_span_matches(
                            spans@[i],
                            #[trigger] req.spans@[i],
                        )
                },
                None => spans@.len() == 0,
            },
    {
        if spans.is_empty() {
            return None;
        }
        let mut name = "projects/".to_owned();
        name.append(self.trace_project_id.as_str());
        let ghost orig = spans@;
        let mut queue = spans;
        let mut out: Vec<BackendSpan> = Vec::new();
        proof {
            assert(queue@ =~= orig.subrange(0, orig.len() as int));
        }
        while queue.len() > 0
            invariant
                out@.len() + queue@.len() == orig.len(),
                queue@ == orig.subrange(out@.len() as int, orig.len() as int),
                forall|i: int|
                    0 <= i < orig.len() ==> (#[trigger] orig[i]).begin_time_unix_ns
                        + orig[i].duration_ns <= u64::MAX,
                forall|i: int|
                    0 <= i < out@.len() ==> self.spec_span_matches(orig[i], #[trigger] out@[i]),
            decreases queue@.len(),
        {
            let ghost done = out@.len() as int;
            let s = queue.remove(0);
            proof {
                assert(s == orig[done]);
                assert(queue@ =~= orig.subrange(done + 1, orig.len() as int));
            }
            let b = self.convert_span(s);
            out.push(b);
        }
        Some(BatchWriteRequest { name, spans: out })
    }
}

} // verus!
