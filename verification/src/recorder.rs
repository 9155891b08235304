//! The recorder and its per-metric handles.
//!
//! A [`StatsdRecorder`] carries the immutable configuration resolved at
//! construction: the name prefix, the default histogram representation, the
//! default tags, and the transport parameters a delivery layer needs. Each
//! registered metric gets a [`Handle`] that turns one event into at most one
//! [`Submission`], following the protocol's capability matrix: counter
//! increments, gauge sets and histogram records emit; counter absolutes and
//! gauge increments/decrements have no representation and emit nothing.

use vstd::prelude::*;

use crate::builder::TransportConfig;
use crate::types::{
    is_hint_label, keep_pred, spec_hint_kind, strip_hint_labels, strip_hints, HistogramType, Label,
};
use crate::wire::{spec_timer_millis, Decimal, MetricType, MetricValue, Submission};

verus! {

broadcast use vstd::seq_lib::group_filter_ensures;

/// The identity of a metric: its unprefixed name and its labels.
pub struct MetricKey {
    pub name: String,
    pub labels: Vec<Label>,
}

impl MetricKey {
    /// A key with labels.
    pub fn new(name: &str, labels: Vec<Label>) -> (r: MetricKey)
        ensures
            r.name@ == name@,
            r.labels == labels,
    {
        MetricKey { name: String::from_str(name), labels }
    }

    /// A key without labels.
    pub fn from_name(name: &str) -> (r: MetricKey)
        ensures
            r.name@ == name@,
            r.labels@.len() == 0,
    {
        MetricKey { name: String::from_str(name), labels: Vec::new() }
    }
}

/// A name with the prefix applied: `prefix.name`, or the bare name when the
/// prefix is empty.
pub open spec fn spec_prefixed(prefix: Seq<char>, name: Seq<char>) -> Seq<char> {
    if prefix.len() == 0 {
        name
    } else {
        prefix + "."@ + name
    }
}

/// Joins the prefix and the name with a dot; an empty prefix leaves the name
/// untouched.
fn apply_prefix(prefix: &str, name: &str) -> (r: String)
    ensures
        r@ == spec_prefixed(prefix@, name@),
{
    let mut out = String::new();
    if !prefix.is_empty() {
        out.append(prefix);
        out.append(".");
    }
    out.append(name);
    proof {
        assert(out@ =~= spec_prefixed(prefix@, name@));
    }
    out
}

/// Copies a label vector.
fn clone_labels(labels: &Vec<Label>) -> (r: Vec<Label>)
    ensures
        r@ == labels@,
{
    let mut out: Vec<Label> = Vec::new();
    let n = labels.len();
    let mut i: usize = 0;
    while i < n
        invariant
            i <= n,
            n == labels@.len(),
            out@ == labels@.take(i as int),
        decreases n - i,
    {
        out.push(labels[i].clone());
        proof {
            assert(labels@.take(i as int + 1) =~= labels@.take(i as int).push(labels@[i as int]));
        }
        i = i + 1;
    }
    proof {
        assert(labels@.take(n as int) =~= labels@);
    }
    out
}

/// The tags of an emitted submission: the configured default tags first,
/// then the event's labels, with the reserved hint stripped from both.
pub open spec fn spec_emitted_tags(defaults: Seq<Label>, labels: Seq<Label>) -> Seq<Label> {
    strip_hint_labels(defaults) + strip_hint_labels(labels)
}

/// A recorder holding the immutable configuration every handle shares.
pub struct StatsdRecorder {
    /// The name prefix every metric name gets; empty for none.
    pub prefix: String,
    /// The representation for histogram events that carry no hint label.
    pub default_histogram: HistogramType,
    /// Tags attached to every submission ahead of the per-event labels.
    pub default_tags: Vec<Label>,
    /// The delivery parameters, handed through to the transport.
    pub transport: TransportConfig,
}

impl StatsdRecorder {
    /// Assembles a recorder from its resolved configuration.
    pub fn new(
        prefix: String,
        default_histogram: HistogramType,
        default_tags: Vec<Label>,
        transport: TransportConfig,
    ) -> (r: StatsdRecorder)
        ensures
            r.prefix == prefix,
            r.default_histogram == default_histogram,
            r.default_tags == default_tags,
            r.transport == transport,
    {
        StatsdRecorder { prefix, default_histogram, default_tags, transport }
    }

    /// What any handle registered for `key` looks like.
    pub open spec fn spec_registered(self, key: MetricKey, h: Handle) -> bool {
        &&& h.name@ == spec_prefixed(self.prefix@, key.name@)
        &&& h.labels@ == key.labels@
        &&& h.default_histogram == self.default_histogram
        &&& h.default_tags@ == self.default_tags@
    }

    /// Registers a counter. Registration only captures the identity: nothing
    /// is emitted.
    pub fn register_counter(&self, key: &MetricKey) -> (h: Handle)
        ensures
            self.spec_registered(*key, h),
    {
        Handle::new(key, &self.prefix, self.default_histogram, &self.default_tags)
    }

    /// Registers a gauge. Registration only captures the identity: nothing
    /// is emitted.
    pub fn register_gauge(&self, key: &MetricKey) -> (h: Handle)
        ensures
            self.spec_registered(*key, h),
    {
        Handle::new(key, &self.prefix, self.default_histogram, &self.default_tags)
    }

    /// Registers a histogram. Registration only captures the identity:
    /// nothing is emitted.
    pub fn register_histogram(&self, key: &MetricKey) -> (h: Handle)
        ensures
            self.spec_registered(*key, h),
    {
        Handle::new(key, &self.prefix, self.default_histogram, &self.default_tags)
    }
}

/// One typed instrumentation event.
pub enum MetricEvent {
    /// Increment a counter by a delta.
    CounterIncrement(u64),
    /// Set a counter to an absolute value; the protocol is delta-only, so
    /// this has no representation.
    CounterAbsolute(u64),
    /// Set a gauge.
    GaugeSet(Decimal),
    /// Adjust a gauge upward; the prior value is owned by the remote agent,
    /// so this has no representation.
    GaugeIncrement(Decimal),
    /// Adjust a gauge downward; no representation, as for the increment.
    GaugeDecrement(Decimal),
    /// Record a histogram sample.
    HistogramRecord(Decimal),
}

/// A per-metric handle: the prefixed name plus the shared immutable
/// configuration it needs to format submissions. It holds no mutable state;
/// every call is a pure function of the handle and the event.
pub struct Handle {
    /// The metric name with the prefix already applied.
    pub name: String,
    /// The labels the metric was registered with.
    pub labels: Vec<Label>,
    /// The representation for histogram records without a hint label.
    pub default_histogram: HistogramType,
    /// Tags attached ahead of the per-event labels.
    pub default_tags: Vec<Label>,
}

impl Handle {
    /// The representation a histogram record uses: the per-event hint when
    /// present, else the configured default.
    pub open spec fn spec_resolved_kind(self) -> HistogramType {
        match spec_hint_kind(self.labels@) {
            Some(k) => k,
            None => self.default_histogram,
        }
    }

    /// The tags every submission of this handle carries.
    pub open spec fn spec_tags(self) -> Seq<Label> {
        spec_emitted_tags(self.default_tags@, self.labels@)
    }

    /// The representation a histogram sample on this handle resolves to,
    /// as an executable answer: the per-event hint when present, else the
    /// configured default.
    pub fn resolved_kind(&self) -> (r: HistogramType)
        ensures
            r == self.spec_resolved_kind(),
    {
        let (hint, _) = HistogramType::type_from(&self.labels);
        match hint {
            Some(k) => k,
            None => self.default_histogram,
        }
    }

    /// What the submission of a counter increment must be.
    pub open spec fn spec_counter_submission(self, value: u64, s: Submission) -> bool {
        &&& s.kind == MetricType::Counter
        &&& s.name@ == self.name@
        &&& s.value == MetricValue::Count(value)
        &&& s.tags@ == self.spec_tags()
    }

    /// What the submission of a gauge set must be.
    pub open spec fn spec_gauge_submission(self, value: Decimal, s: Submission) -> bool {
        &&& s.kind == MetricType::Gauge
        &&& s.name@ == self.name@
        &&& s.value == MetricValue::Decimal(value)
        &&& s.tags@ == self.spec_tags()
    }

    /// What the submission of a histogram record must be: the resolved
    /// representation picks the metric type, and a timer carries the sample
    /// converted from seconds to whole milliseconds.
    pub open spec fn spec_histogram_submission(self, value: Decimal, s: Submission) -> bool {
        &&& s.name@ == self.name@
        &&& s.tags@ == self.spec_tags()
        &&& match self.spec_resolved_kind() {
            HistogramType::Histogram => s.kind == MetricType::Histogram && s.value
                == MetricValue::Decimal(value),
            HistogramType::Distribution => s.kind == MetricType::Distribution && s.value
                == MetricValue::Decimal(value),
            HistogramType::Timer => s.kind == MetricType::Timer && (s.value
                matches MetricValue::Millis(m) && m as nat == spec_timer_millis(value)),
        }
    }

    /// Captures a metric identity together with the shared configuration.
    pub fn new(
        key: &MetricKey,
        prefix: &String,
        default_histogram: HistogramType,
        default_tags: &Vec<Label>,
    ) -> (h: Handle)
        ensures
            h.name@ == spec_prefixed(prefix@, key.name@),
            h.labels@ == key.labels@,
            h.default_histogram == default_histogram,
            h.default_tags@ == default_tags@,
    {
        Handle {
            name: apply_prefix(prefix.as_str(), key.name.as_str()),
            labels: clone_labels(&key.labels),
            default_histogram,
            default_tags: clone_labels(default_tags),
        }
    }

    /// The default tags followed by the event labels, hints stripped.
    fn emitted_tags(&self) -> (r: Vec<Label>)
        ensures
            r@ == self.spec_tags(),
    {
        let mut out = strip_hints(&self.default_tags);
        let mut event = strip_hints(&self.labels);
        out.append(&mut event);
        out
    }

    /// Emits a counter delta: `name:value|c`.
    pub fn increment(&self, value: u64) -> (s: Submission)
        ensures
            self.spec_counter_submission(value, s),
    {
        Submission {
            kind: MetricType::Counter,
            name: self.name.clone(),
            value: MetricValue::Count(value),
            tags: self.emitted_tags(),
        }
    }

    /// A counter set to an absolute value has no protocol representation:
    /// nothing is emitted, and no error is raised.
    pub fn absolute(&self, _value: u64) -> (r: Option<Submission>)
        ensures
            r is None,
    {
        None
    }

    /// Emits a gauge value: `name:value|g`.
    pub fn set(&self, value: Decimal) -> (s: Submission)
        requires
            value.wf(),
        ensures
            self.spec_gauge_submission(value, s),
    {
        Submission {
            kind: MetricType::Gauge,
            name: self.name.clone(),
            value: MetricValue::Decimal(value),
            tags: self.emitted_tags(),
        }
    }

    /// A relative gauge adjustment cannot be expressed: the prior value is
    /// owned by the remote agent. Nothing is emitted, and no error is raised.
    pub fn gauge_increment(&self, _value: Decimal) -> (r: Option<Submission>)
        ensures
            r is None,
    {
        None
    }

    /// The downward counterpart of [`Handle::gauge_increment`]; equally
    /// unrepresentable, equally silent.
    pub fn gauge_decrement(&self, _value: Decimal) -> (r: Option<Submission>)
        ensures
            r is None,
    {
        None
    }

    /// Emits a histogram sample according to its classification: `name:v|h`,
    /// `name:v|d`, or — converted from seconds to whole milliseconds, a
    /// documented narrowing that never errors — `name:ms|ms`.
    pub fn record(&self, value: Decimal) -> (s: Submission)
        requires
            value.wf(),
        ensures
            self.spec_histogram_submission(value, s),
    {
        let (hint, stripped) = HistogramType::type_from(&self.labels);
        let kind = match hint {
            Some(k) => k,
            None => self.default_histogram,
        };
        let mut tags = strip_hints(&self.default_tags);
        let mut event = stripped;
        tags.append(&mut event);
        match kind {
            HistogramType::Histogram => Submission {
                kind: MetricType::Histogram,
                name: self.name.clone(),
                value: MetricValue::Decimal(value),
                tags,
            },
            HistogramType::Distribution => Submission {
                kind: MetricType::Distribution,
                name: self.name.clone(),
                value: MetricValue::Decimal(value),
                tags,
            },
            HistogramType::Timer => {
                let ms = value.timer_millis();
                Submission {
                    kind: MetricType::Timer,
                    name: self.name.clone(),
                    value: MetricValue::Millis(ms),
                    tags,
                }
            },
        }
    }

    /// The operation-to-capability matrix in one place: a supported event
    /// yields exactly one submission; an event the protocol cannot express
    /// yields none, deliberately and silently.
    pub fn handle_event(&self, event: MetricEvent) -> (r: Option<Submission>)
        requires
            event matches MetricEvent::GaugeSet(v) ==> v.wf(),
            event matches MetricEvent::HistogramRecord(v) ==> v.wf(),
        ensures
            match event {
                MetricEvent::CounterIncrement(v) => r matches Some(s)
                    && self.spec_counter_submission(v, s),
                MetricEvent::CounterAbsolute(_) => r is None,
                MetricEvent::GaugeSet(v) => r matches Some(s) && self.spec_gauge_submission(v, s),
                MetricEvent::GaugeIncrement(_) => r is None,
                MetricEvent::GaugeDecrement(_) => r is None,
                MetricEvent::HistogramRecord(v) => r matches Some(s)
                    && self.spec_histogram_submission(v, s),
            },
    {
        match event {
            MetricEvent::CounterIncrement(v) => Some(self.increment(v)),
            MetricEvent::CounterAbsolute(v) => self.absolute(v),
            MetricEvent::GaugeSet(v) => Some(self.set(v)),
            MetricEvent::GaugeIncrement(v) => self.gauge_increment(v),
            MetricEvent::GaugeDecrement(v) => self.gauge_decrement(v),
            MetricEvent::HistogramRecord(v) => Some(self.record(v)),
        }
    }
}

/// Law: with a nonempty prefix, the wire line of a submission is exactly
/// `prefix.` followed by the line the same submission would render without
/// the prefix — for every metric type, value and tag set.
pub proof fn lemma_prefix_prepends_line(prefix: Seq<char>, bare: Submission, prefixed: Submission)
    requires
        prefix.len() > 0,
        prefixed.name@ == spec_prefixed(prefix, bare.name@),
        prefixed.kind == bare.kind,
        prefixed.value == bare.value,
        prefixed.tags@ == bare.tags@,
    ensures
        prefixed.line_chars() == prefix + "."@ + bare.line_chars(),
{
    assert(prefixed.line_chars() =~= prefix + "."@ + bare.line_chars());
}

/// Law: every configured default tag that is not the reserved hint appears
/// among the emitted tags, whatever the per-event labels are.
pub proof fn lemma_default_tag_emitted(defaults: Seq<Label>, labels: Seq<Label>, l: Label)
    requires
        defaults.contains(l),
        !is_hint_label(l),
    ensures
        spec_emitted_tags(defaults, labels).contains(l),
{
    let i = choose|i: int| 0 <= i < defaults.len() && defaults[i] == l;
    assert(keep_pred()(l));
    defaults.lemma_filter_contains(keep_pred(), i);
    let f = strip_hint_labels(defaults);
    let j = choose|j: int| 0 <= j < f.len() && f[j] == l;
    assert(spec_emitted_tags(defaults, labels)[j] == l);
}

/// Law: every per-event label that is not the reserved hint appears among
/// the emitted tags, after the default tags.
pub proof fn lemma_event_tag_emitted(defaults: Seq<Label>, labels: Seq<Label>, l: Label)
    requires
        labels.contains(l),
        !is_hint_label(l),
    ensures
        spec_emitted_tags(defaults, labels).contains(l),
{
    let i = choose|i: int| 0 <= i < labels.len() && labels[i] == l;
    assert(keep_pred()(l));
    labels.lemma_filter_contains(keep_pred(), i);
    let f = strip_hint_labels(labels);
    let j = choose|j: int| 0 <= j < f.len() && f[j] == l;
    assert(spec_emitted_tags(defaults, labels)[strip_hint_labels(defaults).len() + j] == l);
}

} // verus!
