//! Labels and the histogram classification rules.
//!
//! A label is an ordered (key, value) pair of strings. One label key,
//! `"histogram"`, is reserved as a control hint: on a histogram event it
//! selects the wire representation (histogram, distribution or timer) and it
//! is stripped from the labels before anything is emitted.

use vstd::prelude::*;

verus! {

broadcast use vstd::seq_lib::group_filter_ensures;

/// One metric label: an ordered (key, value) pair of strings.
pub struct Label {
    pub key: String,
    pub value: String,
}

impl Label {
    pub fn new(key: &str, value: &str) -> (r: Label)
        ensures
            r.key@ == key@,
            r.value@ == value@,
    {
        Label { key: String::from_str(key), value: String::from_str(value) }
    }
}

impl Clone for Label {
    fn clone(&self) -> (r: Self)
        ensures
            r == *self,
    {
        Label { key: self.key.clone(), value: self.value.clone() }
    }
}

/// The reserved label key that carries the classification hint.
pub open spec fn hint_key() -> Seq<char> {
    "histogram"@
}

/// Whether a label is a classification hint.
pub open spec fn is_hint_label(l: Label) -> bool {
    l.key@ == hint_key()
}

/// The predicate that keeps a label: it is not a classification hint.
pub open spec fn keep_pred() -> spec_fn(Label) -> bool {
    |l: Label| !is_hint_label(l)
}

/// The predicate that selects the classification hints.
pub open spec fn hint_pred() -> spec_fn(Label) -> bool {
    |l: Label| is_hint_label(l)
}

/// The labels that remain once every hint label is removed, in their
/// original relative order.
pub open spec fn strip_hint_labels(labels: Seq<Label>) -> Seq<Label> {
    labels.filter(keep_pred())
}

/// The representation a hint value selects. Unrecognized values degrade to
/// `Histogram` rather than failing: a typo still yields a metric.
pub open spec fn kind_for_hint(value: Seq<char>) -> HistogramType {
    if value == "timer"@ {
        HistogramType::Timer
    } else if value == "distribution"@ {
        HistogramType::Distribution
    } else {
        HistogramType::Histogram
    }
}

/// The representation selected by the first hint label, if one is present.
pub open spec fn spec_hint_kind(labels: Seq<Label>) -> Option<HistogramType> {
    let hints = labels.filter(hint_pred());
    if hints.len() == 0 {
        None
    } else {
        Some(kind_for_hint(hints[0].value@))
    }
}

/// The histogram representations this exporter can emit.
#[derive(Clone, Copy, Debug, PartialEq, Eq, Structural)]
pub enum HistogramType {
    Distribution,
    Timer,
    Histogram,
}

impl From<&str> for HistogramType {
    /// Maps a hint value to a representation: `"timer"` and `"distribution"`
    /// are recognized, anything else falls back to `Histogram`.
    fn from(hist_type: &str) -> (r: Self) {
        let v = String::from_str(hist_type);
        let timer = String::from_str("timer");
        if v == timer {
            HistogramType::Timer
        } else {
            let distribution = String::from_str("distribution");
            if v == distribution {
                HistogramType::Distribution
            } else {
                HistogramType::Histogram
            }
        }
    }
}

impl vstd::std_specs::convert::FromSpecImpl<&str> for HistogramType {
    open spec fn obeys_from_spec() -> bool {
        true
    }

    open spec fn from_spec(v: &str) -> Self {
        kind_for_hint(v@)
    }
}

/// Whether this label's key is the reserved hint key.
fn is_hint(l: &Label) -> (r: bool)
    ensures
        r == is_hint_label(*l),
{
    let hint = String::from_str("histogram");
    l.key == hint
}

/// Filtering an empty sequence yields an empty sequence.
proof fn lemma_filter_empty(p: spec_fn(Label) -> bool)
    ensures
        Seq::<Label>::empty().filter(p) == Seq::<Label>::empty(),
{
    reveal(Seq::<_>::filter);
}

/// Appending one element to a sequence extends its filtered view by that
/// element exactly when the element satisfies the predicate.
proof fn lemma_filter_one(s: Seq<Label>, x: Label, p: spec_fn(Label) -> bool)
    ensures
        p(x) ==> (s + seq![x]).filter(p) == s.filter(p).push(x),
        !p(x) ==> (s + seq![x]).filter(p) == s.filter(p),
{
    reveal_with_fuel(Seq::<_>::filter, 2);
    Seq::<Label>::filter_distributes_over_add(s, seq![x], p);
    assert(seq![x].drop_last() =~= Seq::<Label>::empty());
    if p(x) {
        assert(seq![x].filter(p) =~= seq![x]);
        assert(s.filter(p) + seq![x] =~= s.filter(p).push(x));
    } else {
        assert(seq![x].filter(p) =~= Seq::<Label>::empty());
        assert(s.filter(p) + Seq::<Label>::empty() =~= s.filter(p));
    }
}

impl HistogramType {
    /// Partitions the labels of a metric event into the classification they
    /// select and the labels that remain for emission.
    ///
    /// The first hint label (if any) decides the representation; every hint
    /// label is removed from the returned labels, whose relative order is
    /// preserved. Any input is accepted: there is no error case.
    pub fn type_from(labels: &Vec<Label>) -> (r: (Option<HistogramType>, Vec<Label>))
        ensures
            r.0 == spec_hint_kind(labels@),
            r.1@ == strip_hint_labels(labels@),
            forall|i: int| 0 <= i < r.1@.len() ==> !is_hint_label(#[trigger] r.1@[i]),
    {
        let mut hints: Vec<Label> = Vec::new();
        let mut rest: Vec<Label> = Vec::new();
        let mut i: usize = 0;
        proof {
            assert(labels@.take(0) =~= Seq::<Label>::empty());
            lemma_filter_empty(hint_pred());
            lemma_filter_empty(keep_pred());
        }
        while i < labels.len()
            invariant
                i <= labels@.len(),
                hints@ == labels@.take(i as int).filter(hint_pred()),
                rest@ == labels@.take(i as int).filter(keep_pred()),
            decreases labels@.len() - i,
        {
            let l = &labels[i];
            if is_hint(l) {
                hints.push(l.clone());
            } else {
                rest.push(l.clone());
            }
            proof {
                let pre = labels@.take(i as int);
                let x = labels@[i as int];
                assert(labels@.take(i as int + 1) =~= pre + seq![x]);
                lemma_filter_one(pre, x, hint_pred());
                lemma_filter_one(pre, x, keep_pred());
                assert(hint_pred()(x) == is_hint_label(x));
                assert(keep_pred()(x) == !is_hint_label(x));
            }
            i = i + 1;
        }
        proof {
            assert(labels@.take(labels@.len() as int) =~= labels@);
        }
        let kind = if hints.len() > 0 {
            Some(HistogramType::from(hints[0].value.as_str()))
        } else {
            None
        };
        (kind, rest)
    }
}

/// Law: on a label set without the reserved hint key, classification selects
/// nothing and the labels pass through unchanged.
pub proof fn lemma_classify_without_hint(labels: Seq<Label>)
    requires
        forall|i: int| 0 <= i < labels.len() ==> !is_hint_label(#[trigger] labels[i]),
    ensures
        spec_hint_kind(labels) is None,
        strip_hint_labels(labels) == labels,
    decreases labels.len(),
{
    reveal(Seq::<_>::filter);
    if labels.len() == 0 {
        assert(strip_hint_labels(labels) =~= labels);
    } else {
        let prefix = labels.drop_last();
        assert(forall|i: int| 0 <= i < prefix.len() ==> !is_hint_label(#[trigger] prefix[i]));
        lemma_classify_without_hint(prefix);
        assert(!is_hint_label(labels.last()));
        assert(strip_hint_labels(labels) =~= prefix.push(labels.last()));
        assert(strip_hint_labels(labels) =~= labels);
    }
}

/// Law: the first hint label decides the representation — `"timer"` and
/// `"distribution"` select those, any other value selects `Histogram` — and
/// no hint label survives into the stripped label set.
pub proof fn lemma_classify_first_hint(labels: Seq<Label>, i: int)
    requires
        0 <= i < labels.len(),
        is_hint_label(labels[i]),
        forall|j: int| 0 <= j < i ==> !is_hint_label(#[trigger] labels[j]),
    ensures
        spec_hint_kind(labels) == Some(kind_for_hint(labels[i].value@)),
        forall|j: int|
            0 <= j < strip_hint_labels(labels).len() ==> !is_hint_label(
                #[trigger] strip_hint_labels(labels)[j],
            ),
{
    broadcast use vstd::seq_lib::group_filter_ensures;

    let pre = labels.take(i);
    let rest = labels.skip(i);
    assert(forall|j: int| 0 <= j < pre.len() ==> !is_hint_label(#[trigger] pre[j]));
    lemma_classify_without_hint(pre);
    assert(labels =~= pre + rest);
    Seq::<Label>::filter_distributes_over_add(pre, rest, hint_pred());
    let tail = labels.skip(i + 1);
    assert(rest =~= seq![labels[i]] + tail);
    Seq::<Label>::filter_distributes_over_add(seq![labels[i]], tail, hint_pred());
    assert(seq![labels[i]].filter(hint_pred()) =~= seq![labels[i]]) by {
        reveal_with_fuel(Seq::<_>::filter, 2);
        assert(seq![labels[i]].drop_last() =~= Seq::<Label>::empty());
    }
    assert(labels.filter(hint_pred())[0] == labels[i]);
    assert forall|j: int| 0 <= j < strip_hint_labels(labels).len() implies !is_hint_label(
        #[trigger] strip_hint_labels(labels)[j],
    ) by {
        labels.lemma_filter_pred(keep_pred(), j);
    }
}

/// Removes every hint label, keeping the others in order.
pub fn strip_hints(labels: &Vec<Label>) -> (r: Vec<Label>)
    ensures
        r@ == strip_hint_labels(labels@),
{
    let (_, rest) = HistogramType::type_from(labels);
    rest
}

/// What to do when a caller attempts an operation the protocol cannot
/// express (a counter set to an absolute value, a gauge increment).
#[derive(Clone, Copy, Debug, PartialEq, Eq, Structural)]
pub enum InvalidOperationsAction {
    /// Silently ignore invalid operations.
    Ignore,
    /// Report invalid operations as a warning.
    Log,
    /// Treat invalid operations as fatal.
    Panic,
}

/// The effect an [`InvalidOperationsAction`] asks its caller to carry out.
#[derive(Debug)]
pub enum InvalidOperationOutcome {
    /// Nothing to do.
    Ignored,
    /// Report the message as a warning and continue.
    Warning(String),
    /// Abort with the message.
    Fatal(String),
}

impl InvalidOperationsAction {
    /// Decides how an invalid operation, described by `msg`, is dealt with.
    /// The caller owns the side effect: it logs a `Warning` and aborts on
    /// `Fatal`.
    pub fn handle(&self, msg: &str) -> (r: InvalidOperationOutcome)
        ensures
            match *self {
                InvalidOperationsAction::Ignore => r is Ignored,
                InvalidOperationsAction::Log => r matches InvalidOperationOutcome::Warning(m)
                    && m@ == msg@,
                InvalidOperationsAction::Panic => r matches InvalidOperationOutcome::Fatal(m)
                    && m@ == msg@,
            },
    {
        match self {
            InvalidOperationsAction::Ignore => InvalidOperationOutcome::Ignored,
            InvalidOperationsAction::Log => InvalidOperationOutcome::Warning(
                String::from_str(msg),
            ),
            InvalidOperationsAction::Panic => InvalidOperationOutcome::Fatal(
                String::from_str(msg),
            ),
        }
    }
}

} // verus!
