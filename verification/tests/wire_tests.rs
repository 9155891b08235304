//! Classification, value rendering and the capability matrix, exercised on
//! concrete values.

use metrics_exporter_statsd::{
    Decimal, Handle, Histogram, HistogramType, InvalidOperationOutcome, InvalidOperationsAction,
    Label, MetricEvent, MetricKey, MetricType, MetricValue, StatsdBuilder, Submission,
};

fn plain_handle(name: &str, labels: Vec<Label>) -> Handle {
    let rec = StatsdBuilder::from("127.0.0.1", 8125)
        .build(None)
        .expect("test env should build a valid recorder");
    rec.register_histogram(&MetricKey::new(name, labels))
}

#[test]
fn classify_without_hint_keeps_labels() {
    let labels = vec![Label::new("t1", "v1"), Label::new("t2", "v2")];
    let (kind, rest) = HistogramType::type_from(&labels);
    assert!(kind.is_none());
    assert_eq!(2, rest.len());
    assert_eq!("t1", rest[0].key.as_str());
    assert_eq!("v1", rest[0].value.as_str());
    assert_eq!("t2", rest[1].key.as_str());
    assert_eq!("v2", rest[1].value.as_str());
}

#[test]
fn classify_recognizes_timer() {
    let labels = vec![Label::new("histogram", "timer"), Label::new("t1", "v1")];
    let (kind, rest) = HistogramType::type_from(&labels);
    assert!(matches!(kind, Some(HistogramType::Timer)));
    assert_eq!(1, rest.len());
    assert_eq!("t1", rest[0].key.as_str());
}

#[test]
fn classify_recognizes_distribution() {
    let labels = vec![Label::new("histogram", "distribution")];
    let (kind, rest) = HistogramType::type_from(&labels);
    assert!(matches!(kind, Some(HistogramType::Distribution)));
    assert_eq!(0, rest.len());
}

#[test]
fn classify_degrades_typo_to_histogram() {
    let labels = vec![Label::new("histogram", "tmier")];
    let (kind, rest) = HistogramType::type_from(&labels);
    assert!(matches!(kind, Some(HistogramType::Histogram)));
    assert_eq!(0, rest.len());
}

#[test]
fn classify_uses_first_hint_and_strips_all() {
    let labels = vec![
        Label::new("histogram", "timer"),
        Label::new("histogram", "distribution"),
        Label::new("t1", "v1"),
    ];
    let (kind, rest) = HistogramType::type_from(&labels);
    assert!(matches!(kind, Some(HistogramType::Timer)));
    assert_eq!(1, rest.len());
    assert_eq!("t1", rest[0].key.as_str());
}

#[test]
fn unsupported_operations_emit_nothing() {
    let h = plain_handle("any.name", Vec::new());
    let up = Decimal::new(false, 0, vec![5]).expect("well formed");
    let down = Decimal::new(false, 0, vec![5]).expect("well formed");
    assert!(h.absolute(7).is_none());
    assert!(h.gauge_increment(up).is_none());
    assert!(h.gauge_decrement(down).is_none());
}

#[test]
fn event_matrix() {
    let h = plain_handle("m", Vec::new());
    let one = Decimal::new(false, 1, Vec::new()).expect("well formed");
    let two = Decimal::new(false, 2, Vec::new()).expect("well formed");
    let three = Decimal::new(false, 3, Vec::new()).expect("well formed");
    let four = Decimal::new(false, 4, Vec::new()).expect("well formed");
    let inc = h.handle_event(MetricEvent::CounterIncrement(5));
    assert_eq!("m:5|c", inc.expect("counter increments emit").wire_line());
    assert!(h.handle_event(MetricEvent::CounterAbsolute(5)).is_none());
    let set = h.handle_event(MetricEvent::GaugeSet(one));
    assert_eq!("m:1|g", set.expect("gauge sets emit").wire_line());
    assert!(h.handle_event(MetricEvent::GaugeIncrement(two)).is_none());
    assert!(h.handle_event(MetricEvent::GaugeDecrement(three)).is_none());
    let rec = h.handle_event(MetricEvent::HistogramRecord(four));
    assert_eq!("m:4|h", rec.expect("histogram records emit").wire_line());
}

#[test]
fn counter_value_narrows_to_signed() {
    let h = plain_handle("c", Vec::new());
    let rec = StatsdBuilder::from("127.0.0.1", 8125)
        .build(None)
        .expect("test env should build a valid recorder");
    let counter = rec.register_counter(&MetricKey::from_name("c"));
    assert_eq!("c:9223372036854775807|c", counter.increment(i64::MAX as u64).wire_line());
    assert_eq!("c:-1|c", counter.increment(u64::MAX).wire_line());
    assert_eq!(
        "c:-9223372036854775808|c",
        counter.increment(1u64 << 63).wire_line()
    );
    assert_eq!("c:0|c", h.increment(0).wire_line());
}

#[test]
fn timer_conversion_floors_to_milliseconds() {
    let d = Decimal::new(false, 100, vec![5, 2]).expect("well formed");
    assert_eq!(100520, d.timer_millis());
    let sub_milli = Decimal::new(false, 0, vec![0, 0, 0, 9]).expect("well formed");
    assert_eq!(0, sub_milli.timer_millis());
    let exact = Decimal::new(false, 100, Vec::new()).expect("well formed");
    assert_eq!(100000, exact.timer_millis());
}

#[test]
fn timer_conversion_wraps_past_u64() {
    let huge = Decimal::new(false, u64::MAX, Vec::new()).expect("well formed");
    assert_eq!(u64::MAX.wrapping_mul(1000), huge.timer_millis());
}

#[test]
fn negative_timer_narrows_to_zero_milliseconds() {
    let labels = vec![Label::new("histogram", "timer")];
    let h = plain_handle("t", labels);
    let v = Decimal::new(true, 3, vec![5]).expect("well formed");
    assert_eq!("t:0|ms", h.record(v).wire_line());
    let neg = Decimal::new(true, 3, vec![5]).expect("well formed");
    assert_eq!(0, neg.timer_millis());
}

#[test]
fn resolved_kind_follows_hint_then_default() {
    let h = plain_handle("m", vec![Label::new("histogram", "timer")]);
    assert!(matches!(h.resolved_kind(), HistogramType::Timer));
    let plain = plain_handle("m", Vec::new());
    assert!(matches!(plain.resolved_kind(), HistogramType::Histogram));
}

#[test]
fn gauge_covers_values_past_a_machine_word() {
    let h = plain_handle("g", Vec::new());
    // one past u64::MAX: twenty digits, no machine word holds it
    let digits = vec![1, 8, 4, 4, 6, 7, 4, 4, 0, 7, 3, 7, 0, 9, 5, 5, 1, 6, 1, 6];
    let v = Decimal::from_digits(false, digits, Vec::new()).expect("well formed");
    assert_eq!("g:18446744073709551616|g", h.set(v).wire_line());
}

#[test]
fn from_digits_rejects_malformed_parts() {
    assert!(Decimal::from_digits(false, Vec::new(), Vec::new()).is_none());
    assert!(Decimal::from_digits(false, vec![0, 1], Vec::new()).is_none());
    assert!(Decimal::from_digits(false, vec![1, 10], Vec::new()).is_none());
    assert!(Decimal::from_digits(true, vec![0], Vec::new()).is_none());
    assert!(Decimal::from_digits(true, vec![0], vec![5]).is_some());
    assert!(Decimal::from_digits(false, vec![0], Vec::new()).is_some());
}

#[test]
fn decimal_rejects_bad_digits() {
    assert!(Decimal::new(false, 1, vec![10]).is_none());
    assert!(Decimal::new(false, 1, vec![2, 0]).is_none());
    assert!(Decimal::new(true, 0, Vec::new()).is_none());
    assert!(Decimal::new(true, 0, vec![5]).is_some());
}

#[test]
fn negative_gauge_renders_signed() {
    let h = plain_handle("g", Vec::new());
    let v = Decimal::new(true, 50, vec![2, 5]).expect("well formed");
    assert_eq!("g:-50.25|g", h.set(v).wire_line());
}

#[test]
fn hint_never_reaches_the_wire_on_any_metric_type() {
    let rec = StatsdBuilder::from("127.0.0.1", 8125)
        .build(None)
        .expect("test env should build a valid recorder");
    let labels = vec![Label::new("histogram", "timer"), Label::new("t1", "v1")];
    let key = MetricKey::new("m", labels);
    let counter = rec.register_counter(&key);
    assert_eq!("m:1|c|#t1:v1", counter.increment(1).wire_line());
    let gauge = rec.register_gauge(&key);
    let one = Decimal::new(false, 1, Vec::new()).expect("well formed");
    assert_eq!("m:1|g|#t1:v1", gauge.set(one).wire_line());
}

#[test]
fn submission_renders_all_type_tokens() {
    let kinds = vec![
        (MetricType::Counter, "n:7|c"),
        (MetricType::Gauge, "n:7|g"),
        (MetricType::Histogram, "n:7|h"),
        (MetricType::Distribution, "n:7|d"),
        (MetricType::Timer, "n:7|ms"),
    ];
    for (kind, expected) in kinds {
        let s = Submission {
            kind,
            name: String::from("n"),
            value: MetricValue::Millis(7),
            tags: Vec::new(),
        };
        assert_eq!(expected, s.wire_line());
    }
}

#[test]
fn preformatted_metric_round_trip() {
    let m = Histogram::new(String::from("a.b:1|c"));
    assert_eq!("a.b:1|c", m.as_metric_str());
}

#[test]
fn invalid_operation_outcomes() {
    let ignored = InvalidOperationsAction::Ignore.handle("counter absolute is unsupported");
    assert!(matches!(ignored, InvalidOperationOutcome::Ignored));
    let warned = InvalidOperationsAction::Log.handle("counter absolute is unsupported");
    match warned {
        InvalidOperationOutcome::Warning(m) => {
            assert_eq!("counter absolute is unsupported", m.as_str());
        }
        _ => panic!("a logging policy must warn"),
    }
    let fatal = InvalidOperationsAction::Panic.handle("counter absolute is unsupported");
    assert!(matches!(fatal, InvalidOperationOutcome::Fatal(_)));
}
