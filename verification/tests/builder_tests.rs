//! The builder-level scenarios: every metric type end to end, from builder
//! configuration through a registered handle to the finished wire line.

use metrics_exporter_statsd::{
    Decimal, Handle, Label, MetricKey, StatsdBuilder, StatsdError, StatsdRecorder,
};

fn recorder(prefix: Option<&str>) -> StatsdRecorder {
    StatsdBuilder::from("127.0.0.1", 8125)
        .with_queue_size(1)
        .with_buffer_size(10)
        .build(prefix)
        .expect("test env should build a valid recorder")
}

fn recorder_histogram_is_distribution() -> StatsdRecorder {
    StatsdBuilder::from("127.0.0.1", 8125)
        .histogram_is_distribution()
        .build(None)
        .expect("test env should build a valid recorder")
}

fn recorder_histogram_is_timer() -> StatsdRecorder {
    StatsdBuilder::from("127.0.0.1", 8125)
        .histogram_is_timer()
        .build(None)
        .expect("test env should build a valid recorder")
}

fn line_of_counter(h: &Handle, v: u64) -> String {
    h.increment(v).wire_line()
}

fn whole(n: u64) -> Decimal {
    Decimal::new(false, n, Vec::new()).expect("whole number is well formed")
}

fn fractional(n: u64, frac: Vec<u8>) -> Decimal {
    Decimal::new(false, n, frac).expect("fractional value is well formed")
}

#[test]
#[should_panic]
fn bad_host_name() {
    StatsdBuilder::from("", 10).build(None).expect("this should panic");
}

#[test]
#[should_panic]
fn bad_port() {
    StatsdBuilder::from("127.0.0.1", 0)
        .build(None)
        .expect("this should panic");
}

#[test]
fn counter() {
    let rec = recorder(None);
    let key = MetricKey::from_name("counter.name");
    let counter = rec.register_counter(&key);
    assert_eq!("counter.name:1|c", line_of_counter(&counter, 1));
}

#[test]
fn counter_with_tags() {
    let rec = recorder(None);
    let tags = vec![Label::new("t1", "v1"), Label::new("t2", "v2")];
    let key = MetricKey::new("counter.name", tags);
    let counter = rec.register_counter(&key);
    assert_eq!("counter.name:10|c|#t1:v1,t2:v2", line_of_counter(&counter, 10));
}

#[test]
fn gauge() {
    let rec = recorder(None);
    let key = MetricKey::from_name("gauge.name");
    let gauge = rec.register_gauge(&key);
    let line = gauge.set(fractional(50, vec![2, 5])).wire_line();
    assert_eq!("gauge.name:50.25|g", line);
}

#[test]
fn gauge_with_tags() {
    let rec = recorder(None);
    let tags = vec![Label::new("t1", "v1"), Label::new("t2", "v2")];
    let key = MetricKey::new("gauge.name", tags);
    let gauge = rec.register_gauge(&key);
    let line = gauge.set(fractional(50, vec![2, 5])).wire_line();
    assert_eq!("gauge.name:50.25|g|#t1:v1,t2:v2", line);
}

#[test]
fn histogram() {
    let rec = recorder(None);
    let key = MetricKey::from_name("histogram.name");
    let histogram = rec.register_histogram(&key);
    let line = histogram.record(whole(100)).wire_line();
    assert_eq!("histogram.name:100|h", line);
}

#[test]
fn histogram_with_decimals() {
    let rec = recorder(None);
    let key = MetricKey::from_name("histogram.name");
    let histogram = rec.register_histogram(&key);
    let line = histogram.record(fractional(100, vec![5, 2])).wire_line();
    assert_eq!("histogram.name:100.52|h", line);
}

#[test]
fn distribution_with_decimals() {
    let rec = recorder_histogram_is_distribution();
    let key = MetricKey::from_name("distribution.name");
    let histogram = rec.register_histogram(&key);
    let line = histogram.record(fractional(100, vec![5, 2])).wire_line();
    assert_eq!("distribution.name:100.52|d", line);
}

#[test]
fn histogram_with_tags() {
    let rec = recorder(None);
    let tags = vec![Label::new("t1", "v1"), Label::new("t2", "v2")];
    let key = MetricKey::new("histogram.name", tags);
    let histogram = rec.register_histogram(&key);
    let line = histogram.record(whole(100)).wire_line();
    assert_eq!("histogram.name:100|h|#t1:v1,t2:v2", line);
}

#[test]
fn histogram_as_distribution() {
    let rec = recorder(None);
    let tags = vec![
        Label::new("t1", "v1"),
        Label::new("t2", "v2"),
        Label::new("histogram", "distribution"),
    ];
    let key = MetricKey::new("distribution.name", tags);
    let histogram = rec.register_histogram(&key);
    let line = histogram.record(whole(100)).wire_line();
    assert_eq!("distribution.name:100|d|#t1:v1,t2:v2", line);
}

#[test]
fn distribution_with_prefix() {
    let rec = recorder(Some("blackbird"));
    let tags = vec![
        Label::new("t1", "v1"),
        Label::new("t2", "v2"),
        Label::new("histogram", "distribution"),
    ];
    let key = MetricKey::new("distribution.name", tags);
    let histogram = rec.register_histogram(&key);
    let line = histogram.record(whole(100)).wire_line();
    assert_eq!("blackbird.distribution.name:100|d|#t1:v1,t2:v2", line);
}

#[test]
fn histogram_with_prefix() {
    let rec = recorder(Some("blackbird"));
    let tags = vec![Label::new("t1", "v1"), Label::new("t2", "v2")];
    let key = MetricKey::new("histogram.name", tags);
    let histogram = rec.register_histogram(&key);
    let line = histogram.record(whole(100)).wire_line();
    assert_eq!("blackbird.histogram.name:100|h|#t1:v1,t2:v2", line);
}

#[test]
fn histogram_as_timer() {
    let rec = recorder(None);
    let tags = vec![
        Label::new("t1", "v1"),
        Label::new("t2", "v2"),
        Label::new("histogram", "timer"),
    ];
    let key = MetricKey::new("histogram.name", tags);
    let histogram = rec.register_histogram(&key);
    // the instrumentation side reports seconds; the wire carries milliseconds
    let line = histogram.record(whole(100)).wire_line();
    assert_eq!("histogram.name:100000|ms|#t1:v1,t2:v2", line);
}

#[test]
fn default_histogram_to_distribution() {
    let rec = recorder_histogram_is_distribution();
    let tags = vec![Label::new("t1", "v1"), Label::new("t2", "v2")];
    let key = MetricKey::new("histogram.name", tags);
    let histogram = rec.register_histogram(&key);
    let line = histogram.record(whole(100)).wire_line();
    assert_eq!("histogram.name:100|d|#t1:v1,t2:v2", line);
}

#[test]
fn default_histogram_to_timer() {
    let rec = recorder_histogram_is_timer();
    let tags = vec![Label::new("t1", "v1"), Label::new("t2", "v2")];
    let key = MetricKey::new("histogram.name", tags);
    let histogram = rec.register_histogram(&key);
    // the instrumentation side reports seconds; the wire carries milliseconds
    let line = histogram.record(whole(100)).wire_line();
    assert_eq!("histogram.name:100000|ms|#t1:v1,t2:v2", line);
}

#[test]
fn prefix() {
    let rec = recorder(Some("koelbird"));
    let key = MetricKey::from_name("counter.name");
    let counter = rec.register_counter(&key);
    assert_eq!("koelbird.counter.name:1|c", line_of_counter(&counter, 1));
}

#[test]
fn test_default_tags() {
    let rec = StatsdBuilder::from("127.0.0.1", 8125)
        .with_default_tag("app_name", "test")
        .with_default_tag("blackbird_cluster", "magenta")
        .build(None)
        .expect("test env should build a valid recorder");
    let key = MetricKey::from_name("counter.name");
    let counter = rec.register_counter(&key);
    assert_eq!(
        "counter.name:1|c|#app_name:test,blackbird_cluster:magenta",
        line_of_counter(&counter, 1)
    );
}

#[test]
fn default_tags_merge_ahead_of_event_tags() {
    let rec = StatsdBuilder::from("127.0.0.1", 8125)
        .with_default_tag("app_name", "test")
        .build(None)
        .expect("test env should build a valid recorder");
    let key = MetricKey::new("counter.name", vec![Label::new("t1", "v1")]);
    let counter = rec.register_counter(&key);
    assert_eq!(
        "counter.name:1|c|#app_name:test,t1:v1",
        line_of_counter(&counter, 1)
    );
}

#[test]
fn empty_prefix_leaves_name_bare() {
    let rec = recorder(Some(""));
    let key = MetricKey::from_name("counter.name");
    let counter = rec.register_counter(&key);
    assert_eq!("counter.name:1|c", line_of_counter(&counter, 1));
}

#[test]
fn whitespace_host_is_invalid() {
    let r = StatsdBuilder::from("   ", 10).build(None);
    assert!(matches!(r, Err(StatsdError::InvalidHost)));
}

#[test]
fn zero_port_is_invalid() {
    let r = StatsdBuilder::from("statsd.example", 0).build(None);
    assert!(matches!(r, Err(StatsdError::InvalidPortZero)));
}

#[test]
fn error_messages() {
    assert_eq!(
        "Empty hostname is not allowed",
        StatsdError::InvalidHost.message()
    );
    assert_eq!(
        "Port number must be nonzero",
        StatsdError::InvalidPortZero.message()
    );
}

#[test]
fn builder_defaults() {
    let b = StatsdBuilder::default();
    assert_eq!("127.0.0.1", b.host.as_str());
    assert_eq!(8125, b.port);
    assert_eq!(Some(5000), b.queue_size);
    assert_eq!(Some(256), b.buffer_size);
    assert_eq!("0.0.0.0", b.client_udp_host.as_str());
    assert_eq!(0, b.default_tags.len());
}

#[test]
fn build_carries_transport_parameters() {
    let rec = StatsdBuilder::from("statsd.example", 9125)
        .with_queue_size(7)
        .with_buffer_size(64)
        .with_client_udp_host("127.0.0.1")
        .build(None)
        .expect("valid configuration must build");
    assert_eq!("statsd.example", rec.transport.host.as_str());
    assert_eq!(9125, rec.transport.port);
    assert_eq!(7, rec.transport.queue_size);
    assert_eq!(64, rec.transport.buffer_size);
    assert_eq!("127.0.0.1", rec.transport.client_udp_host.as_str());
}

#[test]
fn build_applies_documented_defaults() {
    let rec = StatsdBuilder::from("statsd.example", 9125)
        .build(None)
        .expect("valid configuration must build");
    assert_eq!(5000, rec.transport.queue_size);
    assert_eq!(256, rec.transport.buffer_size);
    assert_eq!("0.0.0.0", rec.transport.client_udp_host.as_str());
}
