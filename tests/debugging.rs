use metrics_facade::debugging::{DebugValue, DebuggingRecorder};
use metrics_facade::key::{Key, Label, MetricKind, Unit};

fn key(name: &str) -> Key {
    Key::from_name(name.to_string())
}

#[test]
fn end_to_end_counter_snapshot() {
    let mut rec = DebuggingRecorder::new();
    let k = key("requests_total");
    rec.describe_counter(&k, Some(Unit::Count), None);
    let h1 = rec.register_counter(&k);
    let h2 = rec.register_counter(&k);
    assert_eq!(h1, h2);
    rec.increment(&h1, 1);
    rec.increment(&h2, 1);
    let entries = rec.snapshot().into_vec();
    assert_eq!(entries.len(), 1);
    let (ck, unit, desc, value) = &entries[0];
    assert_eq!(ck.kind, MetricKind::Counter);
    assert_eq!(ck.key.name, "requests_total");
    assert_eq!(*unit, Some(Unit::Count));
    assert_eq!(*desc, None);
    assert_eq!(*value, DebugValue::Counter(2));
}

#[test]
fn many_unit_increments_add_up() {
    let mut rec = DebuggingRecorder::new();
    let k = key("hits");
    rec.describe_counter(&k, None, None);
    let n = 4;
    let per = 250;
    for _ in 0..n {
        let h = rec.register_counter(&k);
        for _ in 0..per {
            rec.increment(&h, 1);
        }
    }
    let entries = rec.snapshot().into_vec();
    assert_eq!(entries[0].3, DebugValue::Counter(1000));
}

#[test]
fn counter_wraps_at_u64_max() {
    let mut rec = DebuggingRecorder::new();
    let k = key("c");
    rec.describe_counter(&k, None, None);
    let h = rec.register_counter(&k);
    rec.increment(&h, u64::MAX);
    rec.increment(&h, 2);
    assert_eq!(rec.snapshot().into_vec()[0].3, DebugValue::Counter(1));
}

#[test]
fn gauge_keeps_exact_bits() {
    let values = [1.5f64, f64::NAN, f64::INFINITY, f64::NEG_INFINITY, -0.0, 0.0];
    for v in values {
        let mut rec = DebuggingRecorder::new();
        let k = key("g");
        rec.describe_gauge(&k, None, None);
        let h = rec.register_gauge(&k);
        rec.set_gauge(&h, v.to_bits());
        let entries = rec.snapshot().into_vec();
        assert_eq!(entries[0].3, DebugValue::Gauge(v.to_bits()));
    }
    assert_ne!((-0.0f64).to_bits(), 0.0f64.to_bits());
}

#[test]
fn gauge_starts_at_zero_and_last_write_wins() {
    let mut rec = DebuggingRecorder::new();
    let k = key("g");
    rec.describe_gauge(&k, None, None);
    let h = rec.register_gauge(&k);
    assert_eq!(rec.snapshot().into_vec()[0].3, DebugValue::Gauge(0));
    rec.set_gauge(&h, 3.0f64.to_bits());
    rec.set_gauge(&h, 4.0f64.to_bits());
    assert_eq!(rec.snapshot().into_vec()[0].3, DebugValue::Gauge(4.0f64.to_bits()));
}

#[test]
fn histogram_snapshot_drains() {
    let mut rec = DebuggingRecorder::new();
    let k = key("latency");
    rec.describe_histogram(&k, Some(Unit::Seconds), Some("request latency".to_string()));
    let h = rec.register_histogram(&k);
    let samples = [1.0f64, 2.5, -3.0];
    for s in samples {
        rec.record(&h, s.to_bits());
    }
    let first = rec.snapshot().into_vec();
    match &first[0].3 {
        DebugValue::Histogram(v) => {
            let mut got: Vec<f64> = v.iter().map(|b| f64::from_bits(*b)).collect();
            got.sort_by(|a, b| a.partial_cmp(b).unwrap());
            assert_eq!(got, vec![-3.0, 1.0, 2.5]);
        }
        other => panic!("unexpected value {:?}", other),
    }
    let second = rec.snapshot().into_vec();
    assert_eq!(second[0].3, DebugValue::Histogram(vec![]));
}

#[test]
fn undescribed_histogram_keeps_samples() {
    let mut rec = DebuggingRecorder::new();
    let described = key("a");
    let hidden = key("b");
    rec.describe_histogram(&described, None, None);
    let ha = rec.register_histogram(&described);
    let hb = rec.register_histogram(&hidden);
    rec.record(&ha, 1);
    rec.record(&hb, 2);
    let first = rec.snapshot().into_vec();
    assert_eq!(first.len(), 1);
    assert_eq!(first[0].3, DebugValue::Histogram(vec![1]));
    rec.describe_histogram(&hidden, None, None);
    let second = rec.snapshot().into_vec();
    assert_eq!(second.len(), 2);
    assert_eq!(second[0].3, DebugValue::Histogram(vec![]));
    assert_eq!(second[1].3, DebugValue::Histogram(vec![2]));
}

#[test]
fn describe_fields_are_independent() {
    let mut rec = DebuggingRecorder::new();
    let k = key("bytes_sent");
    rec.describe_counter(&k, Some(Unit::Bytes), None);
    rec.describe_counter(&k, None, Some("bytes sent".to_string()));
    rec.register_counter(&k);
    let entries = rec.snapshot().into_vec();
    assert_eq!(entries.len(), 1);
    assert_eq!(entries[0].1, Some(Unit::Bytes));
    assert_eq!(entries[0].2, Some("bytes sent".to_string()));
}

#[test]
fn redescribe_overwrites_given_fields() {
    let mut rec = DebuggingRecorder::new();
    let k = key("x");
    rec.describe_gauge(&k, Some(Unit::Bytes), Some("one".to_string()));
    rec.describe_gauge(&k, Some(Unit::Percent), Some("two".to_string()));
    rec.register_gauge(&k);
    let entries = rec.snapshot().into_vec();
    assert_eq!(entries[0].1, Some(Unit::Percent));
    assert_eq!(entries[0].2, Some("two".to_string()));
}

#[test]
fn kinds_under_one_key_are_distinct() {
    let mut rec = DebuggingRecorder::new();
    let k = key("same");
    rec.describe_counter(&k, None, None);
    rec.describe_gauge(&k, None, None);
    let c = rec.register_counter(&k);
    let g = rec.register_gauge(&k);
    rec.increment(&c, 5);
    rec.set_gauge(&g, 9);
    let entries = rec.snapshot().into_vec();
    assert_eq!(entries.len(), 2);
    assert_eq!(entries[0].0.kind, MetricKind::Counter);
    assert_eq!(entries[0].3, DebugValue::Counter(5));
    assert_eq!(entries[1].0.kind, MetricKind::Gauge);
    assert_eq!(entries[1].3, DebugValue::Gauge(9));
}

#[test]
fn labels_distinguish_keys() {
    let mut rec = DebuggingRecorder::new();
    let a = Key::with_labels(
        "req".to_string(),
        vec![Label { key: "code".to_string(), value: "200".to_string() }],
    );
    let b = Key::with_labels(
        "req".to_string(),
        vec![Label { key: "code".to_string(), value: "500".to_string() }],
    );
    assert!(!a.same_as(&b));
    assert!(a.same_as(&a.clone_key()));
    let ha = rec.register_counter(&a);
    let hb = rec.register_counter(&b);
    assert_ne!(ha, hb);
    rec.describe_counter(&b, None, None);
    rec.increment(&hb, 3);
    let entries = rec.snapshot().into_vec();
    assert_eq!(entries.len(), 1);
    assert_eq!(entries[0].3, DebugValue::Counter(3));
}

#[test]
fn described_but_unregistered_is_detected() {
    let mut rec = DebuggingRecorder::new();
    let k = key("ghost");
    rec.describe_histogram(&k, None, None);
    assert!(!rec.all_described_registered());
    rec.register_histogram(&k);
    assert!(rec.all_described_registered());
    assert_eq!(rec.snapshot().into_vec()[0].3, DebugValue::Histogram(vec![]));
}

#[test]
fn empty_recorder_snapshot_is_empty() {
    let mut rec = DebuggingRecorder::default();
    assert!(rec.snapshot().into_vec().is_empty());
}

#[test]
fn noop_handles_change_nothing() {
    let mut rec = DebuggingRecorder::new();
    let k = key("n");
    rec.describe_counter(&k, None, None);
    rec.register_counter(&k);
    rec.increment(&metrics_facade::handles::Counter::noop(), 4);
    assert_eq!(rec.snapshot().into_vec()[0].3, DebugValue::Counter(0));
}
