use clawops::metrics::{
    push_vps_snapshot, push_vps_snapshot_at, MetricName, MetricPoint, MetricStore, MetricsError,
    TimeRange, TimeSeriesBuffer,
};

#[derive(Debug, Clone, Copy)]
struct InstanceSnapshot {
    cpu_pct: f64,
    health_score: f64,
}

fn make_snapshot(cpu: f64, health: f64) -> InstanceSnapshot {
    InstanceSnapshot { cpu_pct: cpu, health_score: health }
}

fn average(values: &[f64]) -> Option<f64> {
    if values.is_empty() {
        None
    } else {
        Some(values.iter().sum::<f64>() / values.len() as f64)
    }
}

#[test]
fn test_push_and_query() {
    let mut store: MetricStore<f64> = MetricStore::new(3_600_000);
    let name = MetricName::new("test.metric").expect("valid name");
    store.push(&name, MetricPoint::now(42.0)).expect("push");
    store.push(&name, MetricPoint::now(50.0)).expect("push");
    let points = store.query(&name, &TimeRange::last_minutes(5), None).expect("query");
    assert_eq!(points.len(), 2);
}

#[test]
fn test_last_value() {
    let mut store: MetricStore<f64> = MetricStore::new(3_600_000);
    let name = MetricName::new("test.last").expect("valid name");
    assert!(store.last_value(&name).is_none());
    store.push(&name, MetricPoint::now(10.0)).expect("push");
    store.push(&name, MetricPoint::now(20.0)).expect("push");
    assert_eq!(store.last_value(&name), Some(20.0));
}

#[test]
fn test_average_over() {
    let mut store: MetricStore<f64> = MetricStore::new(3_600_000);
    let name = MetricName::new("test.avg").expect("valid name");
    store.push(&name, MetricPoint::now(10.0)).expect("push");
    store.push(&name, MetricPoint::now(20.0)).expect("push");
    store.push(&name, MetricPoint::now(30.0)).expect("push");
    let points = store.query(&name, &TimeRange::last_minutes(5), None).expect("query");
    let values: Vec<f64> = points.iter().map(|p| p.value).collect();
    let avg = average(&values).expect("avg");
    assert!((avg - 20.0).abs() < 0.001);
}

#[test]
fn test_time_series_buffer_capacity() {
    let mut buf = TimeSeriesBuffer::new(3);
    for _ in 0..5u32 {
        buf.push(make_snapshot(10.0, 90.0));
    }
    assert_eq!(buf.len(), 3);
}

#[test]
fn test_time_series_buffer_avg_health() {
    let mut buf = TimeSeriesBuffer::new(10);
    buf.push(make_snapshot(10.0, 80.0));
    buf.push(make_snapshot(10.0, 60.0));
    buf.push(make_snapshot(10.0, 70.0));
    let healths: Vec<f64> = buf.snapshots().iter().map(|s| s.health_score).collect();
    let avg = average(&healths).expect("has data");
    assert!((avg - 70.0).abs() < 0.001);
}

#[test]
fn test_time_series_buffer_empty() {
    let buf: TimeSeriesBuffer<InstanceSnapshot> = TimeSeriesBuffer::new(5);
    assert!(buf.is_empty());
    let healths: Vec<f64> = buf.snapshots().iter().map(|s| s.health_score).collect();
    let cpus: Vec<f64> = buf.snapshots().iter().map(|s| s.cpu_pct).collect();
    assert!(average(&healths).is_none());
    assert!(average(&cpus).is_none());
}

#[test]
fn buffer_keeps_the_newest_in_order() {
    let mut buf = TimeSeriesBuffer::new(3);
    for i in 0..5u32 {
        buf.push(i);
    }
    assert_eq!(buf.snapshots(), &vec![2, 3, 4]);
}

#[test]
fn push_evicts_points_older_than_retention() {
    let mut store: MetricStore<u32> = MetricStore::new(1_000);
    let name = MetricName::new("vps.cpu").expect("valid");
    store.push_at(&name, MetricPoint::at(100, 1), 100).expect("push");
    store.push_at(&name, MetricPoint::at(900, 2), 900).expect("push");
    store.push_at(&name, MetricPoint::at(1_500, 3), 1_500).expect("push");
    let all = store.query(&name, &TimeRange { start: 0, end: 10_000 }, None).expect("query");
    let values: Vec<u32> = all.iter().map(|p| p.value).collect();
    assert_eq!(values, vec![2, 3]);
    let limited = store.query(&name, &TimeRange { start: 0, end: 10_000 }, Some(1)).expect("query");
    assert_eq!(limited.len(), 1);
    assert_eq!(limited[0].value, 2);
    let none = store.query(&name, &TimeRange { start: 1_000, end: 1_400 }, None).expect("query");
    assert!(none.is_empty());
}

#[test]
fn oversized_retention_is_refused() {
    let mut store: MetricStore<u32> = MetricStore::new(u64::MAX);
    let name = MetricName::new("x").expect("valid");
    assert!(matches!(store.push_at(&name, MetricPoint::at(0, 1), 0), Err(MetricsError::InvalidRetention)));
    assert!(store.metric_names().is_empty());
}

#[test]
fn labels_replace_existing_keys() {
    let p = MetricPoint::at(5, 1u8).label("region", "eu").label("tier", "pro").label("region", "us");
    assert_eq!(
        p.labels,
        vec![("region".to_string(), "us".to_string()), ("tier".to_string(), "pro".to_string())]
    );
}

#[test]
fn vps_snapshot_pushes_four_series() {
    let mut store: MetricStore<f64> = MetricStore::new(3_600_000);
    push_vps_snapshot_at(&mut store, "i-1", 10.0, 20.0, 30.0, 90.0, 1_000);
    assert_eq!(store.metric_names(), vec!["i-1.cpu", "i-1.mem", "i-1.disk", "i-1.health"]);
    let health = MetricName::new("i-1.health").expect("valid");
    assert_eq!(store.last_value(&health), Some(90.0));
    push_vps_snapshot(&mut store, "bad id", 1.0, 1.0, 1.0, 1.0);
    assert_eq!(store.metric_names().len(), 4);
}

#[test]
fn time_ranges_span_the_requested_length() {
    let r = TimeRange::last_hours(2);
    assert_eq!(r.end - r.start, 7_200_000);
    let d = TimeRange::last_days(1);
    assert_eq!(d.end - d.start, 86_400_000);
    let e = TimeRange::ending_at(10_000, 4_000);
    assert_eq!((e.start, e.end), (6_000, 10_000));
}

#[test]
fn test_time_series_buffer_evicts_oldest() {
    let mut buf = TimeSeriesBuffer::new(3);
    for health in [90.0f64, 80.0, 70.0, 60.0] {
        buf.push(make_snapshot(12.0, health));
    }
    assert_eq!(buf.len(), 3, "buffer should cap at 3");
    let healths: Vec<f64> = buf.snapshots().iter().map(|s| s.health_score).collect();
    let avg = average(&healths).expect("non-empty buffer");
    assert!((avg - 70.0).abs() < 0.001, "avg should be 70.0 (last 3 snapshots)");
}

#[test]
fn time_range_last_spans_end_now() {
    let before = chrono::Utc::now().timestamp_millis();
    let r = TimeRange::last_minutes(5);
    let after = chrono::Utc::now().timestamp_millis();
    assert_eq!(r.end - r.start, 300_000);
    assert!(before <= r.end && r.end <= after);
    assert_eq!(TimeRange::last_days(2).end - TimeRange::last_days(2).start, 172_800_000);
}
