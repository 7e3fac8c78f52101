use api_v1::date_time::{DateTime, Interval};
use api_v1::gateway::{GatewayMetric, GatewayMetrics, GetGatewayStatusMetrics};
use api_v1::login::AuthObject;

#[test]
fn test_get_gateway_metrics_roundtrip() {
    let metrics = GatewayMetrics::from_slice(&[GatewayMetric::TunnelCount, GatewayMetric::FlowCount]);

    let interval = Interval {
        end: None,
        start: DateTime::from_rfc3339("2023-01-02T03:04:05+05:30").unwrap(),
    };

    let ggm = GetGatewayStatusMetrics {
        gateway_id: 1,
        interval: interval.clone(),
        metrics: metrics.clone(),
    };

    let start_text = ggm.interval.start.encode();
    println!("{}", start_text);
    let d = Interval { end: None, start: DateTime::decode_text(&start_text).unwrap() };
    println!("{:?}", d);

    assert_eq!(ggm.metrics.len(), metrics.len());
    assert!(ggm.metrics.contains(GatewayMetric::TunnelCount));
    assert!(ggm.metrics.contains(GatewayMetric::FlowCount));
    assert_eq!(d, interval);
}

#[test]
fn metrics_are_held_once() {
    let m = GatewayMetrics::from_slice(&[
        GatewayMetric::CpuPct,
        GatewayMetric::MemoryPct,
        GatewayMetric::CpuPct,
    ]);
    assert_eq!(m.len(), 2);
    assert!(m.contains(GatewayMetric::CpuPct));
    assert!(m.contains(GatewayMetric::MemoryPct));
    assert!(!m.contains(GatewayMetric::FlowCount));
    assert_eq!(GatewayMetrics::from_slice(&[]).len(), 0);
}

#[test]
fn auth_object_builds() {
    let _ = AuthObject::new("alice@example.com".to_string(), "secret".to_string());
}
