use pms5003_exporter::metrics::{Metrics, METRICS_TTL_MS};
use pms5003_exporter::pms5003::Pms5003Frame;

fn sample_frame() -> Pms5003Frame {
    Pms5003Frame {
        pm10: 10,
        pm25: 15,
        pm100: 20,
        pm10_atmos: 11,
        pm25_atmos: 16,
        pm100_atmos: 21,
        pm03_count: 1,
        pm05_count: 2,
        pm10_count: 3,
        pm25_count: 4,
        pm50_count: 5,
        pm100_count: 6,
    }
}

#[test]
fn fresh_sink_exposes_all_gauges_at_zero() {
    let metrics = Metrics::new();
    let text = metrics.encode().unwrap();
    for name in [
        "pm_pm10",
        "pm_pm25",
        "pm_pm100",
        "pm_pm10_atmos",
        "pm_pm25_atmos",
        "pm_pm100_atmos",
        "pm_pm03_count",
        "pm_pm05_count",
        "pm_pm10_count",
        "pm_pm25_count",
        "pm_pm50_count",
        "pm_pm100_count",
    ] {
        assert!(text.contains(&format!("{name} 0\n")), "missing {name} in:\n{text}");
    }
}

#[test]
fn fresh_sink_reads_as_stale() {
    let metrics = Metrics::new();
    assert!(metrics.last_update.elapsed().as_millis() >= METRICS_TTL_MS as u128);
}

#[test]
fn update_overwrites_every_gauge() {
    let mut metrics = Metrics::new();
    metrics.update(&sample_frame());
    let text = metrics.encode().unwrap();
    assert!(text.contains("pm_pm10 10\n"), "{text}");
    assert!(text.contains("pm_pm25 15\n"), "{text}");
    assert!(text.contains("pm_pm100 20\n"), "{text}");
    assert!(text.contains("pm_pm10_atmos 11\n"), "{text}");
    assert!(text.contains("pm_pm25_atmos 16\n"), "{text}");
    assert!(text.contains("pm_pm100_atmos 21\n"), "{text}");
    assert!(text.contains("pm_pm03_count 1\n"), "{text}");
    assert!(text.contains("pm_pm05_count 2\n"), "{text}");
    assert!(text.contains("pm_pm10_count 3\n"), "{text}");
    assert!(text.contains("pm_pm25_count 4\n"), "{text}");
    assert!(text.contains("pm_pm50_count 5\n"), "{text}");
    assert!(text.contains("pm_pm100_count 6\n"), "{text}");
}

#[test]
fn repeated_identical_updates_leave_snapshot_unchanged() {
    let mut metrics = Metrics::new();
    metrics.update(&sample_frame());
    let first = metrics.encode().unwrap();
    metrics.update(&sample_frame());
    let second = metrics.encode().unwrap();
    assert_eq!(first, second);
}

#[test]
fn update_refreshes_last_update() {
    let mut metrics = Metrics::new();
    metrics.update(&sample_frame());
    assert!(metrics.last_update.elapsed().as_millis() < METRICS_TTL_MS as u128);
}

#[test]
fn later_update_replaces_earlier_values() {
    let mut metrics = Metrics::new();
    metrics.update(&sample_frame());
    let mut other = sample_frame();
    other.pm25 = 999;
    metrics.update(&other);
    let text = metrics.encode().unwrap();
    assert!(text.contains("pm_pm25 999\n"), "{text}");
    assert!(!text.contains("pm_pm25 15\n"), "{text}");
}
