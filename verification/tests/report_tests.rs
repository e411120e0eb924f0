use health_check::checks::Status;
use health_check::report::{
    default_thresholds, evaluate, thresholds_from_settings, Readings, Thresholds,
};

fn sample_readings() -> Readings {
    Readings {
        disk_total: 1000,
        disk_available: 200,
        memory_total: 8000,
        memory_available: 4000,
        cpu_per_core: vec![95, 95, 95, 95],
    }
}

#[test]
fn report_holds_three_results_in_fixed_order() {
    let r = evaluate(&sample_readings(), &default_thresholds(), 1700000000);
    assert_eq!(r.finished_at, 1700000000);
    assert_eq!(r.check_results.len(), 3);
    assert_eq!(r.check_results[0].name, "UsedDiskSpace");
    assert_eq!(r.check_results[1].name, "MemorySpace");
    assert_eq!(r.check_results[2].name, "Load");
}

#[test]
fn report_classifies_each_metric_independently() {
    let r = evaluate(&sample_readings(), &default_thresholds(), 0);
    // Disk: p = 80, thresholds 80/90.
    assert_eq!(r.check_results[0].status, Status::Warning);
    // Memory: p = 50, thresholds 70/80.
    assert_eq!(r.check_results[1].status, Status::Okay);
    // CPU: mean 95, thresholds 70/80.
    assert_eq!(r.check_results[2].status, Status::Failed);
}

#[test]
fn a_degenerate_reading_leaves_the_other_results_intact() {
    let readings = Readings {
        disk_total: 0,
        disk_available: 0,
        memory_total: 8000,
        memory_available: 4000,
        cpu_per_core: vec![10, 20],
    };
    let r = evaluate(&readings, &default_thresholds(), 7);
    assert_eq!(r.check_results.len(), 3);
    assert_eq!(r.check_results[0].status, Status::Unknown);
    assert_eq!(r.check_results[1].status, Status::Okay);
    assert_eq!(r.check_results[2].status, Status::Okay);
}

#[test]
fn evaluation_is_repeatable_except_for_the_timestamp() {
    let thresholds = default_thresholds();
    let first = evaluate(&sample_readings(), &thresholds, 100);
    let second = evaluate(&sample_readings(), &thresholds, 200);
    assert_eq!(first.check_results, second.check_results);
    assert_ne!(first.finished_at, second.finished_at);
}

#[test]
fn default_thresholds_match_the_documentation() {
    let t = default_thresholds();
    assert_eq!(
        t,
        Thresholds {
            disk_failure: 90,
            disk_warning: 80,
            memory_failure: 80,
            memory_warning: 70,
            cpu_failure: 80,
            cpu_warning: 70,
            cpu_timespan_ms: 500,
        }
    );
}

#[test]
fn settings_override_defaults_only_when_parsable() {
    let t = thresholds_from_settings(
        &Some("95".to_string()),
        &Some("85".to_string()),
        &None,
        &Some("not a number".to_string()),
        &Some("".to_string()),
        &Some("-5".to_string()),
        &Some("250".to_string()),
    );
    assert_eq!(t.disk_failure, 95);
    assert_eq!(t.disk_warning, 85);
    assert_eq!(t.memory_failure, 80); // unset: default
    assert_eq!(t.memory_warning, 70); // unparsable: default
    assert_eq!(t.cpu_failure, 80); // empty: default
    assert_eq!(t.cpu_warning, 70); // signed: default
    assert_eq!(t.cpu_timespan_ms, 250);
}
