use health_check::checks::{
    average_load, classify, cpu_check, disk_check, memory_check, used_percentage, Status,
};

#[test]
fn classification_boundaries_take_the_stricter_bucket() {
    // A reading equal to the failure threshold is failed, even though it
    // is also at or above the warning threshold.
    assert_eq!(classify(90, 80, 90), Status::Failed);
    // A reading equal to the warning threshold, below failure, warns.
    assert_eq!(classify(80, 80, 90), Status::Warning);
    // Just below the warning threshold all is well.
    assert_eq!(classify(79, 80, 90), Status::Okay);
    // Above the failure threshold.
    assert_eq!(classify(100, 80, 90), Status::Failed);
    // Far below both thresholds.
    assert_eq!(classify(0, 80, 90), Status::Okay);
}

#[test]
fn classification_is_monotone_in_the_reading() {
    let severity = |s: Status| -> u32 {
        match s {
            Status::Okay => 0,
            Status::Warning => 1,
            Status::Failed => 2,
            Status::Unknown => 3,
        }
    };
    let mut last: u32 = 0;
    for p in 0..=110u64 {
        let got = severity(classify(p, 70, 80));
        assert!(got >= last);
        last = got;
    }
}

#[test]
fn used_percentage_rounds_down() {
    assert_eq!(used_percentage(1000, 200), Some(80));
    assert_eq!(used_percentage(8000, 4000), Some(50));
    assert_eq!(used_percentage(3, 1), Some(67)); // 100 - floor(33.3) = 67
    assert_eq!(used_percentage(1000, 0), Some(100));
    assert_eq!(used_percentage(1000, 1000), Some(0));
}

#[test]
fn used_percentage_of_zero_total_is_undefined() {
    assert_eq!(used_percentage(0, 0), None);
}

#[test]
fn average_load_truncates_after_the_division() {
    // Sum first, divide once: floor((99 + 100) / 2) = 99.
    assert_eq!(average_load(&vec![99, 100]), Some(99));
    assert_eq!(average_load(&vec![95, 95, 95, 95]), Some(95));
    assert_eq!(average_load(&vec![1, 2]), Some(1));
    assert_eq!(average_load(&vec![0]), Some(0));
}

#[test]
fn average_load_of_no_cores_is_undefined() {
    assert_eq!(average_load(&Vec::new()), None);
}

#[test]
fn disk_check_example() {
    // total=1000, available=200: p = 100 - 20 = 80; warn=80, fail=90.
    let c = disk_check(90, 80, 1000, 200);
    assert_eq!(c.name, "UsedDiskSpace");
    assert_eq!(c.label, "Used Disk Space");
    assert_eq!(c.status, Status::Warning);
    assert_eq!(c.short_summary, "80%");
    assert_eq!(
        c.notification_message,
        "The disk usage percentage is at (80% used)"
    );
}

#[test]
fn disk_check_at_failure_boundary() {
    // total=1000, available=100: p = 90 = fail.
    let c = disk_check(90, 80, 1000, 100);
    assert_eq!(c.status, Status::Failed);
    assert_eq!(c.short_summary, "90%");
}

#[test]
fn disk_check_with_no_volumes_is_unknown() {
    let c = disk_check(90, 80, 0, 0);
    assert_eq!(c.name, "UsedDiskSpace");
    assert_eq!(c.status, Status::Unknown);
    assert_eq!(c.short_summary, "unknown");
    assert_eq!(
        c.notification_message,
        "The disk usage percentage could not be determined"
    );
}

#[test]
fn memory_check_example() {
    // total=8000, available=4000: p = 50; warn=70, fail=80.
    let c = memory_check(80, 70, 8000, 4000);
    assert_eq!(c.name, "MemorySpace");
    assert_eq!(c.label, "Memory Space");
    assert_eq!(c.status, Status::Okay);
    assert_eq!(c.short_summary, "50%");
    assert_eq!(
        c.notification_message,
        "The memory usage percentage is at (50% used)"
    );
}

#[test]
fn memory_check_with_zero_total_is_unknown() {
    let c = memory_check(80, 70, 0, 0);
    assert_eq!(c.status, Status::Unknown);
    assert_eq!(c.short_summary, "unknown");
}

#[test]
fn cpu_check_example() {
    // Four cores averaging 95; warn=70, fail=80.
    let c = cpu_check(80, 70, &vec![95, 95, 95, 95]);
    assert_eq!(c.name, "Load");
    assert_eq!(c.label, "CPU Load");
    assert_eq!(c.status, Status::Failed);
    assert_eq!(c.short_summary, "95%");
    assert_eq!(
        c.notification_message,
        "The cpu load in the last minute is (95%)"
    );
}

#[test]
fn cpu_check_with_no_cores_is_unknown() {
    let c = cpu_check(80, 70, &Vec::new());
    assert_eq!(c.status, Status::Unknown);
    assert_eq!(c.short_summary, "unknown");
    assert_eq!(
        c.notification_message,
        "The cpu load could not be determined"
    );
}

#[test]
fn status_text_matches_the_report_schema() {
    assert_eq!(Status::Okay.text(), "ok");
    assert_eq!(Status::Warning.text(), "warning");
    assert_eq!(Status::Failed.text(), "failed");
    assert_eq!(Status::Unknown.text(), "unknown");
}
