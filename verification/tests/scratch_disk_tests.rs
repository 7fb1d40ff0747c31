use afrasyab::scratch_disk::{
    disk_full_in_message, is_low, parse_scratch_thresholds_mb, DiskPressureGate, ScratchThresholds,
};

#[test]
fn parse_bumps_resume_when_not_greater_than_min() {
    let t = parse_scratch_thresholds_mb(512, 512);
    assert!(t.resume_free_bytes > t.min_free_bytes);
}

#[test]
fn is_low_boundary() {
    assert!(is_low(100, 101));
    assert!(!is_low(101, 101));
}

#[test]
fn disk_full_detection() {
    assert!(disk_full_in_message("[Errno 28] No space left on device"));
}

#[test]
fn thresholds_convert_megabytes_to_bytes() {
    let t = parse_scratch_thresholds_mb(512, 1024);
    assert_eq!(t.min_free_bytes, 512 * 1024 * 1024);
    assert_eq!(t.resume_free_bytes, 1024 * 1024 * 1024);
}

#[test]
fn bumped_resume_is_min_plus_256_mib() {
    let t = parse_scratch_thresholds_mb(512, 100);
    assert_eq!(t.resume_free_bytes, (512 + 256) * 1024 * 1024);
}

#[test]
fn thresholds_saturate_instead_of_overflowing() {
    let t = parse_scratch_thresholds_mb(u64::MAX, 1);
    assert_eq!(t.min_free_bytes, u64::MAX);
    assert_eq!(t.resume_free_bytes, u64::MAX);
}

#[test]
fn plain_error_is_not_disk_full() {
    assert!(!disk_full_in_message("HTTP 403 for host"));
    assert!(disk_full_in_message("ERRNO 28"));
}

#[test]
fn gate_pauses_below_min_and_resumes_only_at_resume_threshold() {
    let t = ScratchThresholds { min_free_bytes: 100, resume_free_bytes: 200 };
    let mut g = DiskPressureGate::new();
    assert!(!g.is_pressured());
    assert!(!g.evaluate(150, &t));
    assert!(g.evaluate(99, &t));
    assert!(g.is_pressured());
    assert!(g.evaluate(150, &t));
    assert!(!g.evaluate(200, &t));
    assert!(!g.is_pressured());
}

#[test]
fn forced_pressure_holds_until_space_recovers() {
    let t = ScratchThresholds { min_free_bytes: 100, resume_free_bytes: 200 };
    let mut g = DiskPressureGate::default();
    g.force_pressure();
    assert!(g.is_pressured());
    assert!(g.evaluate(199, &t));
    assert!(!g.evaluate(1000, &t));
}
