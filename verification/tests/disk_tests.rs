use anime_pipeline::config::gb_to_bytes;
use anime_pipeline::disk::AdmissionController;
use anime_pipeline::disk::DiskMonitor;
use anime_pipeline::disk::DiskUsage;

fn usage(total_gb: u64) -> DiskUsage {
    DiskUsage {
        total_bytes: gb_to_bytes(total_gb),
        videos_bytes: gb_to_bytes(total_gb),
        audio_bytes: 0,
        transcripts_bytes: 0,
        tokens_bytes: 0,
        analysis_bytes: 0,
    }
}

#[test]
fn test_monitor_refuses_inverted_thresholds() {
    assert!(DiskMonitor::new(gb_to_bytes(250), gb_to_bytes(10), gb_to_bytes(10), 5).is_none());
    assert!(DiskMonitor::new(gb_to_bytes(250), gb_to_bytes(10), gb_to_bytes(8), 5).is_some());
    assert!(AdmissionController::new(10, 10).is_none());
}

#[test]
fn test_pause_resume_thresholds() {
    let monitor = DiskMonitor::new(gb_to_bytes(250), gb_to_bytes(10), gb_to_bytes(8), 5).unwrap();

    // 12 GB on disk: downloads pause; no job may leave `queued`.
    assert!(monitor.should_pause_downloads(&usage(12)));
    assert!(!monitor.can_resume_downloads(&usage(12)));
    // Deleting brings usage to 9 GB: still above the resume threshold.
    assert!(!monitor.should_pause_downloads(&usage(9)));
    assert!(!monitor.can_resume_downloads(&usage(9)));
    // At 7 GB downloads resume.
    assert!(monitor.can_resume_downloads(&usage(7)));
}

#[test]
fn test_admission_hysteresis() {
    let mut admission = AdmissionController::new(gb_to_bytes(10), gb_to_bytes(8)).unwrap();
    assert!(admission.may_start());

    admission.observe(&usage(12));
    assert!(!admission.may_start());
    // Between the thresholds admission stays closed: no oscillation.
    admission.observe(&usage(9));
    assert!(!admission.may_start());
    admission.observe(&usage(7));
    assert!(admission.may_start());
    // And it stays open between the thresholds once reopened.
    admission.observe(&usage(9));
    assert!(admission.may_start());
}

#[test]
fn test_invalidate_forces_fresh_reading() {
    let mut monitor =
        DiskMonitor::new(gb_to_bytes(250), gb_to_bytes(10), gb_to_bytes(8), 60).unwrap();
    assert_eq!(monitor.current_usage(100), None);

    monitor.record_usage(usage(12), 100);
    assert_eq!(monitor.current_usage(110), Some(usage(12)));

    // The worker deleted files: the cached reading must not survive.
    monitor.invalidate_cache();
    assert_eq!(monitor.current_usage(111), None);

    monitor.record_usage(usage(7), 112);
    assert_eq!(monitor.current_usage(113), Some(usage(7)));
}

#[test]
fn test_cached_reading_expires() {
    let mut monitor =
        DiskMonitor::new(gb_to_bytes(250), gb_to_bytes(10), gb_to_bytes(8), 5).unwrap();
    monitor.record_usage(usage(3), 100);
    assert_eq!(monitor.current_usage(104), Some(usage(3)));
    assert_eq!(monitor.current_usage(105), None);
}

#[test]
fn test_breakdown_reports_percent_and_admission() {
    let monitor =
        DiskMonitor::new(gb_to_bytes(250), gb_to_bytes(230), gb_to_bytes(200), 5).unwrap();
    let b = monitor.get_breakdown(usage(125));
    assert_eq!(b.used_percent, 50);
    assert!(b.can_download);
    let full = monitor.get_breakdown(usage(240));
    assert_eq!(full.used_percent, 96);
    assert!(!full.can_download);
}

#[test]
fn test_gb_to_bytes() {
    assert_eq!(gb_to_bytes(0), 0);
    assert_eq!(gb_to_bytes(3), 3_000_000_000);
    assert_eq!(gb_to_bytes(u64::MAX), u64::MAX);
}
