use dispatch_core::FileStats;

#[test]
fn counters_start_at_zero() {
    let stats = FileStats::new();
    assert_eq!(stats.scanned(), 0);
    assert_eq!(stats.skipped(), 0);
}

#[test]
fn add_scanned_increments_only_scanned() {
    let mut stats = FileStats::new();
    stats.add_scanned();
    stats.add_scanned();
    assert_eq!(stats.scanned(), 2);
    assert_eq!(stats.skipped(), 0);
}

#[test]
fn add_skipped_increments_only_skipped() {
    let mut stats = FileStats::new();
    stats.add_scanned();
    stats.add_skipped();
    assert_eq!(stats.scanned(), 1);
    assert_eq!(stats.skipped(), 1);
}
