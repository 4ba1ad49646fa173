use prompt_pipeline::stats::StatsRecorder;

#[test]
fn rolling_average_is_the_arithmetic_mean() {
    // After recording durations 1..=n, the reported average equals the
    // integer arithmetic mean of them, for every n up to 100.
    let mut recorder = StatsRecorder::new();
    let mut sum: u64 = 0;
    for n in 1..=100u64 {
        recorder.record(true, n);
        sum += n;
        let snap = recorder.snapshot();
        assert_eq!(snap.total_requests, n);
        assert_eq!(snap.average_response_time_ms, sum / n);
    }
}

#[test]
fn empty_recorder_reports_zeroes() {
    let recorder = StatsRecorder::new();
    let snap = recorder.snapshot();
    assert_eq!(snap.total_requests, 0);
    assert_eq!(snap.successful_requests, 0);
    assert_eq!(snap.failed_requests, 0);
    assert_eq!(snap.average_response_time_ms, 0);
    assert_eq!(snap.success_rate_percent, 0);
}

#[test]
fn counters_split_by_success() {
    let mut recorder = StatsRecorder::new();
    recorder.record(true, 10);
    recorder.record(false, 20);
    recorder.record(true, 30);
    recorder.record(true, 40);
    let snap = recorder.snapshot();
    assert_eq!(snap.total_requests, 4);
    assert_eq!(snap.successful_requests, 3);
    assert_eq!(snap.failed_requests, 1);
    assert_eq!(snap.average_response_time_ms, (10 + 20 + 30 + 40) / 4);
    assert_eq!(snap.success_rate_percent, 75);
}

#[test]
fn success_rate_rounds_down() {
    let mut recorder = StatsRecorder::new();
    recorder.record(true, 1);
    recorder.record(true, 1);
    recorder.record(false, 1);
    // 2/3 as a percentage, rounded down.
    assert_eq!(recorder.snapshot().success_rate_percent, 66);
}

#[test]
fn average_with_uneven_durations_rounds_down() {
    let mut recorder = StatsRecorder::new();
    recorder.record(true, 3);
    recorder.record(false, 4);
    // (3 + 4) / 2 rounded down.
    assert_eq!(recorder.snapshot().average_response_time_ms, 3);
}
