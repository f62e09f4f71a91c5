use selfplay::writer::ThroughputMeter;

#[test]
fn a_report_is_owed_once_the_interval_elapses_with_matching_counts() {
    let mut m = ThroughputMeter::new(0, 5000);
    assert_eq!(m.tick(4999), None);

    m.record(3);
    m.record(5);

    let rep = m.tick(5000).unwrap();
    assert_eq!(rep.replay_count, 2);
    assert_eq!(rep.sample_count, 8);
    assert_eq!(rep.elapsed_millis, 5000);
    // 2 replays over 5 s: 0.4 replays/s, in thousandths.
    assert_eq!(rep.replays_per_sec_milli, 400);
    // 8 samples over 5 s: 1.6 samples/s, in thousandths.
    assert_eq!(rep.samples_per_sec_milli, 1600);
}

#[test]
fn a_lull_in_arrivals_delays_the_next_report() {
    let mut m = ThroughputMeter::new(1000, 2000);
    m.record(1);
    assert!(m.tick(3000).is_some());
    // The next deadline moved one interval on, independent of arrivals.
    assert_eq!(m.tick(4999), None);
    let rep = m.tick(6000).unwrap();
    assert_eq!(rep.replay_count, 1);
    assert_eq!(rep.elapsed_millis, 5000);
}
