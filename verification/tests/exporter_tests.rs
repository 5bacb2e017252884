use peerx::exporter::{listen_port, parse_unsigned, poll_interval_secs, rpc_url, ExporterMetrics, PollOutcome};

#[test]
fn parses_like_rust_unsigned_integers() {
    assert_eq!(parse_unsigned("15", u64::MAX), Some(15));
    assert_eq!(parse_unsigned("+15", u64::MAX), Some(15));
    assert_eq!(parse_unsigned("007", u64::MAX), Some(7));
    assert_eq!(parse_unsigned("-1", u64::MAX), None);
    assert_eq!(parse_unsigned("", u64::MAX), None);
    assert_eq!(parse_unsigned("+", u64::MAX), None);
    assert_eq!(parse_unsigned(" 15", u64::MAX), None);
    assert_eq!(parse_unsigned("1é", u64::MAX), None);
    assert_eq!(parse_unsigned("18446744073709551615", u64::MAX), Some(u64::MAX));
    assert_eq!(parse_unsigned("18446744073709551616", u64::MAX), None);
    assert_eq!(parse_unsigned("65535", 65_535), Some(65_535));
    assert_eq!(parse_unsigned("65536", 65_535), None);
}

#[test]
fn settings_fall_back_to_defaults() {
    assert_eq!(poll_interval_secs(None), 15);
    assert_eq!(poll_interval_secs(Some("30")), 30);
    assert_eq!(poll_interval_secs(Some("abc")), 15);
    assert_eq!(listen_port(None), 9090);
    assert_eq!(listen_port(Some("8080")), 8080);
    assert_eq!(listen_port(Some("70000")), 9090);
    assert_eq!(rpc_url(None), "https://soroban-rpc.mainnet.stellar.org");
    assert_eq!(rpc_url(Some("http://localhost:8000".to_string())), "http://localhost:8000");
}

#[test]
fn successful_poll_sets_the_gauges() {
    let mut m = ExporterMetrics::new();
    let updated = m.apply_poll(&PollOutcome::Answered(Some(vec![Some(10), Some(5), Some(6_666)])), 1_700_000_000);
    assert!(updated);
    assert_eq!(m.cache_hits, 10);
    assert_eq!(m.cache_misses, 5);
    assert_eq!(m.cache_hit_ratio_bps, 6_666);
    assert_eq!(m.last_poll_timestamp, 1_700_000_000);
    assert_eq!(m.poll_errors_total, 0);
}

#[test]
fn entries_that_are_not_integers_read_as_zero() {
    let mut m = ExporterMetrics::new();
    assert!(m.apply_poll(&PollOutcome::Answered(Some(vec![None, Some(2), Some(3), Some(4)])), 9));
    assert_eq!((m.cache_hits, m.cache_misses, m.cache_hit_ratio_bps), (0, 2, 3));
}

#[test]
fn short_or_non_array_answers_change_nothing() {
    let mut m = ExporterMetrics::new();
    m.apply_poll(&PollOutcome::Answered(Some(vec![Some(1), Some(2), Some(3)])), 5);
    let before = m;
    assert!(!m.apply_poll(&PollOutcome::Answered(Some(vec![Some(9)])), 6));
    assert!(!m.apply_poll(&PollOutcome::Answered(None), 7));
    assert_eq!(m, before);
}

#[test]
fn failed_polls_are_counted() {
    let mut m = ExporterMetrics::new();
    assert!(!m.apply_poll(&PollOutcome::Failed, 1));
    assert!(!m.apply_poll(&PollOutcome::Failed, 2));
    assert_eq!(m.poll_errors_total, 2);
    assert_eq!(m.last_poll_timestamp, 0);
}
