use net_harvest::filter::Filter;
use net_harvest::filter::should_include;
use net_harvest::harvest::NetworkHarvest;
use net_harvest::harvest::SamplingState;
use net_harvest::provider::get_network_data;
use net_harvest::rate::compute_rate;
use net_harvest::sample::InterfaceSample;
use net_harvest::sample::aggregate_totals;
use net_harvest::sample::collect_samples;
use net_harvest::sample::compute_harvest;

fn ignore_list(patterns: &[&str]) -> Option<Filter> {
    Some(Filter {
        is_list_ignored: true,
        list: patterns.iter().map(|p| p.to_string()).collect(),
    })
}

fn allow_list(patterns: &[&str]) -> Option<Filter> {
    Some(Filter {
        is_list_ignored: false,
        list: patterns.iter().map(|p| p.to_string()).collect(),
    })
}

#[test]
fn rate_is_exact_quotient_of_delta() {
    // 8000 bits over 2 seconds.
    assert_eq!(compute_rate(9000, 1000, 2000), 4000);
    // 1 bit over 1 second.
    assert_eq!(compute_rate(1001, 1000, 1000), 1);
    // Truncation: 999 bits over 2 seconds.
    assert_eq!(compute_rate(1999, 1000, 2000), 499);
    // No delta, no rate.
    assert_eq!(compute_rate(500, 500, 2000), 0);
}

#[test]
fn rate_of_counter_reset_is_zero() {
    assert_eq!(compute_rate(100, 500, 2000), 0);
    assert_eq!(compute_rate(0, u64::MAX, 1000), 0);
}

#[test]
fn rate_of_zero_elapsed_is_zero() {
    assert_eq!(compute_rate(9000, 1000, 0), 0);
    assert_eq!(compute_rate(u64::MAX, 0, 0), 0);
}

#[test]
fn rate_saturates_at_u64_max() {
    // u64::MAX bits in one millisecond would scale past the range.
    assert_eq!(compute_rate(u64::MAX, 0, 1), u64::MAX);
}

#[test]
fn ignore_list_excludes_matched_names() {
    let filter = ignore_list(&["^lo$"]);
    assert!(!should_include("lo", &filter));
    assert!(should_include("eth0", &filter));
}

#[test]
fn allow_list_keeps_only_matched_names() {
    let filter = allow_list(&["^eth"]);
    assert!(should_include("eth0", &filter));
    assert!(!should_include("wlan0", &filter));
}

#[test]
fn absent_filter_includes_everything() {
    assert!(should_include("lo", &None));
    assert!(should_include("eth0", &None));
    assert!(should_include("wlan0", &None));
    assert!(should_include("", &None));
}

#[test]
fn empty_ignore_list_includes_everything() {
    let filter = ignore_list(&[]);
    assert!(should_include("lo", &filter));
    assert!(should_include("eth0", &filter));
}

#[test]
fn empty_allow_list_excludes_everything() {
    let filter = allow_list(&[]);
    assert!(!should_include("lo", &filter));
    assert!(!should_include("eth0", &filter));
}

#[test]
fn later_pattern_still_matches() {
    let filter = ignore_list(&["^dummy$", "^lo$"]);
    assert!(!should_include("lo", &filter));
    assert!(!should_include("dummy", &filter));
    assert!(should_include("eth0", &filter));
}

#[test]
fn disabled_cycle_returns_none_and_keeps_state() {
    let networks = sysinfo::Networks::new();
    let mut state = SamplingState {
        prev_rx: 123,
        prev_tx: 456,
        prev_access_time_ms: 789,
    };
    let r = get_network_data(&networks, &mut state, 5000, false, &None);
    assert!(matches!(r, Ok(None)));
    assert_eq!(state.prev_rx, 123);
    assert_eq!(state.prev_tx, 456);
    assert_eq!(state.prev_access_time_ms, 789);
}

#[test]
fn enabled_cycle_on_empty_snapshot_reports_zeroes() {
    let networks = sysinfo::Networks::new();
    let mut state = SamplingState {
        prev_rx: 0,
        prev_tx: 0,
        prev_access_time_ms: 0,
    };
    let r = get_network_data(&networks, &mut state, 1000, true, &None);
    let h = r.expect("provider cannot fail").expect("enabled cycle yields a harvest");
    assert_eq!(h.total_rx, 0);
    assert_eq!(h.total_tx, 0);
    assert_eq!(h.rx, 0);
    assert_eq!(h.tx, 0);
    assert_eq!(state.prev_access_time_ms, 1000);
}

#[test]
fn two_second_cycle_scenario() {
    let mut state = SamplingState {
        prev_rx: 1000,
        prev_tx: 500,
        prev_access_time_ms: 0,
    };
    let samples = vec![InterfaceSample::from_bits("eth0".to_string(), 9000, 500)];
    let h = compute_harvest(&samples, &None, &mut state, 2000);
    assert_eq!(h.rx, 4000);
    assert_eq!(h.tx, 0);
    assert_eq!(h.total_rx, 9000);
    assert_eq!(h.total_tx, 500);
    assert_eq!(state.prev_rx, 9000);
    assert_eq!(state.prev_tx, 500);
    assert_eq!(state.prev_access_time_ms, 2000);
}

#[test]
fn first_run_starts_from_zeroed_counters() {
    let state = SamplingState::new();
    assert_eq!(state.prev_rx, 0);
    assert_eq!(state.prev_tx, 0);
    assert_eq!(state.prev_access_time_ms, 0);

    // The first snapshot's rates are an artifact of counters the OS had
    // already accumulated; the cleanup zeroes them and keeps the totals.
    let mut state = SamplingState::new();
    let samples = vec![InterfaceSample::from_bits("eth0".to_string(), 8000, 4000)];
    let mut h = compute_harvest(&samples, &None, &mut state, 1000);
    assert_eq!(h.rx, 8000);
    h.first_run_cleanup();
    assert_eq!(h.rx, 0);
    assert_eq!(h.tx, 0);
    assert_eq!(h.total_rx, 8000);
    assert_eq!(h.total_tx, 4000);
}

#[test]
fn byte_counters_normalize_to_bits() {
    let s = InterfaceSample::from_bytes("eth0".to_string(), 3, 5);
    assert_eq!(s.rx_bits, 24);
    assert_eq!(s.tx_bits, 40);
    // The top of the range saturates instead of wrapping.
    let s = InterfaceSample::from_bytes("eth0".to_string(), u64::MAX, u64::MAX / 8 + 1);
    assert_eq!(s.rx_bits, u64::MAX);
    assert_eq!(s.tx_bits, u64::MAX);
}

#[test]
fn aggregate_sums_only_included_interfaces() {
    let samples = vec![
        InterfaceSample::from_bits("eth0".to_string(), 800, 1600),
        InterfaceSample::from_bits("lo".to_string(), 100000, 200000),
    ];
    let filter = ignore_list(&["^lo$"]);
    let (rx, tx) = aggregate_totals(&samples, &filter);
    assert_eq!(rx, 800);
    assert_eq!(tx, 1600);
    let (rx, tx) = aggregate_totals(&samples, &None);
    assert_eq!(rx, 100800);
    assert_eq!(tx, 201600);
}

#[test]
fn aggregate_saturates_instead_of_wrapping() {
    let samples = vec![
        InterfaceSample::from_bits("eth0".to_string(), u64::MAX, u64::MAX),
        InterfaceSample::from_bits("eth1".to_string(), 1, 2),
    ];
    let (rx, tx) = aggregate_totals(&samples, &None);
    assert_eq!(rx, u64::MAX);
    assert_eq!(tx, u64::MAX);
}

#[test]
fn unreadable_entries_are_silently_skipped() {
    let entries = vec![
        Some(InterfaceSample::from_bits("eth0".to_string(), 100, 200)),
        None,
        Some(InterfaceSample::from_bits("wlan0".to_string(), 300, 400)),
    ];
    let samples = collect_samples(entries);
    assert_eq!(samples.len(), 2);
    assert_eq!(samples[0].name, "eth0");
    assert_eq!(samples[0].rx_bits, 100);
    assert_eq!(samples[1].name, "wlan0");
    assert_eq!(samples[1].tx_bits, 400);
}

#[test]
fn default_harvest_is_empty() {
    let h = NetworkHarvest::default();
    assert_eq!(h.rx, 0);
    assert_eq!(h.tx, 0);
    assert_eq!(h.total_rx, 0);
    assert_eq!(h.total_tx, 0);
}
