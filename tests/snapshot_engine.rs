use process_monitor::disks::{aggregate_disks, is_root_path, DiskReading, DiskTotals};
use process_monitor::memory::memory_totals;
use process_monitor::nettop::{
    get_network_usage, parse_line, parse_usage_lines, LineOutcome, NetworkSource,
};
use process_monitor::snapshot::{build_records, ProcessReading};
use process_monitor::static_cache::{join_args, StaticInfoCache};
use process_monitor::status::{display_status, DisplayStatus, OsProcessStatus};
use process_monitor::throughput::{byte_rate, sum_counters, NetworkTracker};
use std::collections::HashMap;

fn strings(v: &[&str]) -> Vec<String> {
    v.iter().map(|s| s.to_string()).collect()
}

fn disk(mount: &str, total: u64, available: u64) -> DiskReading {
    DiskReading { mount_point: mount.to_string(), total_space: total, available_space: available }
}

fn reading(pid: u32, name: &str, argv: &[&str], user: Option<&str>) -> ProcessReading {
    ProcessReading {
        pid,
        parent: None,
        name: name.to_string(),
        argv: strings(argv),
        user_id: user.map(|u| u.to_string()),
        memory: 4096,
        status: OsProcessStatus::Run,
    }
}

#[test]
fn rx_rate_over_one_second() {
    let mut t = NetworkTracker::new(0, 1000, 500);
    let (rx, tx) = t.sample(1_000_000, 3000, 500);
    assert_eq!(rx, 2000);
    assert_eq!(tx, 0);
    assert_eq!(t, NetworkTracker { last_micros: 1_000_000, last_rx: 3000, last_tx: 500 });
}

#[test]
fn rate_over_half_second() {
    let mut t = NetworkTracker::new(2_000_000, 0, 0);
    assert_eq!(t.sample(2_500_000, 1000, 3), (2000, 6));
}

#[test]
fn counter_reset_gives_zero_rate() {
    let mut t = NetworkTracker::new(0, 5000, 5000);
    assert_eq!(t.sample(1_000_000, 100, 6000), (0, 1000));
    assert_eq!(t.last_rx, 100);
}

#[test]
fn non_decreasing_counters_over_several_samples() {
    let mut t = NetworkTracker::new(0, 0, 0);
    let readings = [(1_000_000u64, 10u64), (2_000_000, 10), (4_000_000, 50)];
    let mut rates = Vec::new();
    for (now, c) in readings {
        rates.push(t.sample(now, c, c).0);
    }
    assert_eq!(rates, vec![10, 0, 20]);
}

#[test]
fn samples_closer_than_a_millisecond_use_the_floor() {
    assert_eq!(byte_rate(0, 5, 0), 5000);
    assert_eq!(byte_rate(0, 5, 999), 5000);
    assert_eq!(byte_rate(0, 5, 1000), 5000);
    assert_eq!(byte_rate(0, 5, 2000), 2500);
    let mut t = NetworkTracker::new(7, 0, 0);
    assert_eq!(t.sample(7, 1, 0), (1000, 0));
}

#[test]
fn clock_going_backwards_uses_the_floor() {
    let mut t = NetworkTracker::new(10_000, 0, 0);
    assert_eq!(t.sample(5_000, 2, 0), (2000, 0));
}

#[test]
fn huge_rate_saturates() {
    assert_eq!(byte_rate(0, u64::MAX, 0), u64::MAX);
    assert_eq!(byte_rate(0, u64::MAX, 1_000_000), u64::MAX);
}

#[test]
fn interface_counters_are_summed() {
    assert_eq!(sum_counters(&vec![]), 0);
    assert_eq!(sum_counters(&vec![1, 2, 3]), 6);
    assert_eq!(sum_counters(&vec![u64::MAX, 1]), u64::MAX);
}

#[test]
fn cache_keeps_first_observation() {
    let mut cache = StaticInfoCache::new();
    let first = cache.get_or_create(7, &"bash".to_string(), &strings(&["bash", "-l"]), Some("1000".to_string()));
    assert_eq!(first.name, "bash");
    assert_eq!(first.command, "bash -l");
    assert_eq!(first.user, "1000");
    let second = cache.get_or_create(7, &"zsh".to_string(), &strings(&["zsh"]), None);
    assert_eq!(second.name, "bash");
    assert_eq!(second.command, "bash -l");
    assert_eq!(second.user, "1000");
}

#[test]
fn cache_missing_user_is_dash() {
    let mut cache = StaticInfoCache::new();
    let info = cache.get_or_create(1, &"init".to_string(), &vec![], None);
    assert_eq!(info.user, "-");
    assert_eq!(info.command, "");
}

#[test]
fn arguments_joined_with_spaces() {
    assert_eq!(join_args(&strings(&["ls", "-la", "/tmp"])), "ls -la /tmp");
    assert_eq!(join_args(&strings(&["one"])), "one");
    assert_eq!(join_args(&strings(&["", "x"])), " x");
    assert_eq!(join_args(&vec![]), "");
}

#[test]
fn only_root_disk_counts() {
    let disks = vec![disk("/", 1000, 400), disk("/data", 5000, 1000), disk("/mnt/usb", 64, 32)];
    assert_eq!(aggregate_disks(&disks), DiskTotals { total: 1000, used: 600, free: 400 });
}

#[test]
fn no_root_disk_gives_zero() {
    let disks = vec![disk("/data", 5000, 1000), disk("//", 10, 5), disk("", 1, 1)];
    assert_eq!(aggregate_disks(&disks), DiskTotals { total: 0, used: 0, free: 0 });
    assert_eq!(aggregate_disks(&vec![]), DiskTotals { total: 0, used: 0, free: 0 });
}

#[test]
fn two_root_entries_add_up() {
    let disks = vec![disk("/", 100, 30), disk("/boot", 9, 9), disk("/", 50, 60)];
    assert_eq!(aggregate_disks(&disks), DiskTotals { total: 150, used: 70, free: 90 });
}

#[test]
fn root_path_test() {
    assert!(is_root_path("/"));
    assert!(!is_root_path("/data"));
    assert!(!is_root_path(""));
    assert!(!is_root_path("\\"));
}

#[test]
fn memory_cached_is_always_zero() {
    for (total, used) in [(0u64, 0u64), (16_000, 4_000), (u64::MAX, 1), (u64::MAX, u64::MAX), (10, 20)] {
        let m = memory_totals(total, used);
        assert_eq!(m.cached, 0);
        assert_eq!(m.total, total);
        assert_eq!(m.used, used);
    }
    assert_eq!(memory_totals(16_000, 4_000).free, 12_000);
    assert_eq!(memory_totals(10, 20).free, 0);
}

#[test]
fn sleep_maps_to_sleeping() {
    let s = display_status(OsProcessStatus::Sleep);
    assert_eq!(s, DisplayStatus::Sleeping);
    assert_eq!(s.label(), "Sleeping");
}

#[test]
fn status_mapping() {
    assert_eq!(display_status(OsProcessStatus::Run).label(), "Running");
    assert_eq!(display_status(OsProcessStatus::Idle).label(), "Idle");
    assert_eq!(display_status(OsProcessStatus::Zombie).label(), "Unknown");
    assert_eq!(display_status(OsProcessStatus::Unknown(9)).label(), "Unknown");
    assert_eq!(display_status(OsProcessStatus::UninterruptibleDiskSleep), DisplayStatus::Unknown);
}

#[test]
fn line_with_usage() {
    assert_eq!(parse_line("firefox.42,1200,300,"), LineOutcome::Usage { pid: 42, rx: 1200, tx: 300 });
    assert_eq!(
        parse_line("12:00:01.123 Google Chrome H.1234,0,77,extra"),
        LineOutcome::Usage { pid: 1234, rx: 0, tx: 77 }
    );
}

#[test]
fn header_and_blank_lines_are_skipped() {
    assert_eq!(parse_line("time,,bytes_in,bytes_out,"), LineOutcome::Skipped);
    assert_eq!(parse_line(""), LineOutcome::Skipped);
    assert_eq!(parse_line(".1,2,3,"), LineOutcome::Skipped);
    assert_eq!(parse_line("a.1,2,3"), LineOutcome::Skipped);
    assert_eq!(parse_line("a.1,,3,"), LineOutcome::Skipped);
}

#[test]
fn last_dot_of_first_token_wins() {
    assert_eq!(parse_line("x.1,2,3,.9,8,7,"), LineOutcome::Usage { pid: 9, rx: 8, tx: 7 });
    assert_eq!(parse_line("a.1,2,3, b.4,5,6,"), LineOutcome::Usage { pid: 1, rx: 2, tx: 3 });
    assert_eq!(parse_line("skip a.1,2, b.4,5,6,"), LineOutcome::Usage { pid: 4, rx: 5, tx: 6 });
}

#[test]
fn oversized_numbers_are_malformed() {
    assert_eq!(parse_line("p.4294967296,1,2,"), LineOutcome::Malformed);
    assert_eq!(parse_line("p.4294967295,18446744073709551615,0,"), LineOutcome::Usage {
        pid: u32::MAX,
        rx: u64::MAX,
        tx: 0
    });
    assert_eq!(parse_line("p.1,18446744073709551616,0,"), LineOutcome::Malformed);
}

#[test]
fn report_lines_build_usage_map() {
    let lines = strings(&["time,bytes_in,bytes_out,", "a.10,1,2,", "b.20,3,4,", "a.10,5,6,"]);
    let m = parse_usage_lines(&lines).unwrap();
    assert_eq!(m.len(), 2);
    assert_eq!(m.get(&10), Some(&(5, 6)));
    assert_eq!(m.get(&20), Some(&(3, 4)));
}

#[test]
fn malformed_line_fails_report() {
    let lines = strings(&["a.10,1,2,", "b.99999999999,3,4,", "c.5,1,1,"]);
    let e = parse_usage_lines(&lines).unwrap_err();
    assert_eq!(e.line, 1);
}

#[test]
fn unsupported_platform_gives_empty_usage() {
    let m = get_network_usage(&NetworkSource::Unsupported).unwrap();
    assert!(m.is_empty());
    let m = get_network_usage(&NetworkSource::Report(strings(&["x.3,4,5,"]))).unwrap();
    assert_eq!(m.get(&3), Some(&(4, 5)));
}

#[test]
fn records_merge_cache_and_usage() {
    let mut cache = StaticInfoCache::new();
    let mut usage = HashMap::new();
    usage.insert(42u32, (100u64, 200u64));
    let mut first = reading(42, "worker", &["worker", "--fast"], Some("501"));
    first.parent = Some(1);
    first.status = OsProcessStatus::Sleep;
    let readings = vec![first, reading(43, "idle", &[], None)];
    let recs = build_records(&mut cache, &readings, &usage);
    assert_eq!(recs.len(), 2);
    assert_eq!(recs[0].pid, 42);
    assert_eq!(recs[0].ppid, 1);
    assert_eq!(recs[0].name, "worker");
    assert_eq!(recs[0].command, "worker --fast");
    assert_eq!(recs[0].user, "501");
    assert_eq!(recs[0].status.label(), "Sleeping");
    assert_eq!((recs[0].network_rx, recs[0].network_tx), (100, 200));
    assert_eq!(recs[0].memory_usage, 4096);
    assert_eq!(recs[1].ppid, 0);
    assert_eq!(recs[1].user, "-");
    assert_eq!((recs[1].network_rx, recs[1].network_tx), (0, 0));

    let again = vec![reading(42, "renamed", &["other"], Some("0"))];
    let recs = build_records(&mut cache, &again, &HashMap::new());
    assert_eq!(recs[0].name, "worker");
    assert_eq!(recs[0].command, "worker --fast");
    assert_eq!(recs[0].user, "501");
}

#[test]
fn same_pid_twice_in_one_snapshot() {
    let mut cache = StaticInfoCache::new();
    let readings = vec![reading(5, "a", &["a"], None), reading(5, "b", &["b"], None)];
    let recs = build_records(&mut cache, &readings, &HashMap::new());
    assert_eq!(recs[1].name, "a");
}
