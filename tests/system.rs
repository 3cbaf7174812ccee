use cpu_speed::cpu::CPU;
use cpu_speed::system::{calculate_cpu_percent, ProcStat, FULL_USAGE};

fn stat(user: u64, nice: u64, system: u64, idle: u64) -> ProcStat {
    ProcStat { user, nice, system, idle, iowait: 0, irq: 0, softirq: 0, steal: 0 }
}

#[test]
fn usage_eighty_percent() {
    let previous = stat(100, 0, 50, 850);
    let current = stat(150, 0, 80, 870);
    assert_eq!(calculate_cpu_percent(&previous, &current), 8000);
    assert_eq!(calculate_cpu_percent(&previous, &current) as f64 / 100.0, 80.0);
}

#[test]
fn usage_identical_snapshots() {
    let s = stat(100, 0, 50, 850);
    assert_eq!(calculate_cpu_percent(&s, &s), 0);
}

#[test]
fn usage_never_idle() {
    let previous = stat(100, 0, 50, 850);
    let current = stat(160, 5, 85, 850);
    assert_eq!(calculate_cpu_percent(&previous, &current), FULL_USAGE);
}

#[test]
fn usage_counter_reset() {
    let previous = stat(1000, 0, 500, 8500);
    let current = stat(10, 0, 5, 85);
    assert_eq!(calculate_cpu_percent(&previous, &current), 0);
}

#[test]
fn usage_clamped_when_idle_outruns_total() {
    // Idle grew by more than the total: the raw ratio would be negative.
    let previous = ProcStat { user: 100, nice: 0, system: 0, idle: 100, iowait: 50, irq: 0, softirq: 0, steal: 0 };
    let current = ProcStat { user: 100, nice: 0, system: 0, idle: 130, iowait: 30, irq: 0, softirq: 0, steal: 0 };
    assert_eq!(calculate_cpu_percent(&previous, &current), 0);
    // Idle went down while the total grew: the raw ratio would pass 100 %.
    let previous = stat(100, 0, 0, 100);
    let current = stat(200, 0, 0, 90);
    assert_eq!(calculate_cpu_percent(&previous, &current), FULL_USAGE);
}

#[test]
fn usage_rounds_down_and_stays_in_range() {
    let previous = stat(0, 0, 0, 0);
    let current = stat(1, 0, 0, 2);
    assert_eq!(calculate_cpu_percent(&previous, &current), 3333);
    let big = ProcStat { user: u64::MAX, nice: u64::MAX, system: u64::MAX, idle: 0, iowait: u64::MAX, irq: u64::MAX, softirq: u64::MAX, steal: u64::MAX };
    let r = calculate_cpu_percent(&stat(0, 0, 0, 0), &big);
    assert_eq!(r, FULL_USAGE);
}

#[test]
fn update_usage_sets_field() {
    let mut cpu = CPU::new("cpu0".to_string(), 0);
    assert_eq!(cpu.update_usage(&stat(100, 0, 50, 850), &stat(150, 0, 80, 870)), Ok(()));
    assert_eq!(cpu.cur_usage, 8000);
}

#[test]
fn parse_stat_line() {
    let s = ProcStat::parse("cpu  100 0 50 850 3 4 5 6 7 8\n").unwrap();
    assert_eq!(s, ProcStat { user: 100, nice: 0, system: 50, idle: 850, iowait: 3, irq: 4, softirq: 5, steal: 6 });
    let s = ProcStat::parse("cpu3\t1 2 3 4 5 6 7 8").unwrap();
    assert_eq!(s.idle, 4);
    assert_eq!(s.steal, 8);
    let s = ProcStat::parse("cpu 18446744073709551615 0 0 0 0 0 0 0").unwrap();
    assert_eq!(s.user, u64::MAX);
}

#[test]
fn parse_stat_line_rejects() {
    assert_eq!(ProcStat::parse("cpu 1 2 3 4 5 6 7"), None);
    assert_eq!(ProcStat::parse("intr 1 2 3 4 5 6 7 8"), None);
    assert_eq!(ProcStat::parse("cpu 1 2 x 4 5 6 7 8"), None);
    assert_eq!(ProcStat::parse("cpu 18446744073709551616 0 0 0 0 0 0 0"), None);
    assert_eq!(ProcStat::parse(""), None);
}

#[test]
fn parsed_snapshots_give_usage() {
    let previous = ProcStat::parse("cpu 100 0 50 850 0 0 0 0").unwrap();
    let current = ProcStat::parse("cpu 150 0 80 870 0 0 0 0").unwrap();
    assert_eq!(calculate_cpu_percent(&previous, &current), 8000);
}
