//! Cumulative time-in-state counters and the utilization computed from two
//! of them.
use vstd::prelude::*;

use crate::decimal::{parse_u64, u64_value};
use crate::text::{occurs_at, split_words, words};

verus! {

/// One read of the cumulative jiffy counters of a CPU (or of all CPUs).
#[derive(Clone, Copy, Debug, PartialEq, Eq)]
pub struct ProcStat {
    pub user: u64,
    pub nice: u64,
    pub system: u64,
    pub idle: u64,
    pub iowait: u64,
    pub irq: u64,
    pub softirq: u64,
    pub steal: u64,
}

/// Utilization is reported in hundredths of a percent: this is 100.0 %.
pub const FULL_USAGE: u32 = 10000;

/// The sum of all the categories of a snapshot.
pub open spec fn total(s: ProcStat) -> int {
    s.user as int + s.nice as int + s.system as int + s.idle as int + s.iowait as int
        + s.irq as int + s.softirq as int + s.steal as int
}

pub open spec fn clamp_usage(x: int) -> int {
    if x < 0 {
        0
    } else if x > FULL_USAGE as int {
        FULL_USAGE as int
    } else {
        x
    }
}

/// Utilization between two snapshots, in hundredths of a percent, rounded
/// down: `100 * (1 - idle_delta / total_delta)` clamped to [0, 100], and 0
/// when the total did not grow.
pub open spec fn usage_of(previous: ProcStat, current: ProcStat) -> int {
    let total_delta = total(current) - total(previous);
    let idle_delta = current.idle as int - previous.idle as int;
    if total_delta <= 0 {
        0
    } else {
        clamp_usage((FULL_USAGE as int * (total_delta - idle_delta)) / total_delta)
    }
}

fn total_of(s: &ProcStat) -> (r: i128)
    ensures
        r == total(*s),
        0 <= r <= 8 * (u64::MAX as int),
{
    s.user as i128 + s.nice as i128 + s.system as i128 + s.idle as i128 + s.iowait as i128
        + s.irq as i128 + s.softirq as i128 + s.steal as i128
}

/// Utilization between `last_proc` and the later `current_proc`, in
/// hundredths of a percent.
pub fn calculate_cpu_percent(last_proc: &ProcStat, current_proc: &ProcStat) -> (r: u32)
    ensures
        r == usage_of(*last_proc, *current_proc),
        r <= FULL_USAGE,
{
    let total_delta: i128 = total_of(current_proc) - total_of(last_proc);
    let idle_delta: i128 = current_proc.idle as i128 - last_proc.idle as i128;
    if total_delta <= 0 {
        return 0;
    }
    let busy: i128 = total_delta - idle_delta;
    assert(-(u64::MAX as int) <= busy <= 9 * (u64::MAX as int));
    if busy <= 0 {
        assert((FULL_USAGE as int * busy) / (total_delta as int) <= 0) by (nonlinear_arith)
            requires
                busy <= 0,
                total_delta > 0,
        ;
        return 0;
    }
    let scaled: i128 = 10000 * busy;
    let raw: i128 = scaled / total_delta;
    if raw > 10000 {
        FULL_USAGE
    } else {
        raw as u32
    }
}

/// The counter in the `j`-th word of a statistics line.
pub open spec fn counter(w: Seq<Seq<char>>, j: int) -> u64 {
    u64_value(w[j])->Some_0
}

/// The snapshot that a statistics line such as `cpu0 100 0 50 850 0 0 0 0`
/// holds: a label starting with `cpu`, then at least eight counters, in the
/// order user, nice, system, idle, iowait, irq, softirq, steal. Counters past
/// the eighth are ignored.
pub open spec fn stat_of(line: Seq<char>) -> Option<ProcStat> {
    let w = words(line);
    if w.len() >= 9 && w[0].len() >= 3 && w[0].take(3) == "cpu"@ && (forall|j: int|
        1 <= j < 9 ==> #[trigger] u64_value(w[j]) is Some) {
        Some(
            ProcStat {
                user: counter(w, 1),
                nice: counter(w, 2),
                system: counter(w, 3),
                idle: counter(w, 4),
                iowait: counter(w, 5),
                irq: counter(w, 6),
                softirq: counter(w, 7),
                steal: counter(w, 8),
            },
        )
    } else {
        None
    }
}

fn field(w: &Vec<String>, j: usize) -> (r: Option<u64>)
    requires
        j < w@.len(),
    ensures
        r == u64_value(w@[j as int]@),
{
    parse_u64(w[j].as_str())
}

impl ProcStat {
    /// Parses one line of the kernel's statistics file.
    pub fn parse(line: &str) -> (r: Option<ProcStat>)
        ensures
            r == stat_of(line@),
    {
        let w = split_words(line);
        let ghost ws = w@.map_values(|x: String| x@);
        assert(forall|j: int| 0 <= j < w@.len() ==> ws[j] == #[trigger] w@[j]@);
        if w.len() < 9 {
            return None;
        }
        proof {
            reveal_strlit("cpu");
        }
        let label = w[0].as_str();
        if label.unicode_len() < 3 || !occurs_at(label, 0, "cpu") {
            return None;
        }
        assert(label@.subrange(0, 3) =~= label@.take(3));
        let mut vals: Vec<u64> = Vec::new();
        let mut j: usize = 1;
        while j < 9
            invariant
                1 <= j <= 9,
                w@.len() >= 9,
                ws == w@.map_values(|x: String| x@),
                ws == words(line@),
                vals@.len() == j - 1,
                forall|k: int| 1 <= k < j ==> #[trigger] u64_value(ws[k]) == Some(vals@[k - 1]),
            decreases 9 - j,
        {
            match field(&w, j) {
                Some(v) => vals.push(v),
                None => {
                    assert(u64_value(ws[j as int]) is None);
                    return None;
                },
            }
            j = j + 1;
        }
        assert(forall|k: int| 1 <= k < 9 ==> #[trigger] u64_value(ws[k]) is Some);
        Some(
            ProcStat {
                user: vals[0],
                nice: vals[1],
                system: vals[2],
                idle: vals[3],
                iowait: vals[4],
                irq: vals[5],
                softirq: vals[6],
                steal: vals[7],
            },
        )
    }
}

/// Whenever the total did not go down, utilization lies in [0 %, 100 %].
pub proof fn lemma_usage_in_range(previous: ProcStat, current: ProcStat)
    requires
        total(current) >= total(previous),
    ensures
        0 <= usage_of(previous, current) <= FULL_USAGE,
{
}

/// When no time passed between the snapshots, utilization is 0 %.
pub proof fn lemma_usage_no_interval(previous: ProcStat, current: ProcStat)
    requires
        total(current) == total(previous),
    ensures
        usage_of(previous, current) == 0,
{
}

/// When time passed and none of it was idle, utilization is 100 %.
pub proof fn lemma_usage_never_idle(previous: ProcStat, current: ProcStat)
    requires
        current.idle == previous.idle,
        total(current) > total(previous),
    ensures
        usage_of(previous, current) == FULL_USAGE,
{
    let t = total(current) - total(previous);
    assert((FULL_USAGE as int * t) / t == FULL_USAGE as int) by (nonlinear_arith)
        requires
            t > 0,
    ;
}

} // verus!
