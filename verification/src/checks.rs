//! Classification of metric readings against configured thresholds, and
//! the per-metric checks that turn raw readings into check results.

use vstd::prelude::*;
use vstd::string::StringExecFns;

use crate::render::message_seq;
use crate::render::percent_summary_seq;
use crate::render::build_message;
use crate::render::percent_summary;

verus! {

/// The classification of one metric reading. A reading at or above the
/// failure threshold is `Failed`, at or above the warning threshold is
/// `Warning`, otherwise `Okay`. `Unknown` is reserved for degenerate
/// readings (no disk space reported, no CPU cores) where no percentage
/// can be computed.
#[derive(Clone, Copy, Debug, PartialEq, Eq, Structural)]
pub enum Status {
    Okay,
    Warning,
    Failed,
    Unknown,
}

/// The shared classification rule: boundary readings belong to the
/// stricter bucket, so a reading exactly equal to a threshold takes that
/// threshold's severity.
pub open spec fn classify_spec(p: int, warn: int, fail: int) -> Status {
    if p >= fail {
        Status::Failed
    } else if p >= warn {
        Status::Warning
    } else {
        Status::Okay
    }
}

/// Ranks the classified statuses from least to most severe. `Unknown` is
/// never produced by `classify_spec`; it ranks above the classified
/// statuses only so that the ordering is total.
pub open spec fn severity(s: Status) -> int {
    match s {
        Status::Okay => 0,
        Status::Warning => 1,
        Status::Failed => 2,
        Status::Unknown => 3,
    }
}

/// Classifies the usage percentage `p` against the two thresholds.
pub fn classify(p: u64, warning_threshold: u64, failed_threshold: u64) -> (s: Status)
    ensures
        s == classify_spec(p as int, warning_threshold as int, failed_threshold as int),
{
    if p >= failed_threshold {
        Status::Failed
    } else if p >= warning_threshold {
        Status::Warning
    } else {
        Status::Okay
    }
}

/// The used fraction of a resource, as an integer percentage rounded
/// down: `100 - floor(available * 100 / total)`. Meaningful only for a
/// positive total and `available <= total`, where it lies in `[0, 100]`.
pub open spec fn used_percent_spec(total: int, available: int) -> int
    recommends
        0 < total,
        0 <= available <= total,
{
    100 - (available * 100) / total
}

/// Computes the used percentage of a resource from its total and
/// available amounts. Returns `None` exactly when the total is zero, the
/// degenerate case in which no percentage is defined.
pub fn used_percentage(total: u64, available: u64) -> (p: Option<u64>)
    requires
        available <= total,
    ensures
        p is Some <==> total > 0,
        total > 0 ==> p == Some((used_percent_spec(total as int, available as int)) as u64),
        total > 0 ==> 0 <= used_percent_spec(total as int, available as int) <= 100,
        p is Some ==> p->0 <= 100,
{
    if total == 0 {
        None
    } else {
        let q: u128 = ((available as u128) * 100) / (total as u128);
        proof {
            assert((available as int) * 100 <= (total as int) * 100) by (nonlinear_arith)
                requires
                    available <= total,
            ;
            assert(((available as int) * 100) / (total as int) >= 0) by (nonlinear_arith)
                requires
                    available >= 0,
                    total > 0,
            ;
            assert(((available as int) * 100) / (total as int) <= ((total as int) * 100) / (
            total as int)) by (nonlinear_arith)
                requires
                    (available as int) * 100 <= (total as int) * 100,
                    total > 0,
            ;
            assert(((total as int) * 100) / (total as int) == 100) by (nonlinear_arith)
                requires
                    total > 0,
            ;
        }
        Some(100 - (q as u64))
    }
}

/// The sum of a sequence of readings.
pub open spec fn sum_of(s: Seq<u64>) -> int
    decreases s.len(),
{
    if s.len() == 0 {
        0
    } else {
        sum_of(s.drop_last()) + s.last()
    }
}

/// The mean of a non-empty sequence of readings, rounded down. The sum
/// is truncated after the division, not each reading individually.
pub open spec fn average_spec(s: Seq<u64>) -> int
    recommends
        s.len() > 0,
{
    sum_of(s) / (s.len() as int)
}

proof fn lemma_sum_of_nonneg(s: Seq<u64>)
    ensures
        sum_of(s) >= 0,
    decreases s.len(),
{
    if s.len() > 0 {
        lemma_sum_of_nonneg(s.drop_last());
    }
}

/// Computes the mean per-core load from one reading per core. Returns
/// `None` exactly when there are no readings, the degenerate case in
/// which no average is defined.
pub fn average_load(readings: &Vec<u64>) -> (p: Option<u64>)
    ensures
        p is Some <==> readings@.len() > 0,
        readings@.len() > 0 ==> p == Some(average_spec(readings@) as u64),
        readings@.len() > 0 ==> 0 <= average_spec(readings@) <= u64::MAX,
{
    let n: usize = readings.len();
    if n == 0 {
        return None;
    }
    let mut total: u128 = 0;
    let mut i: usize = 0;
    while i < n
        invariant
            i <= n,
            n == readings@.len(),
            total == sum_of(readings@.take(i as int)),
            total <= (i as int) * (u64::MAX as int),
        decreases n - i,
    {
        proof {
            assert(readings@.take(i + 1).drop_last() =~= readings@.take(i as int));
            assert(readings@.take(i + 1).last() == readings@[i as int]);
            assert((i as int) * (u64::MAX as int) + (u64::MAX as int) == ((i + 1) as int) * (
            u64::MAX as int)) by (nonlinear_arith);
            assert(((i + 1) as int) * (u64::MAX as int) < u128::MAX as int) by (nonlinear_arith)
                requires
                    i + 1 <= u64::MAX,
            ;
        }
        total = total + (readings[i] as u128);
        i = i + 1;
    }
    proof {
        assert(readings@.take(n as int) =~= readings@);
        lemma_sum_of_nonneg(readings@);
        assert(total / (n as u128) <= ((n as int) * (u64::MAX as int)) / (n as int) == u64::MAX as int)
            by (nonlinear_arith)
            requires
                0 < n,
                0 <= total <= (n as int) * (u64::MAX as int),
        ;
    }
    let avg: u128 = total / (n as u128);
    Some(avg as u64)
}

/// Law: with `warn <= fail` the classification is always exactly one of
/// `Okay`, `Warning` or `Failed`, a reading equal to `fail` is `Failed`,
/// and a reading equal to `warn` but below `fail` is `Warning`.
pub proof fn lemma_classification_total(p: int, warn: int, fail: int)
    requires
        warn <= fail,
    ensures
        classify_spec(p, warn, fail) is Failed <==> p >= fail,
        classify_spec(p, warn, fail) is Warning <==> warn <= p < fail,
        classify_spec(p, warn, fail) is Okay <==> p < warn,
{
}

/// Law: with `warn <= fail` the classification is monotone: a larger
/// reading is never classified less severely than a smaller one.
pub proof fn lemma_classification_monotonic(p1: int, p2: int, warn: int, fail: int)
    requires
        warn <= fail,
        p1 <= p2,
    ensures
        severity(classify_spec(p1, warn, fail)) <= severity(classify_spec(p2, warn, fail)),
{
}

/// The machine-readable text of a status, as it appears in the report.
pub open spec fn status_text_seq(s: Status) -> Seq<char> {
    match s {
        Status::Okay => "ok"@,
        Status::Warning => "warning"@,
        Status::Failed => "failed"@,
        Status::Unknown => "unknown"@,
    }
}

impl Status {
    /// Renders the status as its machine-readable text.
    pub fn text(&self) -> (t: String)
        ensures
            t@ == status_text_seq(*self),
    {
        match self {
            Status::Okay => String::from_str("ok"),
            Status::Warning => String::from_str("warning"),
            Status::Failed => String::from_str("failed"),
            Status::Unknown => String::from_str("unknown"),
        }
    }
}

/// One classified metric: a stable machine identifier, a human-readable
/// label, the classification, and two pieces of text derived purely from
/// the computed percentage. Created once per check, never mutated.
#[derive(Clone, Debug, PartialEq, Eq)]
pub struct CheckResult {
    pub name: String,
    pub label: String,
    pub status: Status,
    pub notification_message: String,
    pub short_summary: String,
}

/// The mathematical image of a `CheckResult`: each text field as its
/// sequence of characters.
#[verifier::ext_equal]
pub ghost struct CheckResultView {
    pub name: Seq<char>,
    pub label: Seq<char>,
    pub status: Status,
    pub notification_message: Seq<char>,
    pub short_summary: Seq<char>,
}

impl View for CheckResult {
    type V = CheckResultView;

    open spec fn view(&self) -> CheckResultView {
        CheckResultView {
            name: self.name@,
            label: self.label@,
            status: self.status,
            notification_message: self.notification_message@,
            short_summary: self.short_summary@,
        }
    }
}

/// The disk check result for the given thresholds and readings: the used
/// percentage over all volumes together, classified, with its texts.
/// A total of zero (no volumes reported) yields the `Unknown` status.
pub open spec fn disk_check_spec(fail: u64, warn: u64, total: u64, available: u64) -> CheckResultView {
    if total == 0 {
        CheckResultView {
            name: "UsedDiskSpace"@,
            label: "Used Disk Space"@,
            status: Status::Unknown,
            notification_message: "The disk usage percentage could not be determined"@,
            short_summary: "unknown"@,
        }
    } else {
        let p = used_percent_spec(total as int, available as int);
        CheckResultView {
            name: "UsedDiskSpace"@,
            label: "Used Disk Space"@,
            status: classify_spec(p, warn as int, fail as int),
            notification_message: message_seq("The disk usage percentage is at ("@, p, "% used)"@),
            short_summary: percent_summary_seq(p),
        }
    }
}

/// Runs the disk check on the summed readings of all volumes.
pub fn disk_check(failed_threshold: u64, warning_threshold: u64, total_space: u64, available_space: u64) -> (c: CheckResult)
    requires
        available_space <= total_space,
    ensures
        c@ == disk_check_spec(failed_threshold, warning_threshold, total_space, available_space),
{
    let c = match used_percentage(total_space, available_space) {
        None => CheckResult {
            name: String::from_str("UsedDiskSpace"),
            label: String::from_str("Used Disk Space"),
            status: Status::Unknown,
            notification_message: String::from_str("The disk usage percentage could not be determined"),
            short_summary: String::from_str("unknown"),
        },
        Some(p) => CheckResult {
            name: String::from_str("UsedDiskSpace"),
            label: String::from_str("Used Disk Space"),
            status: classify(p, warning_threshold, failed_threshold),
            notification_message: build_message("The disk usage percentage is at (", p, "% used)"),
            short_summary: percent_summary(p),
        },
    };
    proof {
        assert(c@ =~= disk_check_spec(failed_threshold, warning_threshold, total_space, available_space));
    }
    c
}

/// The memory check result for the given thresholds and readings: the
/// used percentage of physical memory, classified, with its texts.
/// A total of zero yields the `Unknown` status.
pub open spec fn memory_check_spec(fail: u64, warn: u64, total: u64, available: u64) -> CheckResultView {
    if total == 0 {
        CheckResultView {
            name: "MemorySpace"@,
            label: "Memory Space"@,
            status: Status::Unknown,
            notification_message: "The memory usage percentage could not be determined"@,
            short_summary: "unknown"@,
        }
    } else {
        let p = used_percent_spec(total as int, available as int);
        CheckResultView {
            name: "MemorySpace"@,
            label: "Memory Space"@,
            status: classify_spec(p, warn as int, fail as int),
            notification_message: message_seq("The memory usage percentage is at ("@, p, "% used)"@),
            short_summary: percent_summary_seq(p),
        }
    }
}

/// Runs the memory check on the total and available physical memory.
pub fn memory_check(failed_threshold: u64, warning_threshold: u64, total_memory: u64, available_memory: u64) -> (c: CheckResult)
    requires
        available_memory <= total_memory,
    ensures
        c@ == memory_check_spec(failed_threshold, warning_threshold, total_memory, available_memory),
{
    let c = match used_percentage(total_memory, available_memory) {
        None => CheckResult {
            name: String::from_str("MemorySpace"),
            label: String::from_str("Memory Space"),
            status: Status::Unknown,
            notification_message: String::from_str("The memory usage percentage could not be determined"),
            short_summary: String::from_str("unknown"),
        },
        Some(p) => CheckResult {
            name: String::from_str("MemorySpace"),
            label: String::from_str("Memory Space"),
            status: classify(p, warning_threshold, failed_threshold),
            notification_message: build_message("The memory usage percentage is at (", p, "% used)"),
            short_summary: percent_summary(p),
        },
    };
    proof {
        assert(c@ =~= memory_check_spec(failed_threshold, warning_threshold, total_memory, available_memory));
    }
    c
}

/// The CPU check result for the given thresholds and per-core readings:
/// the mean load over all cores, truncated after the division, then
/// classified, with its texts. An empty reading (no cores reported)
/// yields the `Unknown` status.
pub open spec fn cpu_check_spec(fail: u64, warn: u64, readings: Seq<u64>) -> CheckResultView {
    if readings.len() == 0 {
        CheckResultView {
            name: "Load"@,
            label: "CPU Load"@,
            status: Status::Unknown,
            notification_message: "The cpu load could not be determined"@,
            short_summary: "unknown"@,
        }
    } else {
        let p = average_spec(readings);
        CheckResultView {
            name: "Load"@,
            label: "CPU Load"@,
            status: classify_spec(p, warn as int, fail as int),
            notification_message: message_seq("The cpu load in the last minute is ("@, p, "%)"@),
            short_summary: percent_summary_seq(p),
        }
    }
}

/// Runs the CPU check on one usage reading per core.
pub fn cpu_check(failed_threshold: u64, warning_threshold: u64, readings: &Vec<u64>) -> (c: CheckResult)
    ensures
        c@ == cpu_check_spec(failed_threshold, warning_threshold, readings@),
{
    let c = match average_load(readings) {
        None => CheckResult {
            name: String::from_str("Load"),
            label: String::from_str("CPU Load"),
            status: Status::Unknown,
            notification_message: String::from_str("The cpu load could not be determined"),
            short_summary: String::from_str("unknown"),
        },
        Some(p) => CheckResult {
            name: String::from_str("Load"),
            label: String::from_str("CPU Load"),
            status: classify(p, warning_threshold, failed_threshold),
            notification_message: build_message("The cpu load in the last minute is (", p, "%)"),
            short_summary: percent_summary(p),
        },
    };
    proof {
        assert(c@ =~= cpu_check_spec(failed_threshold, warning_threshold, readings@));
    }
    c
}

} // verus!
