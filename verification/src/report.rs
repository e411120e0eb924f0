//! The health report: threshold configuration, injected readings, and
//! the evaluation that assembles the three check results.

use vstd::prelude::*;

use crate::checks::CheckResult;
use crate::checks::CheckResultView;
use crate::checks::cpu_check;
use crate::checks::cpu_check_spec;
use crate::checks::disk_check;
use crate::checks::disk_check_spec;
use crate::checks::memory_check;
use crate::checks::memory_check_spec;
use crate::config::with_default_spec;
use crate::config::parse_with_default;
use crate::opt_text;

verus! {

pub const DEFAULT_DISK_FAILURE_THRESHOLD: u64 = 90;

pub const DEFAULT_DISK_WARNING_THRESHOLD: u64 = 80;

pub const DEFAULT_MEMORY_FAILURE_THRESHOLD: u64 = 80;

pub const DEFAULT_MEMORY_WARNING_THRESHOLD: u64 = 70;

pub const DEFAULT_CPU_FAILURE_THRESHOLD: u64 = 80;

pub const DEFAULT_CPU_WARNING_THRESHOLD: u64 = 70;

pub const DEFAULT_CPU_TIMESPAN_MS: u64 = 500;

/// The per-metric thresholds, as integer percentages, and the CPU
/// sampling window in milliseconds. The informal invariant that a
/// failure threshold is at least its warning threshold is assumed by
/// the classification rule, not enforced here.
#[derive(Clone, Copy, Debug, PartialEq, Eq, Structural)]
pub struct Thresholds {
    pub disk_failure: u64,
    pub disk_warning: u64,
    pub memory_failure: u64,
    pub memory_warning: u64,
    pub cpu_failure: u64,
    pub cpu_warning: u64,
    pub cpu_timespan_ms: u64,
}

/// The documented default thresholds: disk 80/90, memory 70/80,
/// CPU 70/80, and a 500 ms sampling window.
pub open spec fn default_thresholds_spec() -> Thresholds {
    Thresholds {
        disk_failure: DEFAULT_DISK_FAILURE_THRESHOLD,
        disk_warning: DEFAULT_DISK_WARNING_THRESHOLD,
        memory_failure: DEFAULT_MEMORY_FAILURE_THRESHOLD,
        memory_warning: DEFAULT_MEMORY_WARNING_THRESHOLD,
        cpu_failure: DEFAULT_CPU_FAILURE_THRESHOLD,
        cpu_warning: DEFAULT_CPU_WARNING_THRESHOLD,
        cpu_timespan_ms: DEFAULT_CPU_TIMESPAN_MS,
    }
}

/// Builds the default threshold configuration.
pub fn default_thresholds() -> (t: Thresholds)
    ensures
        t == default_thresholds_spec(),
{
    Thresholds {
        disk_failure: DEFAULT_DISK_FAILURE_THRESHOLD,
        disk_warning: DEFAULT_DISK_WARNING_THRESHOLD,
        memory_failure: DEFAULT_MEMORY_FAILURE_THRESHOLD,
        memory_warning: DEFAULT_MEMORY_WARNING_THRESHOLD,
        cpu_failure: DEFAULT_CPU_FAILURE_THRESHOLD,
        cpu_warning: DEFAULT_CPU_WARNING_THRESHOLD,
        cpu_timespan_ms: DEFAULT_CPU_TIMESPAN_MS,
    }
}

/// Builds the threshold configuration from raw configuration entries,
/// one optional text per setting, falling back to the documented default
/// for each entry that is absent or unparsable.
pub fn thresholds_from_settings(
    disk_failure: &Option<String>,
    disk_warning: &Option<String>,
    memory_failure: &Option<String>,
    memory_warning: &Option<String>,
    cpu_failure: &Option<String>,
    cpu_warning: &Option<String>,
    cpu_timespan_ms: &Option<String>,
) -> (t: Thresholds)
    ensures
        t.disk_failure == with_default_spec(opt_text(*disk_failure), DEFAULT_DISK_FAILURE_THRESHOLD),
        t.disk_warning == with_default_spec(opt_text(*disk_warning), DEFAULT_DISK_WARNING_THRESHOLD),
        t.memory_failure == with_default_spec(
            opt_text(*memory_failure),
            DEFAULT_MEMORY_FAILURE_THRESHOLD,
        ),
        t.memory_warning == with_default_spec(
            opt_text(*memory_warning),
            DEFAULT_MEMORY_WARNING_THRESHOLD,
        ),
        t.cpu_failure == with_default_spec(opt_text(*cpu_failure), DEFAULT_CPU_FAILURE_THRESHOLD),
        t.cpu_warning == with_default_spec(opt_text(*cpu_warning), DEFAULT_CPU_WARNING_THRESHOLD),
        t.cpu_timespan_ms == with_default_spec(opt_text(*cpu_timespan_ms), DEFAULT_CPU_TIMESPAN_MS),
{
    Thresholds {
        disk_failure: parse_with_default(disk_failure, DEFAULT_DISK_FAILURE_THRESHOLD),
        disk_warning: parse_with_default(disk_warning, DEFAULT_DISK_WARNING_THRESHOLD),
        memory_failure: parse_with_default(memory_failure, DEFAULT_MEMORY_FAILURE_THRESHOLD),
        memory_warning: parse_with_default(memory_warning, DEFAULT_MEMORY_WARNING_THRESHOLD),
        cpu_failure: parse_with_default(cpu_failure, DEFAULT_CPU_FAILURE_THRESHOLD),
        cpu_warning: parse_with_default(cpu_warning, DEFAULT_CPU_WARNING_THRESHOLD),
        cpu_timespan_ms: parse_with_default(cpu_timespan_ms, DEFAULT_CPU_TIMESPAN_MS),
    }
}

/// The raw readings one evaluation consumes, obtained fresh for every
/// request: summed disk space over all visible volumes, physical memory,
/// and one CPU usage percentage per core.
#[derive(Clone, Debug, PartialEq, Eq)]
pub struct Readings {
    pub disk_total: u64,
    pub disk_available: u64,
    pub memory_total: u64,
    pub memory_available: u64,
    pub cpu_per_core: Vec<u64>,
}

/// The mathematical image of `Readings`.
#[verifier::ext_equal]
pub ghost struct ReadingsView {
    pub disk_total: u64,
    pub disk_available: u64,
    pub memory_total: u64,
    pub memory_available: u64,
    pub cpu_per_core: Seq<u64>,
}

impl View for Readings {
    type V = ReadingsView;

    open spec fn view(&self) -> ReadingsView {
        ReadingsView {
            disk_total: self.disk_total,
            disk_available: self.disk_available,
            memory_total: self.memory_total,
            memory_available: self.memory_available,
            cpu_per_core: self.cpu_per_core@,
        }
    }
}

impl Readings {
    /// What is available never exceeds what exists.
    pub open spec fn wf(&self) -> bool {
        self.disk_available <= self.disk_total && self.memory_available <= self.memory_total
    }
}

/// The complete response to one admitted request: a timestamp in seconds
/// since the epoch, captured at response-assembly time, and the three
/// check results in fixed order.
#[derive(Clone, Debug, PartialEq, Eq)]
pub struct HealthReport {
    pub finished_at: u64,
    pub check_results: Vec<CheckResult>,
}

/// The mathematical image of a `HealthReport`.
#[verifier::ext_equal]
pub ghost struct HealthReportView {
    pub finished_at: u64,
    pub check_results: Seq<CheckResultView>,
}

impl View for HealthReport {
    type V = HealthReportView;

    open spec fn view(&self) -> HealthReportView {
        HealthReportView {
            finished_at: self.finished_at,
            check_results: Seq::new(
                self.check_results@.len(),
                |i: int| self.check_results@[i]@,
            ),
        }
    }
}

/// The report one evaluation produces: exactly the disk, memory and CPU
/// check results, in that fixed order, wrapped with the timestamp.
pub open spec fn report_spec(r: ReadingsView, t: Thresholds, finished_at: u64) -> HealthReportView {
    HealthReportView {
        finished_at: finished_at,
        check_results: seq![
            disk_check_spec(t.disk_failure, t.disk_warning, r.disk_total, r.disk_available),
            memory_check_spec(
                t.memory_failure,
                t.memory_warning,
                r.memory_total,
                r.memory_available,
            ),
            cpu_check_spec(t.cpu_failure, t.cpu_warning, r.cpu_per_core),
        ],
    }
}

/// Runs the three independent checks on the injected readings and
/// assembles the report. Every evaluation is fresh: nothing is carried
/// over between requests, and a degenerate reading in one check leaves
/// the other results intact.
pub fn evaluate(readings: &Readings, thresholds: &Thresholds, finished_at: u64) -> (r: HealthReport)
    requires
        readings.wf(),
    ensures
        r@ == report_spec(readings@, *thresholds, finished_at),
        r@.check_results.len() == 3,
{
    let disk = disk_check(
        thresholds.disk_failure,
        thresholds.disk_warning,
        readings.disk_total,
        readings.disk_available,
    );
    let memory = memory_check(
        thresholds.memory_failure,
        thresholds.memory_warning,
        readings.memory_total,
        readings.memory_available,
    );
    let cpu = cpu_check(thresholds.cpu_failure, thresholds.cpu_warning, &readings.cpu_per_core);
    let mut check_results: Vec<CheckResult> = Vec::new();
    check_results.push(disk);
    check_results.push(memory);
    check_results.push(cpu);
    let r = HealthReport { finished_at, check_results };
    proof {
        assert(r@.check_results =~= report_spec(readings@, *thresholds, finished_at).check_results);
        assert(r@ =~= report_spec(readings@, *thresholds, finished_at));
    }
    r
}

/// Law: the report always holds exactly three check results, in the
/// fixed order disk, memory, CPU, whatever their individual statuses.
pub proof fn lemma_report_shape(r: ReadingsView, t: Thresholds, finished_at: u64)
    ensures
        report_spec(r, t, finished_at).check_results.len() == 3,
        report_spec(r, t, finished_at).check_results[0] == disk_check_spec(
            t.disk_failure,
            t.disk_warning,
            r.disk_total,
            r.disk_available,
        ),
        report_spec(r, t, finished_at).check_results[1] == memory_check_spec(
            t.memory_failure,
            t.memory_warning,
            r.memory_total,
            r.memory_available,
        ),
        report_spec(r, t, finished_at).check_results[2] == cpu_check_spec(
            t.cpu_failure,
            t.cpu_warning,
            r.cpu_per_core,
        ),
        report_spec(r, t, finished_at).check_results[0].name == "UsedDiskSpace"@,
        report_spec(r, t, finished_at).check_results[1].name == "MemorySpace"@,
        report_spec(r, t, finished_at).check_results[2].name == "Load"@,
{
}

/// Law: evaluation is repeatable. Two reports built from identical
/// readings and identical thresholds carry identical check results; only
/// the timestamp differs.
pub proof fn lemma_evaluation_idempotent(r: ReadingsView, t: Thresholds, first: u64, second: u64)
    ensures
        report_spec(r, t, first).check_results == report_spec(r, t, second).check_results,
{
    assert(report_spec(r, t, first).check_results =~= report_spec(r, t, second).check_results);
}

} // verus!
