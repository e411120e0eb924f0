//! A machine-readable host health check.
//!
//! The library holds the decision-making core of a health-check endpoint:
//! an authentication guard that admits or rejects a request by comparing a
//! shared secret, and a check evaluator that classifies disk, memory and CPU
//! readings against configurable thresholds and assembles the results into
//! one report. Sampling the host and serving HTTP are left to the caller,
//! which hands the raw readings in as plain values.

use vstd::prelude::*;

pub mod auth;
pub mod checks;
pub mod config;
pub mod render;
pub mod report;

verus! {

/// The text carried by an optional string, if any.
pub open spec fn opt_text(s: Option<String>) -> Option<Seq<char>> {
    match s {
        Option::Some(x) => Option::Some(x@),
        Option::None => Option::None,
    }
}

/// The assembled application, as one decision: a request arrives with an
/// optional secret header, the auth guard admits or rejects it, and only
/// on admission are the three checks evaluated into a report. A rejected
/// request yields the reason and nothing else; the evaluator never runs.
/// The caller supplies the configuration and the freshly sampled
/// readings, and serves the result.
pub fn rocket(
    secret: &Option<String>,
    header: &Option<String>,
    readings: &report::Readings,
    thresholds: &report::Thresholds,
    finished_at: u64,
) -> (r: Result<report::HealthReport, auth::AuthError>)
    requires
        readings.wf(),
    ensures
        r is Ok <==> auth::authorize_spec(opt_text(*secret), opt_text(*header))
            == auth::AuthOutcome::Admitted,
        r is Ok ==> r->Ok_0@ == report::report_spec(readings@, *thresholds, finished_at),
        r is Err ==> auth::authorize_spec(opt_text(*secret), opt_text(*header))
            == auth::AuthOutcome::Rejected(r->Err_0),
{
    match auth::authorize(secret, header) {
        auth::AuthOutcome::Admitted => Ok(report::evaluate(readings, thresholds, finished_at)),
        auth::AuthOutcome::Rejected(reason) => Err(reason),
    }
}

} // verus!
