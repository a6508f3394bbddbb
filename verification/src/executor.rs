//! The timed executor: runs one probe body under wall-clock timing and
//! turns whatever came back — a success detail or a failure reason — into a
//! uniform `ServiceResult`, and the per-service entry point that puts the
//! admission decision in front of it.

use vstd::prelude::*;
use vstd::string::StringExecFns;

use crate::config::opt_str_view;
use crate::config::resolved_bool;
use crate::gate::gate_needs_probe;
use crate::gate::skip_detail_spec;
use crate::gate::unreachable_detail_spec;
use crate::gate::verify_service_gate;
use crate::outcome::ServiceResult;
use crate::outcome::Status;

verus! {

/// `std::time::Instant`, used only as an opaque start mark for measuring
/// how long a probe body ran.
#[verifier::external_type_specification]
#[verifier::external_body]
pub struct ExInstant(std::time::Instant);

/// Relies on `std::time::Instant::now`. Which instant comes back depends on
/// the clock, so nothing is promised of it.
#[verifier::external_body]
fn instant_now() -> std::time::Instant {
    std::time::Instant::now()
}

/// Relies on `std::time::Instant::elapsed`. The span depends on the clock
/// at the moment of the call, so nothing is promised of it.
#[verifier::external_body]
fn elapsed_since(start: &std::time::Instant) -> std::time::Duration {
    start.elapsed()
}

/// Relies on `std::time::Duration::as_millis`: the whole milliseconds of
/// the span. The value is bounded only by the clock, so nothing is promised
/// of it beyond its type.
#[verifier::external_body]
fn duration_millis(d: &std::time::Duration) -> u128 {
    d.as_millis()
}

/// How a `ServiceResult` reflects what a probe body returned: a success
/// detail becomes a Pass carrying it, a failure reason becomes a Fail
/// carrying it. No failure kind escapes this shape.
pub open spec fn probe_outcome_matches(r: ServiceResult, o: Result<String, String>) -> bool {
    match o {
        Ok(detail) => r.status == Status::Pass && r.detail@ == detail@,
        Err(reason) => r.status == Status::Fail && r.detail@ == reason@,
    }
}

/// Run one probe body and capture its outcome uniformly: timing starts
/// immediately before the call and stops immediately after, whatever
/// happened, and any failure collapses to a Fail carrying its message
/// rather than propagating.
pub fn run_check<F: FnOnce() -> Result<String, String>>(service: &str, client: &str, func: F) -> (r:
    ServiceResult)
    requires
        call_requires(func, ()),
    ensures
        r.service@ == service@,
        r.client@ == client@,
        exists|o: Result<String, String>|
            #[trigger] call_ensures(func, (), o) && probe_outcome_matches(r, o),
{
    let start = instant_now();
    let outcome = func();
    let span = elapsed_since(&start);
    let duration_ms = duration_millis(&span);
    match outcome {
        Ok(detail) => ServiceResult {
            service: String::from_str(service),
            client: String::from_str(client),
            status: Status::Pass,
            detail,
            duration_ms,
        },
        Err(reason) => ServiceResult {
            service: String::from_str(service),
            client: String::from_str(client),
            status: Status::Fail,
            detail: reason,
            duration_ms,
        },
    }
}

/// One service's whole check: decide admission, performing the
/// reachability wait `reach_probe` only when that decision consults it,
/// and run the probe body `func` only when it is let through.
///
/// A disabled flag yields the Skip outcome and an unreachable service the
/// Fail outcome, both with duration 0 and without running the probe body;
/// otherwise the result reflects what the probe body returned, under
/// timing.
pub fn check_service<G: FnOnce() -> bool, F: FnOnce() -> Result<String, String>>(
    service: &str,
    client: &str,
    env_flag: &str,
    flag_value: Option<&String>,
    default_enabled: bool,
    host: &str,
    port: u16,
    reach_probe: G,
    func: F,
) -> (r: ServiceResult)
    requires
        call_requires(reach_probe, ()),
        call_requires(func, ()),
    ensures
        r.service@ == service@,
        r.client@ == client@,
        !resolved_bool(opt_str_view(flag_value), default_enabled) ==> r.status == Status::Skip
            && r.detail@ == skip_detail_spec(env_flag@) && r.duration_ms == 0,
        resolved_bool(opt_str_view(flag_value), default_enabled) && port == 0 ==> exists|
            o: Result<String, String>,
        | #[trigger] call_ensures(func, (), o) && probe_outcome_matches(r, o),
        resolved_bool(opt_str_view(flag_value), default_enabled) && port > 0 ==> exists|
            reach: bool,
        |
            #[trigger] call_ensures(reach_probe, (), reach) && (if reach {
                exists|o: Result<String, String>|
                    #[trigger] call_ensures(func, (), o) && probe_outcome_matches(r, o)
            } else {
                r.status == Status::Fail && r.detail@ == unreachable_detail_spec(host@, port)
                    && r.duration_ms == 0
            }),
{
    let reachable = if gate_needs_probe(flag_value, default_enabled, port) {
        reach_probe()
    } else {
        false
    };
    match verify_service_gate(
        service,
        client,
        env_flag,
        flag_value,
        default_enabled,
        host,
        port,
        reachable,
    ) {
        Some(terminal) => terminal,
        None => run_check(service, client, func),
    }
}

} // verus!
