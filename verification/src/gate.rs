//! Decides whether a service's probe body may run at all — its enable flag
//! combined with TCP reachability — and builds the terminal Skip or Fail
//! outcome when it may not.
//!
//! The reachability wait itself is I/O and lives with the caller; the
//! caller asks `gate_needs_probe` whether to perform it, then hands the
//! outcome back here as a plain boolean.

use vstd::prelude::*;
use vstd::string::StringExecFns;

use crate::config::env_bool;
use crate::config::opt_str_view;
use crate::config::resolved_bool;
use crate::outcome::fail_result;
use crate::outcome::skip_result;
use crate::outcome::ServiceResult;
use crate::outcome::Status;
use crate::text::dec_rep;
use crate::text::u64_to_string;

verus! {

/// The whole reachability wait gives up after this many milliseconds.
pub const GATE_WAIT_TIMEOUT_MS: u64 = 2000;

/// Each single TCP connect attempt inside the wait is capped at this many
/// milliseconds.
pub const CONNECT_ATTEMPT_TIMEOUT_MS: u64 = 500;

/// The wait sleeps this many milliseconds between attempts.
pub const RETRY_SLEEP_MS: u64 = 200;

/// The reachability wait keeps polling exactly while the elapsed time is
/// still under the timeout; this is the loop's only decision.
pub fn wait_window_open(elapsed_ms: u128, timeout_ms: u64) -> (r: bool)
    ensures
        r == (elapsed_ms < timeout_ms),
{
    elapsed_ms < timeout_ms as u128
}

/// The detail of a Skip outcome for a disabled service.
pub open spec fn skip_detail_spec(env_flag: Seq<char>) -> Seq<char> {
    env_flag + "=false -> service intentionally disabled"@
}

pub fn skip_detail(env_flag: &str) -> (r: String)
    ensures
        r@ == skip_detail_spec(env_flag@),
{
    let mut r = String::from_str(env_flag);
    r.append("=false -> service intentionally disabled");
    r
}

/// The detail of a Fail outcome for an unreachable service.
pub open spec fn unreachable_detail_spec(host: Seq<char>, port: u16) -> Seq<char> {
    host + ":"@ + dec_rep(port as int) + " is not reachable"@
}

pub fn unreachable_detail(host: &str, port: u16) -> (r: String)
    ensures
        r@ == unreachable_detail_spec(host@, port),
{
    let mut r = String::from_str(host);
    r.append(":");
    let p = u64_to_string(port as u64);
    r.append(p.as_str());
    r.append(" is not reachable");
    r
}

/// The admission decision, given the enable flag's value, the default
/// enablement, the port and the reachability outcome: `Some` status and
/// detail of a terminal outcome, or `None` to let the probe body run.
///
/// A disabled flag skips without ever consulting reachability; port 0 means
/// reachability is not applicable.
pub open spec fn spec_gate(
    env_flag: Seq<char>,
    flag_value: Option<Seq<char>>,
    default_enabled: bool,
    host: Seq<char>,
    port: u16,
    reachable: bool,
) -> Option<(Status, Seq<char>)> {
    if !resolved_bool(flag_value, default_enabled) {
        Some((Status::Skip, skip_detail_spec(env_flag)))
    } else if port > 0 && !reachable {
        Some((Status::Fail, unreachable_detail_spec(host, port)))
    } else {
        None
    }
}

/// Whether admission will consult reachability at all: only an enabled
/// service with a positive port is probed. Callers perform the TCP wait
/// exactly when this returns true and hand the outcome to
/// `verify_service_gate`.
pub fn gate_needs_probe(flag_value: Option<&String>, default_enabled: bool, port: u16) -> (r:
    bool)
    ensures
        r == (resolved_bool(opt_str_view(flag_value), default_enabled) && port > 0),
{
    env_bool(flag_value, default_enabled) && port > 0
}

/// Decide admission for one service: `None` lets the probe body run;
/// `Some` is the terminal result, a Skip when the flag disabled the
/// service, a Fail when the service was not reachable. Either way the
/// probe body never ran, so the duration is 0.
///
/// `flag_value` is the enable variable's value (`None` when unset) and
/// `reachable` the outcome of the reachability wait; when reachability is
/// not consulted (disabled, or port 0) the argument is ignored.
pub fn verify_service_gate(
    service: &str,
    client: &str,
    env_flag: &str,
    flag_value: Option<&String>,
    default_enabled: bool,
    host: &str,
    port: u16,
    reachable: bool,
) -> (r: Option<ServiceResult>)
    ensures
        match r {
            None => spec_gate(
                env_flag@,
                opt_str_view(flag_value),
                default_enabled,
                host@,
                port,
                reachable,
            ) is None,
            Some(res) => {
                &&& spec_gate(
                    env_flag@,
                    opt_str_view(flag_value),
                    default_enabled,
                    host@,
                    port,
                    reachable,
                ) == Some((res.status, res.detail@))
                &&& res.service@ == service@
                &&& res.client@ == client@
                &&& res.duration_ms == 0
            },
        },
{
    if !env_bool(flag_value, default_enabled) {
        let reason = skip_detail(env_flag);
        return Some(skip_result(service, client, reason.as_str()));
    }
    if port > 0 && !reachable {
        let reason = unreachable_detail(host, port);
        return Some(fail_result(service, client, reason.as_str()));
    }
    None
}

/// When a service's enable flag resolves to false, admission always
/// decides a Skip carrying the disabled detail — reachability and the
/// probe body are never consulted, and the outcome spends no time.
pub proof fn lemma_gate_disabled_skips(
    env_flag: Seq<char>,
    flag_value: Option<Seq<char>>,
    default_enabled: bool,
    host: Seq<char>,
    port: u16,
    reachable: bool,
)
    requires
        !resolved_bool(flag_value, default_enabled),
    ensures
        spec_gate(env_flag, flag_value, default_enabled, host, port, reachable) == Some(
            (Status::Skip, skip_detail_spec(env_flag)),
        ),
{
}

/// When an enabled service has a positive port and the reachability wait
/// came back false, admission always decides a Fail whose detail names the
/// unreachable host and port — the probe body is never consulted.
pub proof fn lemma_gate_unreachable_fails(
    env_flag: Seq<char>,
    flag_value: Option<Seq<char>>,
    default_enabled: bool,
    host: Seq<char>,
    port: u16,
)
    requires
        resolved_bool(flag_value, default_enabled),
        port > 0,
    ensures
        spec_gate(env_flag, flag_value, default_enabled, host, port, false) == Some(
            (Status::Fail, unreachable_detail_spec(host, port)),
        ),
{
}

} // verus!
