//! The outcome model: the closed `Status` enumeration and the immutable
//! `ServiceResult` record produced exactly once per service check.

use vstd::prelude::*;
use vstd::string::StringExecFns;

verus! {

/// Terminal status of one service check. No other values exist, and a
/// result's status never changes after it is built.
#[derive(Debug, Clone, Copy, PartialEq, Eq, Structural)]
pub enum Status {
    Pass,
    Fail,
    Skip,
}

impl Status {
    /// The fixed upper-case text used for this status in reports.
    pub open spec fn spec_str(self) -> Seq<char> {
        match self {
            Status::Pass => "PASS"@,
            Status::Fail => "FAIL"@,
            Status::Skip => "SKIP"@,
        }
    }

    pub fn as_str(&self) -> (r: &str)
        ensures
            r@ == self.spec_str(),
    {
        match self {
            Status::Pass => "PASS",
            Status::Fail => "FAIL",
            Status::Skip => "SKIP",
        }
    }

    /// The glyph a rendered result line carries for this status.
    pub open spec fn spec_symbol(self) -> Seq<char> {
        match self {
            Status::Pass => "✓"@,
            Status::Fail => "✗"@,
            Status::Skip => "⊘"@,
        }
    }

    pub fn symbol(&self) -> (r: &str)
        ensures
            r@ == self.spec_symbol(),
    {
        match self {
            Status::Pass => "✓",
            Status::Fail => "✗",
            Status::Skip => "⊘",
        }
    }

    /// The ANSI color escape a rendered result line starts with: green for
    /// Pass, red for Fail, yellow for Skip.
    pub open spec fn spec_color(self) -> Seq<char> {
        match self {
            Status::Pass => "\x1b[32m"@,
            Status::Fail => "\x1b[31m"@,
            Status::Skip => "\x1b[33m"@,
        }
    }

    pub fn color(&self) -> (r: &str)
        ensures
            r@ == self.spec_color(),
    {
        match self {
            Status::Pass => "\x1b[32m",
            Status::Fail => "\x1b[31m",
            Status::Skip => "\x1b[33m",
        }
    }
}

/// The immutable record of one service's check: which service, through which
/// client, how it ended, a human-readable detail, and how long the probe body
/// ran (0 when it never ran).
#[derive(Debug)]
pub struct ServiceResult {
    pub service: String,
    pub client: String,
    pub status: Status,
    pub detail: String,
    pub duration_ms: u128,
}

/// A terminal Skip outcome: the probe body was suppressed before it ever
/// ran, so no time was spent and `duration_ms` is 0.
pub fn skip_result(service: &str, client: &str, reason: &str) -> (r: ServiceResult)
    ensures
        r.service@ == service@,
        r.client@ == client@,
        r.status == Status::Skip,
        r.detail@ == reason@,
        r.duration_ms == 0,
{
    ServiceResult {
        service: String::from_str(service),
        client: String::from_str(client),
        status: Status::Skip,
        detail: String::from_str(reason),
        duration_ms: 0,
    }
}

/// A terminal Fail outcome produced before the probe body ever ran, so
/// `duration_ms` is 0.
pub fn fail_result(service: &str, client: &str, reason: &str) -> (r: ServiceResult)
    ensures
        r.service@ == service@,
        r.client@ == client@,
        r.status == Status::Fail,
        r.detail@ == reason@,
        r.duration_ms == 0,
{
    ServiceResult {
        service: String::from_str(service),
        client: String::from_str(client),
        status: Status::Fail,
        detail: String::from_str(reason),
        duration_ms: 0,
    }
}

} // verus!
