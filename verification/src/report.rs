//! The aggregator: tallies an ordered run of service results by status and
//! derives the process exit code — nonzero exactly when something failed.

use vstd::prelude::*;
use vstd::string::StringExecFns;

use crate::outcome::ServiceResult;
use crate::outcome::Status;
use crate::text::dec_rep;
use crate::text::u64_to_string;

verus! {

/// How many results in the run carry the given status.
pub open spec fn count_status(rs: Seq<ServiceResult>, st: Status) -> int
    decreases rs.len(),
{
    if rs.len() == 0 {
        0
    } else {
        count_status(rs.drop_last(), st) + if rs.last().status == st {
            1int
        } else {
            0int
        }
    }
}

/// The tallies of one whole run.
#[derive(Debug, Clone, Copy, PartialEq, Eq, Structural)]
pub struct Summary {
    pub passed: usize,
    pub failed: usize,
    pub skipped: usize,
}

/// Tally the run: each count is the number of results with that status, and
/// the three counts partition the run.
pub fn summarize(results: &Vec<ServiceResult>) -> (s: Summary)
    ensures
        s.passed == count_status(results@, Status::Pass),
        s.failed == count_status(results@, Status::Fail),
        s.skipped == count_status(results@, Status::Skip),
        s.passed + s.failed + s.skipped == results@.len(),
{
    let mut passed: usize = 0;
    let mut failed: usize = 0;
    let mut skipped: usize = 0;
    let mut i: usize = 0;
    while i < results.len()
        invariant
            i <= results@.len(),
            passed == count_status(results@.subrange(0, i as int), Status::Pass),
            failed == count_status(results@.subrange(0, i as int), Status::Fail),
            skipped == count_status(results@.subrange(0, i as int), Status::Skip),
            passed + failed + skipped == i,
        decreases results@.len() - i,
    {
        proof {
            assert(results@.subrange(0, i as int + 1).drop_last() =~= results@.subrange(
                0,
                i as int,
            ));
            assert(results@.subrange(0, i as int + 1).last() == results@[i as int]);
        }
        match results[i].status {
            Status::Pass => passed += 1,
            Status::Fail => failed += 1,
            Status::Skip => skipped += 1,
        }
        i += 1;
    }
    proof {
        assert(results@.subrange(0, results@.len() as int) =~= results@);
    }
    Summary { passed, failed, skipped }
}

/// The one-line rendering of the tallies.
pub open spec fn summary_line_spec(s: Summary) -> Seq<char> {
    "Summary: "@ + dec_rep(s.passed as int) + " passed, "@ + dec_rep(s.failed as int)
        + " failed, "@ + dec_rep(s.skipped as int) + " skipped"@
}

pub fn summary_line(s: &Summary) -> (r: String)
    ensures
        r@ == summary_line_spec(*s),
{
    let mut r = String::from_str("Summary: ");
    let passed = u64_to_string(s.passed as u64);
    r.append(passed.as_str());
    r.append(" passed, ");
    let failed = u64_to_string(s.failed as u64);
    r.append(failed.as_str());
    r.append(" failed, ");
    let skipped = u64_to_string(s.skipped as u64);
    r.append(skipped.as_str());
    r.append(" skipped");
    r
}

/// The process-level failure signal is binary: any failed check makes the
/// exit code 1, and a run without failures — however many skips — exits 0.
pub fn exit_code(summary: &Summary) -> (r: i32)
    ensures
        r == (if summary.failed > 0 {
            1i32
        } else {
            0i32
        }),
{
    if summary.failed > 0 {
        1
    } else {
        0
    }
}

} // verus!
