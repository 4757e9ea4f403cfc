//! The subtargets audit report.
//!
//! The audit command walks a set of requested targets, computes each
//! target's providers through the incremental engine, and prints every
//! subtarget name of the compatible ones.  The driving command plumbing
//! (pattern parsing, provider computation, the output streams) is an
//! external collaborator; what is computed here is the report itself:
//! the stdout listing, the stderr failure text, and the overall outcome.

use vstd::prelude::*;
use vstd::string::*;
use crate::text::spec_indent;

verus! {

/// The outcome of computing one target's providers: the target's
/// rendered label, and either its subtarget names in order or the
/// rendered evaluation error.
#[derive(Debug)]
pub struct SubtargetsResult {
    /// The rendered label of the target.
    pub target: String,
    /// The target's subtarget names, or its evaluation error text.
    pub outcome: Result<Vec<String>, String>,
}

/// One stdout line per subtarget: `target[subtarget]`.
pub open spec fn spec_target_lines(target: Seq<char>, subs: Seq<String>) -> Seq<char>
    decreases subs.len(),
{
    if subs.len() == 0 {
        Seq::<char>::empty()
    } else {
        target + "["@ + subs[0]@ + "]\n"@ + spec_target_lines(target, subs.drop_first())
    }
}

/// What one target contributes to stdout: its subtarget lines if its
/// providers computed, nothing otherwise.
pub open spec fn spec_stdout_one(r: SubtargetsResult) -> Seq<char> {
    match r.outcome {
        Ok(subs) => spec_target_lines(r.target@, subs@),
        Err(_) => Seq::<char>::empty(),
    }
}

/// The whole stdout listing, in request order.
pub open spec fn spec_report_stdout(rs: Seq<SubtargetsResult>) -> Seq<char>
    decreases rs.len(),
{
    if rs.len() == 0 {
        Seq::<char>::empty()
    } else {
        spec_stdout_one(rs[0]) + spec_report_stdout(rs.drop_first())
    }
}

/// What one target contributes to stderr: its indented failure text if
/// its evaluation failed, nothing otherwise.
pub open spec fn spec_stderr_one(r: SubtargetsResult) -> Seq<char> {
    match r.outcome {
        Ok(_) => Seq::<char>::empty(),
        Err(m) => r.target@ + ": failed:\n"@ + spec_indent("  "@, m@),
    }
}

/// The whole stderr text, in request order.
pub open spec fn spec_report_stderr(rs: Seq<SubtargetsResult>) -> Seq<char>
    decreases rs.len(),
{
    if rs.len() == 0 {
        Seq::<char>::empty()
    } else {
        spec_stderr_one(rs[0]) + spec_report_stderr(rs.drop_first())
    }
}

/// Whether at least one target's evaluation failed.
pub open spec fn spec_any_failed(rs: Seq<SubtargetsResult>) -> bool
    decreases rs.len(),
{
    rs.len() > 0 && (rs[0].outcome is Err || spec_any_failed(rs.drop_first()))
}

/// The rendered report: what goes to stdout and stderr, and whether any
/// target failed.
#[derive(Debug)]
pub struct SubtargetsReport {
    /// One `target[subtarget]` line per subtarget of each computed target.
    pub stdout: String,
    /// The indented failure text of each failed target.
    pub stderr: String,
    /// Whether at least one target's evaluation failed.
    pub any_failed: bool,
}

impl SubtargetsReport {
    /// The command's overall outcome: an error exactly when at least one target
    /// provider failed to evaluate.
    pub fn evaluation_result(&self) -> (r: Result<(), String>)
        ensures
            r is Err <==> self.any_failed,
            r matches Err(m) ==> m@ == "Evaluation of at least one target provider failed"@,
    {
        if self.any_failed {
            Err(String::from_str("Evaluation of at least one target provider failed"))
        } else {
            Ok(())
        }
    }
}

/// Builds the subtargets report from the per-target provider outcomes, in
/// request order: every computed target contributes one line per
/// subtarget, every failed one contributes its indented failure text.
pub fn subtargets_report(results: &Vec<SubtargetsResult>) -> (r: SubtargetsReport)
    ensures
        r.stdout@ == spec_report_stdout(results@),
        r.stderr@ == spec_report_stderr(results@),
        r.any_failed == spec_any_failed(results@),
{
    let n = results.len();
    let mut stdout = String::new();
    let mut stderr = String::new();
    let mut any_failed = false;
    let mut i: usize = 0;
    proof {
        assert(results@.skip(0) =~= results@);
        assert(stdout@ + spec_report_stdout(results@) =~= spec_report_stdout(results@));
        assert(stderr@ + spec_report_stderr(results@) =~= spec_report_stderr(results@));
    }
    while i < n
        invariant
            i <= n,
            n == results@.len(),
            spec_report_stdout(results@) == stdout@ + spec_report_stdout(results@.skip(i as int)),
            spec_report_stderr(results@) == stderr@ + spec_report_stderr(results@.skip(i as int)),
            spec_any_failed(results@) == (any_failed || spec_any_failed(results@.skip(i as int))),
        decreases n - i,
    {
        proof {
            assert(results@.skip(i as int)[0] == results@[i as int]);
            assert(results@.skip(i as int).drop_first() =~= results@.skip(i as int + 1));
        }
        let res = &results[i];
        match &res.outcome {
            Ok(subs) => {
                let m_len = subs.len();
                let mut j: usize = 0;
                proof {
                    assert(subs@.skip(0) =~= subs@);
                    assert(spec_stdout_one(results@[i as int]) == spec_target_lines(
                        res.target@,
                        subs@,
                    ));
                    assert(spec_report_stdout(results@) =~= stdout@ + spec_target_lines(
                        res.target@,
                        subs@.skip(0),
                    ) + spec_report_stdout(results@.skip(i as int + 1)));
                }
                while j < m_len
                    invariant
                        j <= m_len,
                        m_len == subs@.len(),
                        spec_report_stdout(results@) == stdout@ + spec_target_lines(
                            res.target@,
                            subs@.skip(j as int),
                        ) + spec_report_stdout(results@.skip(i as int + 1)),
                    decreases m_len - j,
                {
                    proof {
                        assert(subs@.skip(j as int)[0] == subs@[j as int]);
                        assert(subs@.skip(j as int).drop_first() =~= subs@.skip(j as int + 1));
                    }
                    stdout.append(res.target.as_str());
                    stdout.append("[");
                    stdout.append(subs[j].as_str());
                    stdout.append("]\n");
                    proof {
                        assert(spec_report_stdout(results@) =~= stdout@ + spec_target_lines(
                            res.target@,
                            subs@.skip(j as int + 1),
                        ) + spec_report_stdout(results@.skip(i as int + 1)));
                    }
                    j = j + 1;
                }
                proof {
                    assert(subs@.skip(m_len as int) =~= Seq::<String>::empty());
                    assert(spec_report_stdout(results@) =~= stdout@ + spec_report_stdout(
                        results@.skip(i as int + 1),
                    ));
                    assert(spec_report_stderr(results@) =~= stderr@ + spec_report_stderr(
                        results@.skip(i as int + 1),
                    ));
                }
            },
            Err(msg) => {
                stderr.append(res.target.as_str());
                stderr.append(": failed:\n");
                let ind = crate::text::indent("  ", msg.as_str());
                stderr.append(ind.as_str());
                any_failed = true;
                proof {
                    assert(spec_report_stdout(results@) =~= stdout@ + spec_report_stdout(
                        results@.skip(i as int + 1),
                    ));
                    assert(spec_report_stderr(results@) =~= stderr@ + spec_report_stderr(
                        results@.skip(i as int + 1),
                    ));
                }
            },
        }
        i = i + 1;
    }
    proof {
        assert(results@.skip(n as int) =~= Seq::<SubtargetsResult>::empty());
        assert(stdout@ + spec_report_stdout(results@.skip(n as int)) =~= stdout@);
        assert(stderr@ + spec_report_stderr(results@.skip(n as int)) =~= stderr@);
    }
    SubtargetsReport { stdout, stderr, any_failed }
}

} // verus!
