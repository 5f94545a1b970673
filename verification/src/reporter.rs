//! The status-check side of result reporting: the check's lifecycle runs
//! `Queued → InProgress → Completed`, one way and without skipping, and the
//! completion carries a conclusion and a body derived from the run's
//! outcome, clamped to the remote host's length limit.

use vstd::prelude::*;
use vstd::string::*;
use vstd::utf8::encode_utf8;

use crate::clamp::clamp_lines;
use crate::clamp::spec_clamp_lines;

verus! {

/// The byte limit the remote host puts on a check run's body.
pub const CHECK_TEXT_LIMIT: usize = 65535;

#[derive(Debug, Clone, Copy, PartialEq, Eq, Structural)]
pub enum CheckConclusion {
    Success,
    Failure,
}

/// The states a report moves through; `Completed` is terminal.
#[derive(Debug, Clone, Copy, PartialEq, Eq, Structural)]
pub enum ReportState {
    Queued,
    InProgress,
    Completed(CheckConclusion),
}

/// The lifecycle of one status check. Its methods permit exactly the
/// transitions `Queued → InProgress → Completed(..)`: none can be skipped,
/// none goes back, and a completed check cannot change again.
pub struct CheckLifecycle {
    state: ReportState,
}

impl CheckLifecycle {
    pub closed spec fn state(&self) -> ReportState {
        self.state
    }

    /// A check starts out queued, as created at intake.
    pub fn new() -> (c: CheckLifecycle)
        ensures
            c.state() is Queued,
    {
        CheckLifecycle { state: ReportState::Queued }
    }

    /// Move to `InProgress`; only a queued check can start.
    pub fn start(&mut self)
        requires
            old(self).state() is Queued,
        ensures
            final(self).state() is InProgress,
    {
        self.state = ReportState::InProgress;
    }

    /// Complete with a conclusion; only a check in progress can complete.
    pub fn complete(&mut self, conclusion: CheckConclusion)
        requires
            old(self).state() is InProgress,
        ensures
            final(self).state() == ReportState::Completed(conclusion),
    {
        self.state = ReportState::Completed(conclusion);
    }
}

/// What the completed check is updated with.
pub struct CheckOutput {
    pub title: String,
    pub summary: String,
    /// The body, as UTF-8 bytes, already clamped to the host's limit.
    pub text: Vec<u8>,
    pub conclusion: CheckConclusion,
}

/// The body reported for a run that failed before producing a comparison.
pub open spec fn error_body_seq(e: Seq<char>) -> Seq<char> {
    "## Error message\n"@ + e
}

/// Derive the completion from the unit of work's outcome: a finished run
/// concludes success exactly when every benchmark succeeded — a harness-
/// reported benchmark failure is a valid `failure` conclusion, not an error
/// — while a pipeline error concludes failure and reports the error text as
/// the body. Either body is clamped to the host's limit.
pub fn check_completion(outcome: &Result<(String, bool), String>) -> (r: CheckOutput)
    ensures
        r.title@ == "Benchmark"@,
        outcome matches Ok(p) ==> {
            &&& r.summary@ == "Benchmark run successful"@
            &&& r.text@ == spec_clamp_lines(encode_utf8(p.0@), CHECK_TEXT_LIMIT as int)
            &&& r.conclusion == (if p.1 {
                CheckConclusion::Success
            } else {
                CheckConclusion::Failure
            })
        },
        outcome matches Err(e) ==> {
            &&& r.summary@ == "Benchmark run failed"@
            &&& r.text@ == spec_clamp_lines(
                encode_utf8(error_body_seq(e@)),
                CHECK_TEXT_LIMIT as int,
            )
            &&& r.conclusion is Failure
        },
{
    match outcome {
        Ok((text, success)) => CheckOutput {
            title: String::from_str("Benchmark"),
            summary: String::from_str("Benchmark run successful"),
            text: clamp_lines(text.as_str().as_bytes(), CHECK_TEXT_LIMIT),
            conclusion: if *success {
                CheckConclusion::Success
            } else {
                CheckConclusion::Failure
            },
        },
        Err(e) => {
            let mut body = String::from_str("## Error message\n");
            body.append(e.as_str());
            CheckOutput {
                title: String::from_str("Benchmark"),
                summary: String::from_str("Benchmark run failed"),
                text: clamp_lines(body.as_str().as_bytes(), CHECK_TEXT_LIMIT),
                conclusion: CheckConclusion::Failure,
            }
        },
    }
}

} // verus!
