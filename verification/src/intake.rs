//! Webhook intake: screening a pull-request event, and enqueuing the
//! benchmark request once the head ref has been confirmed to exist.

use vstd::prelude::*;
use vstd::string::*;

use crate::auth::signature_valid;
use crate::auth::check_signature;
use crate::constants::benchmark_label;
use crate::constants::benchmark_label_seq;
use crate::queue::BenchmarkRequest;
use crate::queue::EventQueue;
use crate::text::contains_string;
use crate::text::has_string;

verus! {

/// The pull-request actions the bot distinguishes; everything else is
/// folded into `Other` and skipped.
#[derive(Debug, Clone, Copy, PartialEq, Eq, Structural)]
pub enum Action {
    Opened,
    Reopened,
    Synchronize,
    Labeled,
    Other,
}

/// The fields of a pull-request webhook payload that the intake reads.
#[derive(Debug, Clone, PartialEq, Eq)]
pub struct PullRequestEvent {
    pub action: Action,
    /// The label attached by a `labeled` action, if the payload carried one.
    pub label: Option<String>,
    /// The labels currently on the pull request.
    pub pr_labels: Vec<String>,
    /// The base repository's name, if the payload carried one.
    pub repo: Option<String>,
    pub base_sha: String,
    pub head_sha: String,
    pub number: u64,
}

/// A screened event that qualifies for benchmarking, before the head ref has
/// been checked against the remote host.
#[derive(Debug, Clone, PartialEq, Eq)]
pub struct Candidate {
    pub repo: String,
    pub base_sha: String,
    pub head_sha: String,
    pub pr: u64,
}

/// What the screening step decides: answer with 200 and do nothing more,
/// answer with 400 and do nothing more, or carry on with a candidate.
#[derive(Debug, Clone, PartialEq, Eq)]
pub enum ScreenOutcome {
    Skip(String),
    Reject(String),
    Candidate(Candidate),
}

/// The actions the bot reacts to.
pub open spec fn action_qualifies(a: Action) -> bool {
    a is Opened || a is Reopened || a is Synchronize || a is Labeled
}

/// For a `labeled` action, the label just added must itself be the benchmark
/// label; the payload must name it at all.
pub open spec fn added_label_ok(ev: PullRequestEvent) -> bool {
    ev.action is Labeled ==> (ev.label matches Some(l) && l@ == benchmark_label_seq())
}

/// The screening decision, case by case; for every event exactly one case
/// applies, so this relation pins the outcome.
pub open spec fn screen_rel(ev: PullRequestEvent, r: ScreenOutcome) -> bool {
    &&& !action_qualifies(ev.action) ==> (r matches ScreenOutcome::Skip(m) && m@
        == "skipped: event action"@)
    &&& action_qualifies(ev.action) && ev.action is Labeled && ev.label is None ==> (r matches
        ScreenOutcome::Reject(m) && m@ == "missing label"@)
    &&& action_qualifies(ev.action) && ev.action is Labeled && (ev.label matches Some(l) && l@
        != benchmark_label_seq()) ==> (r matches ScreenOutcome::Skip(m) && m@
        == "skipped: added label is not benchmark"@)
    &&& action_qualifies(ev.action) && added_label_ok(ev) && !has_string(
        ev.pr_labels@,
        benchmark_label_seq(),
    ) ==> (r matches ScreenOutcome::Skip(m) && m@ == "skipped: missing benchmark label"@)
    &&& action_qualifies(ev.action) && added_label_ok(ev) && has_string(
        ev.pr_labels@,
        benchmark_label_seq(),
    ) && ev.repo is None ==> (r matches ScreenOutcome::Reject(m) && m@ == "missing repo"@)
    &&& action_qualifies(ev.action) && added_label_ok(ev) && has_string(
        ev.pr_labels@,
        benchmark_label_seq(),
    ) ==> (ev.repo matches Some(repo) ==> r == ScreenOutcome::Candidate(
        Candidate {
            repo,
            base_sha: ev.base_sha,
            head_sha: ev.head_sha,
            pr: ev.number,
        },
    ))
}

/// Decide whether a pull-request event qualifies for benchmarking.
///
/// Only `opened`, `reopened`, `synchronize` and `labeled` actions qualify;
/// a `labeled` action must have added the benchmark label itself; the pull
/// request must currently carry the benchmark label; and the payload must
/// name the base repository. No remote host is contacted for events that are
/// screened out here.
pub fn screen(ev: &PullRequestEvent) -> (r: ScreenOutcome)
    ensures
        screen_rel(*ev, r),
{
    let benchmark = benchmark_label();
    match ev.action {
        Action::Other => {
            return ScreenOutcome::Skip(String::from_str("skipped: event action"));
        },
        Action::Labeled => {
            match &ev.label {
                None => {
                    return ScreenOutcome::Reject(String::from_str("missing label"));
                },
                Some(l) => {
                    if !l.eq(&benchmark) {
                        return ScreenOutcome::Skip(
                            String::from_str("skipped: added label is not benchmark"),
                        );
                    }
                },
            }
        },
        _ => {},
    }
    if !contains_string(&ev.pr_labels, &benchmark) {
        return ScreenOutcome::Skip(String::from_str("skipped: missing benchmark label"));
    }
    match &ev.repo {
        None => ScreenOutcome::Reject(String::from_str("missing repo")),
        Some(repo) => ScreenOutcome::Candidate(
            Candidate {
                repo: repo.clone(),
                base_sha: ev.base_sha.clone(),
                head_sha: ev.head_sha.clone(),
                pr: ev.number,
            },
        ),
    }
}

/// The HTTP answer the intake sends back to the webhook sender.
#[derive(Debug, Clone, PartialEq, Eq)]
pub struct HttpReply {
    pub status: u16,
    pub body: String,
}

/// The message sent back when the head ref could not be found.
pub open spec fn bad_ref_message(repo: Seq<char>, head: Seq<char>) -> Seq<char> {
    repo + "/"@ + head + " is not a valid repo/ref combination"@
}

/// Complete the intake of a screened candidate, given the resolver's answer
/// about the head ref. Exactly when the ref exists and the queue has room,
/// one benchmark request — base commit first, head second — is appended to
/// the queue and the sender is told "enqueued".
pub fn finish_intake(
    queue: &mut EventQueue,
    cand: Candidate,
    exists: &Result<bool, String>,
    check_id: Option<u64>,
) -> (r: HttpReply)
    requires
        old(queue).wf(),
    ensures
        final(queue).wf(),
        final(queue).capacity() == old(queue).capacity(),
        exists matches Err(m) ==> r.status == 500 && r.body@ == m@ && final(queue).contents()
            == old(queue).contents(),
        exists == Result::<bool, String>::Ok(false) ==> r.status == 400 && r.body@
            == bad_ref_message(cand.repo@, cand.head_sha@)
            && final(queue).contents() == old(queue).contents(),
        exists == Result::<bool, String>::Ok(true)
            && old(queue).contents().len() < old(queue).capacity() ==> r.status == 200 && r.body@
            == "enqueued"@ && final(queue).contents() == old(queue).contents().push(
            BenchmarkRequest {
                repo: cand.repo,
                commits: [cand.base_sha, cand.head_sha],
                pr: cand.pr,
                check_id,
            },
        ),
        exists == Result::<bool, String>::Ok(true)
            && old(queue).contents().len() >= old(queue).capacity() ==> r.status == 500 && r.body@
            == "Failed to send event"@ && final(queue).contents() == old(queue).contents(),
{
    match exists {
        Err(m) => HttpReply { status: 500, body: m.clone() },
        Ok(false) => {
            let mut body = cand.repo.clone();
            body.append("/");
            body.append(cand.head_sha.as_str());
            body.append(" is not a valid repo/ref combination");
            HttpReply { status: 400, body }
        },
        Ok(true) => {
            let req = BenchmarkRequest {
                repo: cand.repo,
                commits: [cand.base_sha, cand.head_sha],
                pr: cand.pr,
                check_id,
            };
            match queue.push(req) {
                Ok(()) => HttpReply { status: 200, body: String::from_str("enqueued") },
                Err(_) => HttpReply {
                    status: 500,
                    body: String::from_str("Failed to send event"),
                },
            }
        },
    }
}

/// What the authenticated part of the intake decides: answer the sender at
/// once, or go on and resolve the candidate's head ref.
#[derive(Debug, Clone, PartialEq, Eq)]
pub enum HandleStep {
    Respond(HttpReply),
    Probe(Candidate),
}

/// How `handle` answers an authentic request, given the parsed payload.
pub open spec fn handle_parsed_rel(parsed: Result<PullRequestEvent, String>, r: HandleStep) -> bool {
    &&& parsed matches Err(m) ==> r == HandleStep::Respond(HttpReply { status: 400, body: m })
    &&& parsed matches Ok(ev) ==> {
        &&& (r matches HandleStep::Respond(rep) ==> {
            &&& rep.status == 200 || rep.status == 400
            &&& rep.status == 200 ==> screen_rel(ev, ScreenOutcome::Skip(rep.body))
            &&& rep.status == 400 ==> screen_rel(ev, ScreenOutcome::Reject(rep.body))
        })
        &&& (r matches HandleStep::Probe(c) ==> screen_rel(ev, ScreenOutcome::Candidate(c)))
        &&& (screen_needs_probe(ev) <==> r is Probe)
    }
}

/// Does screening let the event through to the ref-resolution step?
pub open spec fn screen_needs_probe(ev: PullRequestEvent) -> bool {
    &&& action_qualifies(ev.action)
    &&& added_label_ok(ev)
    &&& has_string(ev.pr_labels@, benchmark_label_seq())
    &&& ev.repo is Some
}

/// The front of the intake: verify the signature of the raw body, then parse
/// and screen. A request whose signature does not match is answered with
/// 400 "signature mismatch" whatever its payload holds, and nothing further
/// happens for it: no remote call is made and nothing can reach the queue,
/// which only `finish_intake` appends to.
///
/// `parsed` is the deserialized payload (or the first structural error),
/// prepared by the caller; it is consulted only when the signature matches.
pub fn handle(
    secret: &[u8],
    body: &[u8],
    sig_header: &str,
    parsed: Result<PullRequestEvent, String>,
) -> (r: HandleStep)
    ensures
        !signature_valid(secret@, body@, sig_header@) ==> (r matches HandleStep::Respond(rep)
            && rep.status == 400 && rep.body@ == "signature mismatch"@),
        signature_valid(secret@, body@, sig_header@) ==> handle_parsed_rel(parsed, r),
{
    if !check_signature(secret, body, sig_header) {
        return HandleStep::Respond(
            HttpReply { status: 400, body: String::from_str("signature mismatch") },
        );
    }
    match parsed {
        Err(m) => HandleStep::Respond(HttpReply { status: 400, body: m }),
        Ok(ev) => match screen(&ev) {
            ScreenOutcome::Skip(m) => HandleStep::Respond(HttpReply { status: 200, body: m }),
            ScreenOutcome::Reject(m) => HandleStep::Respond(HttpReply { status: 400, body: m }),
            ScreenOutcome::Candidate(c) => HandleStep::Probe(c),
        },
    }
}

} // verus!
