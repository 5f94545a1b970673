//! The pull-request comment side of result reporting: the rendered report
//! body, and the upsert that keeps exactly one marker-tagged comment per
//! pull request — the bot edits its own comment instead of posting another.

use vstd::prelude::*;
use vstd::string::*;

use crate::constants::bot_name;
use crate::constants::bot_name_seq;
use crate::constants::org;
use crate::constants::org_seq;
use crate::constants::pr_comparison_marker;
use crate::constants::pr_comparison_marker_seq;
use crate::text::contains_seq;
use crate::text::matches_at;
use crate::text::spec_dec;
use crate::text::str_contains;
use crate::text::u64_to_string;

verus! {

/// The banner shown when the harness reported failed benchmarks.
pub open spec fn warning_seq() -> Seq<char> {
    "\n> [!WARNING]\n> Some benchmarks failed or errored during this run.\n"@
}

/// The link to the head commit the comparison was made against.
pub open spec fn commit_link_seq(repo: Seq<char>, head: Seq<char>) -> Seq<char> {
    "https://github.com/"@ + org_seq() + "/"@ + repo + "/commit/"@ + head
}

/// The link to the check run carrying the full comparison.
pub open spec fn check_link_seq(repo: Seq<char>, pr: int, id: int) -> Seq<char> {
    "https://github.com/"@ + org_seq() + "/"@ + repo + "/pull/"@ + spec_dec(pr)
        + "/checks?check_run_id="@ + spec_dec(id)
}

/// The comment body: the marker, a warning banner when the harness reported
/// failure, the changes table (or a placeholder when it is empty), a link to
/// the compared commit with the render time, and — when a check exists — a
/// link to the check run.
pub open spec fn comment_body_seq(
    content: Seq<char>,
    success: bool,
    repo: Seq<char>,
    pr: int,
    head: Seq<char>,
    check_id: Option<u64>,
    timestamp: Seq<char>,
) -> Seq<char> {
    pr_comparison_marker_seq() + "\n"@ + (if success {
        Seq::empty()
    } else {
        warning_seq()
    }) + "\n"@ + (if content.len() == 0 {
        "No changes in benchmarks."@
    } else {
        "## Benchmark changes\n"@ + content
    }) + "\n\nComparison: <"@ + commit_link_seq(repo, head) + "> ("@ + timestamp + ")\n"@ + (
    match check_id {
        Some(id) => "More details: <"@ + check_link_seq(repo, pr, id as int) + ">\n"@,
        None => Seq::empty(),
    })
}

/// Render the comment body for a comparison.
#[verifier::rlimit(60)]
pub fn render_comment(
    content: &str,
    success: bool,
    repo: &str,
    pr: u64,
    head: &str,
    check_id: Option<u64>,
    timestamp: &str,
) -> (r: String)
    ensures
        r@ == comment_body_seq(
            content@,
            success,
            repo@,
            pr as int,
            head@,
            check_id,
            timestamp@,
        ),
{
    let organization = org();
    let mut r = pr_comparison_marker();
    r.append("\n");
    if !success {
        r.append("\n> [!WARNING]\n> Some benchmarks failed or errored during this run.\n");
    }
    r.append("\n");
    if content.is_empty() {
        r.append("No changes in benchmarks.");
    } else {
        r.append("## Benchmark changes\n");
        r.append(content);
    }
    r.append("\n\nComparison: <");
    r.append("https://github.com/");
    r.append(organization.as_str());
    r.append("/");
    r.append(repo);
    r.append("/commit/");
    r.append(head);
    r.append("> (");
    r.append(timestamp);
    r.append(")\n");
    if let Some(id) = check_id {
        r.append("More details: <");
        r.append("https://github.com/");
        r.append(organization.as_str());
        r.append("/");
        r.append(repo);
        r.append("/pull/");
        let pr_text = u64_to_string(pr);
        r.append(pr_text.as_str());
        r.append("/checks?check_run_id=");
        let id_text = u64_to_string(id);
        r.append(id_text.as_str());
        r.append(">\n");
    }
    proof {
        assert(r@ =~= comment_body_seq(
            content@,
            success,
            repo@,
            pr as int,
            head@,
            check_id,
            timestamp@,
        ));
    }
    r
}

/// The rendered comment always carries the marker, right at its start, so a
/// later upsert will find and edit it.
pub proof fn lemma_comment_contains_marker(
    content: Seq<char>,
    success: bool,
    repo: Seq<char>,
    pr: int,
    head: Seq<char>,
    check_id: Option<u64>,
    timestamp: Seq<char>,
)
    ensures
        contains_seq(
            comment_body_seq(content, success, repo, pr, head, check_id, timestamp),
            pr_comparison_marker_seq(),
        ),
{
    let body = comment_body_seq(content, success, repo, pr, head, check_id, timestamp);
    let marker = pr_comparison_marker_seq();
    assert(body.subrange(0, marker.len() as int) =~= marker);
    assert(matches_at(body, marker, 0));
}

/// A comment the bot posts under its own login with a rendered report body
/// is a marker comment: the upsert will find it again.
pub proof fn lemma_report_comment_is_marker(
    c: CommentRec,
    content: Seq<char>,
    success: bool,
    repo: Seq<char>,
    pr: int,
    head: Seq<char>,
    check_id: Option<u64>,
    timestamp: Seq<char>,
)
    requires
        c.author@ == bot_name_seq(),
        c.body@ == comment_body_seq(content, success, repo, pr, head, check_id, timestamp),
    ensures
        is_marker_comment(c),
{
    lemma_comment_contains_marker(content, success, repo, pr, head, check_id, timestamp);
}

/// One comment on the pull request, as the remote host lists it.
#[derive(Debug, Clone, PartialEq, Eq)]
pub struct CommentRec {
    pub id: u64,
    pub author: String,
    pub body: String,
}

/// The bot's own report comment: posted under the bot's login and carrying
/// the marker.
pub open spec fn is_marker_comment(c: CommentRec) -> bool {
    c.author@ == bot_name_seq() && contains_seq(c.body@, pr_comparison_marker_seq())
}

/// Is this comment the bot's own report comment?
pub fn is_pr_comparison(c: &CommentRec) -> (r: bool)
    ensures
        r == is_marker_comment(*c),
{
    let bot = bot_name();
    let marker = pr_comparison_marker();
    c.author.eq(&bot) && str_contains(c.body.as_str(), marker.as_str())
}

/// The position of the most recent marker comment, -1 when there is none.
pub open spec fn last_marker_idx(s: Seq<CommentRec>) -> int
    decreases s.len(),
{
    if s.len() == 0 {
        -1
    } else if is_marker_comment(s.last()) {
        s.len() - 1
    } else {
        last_marker_idx(s.drop_last())
    }
}

/// The most recent marker comment is one, and none comes after it.
pub proof fn lemma_last_marker_idx(s: Seq<CommentRec>)
    ensures
        ({
            let i = last_marker_idx(s);
            &&& -1 <= i < s.len()
            &&& i >= 0 ==> is_marker_comment(s[i])
            &&& forall|j: int| i < j < s.len() ==> !is_marker_comment(#[trigger] s[j])
        }),
    decreases s.len(),
{
    if s.len() == 0 {
    } else if is_marker_comment(s.last()) {
    } else {
        lemma_last_marker_idx(s.drop_last());
        assert forall|j: int|
            last_marker_idx(s) < j < s.len() implies !is_marker_comment(#[trigger] s[j]) by {
            if j < s.len() - 1 {
                assert(s.drop_last()[j] == s[j]);
            }
        }
    }
}

/// What the comment step does: edit the found comment in place, or create a
/// new one.
#[derive(Debug, Clone, PartialEq, Eq)]
pub enum CommentAction {
    Edit(u64),
    Create,
}

/// The position of the most recent marker comment, scanned from the end.
fn find_last_marker(comments: &Vec<CommentRec>) -> (r: Option<usize>)
    ensures
        last_marker_idx(comments@) < 0 <==> r is None,
        last_marker_idx(comments@) >= 0 ==> r == Some(last_marker_idx(comments@) as usize),
{
    let n = comments.len();
    let mut i = n;
    proof {
        assert(comments@.take(n as int) =~= comments@);
    }
    while i > 0
        invariant
            n == comments@.len(),
            0 <= i <= n,
            last_marker_idx(comments@) == last_marker_idx(comments@.take(i as int)),
        decreases i,
    {
        proof {
            assert(comments@.take(i as int).last() == comments@[i as int - 1]);
            assert(comments@.take(i as int).drop_last() =~= comments@.take(i as int - 1));
        }
        if is_pr_comparison(&comments[i - 1]) {
            return Some(i - 1);
        }
        i = i - 1;
    }
    proof {
        assert(comments@.take(0) =~= Seq::<CommentRec>::empty());
    }
    None
}

/// Decide the upsert: edit the most recent marker comment when one exists,
/// else create a new comment.
pub fn plan_comment_upsert(comments: &Vec<CommentRec>) -> (r: CommentAction)
    ensures
        last_marker_idx(comments@) < 0 <==> r is Create,
        last_marker_idx(comments@) >= 0 ==> r == CommentAction::Edit(
            comments@[last_marker_idx(comments@)].id,
        ),
{
    let n = comments.len();
    proof {
        lemma_last_marker_idx(comments@);
        assert(last_marker_idx(comments@) < n);
    }
    match find_last_marker(comments) {
        Some(i) => CommentAction::Edit(comments[i].id),
        None => CommentAction::Create,
    }
}

/// What the remote comment list looks like after the upsert: the most
/// recent marker comment with its body replaced, or the new comment
/// appended when there was none.
pub open spec fn spec_upsert(s: Seq<CommentRec>, new: CommentRec) -> Seq<CommentRec> {
    let i = last_marker_idx(s);
    if i >= 0 {
        s.update(i, CommentRec { id: s[i].id, author: s[i].author, body: new.body })
    } else {
        s.push(new)
    }
}

/// Apply the upsert to a comment list, modelling the remote host's state.
pub fn apply_comment_upsert(comments: Vec<CommentRec>, new: CommentRec) -> (r: Vec<CommentRec>)
    ensures
        r@ == spec_upsert(comments@, new),
{
    let mut comments = comments;
    let ghost orig = comments@;
    proof {
        lemma_last_marker_idx(comments@);
    }
    match find_last_marker(&comments) {
        Some(i) => {
            let old_rec = comments.remove(i);
            comments.insert(
                i,
                CommentRec { id: old_rec.id, author: old_rec.author, body: new.body },
            );
            proof {
                assert(comments@ =~= spec_upsert(orig, new));
            }
            comments
        },
        None => {
            comments.push(new);
            comments
        },
    }
}

/// How many marker comments the list holds.
pub open spec fn marker_count(s: Seq<CommentRec>) -> int
    decreases s.len(),
{
    if s.len() == 0 {
        0
    } else {
        (if is_marker_comment(s.last()) {
            1int
        } else {
            0int
        }) + marker_count(s.drop_last())
    }
}

proof fn lemma_marker_count_zero(s: Seq<CommentRec>)
    ensures
        marker_count(s) >= 0,
        marker_count(s) == 0 <==> last_marker_idx(s) < 0,
    decreases s.len(),
{
    if s.len() > 0 {
        lemma_marker_count_zero(s.drop_last());
    }
}

proof fn lemma_marker_count_update(s: Seq<CommentRec>, i: int, c: CommentRec)
    requires
        0 <= i < s.len(),
        is_marker_comment(s[i]) == is_marker_comment(c),
    ensures
        marker_count(s.update(i, c)) == marker_count(s),
    decreases s.len(),
{
    let u = s.update(i, c);
    if i == s.len() - 1 {
        assert(u.drop_last() =~= s.drop_last());
        assert(u.last() == c);
    } else {
        assert(u.drop_last() =~= s.drop_last().update(i, c));
        assert(u.last() == s.last());
        assert(s.drop_last()[i] == s[i]);
        lemma_marker_count_update(s.drop_last(), i, c);
    }
}

/// One upsert with a marker-carrying comment leaves the list with a marker
/// comment: a single new one when there was none, the old count otherwise.
pub proof fn lemma_upsert_count(s: Seq<CommentRec>, new: CommentRec)
    requires
        is_marker_comment(new),
    ensures
        marker_count(spec_upsert(s, new)) == (if marker_count(s) == 0 {
            1int
        } else {
            marker_count(s)
        }),
        spec_upsert(s, new).len() == (if marker_count(s) == 0 {
            s.len() + 1
        } else {
            s.len()
        }),
{
    lemma_marker_count_zero(s);
    lemma_last_marker_idx(s);
    let i = last_marker_idx(s);
    if i >= 0 {
        let c = CommentRec { id: s[i].id, author: s[i].author, body: new.body };
        assert(is_marker_comment(c));
        lemma_marker_count_update(s, i, c);
    } else {
        let p = s.push(new);
        assert(p.drop_last() =~= s);
        assert(p.last() == new);
    }
}

/// Upserting the report comment twice for the same pull request — each body
/// carrying the marker — leaves exactly one marker-tagged comment when at
/// most one was there before, and the second upsert edits the comment in
/// place instead of adding another.
pub proof fn lemma_upsert_idempotent(s: Seq<CommentRec>, new1: CommentRec, new2: CommentRec)
    requires
        is_marker_comment(new1),
        is_marker_comment(new2),
        marker_count(s) <= 1,
    ensures
        ({
            let once = spec_upsert(s, new1);
            let twice = spec_upsert(once, new2);
            &&& marker_count(once) == 1
            &&& marker_count(twice) == 1
            &&& last_marker_idx(once) >= 0
            &&& twice.len() == once.len()
        }),
{
    lemma_marker_count_zero(s);
    lemma_upsert_count(s, new1);
    let once = spec_upsert(s, new1);
    lemma_marker_count_zero(once);
    lemma_upsert_count(once, new2);
}

} // verus!
