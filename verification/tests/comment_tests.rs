use benchbot::comment::apply_comment_upsert;
use benchbot::comment::is_pr_comparison;
use benchbot::comment::plan_comment_upsert;
use benchbot::comment::render_comment;
use benchbot::comment::CommentAction;
use benchbot::comment::CommentRec;
use benchbot::reporter::check_completion;
use benchbot::reporter::CheckConclusion;
use benchbot::reporter::CheckLifecycle;

const MARKER: &str = "<!-- DO NOT REMOVE: Scverse benchmark run comment marker -->";
const BOT: &str = "scverse-benchmark[bot]";

fn bot_comment(id: u64, body: &str) -> CommentRec {
    CommentRec {
        id,
        author: BOT.to_string(),
        body: body.to_string(),
    }
}

#[test]
fn rendered_comment_shape() {
    let with_table = render_comment(
        "Some | Table",
        true,
        "repo2",
        2,
        "d41",
        Some(3),
        "2025-01-01T00:00:00+00:00",
    );
    assert!(with_table.contains(MARKER));
    assert!(with_table.contains("## Benchmark changes"));
    assert!(with_table.contains("Some | Table"));
    assert!(!with_table.contains("> [!WARNING]"));
    assert!(with_table
        .contains("More details: <https://github.com/scverse/repo2/pull/2/checks?check_run_id=3>"));
    assert!(with_table.contains("https://github.com/scverse/repo2/commit/d41"));

    let empty = render_comment("", false, "repo2", 2, "d41", None, "t");
    assert!(empty.contains(MARKER));
    assert!(empty.contains("No changes in benchmarks."));
    assert!(!empty.contains("## Benchmark changes"));
    assert!(empty.contains("> [!WARNING]"));
    assert!(!empty.contains("More details:"));
}

#[test]
fn upsert_edits_existing_marker_comment() {
    let comments = vec![
        CommentRec {
            id: 1,
            author: "someone".to_string(),
            body: "unrelated".to_string(),
        },
        bot_comment(2, &format!("{MARKER}\nold report")),
    ];
    assert_eq!(plan_comment_upsert(&comments), CommentAction::Edit(2));
    let none: Vec<CommentRec> = vec![CommentRec {
        id: 1,
        author: "someone".to_string(),
        body: "unrelated".to_string(),
    }];
    assert_eq!(plan_comment_upsert(&none), CommentAction::Create);
}

#[test]
fn upsert_twice_leaves_one_marker_comment() {
    let start = vec![CommentRec {
        id: 1,
        author: "someone".to_string(),
        body: "hello".to_string(),
    }];
    let body1 = render_comment("t1", true, "demo", 5, "abc", None, "t");
    let body2 = render_comment("t2", true, "demo", 5, "abc", None, "t");

    let once = apply_comment_upsert(start, bot_comment(9, &body1));
    let marker_count =
        |cs: &Vec<CommentRec>| cs.iter().filter(|c| is_pr_comparison(c)).count();
    assert_eq!(marker_count(&once), 1);
    assert_eq!(once.len(), 2);

    // The second upsert edits the existing comment instead of duplicating.
    assert_eq!(plan_comment_upsert(&once), CommentAction::Edit(9));
    let twice = apply_comment_upsert(once, bot_comment(10, &body2));
    assert_eq!(marker_count(&twice), 1);
    assert_eq!(twice.len(), 2);
    assert!(twice[1].body.contains("t2"));
    assert_eq!(twice[1].id, 9);
}

#[test]
fn check_completion_on_success_and_benchmark_failure() {
    let ok = check_completion(&Ok(("| table |".to_string(), true)));
    assert_eq!(ok.summary, "Benchmark run successful");
    assert_eq!(ok.conclusion, CheckConclusion::Success);
    assert_eq!(ok.text, b"| table |".to_vec());

    // A harness-reported benchmark failure is a failure conclusion, but the
    // comparison output is still reported.
    let soft = check_completion(&Ok(("| table |".to_string(), false)));
    assert_eq!(soft.summary, "Benchmark run successful");
    assert_eq!(soft.conclusion, CheckConclusion::Failure);
    assert_eq!(soft.text, b"| table |".to_vec());

    let failed = check_completion(&Err("spawn failed".to_string()));
    assert_eq!(failed.summary, "Benchmark run failed");
    assert_eq!(failed.conclusion, CheckConclusion::Failure);
    assert_eq!(failed.text, b"## Error message\nspawn failed".to_vec());
}

/// A check body past the host's limit is cut at the last newline that
/// fits, and the error path is clamped the same way.
#[test]
fn check_body_is_clamped_at_the_limit() {
    let line = "x".repeat(100);
    let mut long = String::new();
    while long.len() <= 70_000 {
        long.push_str(&line);
        long.push('\n');
    }
    let output = check_completion(&Ok((long.clone(), true)));
    assert!(output.text.len() <= 65535);
    // The cut lands right after a whole line: the next byte of the input is
    // part of a line that did not fit, and the kept part is a prefix.
    assert_eq!(&long.as_bytes()[..output.text.len()], &output.text[..]);
    assert_eq!(long.as_bytes()[output.text.len()], b'\n');

    let failed = check_completion(&Err(long));
    assert!(failed.text.len() <= 65535);
    assert!(failed.text.starts_with(b"## Error message\n"));
}

#[test]
fn lifecycle_runs_forward_only() {
    let mut check = CheckLifecycle::new();
    check.start();
    check.complete(CheckConclusion::Failure);
    // A completed check offers no further transition; the types end here.
}
