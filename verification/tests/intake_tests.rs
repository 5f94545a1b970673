use benchbot::auth::check_signature;
use benchbot::intake::finish_intake;
use benchbot::intake::handle;
use benchbot::intake::Action;
use benchbot::intake::Candidate;
use benchbot::intake::HandleStep;
use benchbot::intake::PullRequestEvent;
use benchbot::queue::BenchmarkRequest;
use benchbot::queue::EventQueue;
use benchbot::resolver::commit_lookup_exists;
use benchbot::resolver::probe_plan;
use benchbot::resolver::ProbeOutcome;
use benchbot::resolver::ProbePlan;

const TEST_SECRET: &str = "It's a Secret to Everybody";

fn signature_header(body: &[u8], valid: bool) -> String {
    let mac: [u8; 32] = if valid {
        hmac_sha256::HMAC::mac(body, TEST_SECRET.as_bytes())
    } else {
        [0; 32]
    };
    let mut header = "sha256=".to_string();
    for byte in mac.iter() {
        header.push_str(&format!("{byte:02x}"));
    }
    header
}

fn labeled_event() -> PullRequestEvent {
    PullRequestEvent {
        action: Action::Labeled,
        label: Some("benchmark".to_string()),
        pr_labels: vec!["benchmark".to_string()],
        repo: Some("benchmark".to_string()),
        base_sha: "2a9ebe98df6262b719ecd21e2a5fda4323bee0e1".to_string(),
        head_sha: "0d41f8596349daeadaa17c551fa0598f0a95666d".to_string(),
        number: 5,
    }
}

#[test]
fn signature_round_trip() {
    let body = br#"{"action":"labeled"}"#;
    let good = signature_header(body, true);
    assert!(check_signature(TEST_SECRET.as_bytes(), body, &good));
    let bad = signature_header(body, false);
    assert!(!check_signature(TEST_SECRET.as_bytes(), body, &bad));
    // A different body under the same header must not pass.
    assert!(!check_signature(
        TEST_SECRET.as_bytes(),
        br#"{"action":"opened"}"#,
        &good
    ));
}

#[test]
fn should_error_on_invalid_signature() {
    let body = br#"{"action":"labeled"}"#;
    let header = signature_header(body, false);
    let step = handle(
        TEST_SECRET.as_bytes(),
        body,
        &header,
        Ok(labeled_event()),
    );
    match step {
        HandleStep::Respond(reply) => {
            assert_eq!(reply.status, 400);
            assert_eq!(reply.body, "signature mismatch");
        }
        HandleStep::Probe(_) => panic!("a forged request must not reach the resolver"),
    }
}

#[test]
fn should_error_on_invalid_event_payload() {
    let body = b"{}";
    let header = signature_header(body, true);
    let step = handle(
        TEST_SECRET.as_bytes(),
        body,
        &header,
        Err("missing field `action` at line 1 column 2".to_string()),
    );
    match step {
        HandleStep::Respond(reply) => {
            assert_eq!(reply.status, 400);
            assert!(reply.body.starts_with("missing field"));
        }
        HandleStep::Probe(_) => panic!("a malformed payload must not reach the resolver"),
    }
}

#[test]
fn should_skip_on_no_label() {
    let mut event = labeled_event();
    event.action = Action::Synchronize;
    event.label = None;
    event.pr_labels.clear();
    event.repo = Some("demo".to_string());
    event.number = 2;
    let body = br#"{"action":"synchronize"}"#;
    let header = signature_header(body, true);
    let step = handle(TEST_SECRET.as_bytes(), body, &header, Ok(event));
    match step {
        HandleStep::Respond(reply) => {
            assert_eq!(reply.status, 200);
            assert_eq!(reply.body, "skipped: missing benchmark label");
        }
        HandleStep::Probe(_) => panic!("an unlabeled pull request must be skipped"),
    }
}

#[test]
fn should_skip_on_other_action() {
    let mut event = labeled_event();
    event.action = Action::Other;
    let body = br#"{"action":"closed"}"#;
    let header = signature_header(body, true);
    let step = handle(TEST_SECRET.as_bytes(), body, &header, Ok(event));
    match step {
        HandleStep::Respond(reply) => {
            assert_eq!(reply.status, 200);
            assert_eq!(reply.body, "skipped: event action");
        }
        HandleStep::Probe(_) => panic!("an unrelated action must be skipped"),
    }
}

#[test]
fn should_skip_when_added_label_is_not_benchmark() {
    let mut event = labeled_event();
    event.label = Some("documentation".to_string());
    let body = br#"{"action":"labeled"}"#;
    let header = signature_header(body, true);
    let step = handle(TEST_SECRET.as_bytes(), body, &header, Ok(event));
    match step {
        HandleStep::Respond(reply) => {
            assert_eq!(reply.status, 200);
            assert_eq!(reply.body, "skipped: added label is not benchmark");
        }
        HandleStep::Probe(_) => panic!("adding another label must not trigger a run"),
    }
}

#[test]
fn should_enqueue_valid_pr_event() {
    let event = labeled_event();
    let base = event.base_sha.clone();
    let head = event.head_sha.clone();
    let body = br#"{"action":"labeled"}"#;
    let header = signature_header(body, true);
    let step = handle(TEST_SECRET.as_bytes(), body, &header, Ok(event));
    let candidate = match step {
        HandleStep::Probe(c) => c,
        HandleStep::Respond(reply) => panic!("expected a candidate, got {}", reply.body),
    };
    assert_eq!(candidate.repo, "benchmark");
    // The head SHA is a full lowercase hex SHA, so it is confirmed via the
    // commit-lookup endpoint.
    assert_eq!(probe_plan(&candidate.head_sha), ProbePlan::CommitLookup);
    let exists = commit_lookup_exists(&ProbeOutcome::Found);
    let mut queue = EventQueue::new(1);
    let reply = finish_intake(&mut queue, candidate, &exists, None);
    assert_eq!(reply.status, 200);
    assert_eq!(reply.body, "enqueued");
    let expected = BenchmarkRequest {
        repo: "benchmark".to_string(),
        commits: [base, head],
        pr: 5,
        check_id: None,
    };
    assert_eq!(queue.pop(), Some(expected));
    assert_eq!(queue.pop(), None);
}

#[test]
fn bad_ref_is_rejected_and_nothing_enqueued() {
    let candidate = Candidate {
        repo: "demo".to_string(),
        base_sha: "aaa".to_string(),
        head_sha: "feature".to_string(),
        pr: 7,
    };
    let mut queue = EventQueue::new(4);
    let reply = finish_intake(&mut queue, candidate, &Ok(false), Some(3));
    assert_eq!(reply.status, 400);
    assert_eq!(reply.body, "demo/feature is not a valid repo/ref combination");
    assert_eq!(queue.len(), 0);
}

#[test]
fn transport_error_is_a_server_error() {
    let candidate = Candidate {
        repo: "demo".to_string(),
        base_sha: "aaa".to_string(),
        head_sha: "bbb".to_string(),
        pr: 7,
    };
    let mut queue = EventQueue::new(4);
    let reply = finish_intake(
        &mut queue,
        candidate,
        &Err("failed to check if commit exists".to_string()),
        None,
    );
    assert_eq!(reply.status, 500);
    assert_eq!(reply.body, "failed to check if commit exists");
    assert_eq!(queue.len(), 0);
}

#[test]
fn full_queue_refuses_and_keeps_order() {
    let mut queue = EventQueue::new(1);
    let first = Candidate {
        repo: "demo".to_string(),
        base_sha: "a".to_string(),
        head_sha: "b".to_string(),
        pr: 1,
    };
    let second = Candidate {
        repo: "demo".to_string(),
        base_sha: "c".to_string(),
        head_sha: "d".to_string(),
        pr: 2,
    };
    assert_eq!(finish_intake(&mut queue, first, &Ok(true), None).status, 200);
    let reply = finish_intake(&mut queue, second, &Ok(true), None);
    assert_eq!(reply.status, 500);
    assert_eq!(reply.body, "Failed to send event");
    assert_eq!(queue.len(), 1);
}

#[test]
fn queue_hands_requests_out_in_arrival_order() {
    let mut queue = EventQueue::new(4);
    for pr in [1u64, 2, 3] {
        let candidate = Candidate {
            repo: "demo".to_string(),
            base_sha: "a".to_string(),
            head_sha: "b".to_string(),
            pr,
        };
        assert_eq!(finish_intake(&mut queue, candidate, &Ok(true), None).status, 200);
    }
    assert_eq!(queue.pop().unwrap().pr, 1);
    assert_eq!(queue.pop().unwrap().pr, 2);
    assert_eq!(queue.pop().unwrap().pr, 3);
    assert_eq!(queue.pop(), None);
}
