use benchbot::resolver::combine_ref_probes;
use benchbot::resolver::commit_lookup_exists;
use benchbot::resolver::is_sha1;
use benchbot::resolver::probe_plan;
use benchbot::resolver::ProbeOutcome;
use benchbot::resolver::ProbePlan;

#[test]
fn test_is_sha1() {
    assert!(is_sha1("fb803f6392801d8c30dce7e5645a540ba74394fc"));
    assert!(!is_sha1("fb803f"));
    assert!(!is_sha1("xxxxxf6392801d8c30dce7e5645a540ba74394fc"));
}

#[test]
fn test_is_sha1_rejects_uppercase() {
    assert!(!is_sha1("FB803F6392801D8C30DCE7E5645A540BA74394FC"));
}

#[test]
fn sha_refs_use_commit_lookup_only() {
    // A full lowercase hex SHA goes straight to the commit endpoint; the
    // branch and tag endpoints are never probed for it.
    assert_eq!(
        probe_plan("fb803f6392801d8c30dce7e5645a540ba74394fc"),
        ProbePlan::CommitLookup
    );
    // A branch name is probed as branch, then tag, without a SHA lookup.
    assert_eq!(probe_plan("main"), ProbePlan::BranchThenTag);
    assert_eq!(probe_plan("v1.2.3"), ProbePlan::BranchThenTag);
}

#[test]
fn commit_lookup_outcomes() {
    assert_eq!(commit_lookup_exists(&ProbeOutcome::Found), Ok(true));
    assert_eq!(commit_lookup_exists(&ProbeOutcome::NotFound), Ok(false));
    assert_eq!(
        commit_lookup_exists(&ProbeOutcome::TransportError("boom".to_string())),
        Err("boom".to_string())
    );
}

#[test]
fn branch_tag_probe_combinations() {
    let found = ProbeOutcome::Found;
    let missing = ProbeOutcome::NotFound;
    let broken = ProbeOutcome::TransportError("api unreachable".to_string());
    assert_eq!(combine_ref_probes(&found, &missing), Ok(true));
    assert_eq!(combine_ref_probes(&missing, &found), Ok(true));
    assert_eq!(combine_ref_probes(&missing, &missing), Ok(false));
    assert_eq!(
        combine_ref_probes(&missing, &broken),
        Err("api unreachable".to_string())
    );
    assert_eq!(
        combine_ref_probes(&broken, &found),
        Err("api unreachable".to_string())
    );
}
