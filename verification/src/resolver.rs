//! Reference resolution: deciding how to ask the remote host whether a ref
//! (commit SHA, branch, or tag) exists, and combining the probe outcomes.

use vstd::prelude::*;
use vstd::string::*;

verus! {

/// One lowercase hexadecimal character, as written in a full commit SHA.
pub open spec fn is_lower_hex_char(c: char) -> bool {
    (48 <= c as u32 && c as u32 <= 57)  // '0'..='9'
    || (97 <= c as u32 && c as u32 <= 102)  // 'a'..='f'
}

/// A full commit identifier: exactly 40 lowercase hexadecimal characters.
pub open spec fn is_sha1_seq(s: Seq<char>) -> bool {
    s.len() == 40 && forall|i: int| 0 <= i < s.len() ==> is_lower_hex_char(#[trigger] s[i])
}

/// Does the ref string look like a full commit SHA?
pub fn is_sha1(s: &str) -> (r: bool)
    ensures
        r == is_sha1_seq(s@),
{
    let n = s.unicode_len();
    if n != 40 {
        return false;
    }
    let mut i: usize = 0;
    while i < 40
        invariant
            n == s@.len(),
            n == 40,
            0 <= i <= 40,
            forall|j: int| 0 <= j < i ==> is_lower_hex_char(#[trigger] s@[j]),
        decreases 40 - i,
    {
        let c = s.get_char(i);
        let u = c as u32;
        if !((48 <= u && u <= 57) || (97 <= u && u <= 102)) {
            return false;
        }
        i += 1;
    }
    true
}

/// How the remote host is asked about a ref: a commit lookup for a full SHA,
/// otherwise a probe of the branch endpoint and then the tag endpoint.
#[derive(Debug, Clone, Copy, PartialEq, Eq, Structural)]
pub enum ProbePlan {
    CommitLookup,
    BranchThenTag,
}

/// Decide how to probe for a ref. A string of 40 lowercase hex characters is
/// treated as a commit SHA and looked up directly; the branch and tag
/// endpoints are never contacted for it.
pub fn probe_plan(git_ref: &str) -> (p: ProbePlan)
    ensures
        p is CommitLookup <==> is_sha1_seq(git_ref@),
{
    if is_sha1(git_ref) {
        ProbePlan::CommitLookup
    } else {
        ProbePlan::BranchThenTag
    }
}

/// Outcome of one probe against the remote host, as classified at the edge:
/// the ref was found, the host answered "not found", or the transport failed.
#[derive(Debug, Clone, PartialEq, Eq)]
pub enum ProbeOutcome {
    Found,
    NotFound,
    TransportError(String),
}

/// Turn a commit-lookup outcome into the resolver's answer: "not found" is a
/// normal `false`, only a transport failure is an error.
pub fn commit_lookup_exists(outcome: &ProbeOutcome) -> (r: Result<bool, String>)
    ensures
        outcome is Found ==> r == Result::<bool, String>::Ok(true),
        outcome is NotFound ==> r == Result::<bool, String>::Ok(false),
        outcome matches ProbeOutcome::TransportError(m) ==> r == Result::<bool, String>::Err(*m),
{
    match outcome {
        ProbeOutcome::Found => Ok(true),
        ProbeOutcome::NotFound => Ok(false),
        ProbeOutcome::TransportError(m) => Err(m.clone()),
    }
}

/// Combine the branch and tag probes: the ref exists if either endpoint found
/// it; "not found" on both is a normal `false`; a transport failure on the
/// branch probe wins, then one on the tag probe.
pub fn combine_ref_probes(branch: &ProbeOutcome, tag: &ProbeOutcome) -> (r: Result<bool, String>)
    ensures
        branch is Found ==> r == Result::<bool, String>::Ok(true),
        branch matches ProbeOutcome::TransportError(m) ==> r == Result::<bool, String>::Err(*m),
        branch is NotFound && tag is Found ==> r == Result::<bool, String>::Ok(true),
        branch is NotFound && tag is NotFound ==> r == Result::<bool, String>::Ok(false),
        branch is NotFound ==> (tag matches ProbeOutcome::TransportError(m) ==> r == Result::<
            bool,
            String,
        >::Err(*m)),
{
    match branch {
        ProbeOutcome::Found => Ok(true),
        ProbeOutcome::TransportError(m) => Err(m.clone()),
        ProbeOutcome::NotFound => match tag {
            ProbeOutcome::Found => Ok(true),
            ProbeOutcome::NotFound => Ok(false),
            ProbeOutcome::TransportError(m) => Err(m.clone()),
        },
    }
}

} // verus!
