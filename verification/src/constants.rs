//! Fixed names the bot operates under: the organization, the label that opts
//! a pull request into benchmarking, the bot's login, and the marker that
//! identifies the bot's own PR comment.

use vstd::prelude::*;
use vstd::string::*;

verus! {

pub open spec fn org_seq() -> Seq<char> {
    "scverse"@
}

/// The organization whose repositories the bot serves.
pub fn org() -> (r: String)
    ensures
        r@ == org_seq(),
{
    String::from_str("scverse")
}

pub open spec fn benchmark_label_seq() -> Seq<char> {
    "benchmark"@
}

/// The label that marks a pull request as wanting benchmark runs.
pub fn benchmark_label() -> (r: String)
    ensures
        r@ == benchmark_label_seq(),
{
    String::from_str("benchmark")
}

pub open spec fn bot_name_seq() -> Seq<char> {
    "scverse-benchmark[bot]"@
}

/// The login under which the bot posts comments.
pub fn bot_name() -> (r: String)
    ensures
        r@ == bot_name_seq(),
{
    String::from_str("scverse-benchmark[bot]")
}

pub open spec fn pr_comparison_marker_seq() -> Seq<char> {
    "<!-- DO NOT REMOVE: Scverse benchmark run comment marker -->"@
}

/// The sentinel embedded in every comment the bot writes, used to find and
/// edit its own comment instead of posting a new one.
pub fn pr_comparison_marker() -> (r: String)
    ensures
        r@ == pr_comparison_marker_seq(),
{
    String::from_str("<!-- DO NOT REMOVE: Scverse benchmark run comment marker -->")
}

} // verus!
