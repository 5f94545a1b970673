//! Planning and interpreting invocations of the asv benchmark harness: the
//! exact argument lists, the choice whether to pipe a commit list to its
//! standard input, the meaning of its exit codes, and the parsing of the
//! environment-discovery helper's output. The subprocesses themselves run
//! outside the library; everything they are given and everything read back
//! is decided here.

use vstd::prelude::*;
use vstd::string::*;

use crate::repo_cache::git_error_message;
use crate::repo_cache::remote_fetch;

verus! {

/// The execution environments a run is restricted to; empty means all.
#[derive(Debug, Clone)]
pub struct EnvSpecs(pub Vec<String>);

/// The `-E <env>` argument pairs for a list of environments.
pub open spec fn env_args_seq(specs: Seq<Seq<char>>) -> Seq<Seq<char>>
    decreases specs.len(),
{
    if specs.len() == 0 {
        Seq::empty()
    } else {
        seq!["-E"@, specs[0]] + env_args_seq(specs.drop_first())
    }
}

impl EnvSpecs {
    /// Command-line arguments restricting an asv invocation to these
    /// environments: a `-E` flag before each one, in order.
    pub fn args(&self) -> (r: Vec<String>)
        ensures
            r.deep_view() == env_args_seq(self.0.deep_view()),
    {
        let n = self.0.len();
        let mut r: Vec<String> = Vec::new();
        proof {
            assert(self.0.deep_view().skip(0) =~= self.0.deep_view());
            assert(r.deep_view() + env_args_seq(self.0.deep_view()) =~~= env_args_seq(
                self.0.deep_view(),
            ));
        }
        let mut i: usize = 0;
        while i < n
            invariant
                n == self.0@.len(),
                0 <= i <= n,
                self.0.deep_view().len() == n,
                r.deep_view() + env_args_seq(self.0.deep_view().skip(i as int)) == env_args_seq(
                    self.0.deep_view(),
                ),
            decreases n - i,
        {
            r.push(String::from_str("-E"));
            let s = self.0[i].clone();
            r.push(s);
            proof {
                let specs = self.0.deep_view();
                assert(specs.skip(i as int).drop_first() =~= specs.skip(i as int + 1));
                assert(specs.skip(i as int)[0] == specs[i as int]);
                assert(r.deep_view() + env_args_seq(specs.skip(i as int + 1)) =~~= env_args_seq(
                    specs,
                ));
            }
            i += 1;
        }
        proof {
            assert(self.0.deep_view().skip(n as int) =~= Seq::<Seq<char>>::empty());
            assert(r.deep_view() =~~= env_args_seq(self.0.deep_view()));
        }
        r
    }
}

/// A planned `asv compare` invocation in working directory `wd`, comparing
/// `left` against `right`.
#[derive(Debug, Clone)]
pub struct AsvCompare {
    pub wd: String,
    pub left: String,
    pub right: String,
    pub only_changed: bool,
    pub envs: EnvSpecs,
}

/// The argument list of an `asv compare` invocation.
pub open spec fn compare_args_seq(
    only_changed: bool,
    envs: Seq<Seq<char>>,
    left: Seq<char>,
    right: Seq<char>,
) -> Seq<Seq<char>> {
    seq!["compare"@] + (if only_changed {
        seq!["--only-changed"@]
    } else {
        Seq::empty()
    }) + env_args_seq(envs) + seq![left, right]
}

impl AsvCompare {
    /// A comparison of `left` against `right`, restricted to changed
    /// benchmarks and to no particular environment until told otherwise.
    pub fn new(wd: &str, left: &str, right: &str) -> (r: AsvCompare)
        ensures
            r.wd@ == wd@,
            r.left@ == left@,
            r.right@ == right@,
            r.only_changed == true,
            r.envs.0.deep_view() == Seq::<Seq<char>>::empty(),
    {
        let envs = EnvSpecs(Vec::new());
        proof {
            assert(envs.0.deep_view() =~= Seq::<Seq<char>>::empty());
        }
        AsvCompare {
            wd: wd.to_owned(),
            left: left.to_owned(),
            right: right.to_owned(),
            only_changed: true,
            envs,
        }
    }

    /// Choose whether only changed benchmarks are listed.
    pub fn only_changed(&mut self, only_changed: bool)
        ensures
            final(self).wd == old(self).wd,
            final(self).left == old(self).left,
            final(self).right == old(self).right,
            final(self).only_changed == only_changed,
            final(self).envs == old(self).envs,
    {
        self.only_changed = only_changed;
    }

    /// Restrict the comparison to the given environments.
    pub fn in_envs(&mut self, envs: EnvSpecs)
        ensures
            final(self).wd == old(self).wd,
            final(self).left == old(self).left,
            final(self).right == old(self).right,
            final(self).only_changed == old(self).only_changed,
            final(self).envs == envs,
    {
        self.envs = envs;
    }

    /// The arguments of the `asv` call this plan stands for.
    pub fn args(&self) -> (r: Vec<String>)
        ensures
            r.deep_view() == compare_args_seq(
                self.only_changed,
                self.envs.0.deep_view(),
                self.left@,
                self.right@,
            ),
    {
        let mut r: Vec<String> = Vec::new();
        r.push(String::from_str("compare"));
        if self.only_changed {
            r.push(String::from_str("--only-changed"));
        }
        let mut env_args = self.envs.args();
        r.append(&mut env_args);
        r.push(self.left.clone());
        r.push(self.right.clone());
        proof {
            assert(r.deep_view() =~~= compare_args_seq(
                self.only_changed,
                self.envs.0.deep_view(),
                self.left@,
                self.right@,
            ));
        }
        r
    }
}

/// How an `asv compare` run ended: exit code 0 is success, anything else is
/// an error.
pub fn compare_run_result(code: &Option<i32>) -> (r: Result<(), String>)
    ensures
        code == Some(0i32) ==> r is Ok,
        code != Some(0i32) ==> (r matches Err(m) && m@ == "asv compare failed"@),
{
    match code {
        Some(0) => Ok(()),
        _ => Err(String::from_str("asv compare failed")),
    }
}

/// The outcome of a captured `asv compare`: its table on success, otherwise
/// an error naming the exit status and relaying what the harness printed to
/// stderr. `stdout` is the captured standard output decoded as UTF-8 by the
/// caller, or the decoding error.
pub fn compare_output_result(
    code: &Option<i32>,
    stdout: Result<String, String>,
    status_text: &str,
    stderr_text: &str,
) -> (r: Result<String, String>)
    ensures
        code == Some(0i32) ==> r == stdout,
        code != Some(0i32) ==> (r matches Err(m) && m@ == "asv compare exited with "@
            + status_text@ + ":\n"@ + stderr_text@),
{
    match code {
        Some(0) => stdout,
        _ => {
            let mut m = String::from_str("asv compare exited with ");
            m.append(status_text);
            m.append(":\n");
            m.append(stderr_text);
            Err(m)
        },
    }
}

/// The arguments of the cheap discovery run that refreshes the harness's
/// benchmark inventory: run on the most recent of the requested refs, when
/// there are any.
pub open spec fn discover_args_seq(run_on: Seq<Seq<char>>) -> Seq<Seq<char>> {
    seq!["run"@, "--bench=just-discover"@] + (if run_on.len() > 0 {
        seq![run_on.last()]
    } else {
        Seq::empty()
    })
}

pub fn discover_args(run_on: &Vec<String>) -> (r: Vec<String>)
    ensures
        r.deep_view() == discover_args_seq(run_on.deep_view()),
{
    let mut r: Vec<String> = Vec::new();
    r.push(String::from_str("run"));
    r.push(String::from_str("--bench=just-discover"));
    if run_on.len() > 0 {
        let last = run_on[run_on.len() - 1].clone();
        r.push(last);
    }
    proof {
        assert(r.deep_view() =~~= discover_args_seq(run_on.deep_view()));
    }
    r
}

/// The lines of `parts` joined by newlines, as fed to the harness's
/// read-commits-from-stdin mode.
pub open spec fn join_lines_seq(parts: Seq<Seq<char>>) -> Seq<char>
    decreases parts.len(),
{
    if parts.len() == 0 {
        Seq::empty()
    } else if parts.len() == 1 {
        parts[0]
    } else {
        parts[0] + "\n"@ + join_lines_seq(parts.drop_first())
    }
}

pub fn join_lines(parts: &Vec<String>) -> (r: String)
    ensures
        r@ == join_lines_seq(parts.deep_view()),
{
    let n = parts.len();
    let mut r = String::new();
    if n == 0 {
        return r;
    }
    let first = parts[0].clone();
    r.append(first.as_str());
    let mut i: usize = 1;
    while i < n
        invariant
            n == parts@.len(),
            parts.deep_view().len() == n,
            1 <= i <= n,
            join_lines_seq(parts.deep_view().take(i as int)) == r@,
        decreases n - i,
    {
        r.append("\n");
        let part = parts[i].clone();
        r.append(part.as_str());
        proof {
            reveal_strlit("\n");
            lemma_join_lines_step(parts.deep_view(), i as int);
        }
        i += 1;
    }
    proof {
        assert(parts.deep_view().take(n as int) =~= parts.deep_view());
    }
    r
}

/// Joining one more part appends a newline and the part.
proof fn lemma_join_lines_step(parts: Seq<Seq<char>>, i: int)
    requires
        1 <= i < parts.len(),
    ensures
        join_lines_seq(parts.take(i + 1)) == join_lines_seq(parts.take(i)) + "\n"@ + parts[i],
    decreases i,
{
    let t1 = parts.take(i + 1);
    let t0 = parts.take(i);
    if i == 1 {
        assert(t1 =~= seq![parts[0], parts[1]]);
        assert(t1.drop_first() =~= seq![parts[1]]);
        assert(join_lines_seq(t1) == parts[0] + "\n"@ + parts[1]);
    } else {
        lemma_join_lines_step(parts.drop_first(), i - 1);
        assert(t1.drop_first() =~= parts.drop_first().take(i));
        assert(t0.drop_first() =~= parts.drop_first().take(i - 1));
        assert(parts.drop_first()[i - 1] == parts[i]);
        assert(join_lines_seq(t1) == t1[0] + "\n"@ + join_lines_seq(t1.drop_first()));
        assert(join_lines_seq(t0) == t0[0] + "\n"@ + join_lines_seq(t0.drop_first()));
    }
}

/// A planned full `asv run`: the argument list, and what to pipe to the
/// harness's standard input, when specific refs are requested.
pub struct RunInvocation {
    pub args: Vec<String>,
    pub stdin: Option<String>,
}

/// The argument list of the full run: specific refs are read from standard
/// input via `HASHFILE:-`, a run without refs does default discovery.
pub open spec fn run_args_seq(envs: Seq<Seq<char>>, run_on: Seq<Seq<char>>) -> Seq<Seq<char>> {
    seq!["run"@, "--launch-method=spawn"@] + env_args_seq(envs) + (if run_on.len() > 0 {
        seq!["HASHFILE:-"@]
    } else {
        Seq::empty()
    })
}

/// Plan the full benchmark run for the given environments and refs. Exactly
/// when refs are given, the harness is told to read them, newline-separated,
/// from its standard input.
pub fn plan_run(envs: &EnvSpecs, run_on: &Vec<String>) -> (r: RunInvocation)
    ensures
        r.args.deep_view() == run_args_seq(envs.0.deep_view(), run_on.deep_view()),
        run_on@.len() > 0 ==> (r.stdin matches Some(s) && s@ == join_lines_seq(
            run_on.deep_view(),
        )),
        run_on@.len() == 0 ==> r.stdin is None,
{
    let mut args: Vec<String> = Vec::new();
    args.push(String::from_str("run"));
    args.push(String::from_str("--launch-method=spawn"));
    let mut env_args = envs.args();
    args.append(&mut env_args);
    let stdin = if run_on.len() > 0 {
        args.push(String::from_str("HASHFILE:-"));
        Some(join_lines(run_on))
    } else {
        None
    };
    proof {
        assert(args.deep_view() =~~= run_args_seq(envs.0.deep_view(), run_on.deep_view()));
    }
    RunInvocation { args, stdin }
}

/// The meaning of the full run's exit code: 0 means every benchmark
/// succeeded, 2 is the harness's own "some benchmarks failed" code — a valid
/// run, surfaced as `false` — and anything else is a pipeline error naming
/// the exit status.
pub fn interpret_run_exit(code: &Option<i32>, status_text: &str) -> (r: Result<bool, String>)
    ensures
        code == Some(0i32) ==> r == Result::<bool, String>::Ok(true),
        code == Some(2i32) ==> r == Result::<bool, String>::Ok(false),
        code != Some(0i32) && code != Some(2i32) ==> (r matches Err(m) && m@
            == "asv run exited with "@ + status_text@),
{
    match code {
        Some(0) => Ok(true),
        Some(2) => Ok(false),
        _ => {
            let mut m = String::from_str("asv run exited with ");
            m.append(status_text);
            Err(m)
        },
    }
}

/// The meaning of the discovery run's exit code: anything but 0 is a
/// pipeline error naming the exit status.
pub fn check_discovery_exit(code: &Option<i32>, status_text: &str) -> (r: Result<(), String>)
    ensures
        code == Some(0i32) ==> r is Ok,
        code != Some(0i32) ==> (r matches Err(m) && m@
            == "asv run --bench=just-discover exited with "@ + status_text@),
{
    match code {
        Some(0) => Ok(()),
        _ => {
            let mut m = String::from_str("asv run --bench=just-discover exited with ");
            m.append(status_text);
            Err(m)
        },
    }
}

/// What a full sync-and-run produced: whether every benchmark succeeded, the
/// working directory the harness ran in, and the environments it ran under.
#[derive(Debug, Clone)]
pub struct RunResult {
    pub success: bool,
    pub wd: String,
    pub env_specs: EnvSpecs,
}

/// The branches a harness configuration tracks when it names none.
pub fn default_branches() -> (r: Vec<String>)
    ensures
        r.deep_view() =~= seq!["master"@],
{
    let mut r: Vec<String> = Vec::new();
    r.push(String::from_str("master"));
    r
}

/// The part of the harness configuration the bot reads: the branches the
/// harness tracks by default.
#[derive(Debug, Clone)]
pub struct AsvConfig {
    pub branches: Vec<String>,
}

impl AsvConfig {
    /// Assemble the configuration from the parsed file's fields, filling in
    /// the default for a `branches` key the file does not have.
    pub fn from_parts(branches: Option<Vec<String>>) -> (r: AsvConfig)
        ensures
            branches matches Some(b) ==> r.branches == b,
            branches is None ==> r.branches.deep_view() =~= seq!["master"@],
    {
        match branches {
            Some(b) => AsvConfig { branches: b },
            None => AsvConfig { branches: default_branches() },
        }
    }
}

/// The refspecs fetched before a run: each configured branch under
/// `refs/heads/`, then the requested refs as given.
pub open spec fn configured_refspecs_seq(
    branches: Seq<Seq<char>>,
    run_on: Seq<Seq<char>>,
) -> Seq<Seq<char>> {
    Seq::new(branches.len(), |i: int| "refs/heads/"@ + branches[i]) + run_on
}

pub fn configured_refspecs(branches: &Vec<String>, run_on: &Vec<String>) -> (r: Vec<String>)
    ensures
        r.deep_view() == configured_refspecs_seq(branches.deep_view(), run_on.deep_view()),
{
    let n = branches.len();
    let mut r: Vec<String> = Vec::new();
    let mut i: usize = 0;
    while i < n
        invariant
            n == branches@.len(),
            branches.deep_view().len() == n,
            0 <= i <= n,
            r.deep_view().len() == i,
            forall|j: int|
                0 <= j < i ==> r.deep_view()[j] == "refs/heads/"@ + branches.deep_view()[j],
        decreases n - i,
    {
        let ghost r0 = r.deep_view();
        let mut spec_ref = String::from_str("refs/heads/");
        spec_ref.append(branches[i].as_str());
        r.push(spec_ref);
        proof {
            assert(r.deep_view() =~~= r0.push("refs/heads/"@ + branches.deep_view()[i as int]));
        }
        i += 1;
    }
    let mut k: usize = 0;
    let m = run_on.len();
    while k < m
        invariant
            n == branches@.len(),
            m == run_on@.len(),
            branches.deep_view().len() == n,
            run_on.deep_view().len() == m,
            0 <= k <= m,
            r.deep_view().len() == n + k,
            forall|j: int|
                0 <= j < n ==> r.deep_view()[j] == "refs/heads/"@ + branches.deep_view()[j],
            forall|j: int| 0 <= j < k ==> r.deep_view()[n + j] == run_on.deep_view()[j],
        decreases m - k,
    {
        let ghost r0 = r.deep_view();
        let part = run_on[k].clone();
        r.push(part);
        proof {
            assert(r.deep_view() =~~= r0.push(run_on.deep_view()[k as int]));
        }
        k += 1;
    }
    proof {
        assert(r.deep_view() =~~= configured_refspecs_seq(
            branches.deep_view(),
            run_on.deep_view(),
        ));
    }
    r
}

/// Fetch the configured branches and the requested refs into the clone;
/// on success, exactly the returned refspecs were handed to the fetch.
pub fn fetch_configured_refs(
    repo: &git2::Repository,
    config: &AsvConfig,
    run_on: &Vec<String>,
) -> (r: Result<Vec<String>, String>)
    ensures
        r matches Ok(v) ==> v.deep_view() == configured_refspecs_seq(
            config.branches.deep_view(),
            run_on.deep_view(),
        ),
{
    let refspecs = configured_refspecs(&config.branches, run_on);
    match remote_fetch(repo, &refspecs) {
        Ok(()) => Ok(refspecs),
        Err(e) => Err(git_error_message(&e)),
    }
}

/// The working directory the harness runs in: the `benchmarks/` subdirectory
/// when it has its own harness configuration file, else the repository root.
pub fn benchmark_workdir(repo_wd: &str, benchmarks_config_present: bool) -> (r: String)
    ensures
        benchmarks_config_present ==> r@ == repo_wd@ + "/benchmarks"@,
        !benchmarks_config_present ==> r@ == repo_wd@,
{
    let mut r = repo_wd.to_owned();
    if benchmarks_config_present {
        r.append("/benchmarks");
    }
    r
}

/// The strings of a JSON array of strings: what the outside JSON parser
/// returns for a text, a function of the text alone; nothing when the text
/// is not such an array.
pub uninterp spec fn json_string_list(s: Seq<char>) -> Option<Seq<Seq<char>>>;

/// Relies on serde_json::from_str::<Vec<String>>: parses the text as a JSON
/// array of strings, failing on any other shape.
#[verifier::external_body]
fn parse_json_string_list(s: &str) -> (r: Result<Vec<String>, String>)
    ensures
        r is Ok <==> json_string_list(s@) is Some,
        r matches Ok(v) ==> json_string_list(s@) == Some(v.deep_view()),
{
    match serde_json::from_str::<Vec<String>>(s) {
        Ok(v) => Ok(v),
        Err(e) => Err(e.to_string()),
    }
}

/// Read the environment-discovery helper's standard output: a JSON array of
/// environment identifiers.
pub fn resolve_env_from_stdout(stdout: &str) -> (r: Result<EnvSpecs, String>)
    ensures
        r is Ok <==> json_string_list(stdout@) is Some,
        r matches Ok(e) ==> json_string_list(stdout@) == Some(e.0.deep_view()),
{
    match parse_json_string_list(stdout) {
        Ok(v) => Ok(EnvSpecs(v)),
        Err(e) => Err(e),
    }
}

} // verus!
