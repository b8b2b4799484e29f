//! One run of the compiler: the command it is started with and the files
//! it left behind.

use crate::encoding::{decimal, push_decimal_str};
use crate::env::{str_eq, EnvMap};
use crate::lines::strs;
use crate::normalized::opt_text;
use vstd::prelude::*;
use vstd::string::StringExecFns;

verus! {

/// Runs the compiler into a directory of its own, apart from the
/// developer's build tree.
#[derive(Debug, Clone)]
pub struct CompilerRunner {
    pub target_dir: String,
}

/// Why a run gave no result.
#[derive(Debug, Clone, Copy, PartialEq, Eq, Structural)]
pub enum RunnerError {
    /// The compiler ran longer than the given number of seconds.
    Timeout(u64),
}

/// The message of a run that took longer than `seconds`.
pub open spec fn timeout_message(seconds: u64) -> Seq<char> {
    "compiler run exceeded the "@ + decimal(seconds as nat) + "s timeout"@
}

impl RunnerError {
    /// The message of the error.
    pub fn to_string(&self) -> (message: String)
        ensures
            *self matches RunnerError::Timeout(seconds) && message@ == timeout_message(seconds),
    {
        match self {
            RunnerError::Timeout(seconds) => {
                let mut message = String::from_str("compiler run exceeded the ");
                push_decimal_str(&mut message, *seconds);
                message.append("s timeout");
                message
            },
        }
    }
}

/// What to build and how.
#[derive(Debug)]
pub struct RunRequest {
    pub manifest_path: Option<String>,
    pub package: Option<String>,
    pub target_triple: Option<String>,
    pub opt_level: Option<String>,
    pub emit: Option<String>,
    pub unpretty: Option<String>,
    pub additional_rustc_args: Vec<String>,
    pub env: EnvMap,
}

/// What a [`RunRequest`] holds, as plain values, but for its environment.
pub struct RequestModel {
    pub manifest_path: Option<Seq<char>>,
    pub package: Option<Seq<char>>,
    pub target_triple: Option<Seq<char>>,
    pub opt_level: Option<Seq<char>>,
    pub emit: Option<Seq<char>>,
    pub unpretty: Option<Seq<char>>,
    pub additional_rustc_args: Seq<Seq<char>>,
}

impl View for RunRequest {
    type V = RequestModel;

    open spec fn view(&self) -> RequestModel {
        RequestModel {
            manifest_path: opt_text(self.manifest_path),
            package: opt_text(self.package),
            target_triple: opt_text(self.target_triple),
            opt_level: opt_text(self.opt_level),
            emit: opt_text(self.emit),
            unpretty: opt_text(self.unpretty),
            additional_rustc_args: strs(self.additional_rustc_args@),
        }
    }
}

impl Default for RunRequest {
    fn default() -> (request: Self)
        ensures
            request@ == (RequestModel {
                manifest_path: None,
                package: None,
                target_triple: None,
                opt_level: None,
                emit: None,
                unpretty: None,
                additional_rustc_args: Seq::empty(),
            }),
            request.env.map() == Map::<Seq<char>, Seq<char>>::empty(),
    {
        let request = RunRequest {
            manifest_path: None,
            package: None,
            target_triple: None,
            opt_level: None,
            emit: None,
            unpretty: None,
            additional_rustc_args: Vec::new(),
            env: EnvMap::new(),
        };
        assert(request@.additional_rustc_args =~= Seq::<Seq<char>>::empty());
        request
    }
}

/// How a run of the compiler ended and what it left behind.
#[derive(Debug, Clone)]
pub struct RunResult {
    /// The exit code, where the process ended with one.
    pub status: Option<i32>,
    /// Whether the process reported success.
    pub success: bool,
    pub stdout: String,
    pub stderr: String,
    /// The files that the run added to the target directory.
    pub artifacts: Vec<String>,
    /// The command that was run, word by word.
    pub command: Vec<String>,
}

/// `flag` and `value`, where there is a value.
pub open spec fn flag_with(flag: Seq<char>, value: Option<Seq<char>>) -> Seq<Seq<char>> {
    match value {
        Some(v) => seq![flag, v],
        None => Seq::empty(),
    }
}

/// `prefix` followed by the value as one word, where there is a value.
pub open spec fn joined_flag(prefix: Seq<char>, value: Option<Seq<char>>) -> Seq<Seq<char>> {
    match value {
        Some(v) => seq![prefix + v],
        None => Seq::empty(),
    }
}

/// The command for `request`: `cargo rustc --offline`, then the manifest,
/// the package and the target where they are given, then `--`, which is
/// always there, then the flags for the compiler itself: the optimization
/// level, what to emit, what to print, and the additional arguments.
pub open spec fn command_words(request: RequestModel) -> Seq<Seq<char>> {
    seq!["cargo"@, "rustc"@, "--offline"@] + flag_with("--manifest-path"@, request.manifest_path)
        + flag_with("--package"@, request.package) + flag_with("--target"@, request.target_triple)
        + seq!["--"@] + joined_flag("-Copt-level="@, request.opt_level) + joined_flag(
        "--emit="@,
        request.emit,
    ) + joined_flag("-Zunpretty="@, request.unpretty) + request.additional_rustc_args
}

/// Appends `flag` and `value` to `words`, where there is a value.
fn push_flag(words: &mut Vec<String>, flag: &str, value: &Option<String>)
    ensures
        strs(final(words)@) == strs(old(words)@) + flag_with(flag@, opt_text(*value)),
{
    let ghost before = strs(words@);
    match value {
        Some(v) => {
            words.push(String::from_str(flag));
            words.push(v.clone());
            assert(strs(words@) == before + seq![flag@, v@]);
        },
        None => {
            assert(strs(words@) == before + Seq::<Seq<char>>::empty());
        },
    }
}

/// Appends `prefix` followed by the value, as one word, to `words`, where
/// there is a value.
fn push_joined_flag(words: &mut Vec<String>, prefix: &str, value: &Option<String>)
    ensures
        strs(final(words)@) == strs(old(words)@) + joined_flag(prefix@, opt_text(*value)),
{
    let ghost before = strs(words@);
    match value {
        Some(v) => {
            let mut word = String::from_str(prefix);
            word.append(v.as_str());
            words.push(word);
            assert(strs(words@) == before + seq![prefix@ + v@]);
        },
        None => {
            assert(strs(words@) == before + Seq::<Seq<char>>::empty());
        },
    }
}

/// `root` and `path` as one path. An absolute `path` stands for itself;
/// any other is put under `root`, with one separator between them.
pub open spec fn joined_path(root: Seq<char>, path: Seq<char>) -> Seq<char> {
    if (path.len() > 0 && path[0] == '/') || root.len() == 0 {
        path
    } else if root.last() == '/' {
        root + path
    } else {
        root + seq!['/'] + path
    }
}

/// `root` and `path` as one path.
pub fn join_path(root: &str, path: &str) -> (joined: String)
    ensures
        joined@ == joined_path(root@, path@),
{
    let root_len = root.unicode_len();
    if (path.unicode_len() > 0 && path.get_char(0) == '/') || root_len == 0 {
        return String::from_str(path);
    }
    let mut joined = String::from_str(root);
    if root.get_char(root_len - 1) != '/' {
        joined.push('/');
        assert(joined@ == root@ + seq!['/']);
    }
    joined.append(path);
    joined
}

/// Whether `path` is one of `paths`.
pub open spec fn listed(paths: Seq<Seq<char>>, path: Seq<char>) -> bool {
    exists|i: int| 0 <= i < paths.len() && paths[i] == path
}

/// Whether `path` begins at the root of the file system.
pub open spec fn is_absolute(path: Seq<char>) -> bool {
    path.len() > 0 && path[0] == '/'
}

/// `dir` as a path from the root: itself where it begins at the root, and
/// else the same path taken from the root.
pub open spec fn rooted(dir: Seq<char>) -> Seq<char> {
    if is_absolute(dir) {
        dir
    } else {
        seq!['/'] + dir
    }
}

/// The directory `target_dir` as an absolute path, for a process that
/// works in `working_dir`: itself where it is absolute, and else the
/// directory of that name under the working directory.
pub open spec fn absolute_dir(working_dir: Seq<char>, target_dir: Seq<char>) -> Seq<char> {
    joined_path(rooted(working_dir), target_dir)
}

/// Those of `after` that are not among `before`, each under `root`, in the
/// order of `after` and each once.
pub open spec fn new_paths(before: Seq<Seq<char>>, after: Seq<Seq<char>>, root: Seq<char>)
    -> Seq<Seq<char>>
    decreases after.len(),
{
    if after.len() == 0 {
        Seq::empty()
    } else {
        let rest = new_paths(before, after.drop_last(), root);
        let path = joined_path(root, after.last());
        if listed(before, after.last()) || listed(rest, path) {
            rest
        } else {
            rest.push(path)
        }
    }
}

/// Whether no path occurs twice in `paths`.
pub open spec fn no_repeats(paths: Seq<Seq<char>>) -> bool {
    forall|i: int, j: int| 0 <= i < j < paths.len() ==> paths[i] != paths[j]
}

/// Whether every one of `paths` begins at the root of the file system.
pub open spec fn all_absolute(paths: Seq<Seq<char>>) -> bool {
    forall|i: int| 0 <= i < paths.len() ==> is_absolute(#[trigger] paths[i])
}

/// Decides [`listed`].
fn is_listed(paths: &Vec<String>, path: &str) -> (found: bool)
    ensures
        found == listed(strs(paths@), path@),
{
    let ghost all = strs(paths@);
    let mut i: usize = 0;
    while i < paths.len()
        invariant
            i <= paths.len(),
            all == strs(paths@),
            forall|k: int| 0 <= k < i ==> #[trigger] all[k] != path@,
        decreases paths.len() - i,
    {
        assert(all[i as int] == paths@[i as int]@);
        if str_eq(paths[i].as_str(), path) {
            return true;
        }
        i += 1;
    }
    false
}

/// The files that a run added: those of `after`, the files under `root`
/// after the run, that are not among `before`, the files under `root`
/// before it. Both are paths relative to `root`; the result holds each new
/// file once, as a path under `root`, which is absolute where `root` is.
pub fn diff_paths(before: &Vec<String>, after: &Vec<String>, root: &str) -> (added: Vec<String>)
    ensures
        strs(added@) == new_paths(strs(before@), strs(after@), root@),
        no_repeats(strs(added@)),
        is_absolute(root@) ==> all_absolute(strs(added@)),
{
    let ghost all = strs(after@);
    let mut added: Vec<String> = Vec::new();
    let mut i: usize = 0;
    while i < after.len()
        invariant
            i <= after.len(),
            all == strs(after@),
            strs(added@) == new_paths(strs(before@), all.take(i as int), root@),
        decreases after.len() - i,
    {
        proof {
            assert(all.take(i + 1).drop_last() == all.take(i as int));
            assert(all.take(i + 1).last() == after@[i as int]@);
        }
        if !is_listed(before, after[i].as_str()) {
            let path = join_path(root, after[i].as_str());
            if !is_listed(&added, path.as_str()) {
                let ghost so_far = strs(added@);
                added.push(path);
                assert(strs(added@) == so_far.push(joined_path(root@, after@[i as int]@)));
            }
        }
        i += 1;
    }
    proof {
        assert(all.take(after.len() as int) == all);
        lemma_new_paths_once(strs(before@), all, root@);
        if is_absolute(root@) {
            lemma_new_paths_absolute(strs(before@), all, root@);
        }
    }
    added
}

/// No file that a run added is given twice.
pub proof fn lemma_new_paths_once(before: Seq<Seq<char>>, after: Seq<Seq<char>>, root: Seq<char>)
    ensures
        no_repeats(new_paths(before, after, root)),
    decreases after.len(),
{
    if after.len() > 0 {
        lemma_new_paths_once(before, after.drop_last(), root);
    }
}

/// Under an absolute root every file that a run added is an absolute path.
pub proof fn lemma_new_paths_absolute(
    before: Seq<Seq<char>>,
    after: Seq<Seq<char>>,
    root: Seq<char>,
)
    requires
        is_absolute(root),
    ensures
        all_absolute(new_paths(before, after, root)),
    decreases after.len(),
{
    if after.len() > 0 {
        lemma_new_paths_absolute(before, after.drop_last(), root);
        let path = joined_path(root, after.last());
        assert(is_absolute(path)) by {
            if !is_absolute(after.last()) {
                assert(path[0] == root[0]);
            }
        }
    }
}

/// The target directory of a process that works in some directory is an
/// absolute path.
pub proof fn lemma_absolute_dir(working_dir: Seq<char>, target_dir: Seq<char>)
    ensures
        is_absolute(absolute_dir(working_dir, target_dir)),
        is_absolute(rooted(working_dir)),
{
    let root = rooted(working_dir);
    assert(is_absolute(root));
    if !is_absolute(target_dir) {
        assert(absolute_dir(working_dir, target_dir)[0] == root[0]);
    }
}

/// Every file that a run added is a file of after the run, put under the
/// root, that was not there before the run.
pub proof fn lemma_new_paths_are_new(
    before: Seq<Seq<char>>,
    after: Seq<Seq<char>>,
    root: Seq<char>,
    i: int,
)
    requires
        0 <= i < new_paths(before, after, root).len(),
    ensures
        exists|k: int|
            0 <= k < after.len() && !listed(before, #[trigger] after[k]) && new_paths(
                before,
                after,
                root,
            )[i] == joined_path(root, after[k]),
    decreases after.len(),
{
    if after.len() > 0 {
        let rest = new_paths(before, after.drop_last(), root);
        if i < rest.len() {
            lemma_new_paths_are_new(before, after.drop_last(), root, i);
            let k = choose|k: int|
                0 <= k < after.drop_last().len() && !listed(before, #[trigger] after.drop_last()[k])
                    && rest[i] == joined_path(root, after.drop_last()[k]);
            assert(after[k] == after.drop_last()[k]);
        } else {
            assert(new_paths(before, after, root)[i] == joined_path(root, after[after.len() - 1]));
        }
    }
}

impl CompilerRunner {
    /// A runner that builds into `target/mcp-inspections`.
    pub fn new() -> (runner: Self)
        ensures
            runner.target_dir@ == "target/mcp-inspections"@,
    {
        CompilerRunner { target_dir: String::from_str("target/mcp-inspections") }
    }

    /// A runner that builds into `target_dir`.
    pub fn with_target_dir(target_dir: &str) -> (runner: Self)
        ensures
            runner.target_dir@ == target_dir@,
    {
        CompilerRunner { target_dir: String::from_str(target_dir) }
    }

    /// The command for `request`, word by word.
    pub fn command_line(&self, request: &RunRequest) -> (words: Vec<String>)
        ensures
            strs(words@) == command_words(request@),
    {
        let mut words: Vec<String> = Vec::new();
        words.push(String::from_str("cargo"));
        words.push(String::from_str("rustc"));
        words.push(String::from_str("--offline"));
        assert(strs(words@) == seq!["cargo"@, "rustc"@, "--offline"@]);
        push_flag(&mut words, "--manifest-path", &request.manifest_path);
        push_flag(&mut words, "--package", &request.package);
        push_flag(&mut words, "--target", &request.target_triple);
        let ghost head = strs(words@);
        words.push(String::from_str("--"));
        assert(strs(words@) == head + seq!["--"@]);
        push_joined_flag(&mut words, "-Copt-level=", &request.opt_level);
        push_joined_flag(&mut words, "--emit=", &request.emit);
        push_joined_flag(&mut words, "-Zunpretty=", &request.unpretty);
        let ghost flags = strs(words@);
        let mut i: usize = 0;
        while i < request.additional_rustc_args.len()
            invariant
                i <= request.additional_rustc_args.len(),
                strs(words@) == flags + strs(request.additional_rustc_args@).take(i as int),
            decreases request.additional_rustc_args.len() - i,
        {
            let ghost so_far = strs(words@);
            words.push(request.additional_rustc_args[i].clone());
            proof {
                let more = strs(request.additional_rustc_args@);
                assert(strs(words@) == so_far.push(more[i as int]));
                assert(more.take(i + 1) == more.take(i as int).push(more[i as int]));
            }
            i += 1;
        }
        assert(strs(request.additional_rustc_args@).take(
            request.additional_rustc_args.len() as int,
        ) == strs(request.additional_rustc_args@));
        words
    }

    /// The environment for the run of `request`: the variables of the
    /// request, and `CARGO_TARGET_DIR` set to the runner's directory
    /// whatever the request holds for it.
    pub fn child_env(&self, request: &RunRequest) -> (env: EnvMap)
        ensures
            env.map() == request.env.map().insert("CARGO_TARGET_DIR"@, self.target_dir@),
    {
        let mut env = request.env.duplicate();
        env.insert("CARGO_TARGET_DIR", self.target_dir.as_str());
        env
    }

    /// The runner's directory as an absolute path, for a process that
    /// works in `working_dir`.
    pub fn absolute_target_dir(&self, working_dir: &str) -> (dir: String)
        ensures
            dir@ == absolute_dir(working_dir@, self.target_dir@),
            is_absolute(dir@),
    {
        let root = if working_dir.unicode_len() > 0 && working_dir.get_char(0) == '/' {
            String::from_str(working_dir)
        } else {
            let mut root = String::from_str("/");
            proof {
                reveal_strlit("/");
                assert("/"@ == seq!['/']);
            }
            root.append(working_dir);
            root
        };
        proof {
            lemma_absolute_dir(working_dir@, self.target_dir@);
        }
        join_path(root.as_str(), self.target_dir.as_str())
    }

    /// What a run gives once the process is over.
    ///
    /// A process that was stopped because it ran too long gives the error
    /// [`RunnerError::Timeout`] with the time it was allowed, and never a
    /// result. A process that ended gives its status and output, the files
    /// it added under the runner's directory, and the command that was run.
    /// `before` and `after` are the files under that directory before and
    /// after the run, relative to it, and `working_dir` is the directory
    /// that the process worked in. Each file added is given once, as an
    /// absolute path.
    pub fn conclude(
        &self,
        request: &RunRequest,
        timeout_seconds: u64,
        outcome: ProcessOutcome,
        working_dir: &str,
        before: &Vec<String>,
        after: &Vec<String>,
    ) -> (result: Result<RunResult, RunnerError>)
        ensures
            outcome is TimedOut ==> result == Err::<RunResult, RunnerError>(
                RunnerError::Timeout(timeout_seconds),
            ),
            outcome matches ProcessOutcome::Exited { status, success, stdout, stderr } ==> {
                &&& result matches Ok(run)
                &&& run.status == status
                &&& run.success == success
                &&& run.stdout@ == stdout@
                &&& run.stderr@ == stderr@
                &&& strs(run.artifacts@) == new_paths(
                    strs(before@),
                    strs(after@),
                    absolute_dir(working_dir@, self.target_dir@),
                )
                &&& all_absolute(strs(run.artifacts@))
                &&& no_repeats(strs(run.artifacts@))
                &&& strs(run.command@) == command_words(request@)
            },
    {
        match outcome {
            ProcessOutcome::TimedOut => Err(RunnerError::Timeout(timeout_seconds)),
            ProcessOutcome::Exited { status, success, stdout, stderr } => {
                let root = self.absolute_target_dir(working_dir);
                Ok(
                    RunResult {
                        status,
                        success,
                        stdout,
                        stderr,
                        artifacts: diff_paths(before, after, root.as_str()),
                        command: self.command_line(request),
                    },
                )
            },
        }
    }
}

/// How the compiler's process came to its end.
#[derive(Debug)]
pub enum ProcessOutcome {
    /// The process ended by itself, with this status and output.
    Exited { status: Option<i32>, success: bool, stdout: String, stderr: String },
    /// The process ran too long and was stopped.
    TimedOut,
}

impl Default for CompilerRunner {
    fn default() -> (runner: Self)
        ensures
            runner.target_dir@ == "target/mcp-inspections"@,
    {
        CompilerRunner::new()
    }
}

} // verus!
