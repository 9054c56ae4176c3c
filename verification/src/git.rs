//! Git commands and what their results mean.
use crate::text::{push_decimal, trim};
use vstd::prelude::*;

verus! {

/// The repository that the runtime follows.
pub const SOURCE_URL: &'static str = "https://github.com/deepseek-ai/deepseek-harness.git";

/// The branch that the runtime follows.
pub const SOURCE_BRANCH: &'static str = "master";

/// How long a clone may take.
pub const CLONE_SECS: u64 = 240;

/// How long to wait between two looks at a running git.
pub const POLL_MILLIS: u64 = 500;

// --- commands ------------------------------------------------------------------

/// A git command that runs inside the runtime checkout.
#[derive(Clone, Copy, PartialEq, Eq, Structural, Debug)]
pub enum GitQuery {
    /// Fetches the newest commit of the source branch.
    Fetch,
    /// The commit that is checked out.
    Head,
    /// The commit that was fetched last.
    FetchHead,
    /// Moves the checkout to the commit that was fetched last.
    Reset,
}

impl GitQuery {
    /// The arguments of the command.
    pub open spec fn arguments(self) -> Seq<Seq<char>> {
        match self {
            GitQuery::Fetch => seq!["fetch"@, "--depth"@, "1"@, "origin"@, SOURCE_BRANCH@],
            GitQuery::Head => seq!["rev-parse"@, "HEAD"@],
            GitQuery::FetchHead => seq!["rev-parse"@, "FETCH_HEAD"@],
            GitQuery::Reset => seq!["reset"@, "--hard"@, "FETCH_HEAD"@],
        }
    }

    /// The arguments of the command.
    pub fn args(&self) -> (r: Vec<String>)
        ensures
            r.deep_view() == self.arguments(),
    {
        let mut out: Vec<String> = Vec::new();
        match self {
            GitQuery::Fetch => {
                out.push("fetch".to_owned());
                out.push("--depth".to_owned());
                out.push("1".to_owned());
                out.push("origin".to_owned());
                out.push(SOURCE_BRANCH.to_owned());
            },
            GitQuery::Head => {
                out.push("rev-parse".to_owned());
                out.push("HEAD".to_owned());
            },
            GitQuery::FetchHead => {
                out.push("rev-parse".to_owned());
                out.push("FETCH_HEAD".to_owned());
            },
            GitQuery::Reset => {
                out.push("reset".to_owned());
                out.push("--hard".to_owned());
                out.push("FETCH_HEAD".to_owned());
            },
        }
        assert(out.deep_view() =~= self.arguments());
        out
    }
}

/// Where clones come from: the local source where one is set, else the public
/// repository.
pub fn clone_source(local_source: Option<String>) -> (r: String)
    ensures
        r@ == match local_source {
            Some(path) => path@,
            None => SOURCE_URL@,
        },
{
    match local_source {
        Some(path) => path,
        None => SOURCE_URL.to_owned(),
    }
}

/// The arguments of a shallow clone of the source branch.
pub fn clone_args(source: &str, target: &str) -> (r: Vec<String>)
    ensures
        r.deep_view() == seq![
            "clone"@,
            "--depth"@,
            "1"@,
            "--branch"@,
            SOURCE_BRANCH@,
            source@,
            target@,
        ],
{
    let mut out: Vec<String> = Vec::new();
    out.push("clone".to_owned());
    out.push("--depth".to_owned());
    out.push("1".to_owned());
    out.push("--branch".to_owned());
    out.push(SOURCE_BRANCH.to_owned());
    out.push(source.to_owned());
    out.push(target.to_owned());
    assert(out.deep_view() =~= seq![
        "clone"@,
        "--depth"@,
        "1"@,
        "--branch"@,
        SOURCE_BRANCH@,
        source@,
        target@,
    ]);
    out
}

// --- results -------------------------------------------------------------------

/// What a git command gave: its trimmed output where it succeeded.
pub fn git_out(success: bool, stdout: &str) -> (r: Option<String>)
    ensures
        r is Some == success,
        r matches Some(text) ==> text@ == crate::text::trimmed(stdout@),
{
    if success {
        Some(trim(stdout))
    } else {
        None
    }
}

/// One look at a running git.
#[derive(Debug)]
pub enum GitPoll {
    /// It has ended, with this output.
    Ended { success: bool, stdout: String, stderr: String },
    /// It runs since so many nanoseconds.
    Running { nanos: u128 },
    /// Its state could not be read, for the reason given.
    Lost(String),
}

/// What to do after a look at a running git.
#[derive(Debug)]
pub enum GitWait {
    /// Look again after [`POLL_MILLIS`].
    Again,
    /// Stop waiting with this result; `kill` the process first where it is set.
    Stop { kill: bool, result: Result<String, String> },
}

/// Whether a command that runs since `nanos` is over its `secs`.
pub open spec fn overdue(nanos: u128, secs: u64) -> bool {
    nanos > secs * 1_000_000_000
}

/// What the user reads of a command that took longer than `secs`.
pub open spec fn overdue_line(secs: u64) -> Seq<char> {
    "git 操作超时（"@ + crate::text::decimal(secs as nat) + " 秒）"@
}

/// What the user reads of a git that could not be started.
pub fn spawn_failed(error: &str) -> (r: String)
    ensures
        r@ == "无法启动 git："@ + error@,
{
    let mut out = "无法启动 git：".to_owned();
    out.append(error);
    out
}

/// Decides after a look at a git command with a deadline of `secs`: its
/// trimmed output where it succeeded, its trimmed error output where it
/// failed, and an error that kills it where it is over the deadline or lost.
pub fn git_out_timeout(poll: GitPoll, secs: u64) -> (r: GitWait)
    ensures
        match poll {
            GitPoll::Ended { success, stdout, stderr } => r matches GitWait::Stop { kill, result }
                && !kill && result is Ok == success && match result {
                Ok(text) => text@ == crate::text::trimmed(stdout@),
                Err(error) => error@ == crate::text::trimmed(stderr@),
            },
            GitPoll::Lost(error) => r matches GitWait::Stop { kill: true, result: Err(message) }
                && message@ == "等待 git 失败："@ + error@,
            GitPoll::Running { nanos } => if overdue(nanos, secs) {
                r matches GitWait::Stop { kill: true, result: Err(message) } && message@
                    == overdue_line(secs)
            } else {
                r is Again
            },
        },
{
    match poll {
        GitPoll::Ended { success, stdout, stderr } => {
            let result = if success {
                Ok(trim(stdout.as_str()))
            } else {
                Err(trim(stderr.as_str()))
            };
            GitWait::Stop { kill: false, result }
        },
        GitPoll::Lost(error) => {
            let mut message = "等待 git 失败：".to_owned();
            message.append(error.as_str());
            GitWait::Stop { kill: true, result: Err(message) }
        },
        GitPoll::Running { nanos } => {
            if nanos > secs as u128 * 1_000_000_000 {
                let mut message = "git 操作超时（".to_owned();
                push_decimal(&mut message, secs);
                message.append(" 秒）");
                GitWait::Stop { kill: true, result: Err(message) }
            } else {
                GitWait::Again
            }
        },
    }
}

/// No git command hangs the launch: where every look comes at least
/// [`POLL_MILLIS`] after the one before, the look after twice the deadline's
/// seconds finds the command overdue.
pub proof fn looks_are_bounded(looks: Seq<u128>, secs: u64, i: int)
    requires
        forall|j: int| 0 <= j < looks.len() ==> #[trigger] looks[j] >= j * POLL_MILLIS * 1_000_000,
        2 * secs < i < looks.len(),
    ensures
        overdue(looks[i], secs),
{
    assert(looks[i] >= i * POLL_MILLIS * 1_000_000);
}

/// How many nanoseconds are left until the deadline of a command that was
/// started `nanos` ago.
pub open spec fn left_until(nanos: u128, secs: u64) -> int {
    if overdue(nanos, secs) {
        0
    } else {
        secs * 1_000_000_000 - nanos
    }
}

/// How long the output of a command that has ended is still waited for, in
/// nanoseconds, where the command was started `nanos` ago.
pub fn time_left(nanos: u128, secs: u64) -> (r: u128)
    ensures
        r == (if overdue(nanos, secs) {
            0
        } else {
            secs * 1_000_000_000 - nanos
        }),
        r == left_until(nanos, secs),
{
    let deadline: u128 = secs as u128 * 1_000_000_000;
    if nanos > deadline {
        0
    } else {
        deadline - nanos
    }
}

/// No read goes past the deadline: one that begins in time and takes no longer
/// than it is granted is over by then, and none is granted any time after it.
pub proof fn reads_end_in_time(begun: u128, ended: u128, secs: u64)
    requires
        begun <= ended <= begun + left_until(begun, secs),
    ensures
        !overdue(begun, secs) ==> !overdue(ended, secs),
        overdue(begun, secs) ==> ended == begun,
{
}

// --- revisions -----------------------------------------------------------------

/// Where the revision of the runtime is read from.
#[derive(Clone, Copy, PartialEq, Eq, Structural, Debug)]
pub enum RevisionSource {
    /// The commit that git has checked out.
    Head,
    /// The file that records the revision of an unpacked archive.
    Recorded,
}

/// Where the current revision is read from: git where it is there and the
/// runtime is a checkout, else the recorded revision.
pub fn current_sha(git: bool, checkout: bool) -> (r: RevisionSource)
    ensures
        r == (if git && checkout {
            RevisionSource::Head
        } else {
            RevisionSource::Recorded
        }),
{
    if git {
        if checkout {
            return RevisionSource::Head;
        }
    }
    RevisionSource::Recorded
}

/// The revision that the version file records, if it could be read.
pub fn recorded_sha(contents: Option<String>) -> (r: Option<String>)
    ensures
        r is Some == contents is Some,
        r matches Some(revision) ==> revision@ == crate::text::trimmed(contents->0@),
{
    match contents {
        Some(text) => Some(trim(text.as_str())),
        None => None,
    }
}

/// How the newest revision is looked up.
#[derive(Debug)]
pub enum LatestLookup {
    /// It cannot be.
    Unknown,
    /// By git with these arguments, beside the local source.
    Local(Vec<String>),
    /// By the public interface of the repository.
    Online,
}

/// Decides how the newest revision is looked up: by the `HEAD` of the local
/// source where one is set, which needs git, a parent directory and a path
/// that is text; online otherwise.
pub fn latest_sha(
    local_source: bool,
    git: bool,
    source_parent: bool,
    source_path: Option<String>,
) -> (r: LatestLookup)
    ensures
        match r {
            LatestLookup::Online => !local_source,
            LatestLookup::Unknown => local_source && !(git && source_parent && source_path is Some),
            LatestLookup::Local(args) => local_source && git && source_parent && source_path is Some
                && args.deep_view() == seq!["-C"@, source_path->0@, "rev-parse"@, "HEAD"@],
        },
{
    if !local_source {
        return LatestLookup::Online;
    }
    if !git || !source_parent {
        return LatestLookup::Unknown;
    }
    match source_path {
        None => LatestLookup::Unknown,
        Some(path) => {
            let mut args: Vec<String> = Vec::new();
            let ghost named = path@;
            args.push("-C".to_owned());
            args.push(path);
            args.push("rev-parse".to_owned());
            args.push("HEAD".to_owned());
            assert(args.deep_view() =~= seq!["-C"@, named, "rev-parse"@, "HEAD"@]);
            LatestLookup::Local(args)
        },
    }
}

} // verus!
