//! The update that the user asks for: it ignores that updates are switched off.
use crate::git::GitQuery;
use crate::runtime::{has_moved, RuntimeState};
use vstd::prelude::*;

verus! {

/// How long a forced fetch may take.
pub const FETCH_SECS: u64 = 240;

/// How long a forced reset may take.
pub const RESET_SECS: u64 = 120;

/// A status line of the forced update.
#[derive(Clone, Copy, PartialEq, Eq, Structural, Debug)]
pub enum ForceStatus {
    /// The newest commit is being fetched.
    Fetching,
    /// The checkout is being moved to it.
    Updating,
    /// The archive is being downloaded.
    Downloading,
}

/// Why the forced update failed.
#[derive(Debug)]
pub enum ForceError {
    /// The runtime is a checkout, and there is no git to update it with.
    GitMissing,
    /// The newest commit could not be fetched, for the reason given.
    FetchFailed(String),
    /// The checkout could not be moved, for the reason given.
    ResetFailed(String),
    /// The archive could not be downloaded, for the reason given.
    DownloadFailed(String),
}

/// The next piece of work of the forced update.
#[derive(Debug)]
pub enum ForceNext {
    /// Show a status line.
    Report(ForceStatus, ForceWork),
    /// Run a git command in the checkout within so many seconds.
    GitTimed(GitQuery, u64, ForceResult),
    /// Run a git command in the checkout: its trimmed output where it succeeded.
    Git(GitQuery, ForceText),
    /// Look up the newest revision.
    Latest(ForceText),
    /// Download the archive into the runtime and record this revision.
    Download(Option<String>, ForceResult),
    /// The update is over.
    Finish(Result<RuntimeState, ForceError>),
}

/// The forced update while it waits for work without a result.
#[derive(Clone, Copy, PartialEq, Eq, Structural, Debug)]
pub enum ForceWork {
    Fetch,
    Reset,
    AskLatest,
}

/// The forced update while it waits for a text that may be missing.
#[derive(Debug)]
pub enum ForceText {
    Head,
    FetchHead(Option<String>),
    Latest,
}

/// The forced update while it waits for work that can fail with a message.
#[derive(Clone, Copy, PartialEq, Eq, Structural, Debug)]
pub enum ForceResult {
    Fetched,
    Reset,
    Downloaded,
}

/// How the forced update begins: with a fetch where the runtime is a checkout
/// (`checkout`), which needs git, and with the archive where it is not.
pub open spec fn force_start(checkout: bool, git: bool) -> ForceNext {
    if !checkout {
        ForceNext::Report(ForceStatus::Downloading, ForceWork::AskLatest)
    } else if !git {
        ForceNext::Finish(Err(ForceError::GitMissing))
    } else {
        ForceNext::Report(ForceStatus::Fetching, ForceWork::Fetch)
    }
}

/// Begins the forced update.
pub fn force_update_runtime(checkout: bool, git: bool) -> (r: ForceNext)
    ensures
        r == force_start(checkout, git),
{
    if checkout {
        if git {
            ForceNext::Report(ForceStatus::Fetching, ForceWork::Fetch)
        } else {
            ForceNext::Finish(Err(ForceError::GitMissing))
        }
    } else {
        ForceNext::Report(ForceStatus::Downloading, ForceWork::AskLatest)
    }
}

impl ForceWork {
    /// What follows the work.
    pub open spec fn next(self) -> ForceNext {
        match self {
            ForceWork::Fetch => ForceNext::GitTimed(
                GitQuery::Fetch,
                FETCH_SECS,
                ForceResult::Fetched,
            ),
            ForceWork::Reset => ForceNext::GitTimed(
                GitQuery::Reset,
                RESET_SECS,
                ForceResult::Reset,
            ),
            ForceWork::AskLatest => ForceNext::Latest(ForceText::Latest),
        }
    }

    /// Goes on once the work is done.
    pub fn resume(self) -> (r: ForceNext)
        ensures
            r == self.next(),
    {
        match self {
            ForceWork::Fetch => ForceNext::GitTimed(
                GitQuery::Fetch,
                FETCH_SECS,
                ForceResult::Fetched,
            ),
            ForceWork::Reset => ForceNext::GitTimed(
                GitQuery::Reset,
                RESET_SECS,
                ForceResult::Reset,
            ),
            ForceWork::AskLatest => ForceNext::Latest(ForceText::Latest),
        }
    }
}

impl ForceText {
    /// What follows the text.
    pub open spec fn next(self, text: Option<String>) -> ForceNext {
        match self {
            ForceText::Head => ForceNext::Git(GitQuery::FetchHead, ForceText::FetchHead(text)),
            ForceText::FetchHead(head) => if crate::runtime::moved(head, text) {
                ForceNext::Report(ForceStatus::Updating, ForceWork::Reset)
            } else {
                ForceNext::Finish(Ok(RuntimeState::Unchanged))
            },
            ForceText::Latest => ForceNext::Download(text, ForceResult::Downloaded),
        }
    }

    /// Goes on with the text.
    pub fn resume(self, text: Option<String>) -> (r: ForceNext)
        ensures
            r == self.next(text),
    {
        match self {
            ForceText::Head => ForceNext::Git(GitQuery::FetchHead, ForceText::FetchHead(text)),
            ForceText::FetchHead(head) => if has_moved(&head, &text) {
                ForceNext::Report(ForceStatus::Updating, ForceWork::Reset)
            } else {
                ForceNext::Finish(Ok(RuntimeState::Unchanged))
            },
            ForceText::Latest => ForceNext::Download(text, ForceResult::Downloaded),
        }
    }
}

impl ForceResult {
    /// What follows the result.
    pub open spec fn next(self, result: Result<(), String>) -> ForceNext {
        match (self, result) {
            (ForceResult::Fetched, Ok(())) => ForceNext::Git(GitQuery::Head, ForceText::Head),
            (ForceResult::Reset, Ok(())) => ForceNext::Finish(Ok(RuntimeState::Updated)),
            (ForceResult::Downloaded, Ok(())) => ForceNext::Finish(Ok(RuntimeState::Fresh)),
            (ForceResult::Fetched, Err(error)) => ForceNext::Finish(
                Err(ForceError::FetchFailed(error)),
            ),
            (ForceResult::Reset, Err(error)) => ForceNext::Finish(
                Err(ForceError::ResetFailed(error)),
            ),
            (ForceResult::Downloaded, Err(error)) => ForceNext::Finish(
                Err(ForceError::DownloadFailed(error)),
            ),
        }
    }

    /// Goes on with the result.
    pub fn resume(self, result: Result<(), String>) -> (r: ForceNext)
        ensures
            r == self.next(result),
    {
        match result {
            Ok(()) => match self {
                ForceResult::Fetched => ForceNext::Git(GitQuery::Head, ForceText::Head),
                ForceResult::Reset => ForceNext::Finish(Ok(RuntimeState::Updated)),
                ForceResult::Downloaded => ForceNext::Finish(Ok(RuntimeState::Fresh)),
            },
            Err(error) => ForceNext::Finish(
                Err(
                    match self {
                        ForceResult::Fetched => ForceError::FetchFailed(error),
                        ForceResult::Reset => ForceError::ResetFailed(error),
                        ForceResult::Downloaded => ForceError::DownloadFailed(error),
                    },
                ),
            ),
        }
    }
}

// --- wording -------------------------------------------------------------------

impl ForceStatus {
    /// The status line.
    pub open spec fn line(self) -> Seq<char> {
        match self {
            ForceStatus::Fetching => "正在拉取官方最新代码…"@,
            ForceStatus::Updating => "发现新版本，正在更新…"@,
            ForceStatus::Downloading => "正在下载官方最新代码…"@,
        }
    }

    /// The status line.
    pub fn text(&self) -> (r: String)
        ensures
            r@ == self.line(),
    {
        match self {
            ForceStatus::Fetching => "正在拉取官方最新代码…".to_owned(),
            ForceStatus::Updating => "发现新版本，正在更新…".to_owned(),
            ForceStatus::Downloading => "正在下载官方最新代码…".to_owned(),
        }
    }
}

impl ForceError {
    /// What the user reads of the error.
    pub open spec fn line(self) -> Seq<char> {
        match self {
            ForceError::GitMissing => "更新需要 git，但系统中没有找到 git"@,
            ForceError::FetchFailed(error) => "拉取更新失败："@ + error@,
            ForceError::ResetFailed(error) => "更新代码失败："@ + error@,
            ForceError::DownloadFailed(error) => error@,
        }
    }

    /// What the user reads of the error.
    pub fn message(&self) -> (r: String)
        ensures
            r@ == self.line(),
    {
        match self {
            ForceError::GitMissing => "更新需要 git，但系统中没有找到 git".to_owned(),
            ForceError::FetchFailed(error) => {
                let mut out = "拉取更新失败：".to_owned();
                out.append(error.as_str());
                out
            },
            ForceError::ResetFailed(error) => {
                let mut out = "更新代码失败：".to_owned();
                out.append(error.as_str());
                out
            },
            ForceError::DownloadFailed(error) => error.clone(),
        }
    }
}

// --- what a forced update comes to ------------------------------------------------

/// What git and the network answer during one forced update.
pub struct ForceWorld {
    pub fetch: Result<(), String>,
    pub head: Option<String>,
    pub fetch_head: Option<String>,
    pub reset: Result<(), String>,
    pub latest: Option<String>,
    pub download: Result<(), String>,
}

/// How many answers the forced update can still take.
pub open spec fn force_rank(n: ForceNext) -> nat {
    match n {
        ForceNext::Report(_, k) => match k {
            ForceWork::Fetch => 6,
            ForceWork::Reset => 2,
            ForceWork::AskLatest => 3,
        },
        ForceNext::GitTimed(_, _, k) => if k is Fetched {
            5
        } else {
            1
        },
        ForceNext::Git(_, k) => match k {
            ForceText::Head => 4,
            ForceText::FetchHead(_) => 3,
            ForceText::Latest => 2,
        },
        ForceNext::Latest(k) => match k {
            ForceText::Head => 4,
            ForceText::FetchHead(_) => 3,
            ForceText::Latest => 2,
        },
        ForceNext::Download(_, k) => if k is Fetched {
            5
        } else {
            1
        },
        ForceNext::Finish(_) => 0,
    }
}

/// What the forced update comes to from `n` on in this world.
pub open spec fn force_outcome_from(n: ForceNext, w: ForceWorld) -> Result<
    RuntimeState,
    ForceError,
>
    decreases force_rank(n),
{
    match n {
        ForceNext::Report(_, k) => force_outcome_from(k.next(), w),
        ForceNext::GitTimed(_, _, k) => force_outcome_from(
            k.next(
                if k is Fetched {
                    w.fetch
                } else {
                    w.reset
                },
            ),
            w,
        ),
        ForceNext::Git(query, k) => force_outcome_from(
            k.next(
                if query == GitQuery::Head {
                    w.head
                } else {
                    w.fetch_head
                },
            ),
            w,
        ),
        ForceNext::Latest(k) => force_outcome_from(k.next(w.latest), w),
        ForceNext::Download(_, k) => force_outcome_from(k.next(w.download), w),
        ForceNext::Finish(result) => result,
    }
}

/// What a forced update comes to.
pub open spec fn force_outcome(checkout: bool, git: bool, w: ForceWorld) -> Result<
    RuntimeState,
    ForceError,
> {
    if !checkout {
        match w.download {
            Ok(()) => Ok(RuntimeState::Fresh),
            Err(error) => Err(ForceError::DownloadFailed(error)),
        }
    } else if !git {
        Err(ForceError::GitMissing)
    } else {
        match (w.fetch, w.reset) {
            (Err(error), _) => Err(ForceError::FetchFailed(error)),
            (Ok(()), _) if w.head is None || w.fetch_head is None || w.head->0@ == w.fetch_head->0@
                => Ok(RuntimeState::Unchanged),
            (Ok(()), Err(error)) => Err(ForceError::ResetFailed(error)),
            (Ok(()), Ok(())) => Ok(RuntimeState::Updated),
        }
    }
}

/// The revision that the runtime is at from `n` on, where it is at `at` before:
/// a reset moves a checkout to the commit that was fetched, and a download puts
/// the revision in place that it records.
pub open spec fn force_revision_from(n: ForceNext, w: ForceWorld, at: Option<Seq<char>>) -> Option<
    Seq<char>,
>
    decreases force_rank(n),
{
    match n {
        ForceNext::Report(_, k) => force_revision_from(k.next(), w, at),
        ForceNext::GitTimed(query, _, k) => force_revision_from(
            k.next(
                if k is Fetched {
                    w.fetch
                } else {
                    w.reset
                },
            ),
            w,
            if query == GitQuery::Reset && w.reset is Ok {
                w.fetch_head.deep_view()
            } else {
                at
            },
        ),
        ForceNext::Git(query, k) => force_revision_from(
            k.next(
                if query == GitQuery::Head {
                    w.head
                } else {
                    w.fetch_head
                },
            ),
            w,
            at,
        ),
        ForceNext::Latest(k) => force_revision_from(k.next(w.latest), w, at),
        ForceNext::Download(revision, k) => force_revision_from(
            k.next(w.download),
            w,
            if w.download is Ok {
                Some(crate::text::or_nothing(revision))
            } else {
                at
            },
        ),
        ForceNext::Finish(_) => at,
    }
}

/// A forced update that succeeds leaves the runtime at the newest revision: a
/// checkout as far as git knows both commits, anything else at the one that was
/// looked up.
pub proof fn force_ends_at_the_newest(checkout: bool, git: bool, w: ForceWorld)
    requires
        force_outcome(checkout, git, w) is Ok,
        checkout ==> w.head is Some && w.fetch_head is Some,
    ensures
        force_revision_from(force_start(checkout, git), w, w.head.deep_view()) == (if checkout {
            w.fetch_head.deep_view()
        } else {
            Some(crate::text::or_nothing(w.latest))
        }),
{
    reveal_with_fuel(force_revision_from, 8);
}

/// A forced update comes to [`force_outcome`]: what the flow decides step by
/// step is what the answers call for as a whole.
pub proof fn force_comes_to(checkout: bool, git: bool, w: ForceWorld)
    ensures
        force_outcome_from(force_start(checkout, git), w) == force_outcome(checkout, git, w),
{
    reveal_with_fuel(force_outcome_from, 8);
}

/// What a forced update does next in this world.
pub open spec fn force_step(n: ForceNext, w: ForceWorld) -> ForceNext {
    match n {
        ForceNext::Report(_, k) => k.next(),
        ForceNext::GitTimed(query, _, k) => k.next(
            if query == GitQuery::Fetch {
                w.fetch
            } else {
                w.reset
            },
        ),
        ForceNext::Git(query, k) => k.next(
            if query == GitQuery::Head {
                w.head
            } else {
                w.fetch_head
            },
        ),
        ForceNext::Latest(k) => k.next(w.latest),
        ForceNext::Download(_, k) => k.next(w.download),
        ForceNext::Finish(_) => n,
    }
}

/// The work of a forced update from `n` on in this world, in order, with its end.
pub open spec fn force_work_from(n: ForceNext, w: ForceWorld) -> Seq<ForceNext>
    decreases force_rank(n),
{
    if n is Finish {
        seq![n]
    } else {
        seq![n] + force_work_from(force_step(n, w), w)
    }
}

/// The work on a checkout with git: it is moved where both commits are known and
/// differ, and is left alone otherwise.
pub open spec fn force_checkout_way(w: ForceWorld) -> Seq<ForceNext> {
    seq![
        ForceNext::Report(ForceStatus::Fetching, ForceWork::Fetch),
        ForceNext::GitTimed(GitQuery::Fetch, 240, ForceResult::Fetched),
    ] + match w.fetch {
        Err(error) => seq![ForceNext::Finish(Err(ForceError::FetchFailed(error)))],
        Ok(_) => seq![
            ForceNext::Git(GitQuery::Head, ForceText::Head),
            ForceNext::Git(GitQuery::FetchHead, ForceText::FetchHead(w.head)),
        ] + match (w.head, w.fetch_head) {
            (Some(head), Some(fetched)) if head@ != fetched@ => seq![
                ForceNext::Report(ForceStatus::Updating, ForceWork::Reset),
                ForceNext::GitTimed(GitQuery::Reset, 120, ForceResult::Reset),
                ForceNext::Finish(
                    match w.reset {
                        Ok(_) => Ok(RuntimeState::Updated),
                        Err(error) => Err(ForceError::ResetFailed(error)),
                    },
                ),
            ],
            _ => seq![ForceNext::Finish(Ok(RuntimeState::Unchanged))],
        },
    }
}

/// The work on a runtime that is no checkout: the archive replaces it.
pub open spec fn force_archive_way(w: ForceWorld) -> Seq<ForceNext> {
    seq![
        ForceNext::Report(ForceStatus::Downloading, ForceWork::AskLatest),
        ForceNext::Latest(ForceText::Latest),
        ForceNext::Download(w.latest, ForceResult::Downloaded),
        ForceNext::Finish(
            match w.download {
                Ok(_) => Ok(RuntimeState::Fresh),
                Err(error) => Err(ForceError::DownloadFailed(error)),
            },
        ),
    ]
}

proof fn force_checkout_goes(w: ForceWorld)
    ensures
        force_work_from(ForceNext::Report(ForceStatus::Fetching, ForceWork::Fetch), w)
            == force_checkout_way(w),
{
    let n1 = ForceNext::Report(ForceStatus::Fetching, ForceWork::Fetch);
    let n2 = ForceNext::GitTimed(GitQuery::Fetch, 240, ForceResult::Fetched);
    let n3 = ForceNext::Git(GitQuery::Head, ForceText::Head);
    let n4 = ForceNext::Git(GitQuery::FetchHead, ForceText::FetchHead(w.head));
    let n5 = ForceNext::Report(ForceStatus::Updating, ForceWork::Reset);
    let n6 = ForceNext::GitTimed(GitQuery::Reset, 120, ForceResult::Reset);
    assert(force_step(n1, w) == n2);
    assert(force_step(n3, w) == n4);
    assert(force_step(n5, w) == n6);
    assert(force_work_from(n6, w) == seq![n6] + force_work_from(force_step(n6, w), w));
    assert(force_work_from(n5, w) == seq![n5] + force_work_from(n6, w));
    assert(force_work_from(n4, w) == seq![n4] + force_work_from(force_step(n4, w), w));
    assert(force_work_from(n3, w) == seq![n3] + force_work_from(n4, w));
    assert(force_work_from(n2, w) == seq![n2] + force_work_from(force_step(n2, w), w));
    assert(force_work_from(n1, w) == seq![n1] + force_work_from(n2, w));
    assert(force_work_from(n1, w) =~= force_checkout_way(w));
}

proof fn force_archive_goes(w: ForceWorld)
    ensures
        force_work_from(ForceNext::Report(ForceStatus::Downloading, ForceWork::AskLatest), w)
            == force_archive_way(w),
{
    let n1 = ForceNext::Report(ForceStatus::Downloading, ForceWork::AskLatest);
    let n2 = ForceNext::Latest(ForceText::Latest);
    let n3 = ForceNext::Download(w.latest, ForceResult::Downloaded);
    assert(force_step(n1, w) == n2);
    assert(force_step(n2, w) == n3);
    assert(force_work_from(n3, w) == seq![n3] + force_work_from(force_step(n3, w), w));
    assert(force_work_from(n2, w) == seq![n2] + force_work_from(n3, w));
    assert(force_work_from(n1, w) == seq![n1] + force_work_from(n2, w));
    assert(force_work_from(n1, w) =~= force_archive_way(w));
}

/// A forced update goes the way that the runtime and the answers call for, and
/// no other.
pub proof fn force_goes(checkout: bool, git: bool, w: ForceWorld)
    ensures
        force_work_from(force_start(checkout, git), w) == (if !checkout {
            force_archive_way(w)
        } else if git {
            force_checkout_way(w)
        } else {
            seq![ForceNext::Finish(Err(ForceError::GitMissing))]
        }),
{
    force_archive_goes(w);
    force_checkout_goes(w);
}

/// Where a checkout is already at the fetched commit, no forced update resets it
/// and it is found unchanged; where the two commits are known and differ, it is
/// reset, and updated where that succeeds. Where either is unknown, it is left
/// alone.
pub proof fn the_commits_decide_a_forced_update(w: ForceWorld)
    requires
        w.fetch is Ok,
    ensures
        ({
            let work = force_work_from(force_start(true, true), w);
            let resets = exists|i: int|
                0 <= i < work.len() && (#[trigger] work[i] matches ForceNext::GitTimed(query, _, _)
                    && query == GitQuery::Reset);
            let outcome = force_outcome_from(force_start(true, true), w);
            match (w.head, w.fetch_head) {
                (Some(head), Some(fetched)) => if head@ == fetched@ {
                    !resets && outcome == Ok::<RuntimeState, ForceError>(RuntimeState::Unchanged)
                } else {
                    resets && outcome == (match w.reset {
                        Ok(_) => Ok(RuntimeState::Updated),
                        Err(error) => Err(ForceError::ResetFailed(error)),
                    })
                },
                _ => !resets && outcome == Ok::<RuntimeState, ForceError>(RuntimeState::Unchanged),
            }
        }),
{
    force_goes(true, true, w);
    force_comes_to(true, true, w);
    let work = force_checkout_way(w);
    if work.len() > 5 {
        assert(work[5] == ForceNext::GitTimed(GitQuery::Reset, 120, ForceResult::Reset));
    }
}

} // verus!
