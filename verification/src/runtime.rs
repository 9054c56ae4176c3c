//! Keeping the runtime at the newest revision.
//!
//! Each flow alternates between work outside the library (git, the network,
//! the disk) and decisions. A flow is a value that names the next piece of
//! work together with what to do with its result; the caller performs the work
//! and resumes the flow with the answer until it finishes.
use crate::git::GitQuery;
use crate::text::same_text;
use vstd::prelude::*;

verus! {

/// What became of the runtime.
#[derive(Clone, Copy, PartialEq, Eq, Structural, Debug)]
pub enum RuntimeState {
    /// The code was put in place anew.
    Fresh,
    /// The checkout was moved to a newer commit.
    Updated,
    /// The code is as it was.
    Unchanged,
}

/// What is known of the runtime when a launch begins.
#[derive(Clone, Copy, PartialEq, Eq, Structural, Debug)]
pub struct RuntimeFacts {
    /// The runtime is a git checkout.
    pub checkout: bool,
    /// The runtime holds a `package.json`.
    pub package: bool,
    /// Updates are switched off.
    pub skip_update: bool,
    /// Git was found on this machine.
    pub git: bool,
    /// A source snapshot lies next to the program.
    pub snapshot: bool,
    /// The runtime path has a parent directory.
    pub parent: bool,
}

/// A status line of the launch flow.
#[derive(Debug)]
pub enum EnsureStatus {
    /// The newest version is being looked up.
    Checking,
    /// The checkout is being moved to a newer commit.
    Updating,
    /// A newer version is being downloaded.
    Downloading,
    /// The bundled snapshot could not be used, for the reason given.
    SnapshotFailed(String),
    /// The code is being downloaded for the first time.
    FirstDownload,
    /// A clone failed: the first one, or the second.
    CloneFailed { second: bool },
    /// The archive is being downloaded in place of a clone.
    Backup,
}

/// Why the runtime could not be prepared.
#[derive(Debug)]
pub enum RuntimeError {
    /// The newest commit could not be fetched.
    FetchFailed,
    /// The checkout could not be moved.
    ResetFailed,
    /// The archive could not be downloaded, for the reason given.
    DownloadFailed(String),
    /// Updates are switched off and there is no runtime to use.
    NothingToUse,
    /// The runtime path has no parent directory.
    NoParent,
    /// Neither a clone nor the archive could be had. There is no clone error
    /// where git is not installed.
    NothingHad { clone: Option<String>, download: String },
}

/// The next piece of work of the launch flow.
#[derive(Debug)]
pub enum EnsureNext {
    /// Show a status line.
    Report(EnsureStatus, AfterWork),
    /// Delete the runtime directory if it exists.
    RemoveRuntime(AfterWork),
    /// Wait for [`CLONE_PAUSE_SECS`].
    Pause(AfterWork),
    /// Run a git command in the checkout: its trimmed output where it succeeded.
    Git(GitQuery, AfterText),
    /// Look up the newest revision.
    Latest(AfterText),
    /// Read the revision recorded in the runtime.
    Recorded(AfterText),
    /// Unpack the bundled snapshot into the runtime.
    ExtractSnapshot(AfterResult),
    /// Clone the source into the runtime.
    CloneSource(AfterResult),
    /// Download the archive into the runtime and record this revision.
    Download(Option<String>, AfterResult),
    /// The flow is over.
    Finish(Result<RuntimeState, RuntimeError>),
}

/// The launch flow while it waits for work without a result.
#[derive(Debug)]
pub enum AfterWork {
    Fetch,
    Reset,
    AskLatest,
    DownloadNew(String),
    Extract { git: bool, parent: bool },
    SnapshotFailed { git: bool, parent: bool },
    SnapshotCleared { git: bool, parent: bool },
    FirstDownload { git: bool, parent: bool },
    Clone { parent: bool, second: bool },
    CloneFailed { parent: bool, second: bool, error: String },
    CloneRested { parent: bool, second: bool, error: String },
    Backup { clone: Option<String> },
}

/// The launch flow while it waits for a text that may be missing.
#[derive(Debug)]
pub enum AfterText {
    Fetched,
    Head,
    FetchHead(Option<String>),
    Reset,
    Latest,
    Recorded(String),
    Backup { clone: Option<String> },
}

/// The launch flow while it waits for work that can fail with a message.
#[derive(Debug)]
pub enum AfterResult {
    Downloaded,
    Extracted { git: bool, parent: bool },
    Cloned { parent: bool, second: bool },
    BackedUp { clone: Option<String> },
}

/// How long the flow rests after a failed clone.
pub const CLONE_PAUSE_SECS: u64 = 3;

/// Whether both texts are known and differ.
pub open spec fn moved(head: Option<String>, fetched: Option<String>) -> bool {
    match (head, fetched) {
        (Some(a), Some(b)) => a@ != b@,
        _ => false,
    }
}

/// Whether both texts are known and differ.
pub fn has_moved(head: &Option<String>, fetched: &Option<String>) -> (r: bool)
    ensures
        r == moved(*head, *fetched),
{
    match (head, fetched) {
        (Some(a), Some(b)) => !same_text(a.as_str(), b.as_str()),
        _ => false,
    }
}

/// The online part of a first launch.
pub open spec fn first_download(git: bool, parent: bool) -> EnsureNext {
    EnsureNext::Report(EnsureStatus::FirstDownload, AfterWork::FirstDownload { git, parent })
}

/// The archive in place of a clone.
pub open spec fn backup(clone: Option<String>) -> EnsureNext {
    EnsureNext::Report(EnsureStatus::Backup, AfterWork::Backup { clone })
}

/// How the launch flow begins. A checkout is updated by git; where there is no
/// git, the archive takes its place, as it does for an unpacked archive.
pub open spec fn ensure_start(facts: RuntimeFacts) -> EnsureNext {
    if facts.checkout || facts.package {
        if facts.skip_update {
            EnsureNext::Finish(Ok(RuntimeState::Unchanged))
        } else if facts.checkout && facts.git {
            EnsureNext::Report(EnsureStatus::Checking, AfterWork::Fetch)
        } else {
            EnsureNext::Report(EnsureStatus::Checking, AfterWork::AskLatest)
        }
    } else if facts.skip_update {
        EnsureNext::Finish(Err(RuntimeError::NothingToUse))
    } else if facts.snapshot {
        if !facts.parent {
            EnsureNext::Finish(Err(RuntimeError::NoParent))
        } else {
            EnsureNext::RemoveRuntime(AfterWork::Extract { git: facts.git, parent: facts.parent })
        }
    } else {
        first_download(facts.git, facts.parent)
    }
}

/// Begins the launch flow: it ends with the runtime at the newest revision
/// that can be had.
pub fn ensure_runtime(facts: RuntimeFacts) -> (r: EnsureNext)
    ensures
        r == ensure_start(facts),
{
    if facts.checkout || facts.package {
        if facts.skip_update {
            EnsureNext::Finish(Ok(RuntimeState::Unchanged))
        } else if facts.checkout && facts.git {
            EnsureNext::Report(EnsureStatus::Checking, AfterWork::Fetch)
        } else {
            EnsureNext::Report(EnsureStatus::Checking, AfterWork::AskLatest)
        }
    } else if facts.skip_update {
        EnsureNext::Finish(Err(RuntimeError::NothingToUse))
    } else if facts.snapshot {
        if !facts.parent {
            EnsureNext::Finish(Err(RuntimeError::NoParent))
        } else {
            EnsureNext::RemoveRuntime(AfterWork::Extract { git: facts.git, parent: facts.parent })
        }
    } else {
        EnsureNext::Report(
            EnsureStatus::FirstDownload,
            AfterWork::FirstDownload { git: facts.git, parent: facts.parent },
        )
    }
}

impl AfterWork {
    /// What follows the work.
    pub open spec fn next(self) -> EnsureNext {
        match self {
            AfterWork::Fetch => EnsureNext::Git(GitQuery::Fetch, AfterText::Fetched),
            AfterWork::Reset => EnsureNext::Git(GitQuery::Reset, AfterText::Reset),
            AfterWork::AskLatest => EnsureNext::Latest(AfterText::Latest),
            AfterWork::DownloadNew(revision) => EnsureNext::Download(
                Some(revision),
                AfterResult::Downloaded,
            ),
            AfterWork::Extract { git, parent } => EnsureNext::ExtractSnapshot(
                AfterResult::Extracted { git, parent },
            ),
            AfterWork::SnapshotFailed { git, parent } => EnsureNext::RemoveRuntime(
                AfterWork::SnapshotCleared { git, parent },
            ),
            AfterWork::SnapshotCleared { git, parent } => first_download(git, parent),
            AfterWork::FirstDownload { git, parent } => if git {
                EnsureNext::RemoveRuntime(AfterWork::Clone { parent, second: false })
            } else {
                backup(None)
            },
            AfterWork::Clone { parent, second } => if parent {
                EnsureNext::CloneSource(AfterResult::Cloned { parent, second })
            } else {
                EnsureNext::Finish(Err(RuntimeError::NoParent))
            },
            AfterWork::CloneFailed { parent, second, error } => EnsureNext::Pause(
                AfterWork::CloneRested { parent, second, error },
            ),
            AfterWork::CloneRested { parent, second, error } => if second {
                backup(Some(error))
            } else {
                EnsureNext::RemoveRuntime(AfterWork::Clone { parent, second: true })
            },
            AfterWork::Backup { clone } => EnsureNext::Latest(AfterText::Backup { clone }),
        }
    }

    /// Goes on once the work is done.
    pub fn resume(self) -> (r: EnsureNext)
        ensures
            r == self.next(),
    {
        match self {
            AfterWork::Fetch => EnsureNext::Git(GitQuery::Fetch, AfterText::Fetched),
            AfterWork::Reset => EnsureNext::Git(GitQuery::Reset, AfterText::Reset),
            AfterWork::AskLatest => EnsureNext::Latest(AfterText::Latest),
            AfterWork::DownloadNew(revision) => EnsureNext::Download(
                Some(revision),
                AfterResult::Downloaded,
            ),
            AfterWork::Extract { git, parent } => EnsureNext::ExtractSnapshot(
                AfterResult::Extracted { git, parent },
            ),
            AfterWork::SnapshotFailed { git, parent } => EnsureNext::RemoveRuntime(
                AfterWork::SnapshotCleared { git, parent },
            ),
            AfterWork::SnapshotCleared { git, parent } => EnsureNext::Report(
                EnsureStatus::FirstDownload,
                AfterWork::FirstDownload { git, parent },
            ),
            AfterWork::FirstDownload { git, parent } => if git {
                EnsureNext::RemoveRuntime(AfterWork::Clone { parent, second: false })
            } else {
                EnsureNext::Report(EnsureStatus::Backup, AfterWork::Backup { clone: None })
            },
            AfterWork::Clone { parent, second } => if parent {
                EnsureNext::CloneSource(AfterResult::Cloned { parent, second })
            } else {
                EnsureNext::Finish(Err(RuntimeError::NoParent))
            },
            AfterWork::CloneFailed { parent, second, error } => EnsureNext::Pause(
                AfterWork::CloneRested { parent, second, error },
            ),
            AfterWork::CloneRested { parent, second, error } => if second {
                EnsureNext::Report(EnsureStatus::Backup, AfterWork::Backup { clone: Some(error) })
            } else {
                EnsureNext::RemoveRuntime(AfterWork::Clone { parent, second: true })
            },
            AfterWork::Backup { clone } => EnsureNext::Latest(AfterText::Backup { clone }),
        }
    }
}

impl AfterText {
    /// What follows the text.
    pub open spec fn next(self, text: Option<String>) -> EnsureNext {
        match self {
            AfterText::Fetched => if text is Some {
                EnsureNext::Git(GitQuery::Head, AfterText::Head)
            } else {
                EnsureNext::Finish(Err(RuntimeError::FetchFailed))
            },
            AfterText::Head => EnsureNext::Git(GitQuery::FetchHead, AfterText::FetchHead(text)),
            AfterText::FetchHead(head) => if moved(head, text) {
                EnsureNext::Report(EnsureStatus::Updating, AfterWork::Reset)
            } else {
                EnsureNext::Finish(Ok(RuntimeState::Unchanged))
            },
            AfterText::Reset => if text is Some {
                EnsureNext::Finish(Ok(RuntimeState::Updated))
            } else {
                EnsureNext::Finish(Err(RuntimeError::ResetFailed))
            },
            AfterText::Latest => match text {
                Some(revision) => EnsureNext::Recorded(AfterText::Recorded(revision)),
                None => EnsureNext::Finish(Ok(RuntimeState::Unchanged)),
            },
            AfterText::Recorded(revision) => if text is Some && text->0@ == revision@ {
                EnsureNext::Finish(Ok(RuntimeState::Unchanged))
            } else {
                EnsureNext::Report(EnsureStatus::Downloading, AfterWork::DownloadNew(revision))
            },
            AfterText::Backup { clone } => EnsureNext::Download(
                text,
                AfterResult::BackedUp { clone },
            ),
        }
    }

    /// Goes on with the text.
    pub fn resume(self, text: Option<String>) -> (r: EnsureNext)
        ensures
            r == self.next(text),
    {
        match self {
            AfterText::Fetched => if text.is_some() {
                EnsureNext::Git(GitQuery::Head, AfterText::Head)
            } else {
                EnsureNext::Finish(Err(RuntimeError::FetchFailed))
            },
            AfterText::Head => EnsureNext::Git(GitQuery::FetchHead, AfterText::FetchHead(text)),
            AfterText::FetchHead(head) => if has_moved(&head, &text) {
                EnsureNext::Report(EnsureStatus::Updating, AfterWork::Reset)
            } else {
                EnsureNext::Finish(Ok(RuntimeState::Unchanged))
            },
            AfterText::Reset => if text.is_some() {
                EnsureNext::Finish(Ok(RuntimeState::Updated))
            } else {
                EnsureNext::Finish(Err(RuntimeError::ResetFailed))
            },
            AfterText::Latest => match text {
                Some(revision) => EnsureNext::Recorded(AfterText::Recorded(revision)),
                None => EnsureNext::Finish(Ok(RuntimeState::Unchanged)),
            },
            AfterText::Recorded(revision) => {
                let same = match &text {
                    Some(recorded) => same_text(recorded.as_str(), revision.as_str()),
                    None => false,
                };
                if same {
                    EnsureNext::Finish(Ok(RuntimeState::Unchanged))
                } else {
                    EnsureNext::Report(EnsureStatus::Downloading, AfterWork::DownloadNew(revision))
                }
            },
            AfterText::Backup { clone } => EnsureNext::Download(
                text,
                AfterResult::BackedUp { clone },
            ),
        }
    }
}

impl AfterResult {
    /// What follows the result.
    pub open spec fn next(self, result: Result<(), String>) -> EnsureNext {
        match (self, result) {
            (_, Ok(())) => EnsureNext::Finish(Ok(RuntimeState::Fresh)),
            (AfterResult::Downloaded, Err(error)) => EnsureNext::Finish(
                Err(RuntimeError::DownloadFailed(error)),
            ),
            (AfterResult::Extracted { git, parent }, Err(error)) => EnsureNext::Report(
                EnsureStatus::SnapshotFailed(error),
                AfterWork::SnapshotFailed { git, parent },
            ),
            (AfterResult::Cloned { parent, second }, Err(error)) => EnsureNext::Report(
                EnsureStatus::CloneFailed { second },
                AfterWork::CloneFailed { parent, second, error },
            ),
            (AfterResult::BackedUp { clone }, Err(error)) => EnsureNext::Finish(
                Err(RuntimeError::NothingHad { clone, download: error }),
            ),
        }
    }

    /// Goes on with the result.
    pub fn resume(self, result: Result<(), String>) -> (r: EnsureNext)
        ensures
            r == self.next(result),
    {
        match result {
            Ok(()) => EnsureNext::Finish(Ok(RuntimeState::Fresh)),
            Err(error) => match self {
                AfterResult::Downloaded => EnsureNext::Finish(
                    Err(RuntimeError::DownloadFailed(error)),
                ),
                AfterResult::Extracted { git, parent } => EnsureNext::Report(
                    EnsureStatus::SnapshotFailed(error),
                    AfterWork::SnapshotFailed { git, parent },
                ),
                AfterResult::Cloned { parent, second } => EnsureNext::Report(
                    EnsureStatus::CloneFailed { second },
                    AfterWork::CloneFailed { parent, second, error },
                ),
                AfterResult::BackedUp { clone } => EnsureNext::Finish(
                    Err(RuntimeError::NothingHad { clone, download: error }),
                ),
            },
        }
    }
}

// --- wording -------------------------------------------------------------------

impl EnsureStatus {
    /// The status line.
    pub open spec fn line(self) -> Seq<char> {
        match self {
            EnsureStatus::Checking => "正在检查 DeepSeek Harness 最新版本…"@,
            EnsureStatus::Updating => "发现新版本，正在更新…"@,
            EnsureStatus::Downloading => "发现新版本，正在下载…"@,
            EnsureStatus::SnapshotFailed(error) => "内置代码初始化失败（"@ + error@
                + "），尝试在线下载…"@,
            EnsureStatus::FirstDownload => "首次运行：正在下载 DeepSeek Harness 最新代码…"@,
            EnsureStatus::CloneFailed { second } => "git 克隆失败（"@ + (if second {
                "第 2 次"@
            } else {
                "第 1 次"@
            }) + "），正在尝试备用下载…"@,
            EnsureStatus::Backup => "正在通过备用通道下载…"@,
        }
    }

    /// The status line.
    pub fn text(&self) -> (r: String)
        ensures
            r@ == self.line(),
    {
        match self {
            EnsureStatus::Checking => "正在检查 DeepSeek Harness 最新版本…".to_owned(),
            EnsureStatus::Updating => "发现新版本，正在更新…".to_owned(),
            EnsureStatus::Downloading => "发现新版本，正在下载…".to_owned(),
            EnsureStatus::SnapshotFailed(error) => {
                let mut out = "内置代码初始化失败（".to_owned();
                out.append(error.as_str());
                out.append("），尝试在线下载…");
                out
            },
            EnsureStatus::FirstDownload => "首次运行：正在下载 DeepSeek Harness 最新代码…".to_owned(),
            EnsureStatus::CloneFailed { second } => {
                let mut out = "git 克隆失败（".to_owned();
                if *second {
                    out.append("第 2 次");
                } else {
                    out.append("第 1 次");
                }
                out.append("），正在尝试备用下载…");
                out
            },
            EnsureStatus::Backup => "正在通过备用通道下载…".to_owned(),
        }
    }
}

/// What the user reads where a path has no parent directory.
pub open spec fn no_parent() -> Seq<char> {
    "runtime 路径没有父目录"@
}

impl RuntimeError {
    /// What the user reads of the error.
    pub open spec fn line(self) -> Seq<char> {
        match self {
            RuntimeError::FetchFailed => "检查更新失败（网络或仓库不可达）"@,
            RuntimeError::ResetFailed => "更新代码失败（git reset）"@,
            RuntimeError::DownloadFailed(error) => error@,
            RuntimeError::NothingToUse => "DSH_SKIP_UPDATE 已设置，但本地没有可用的运行环境"@,
            RuntimeError::NoParent => no_parent(),
            RuntimeError::NothingHad { clone, download } => "下载代码失败：git clone 失败（"@ + (
            if clone is None || clone->0@.len() == 0 {
                "系统未安装 git"@
            } else {
                clone->0@
            }) + "），备用下载也失败（"@ + download@ + "）"@,
        }
    }

    /// What the user reads of the error.
    pub fn message(&self) -> (r: String)
        ensures
            r@ == self.line(),
    {
        match self {
            RuntimeError::FetchFailed => "检查更新失败（网络或仓库不可达）".to_owned(),
            RuntimeError::ResetFailed => "更新代码失败（git reset）".to_owned(),
            RuntimeError::DownloadFailed(error) => error.clone(),
            RuntimeError::NothingToUse =>
                "DSH_SKIP_UPDATE 已设置，但本地没有可用的运行环境".to_owned(),
            RuntimeError::NoParent => "runtime 路径没有父目录".to_owned(),
            RuntimeError::NothingHad { clone, download } => {
                let mut out = "下载代码失败：git clone 失败（".to_owned();
                match clone {
                    Some(error) if !error.as_str().is_empty() => out.append(error.as_str()),
                    _ => out.append("系统未安装 git"),
                }
                out.append("），备用下载也失败（");
                out.append(download.as_str());
                out.append("）");
                out
            },
        }
    }
}

} // verus!
