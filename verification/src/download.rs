//! Downloading the source archive in place of a clone.
use crate::git::SOURCE_BRANCH;
use crate::text::trim_end_matches;
use vstd::prelude::*;

verus! {

/// How long the download may take.
pub const ARCHIVE_SECS: u64 = 120;

/// How many bytes of the download are read at most.
pub const ARCHIVE_BYTES: u64 = 2147483648;

/// Where the archive of the source branch is downloaded from.
pub fn archive_url() -> (r: String)
    ensures
        r@ == "https://codeload.github.com/deepseek-ai/deepseek-harness/zip/refs/heads/"@
            + SOURCE_BRANCH@,
{
    let mut out =
        "https://codeload.github.com/deepseek-ai/deepseek-harness/zip/refs/heads/".to_owned();
    out.append(SOURCE_BRANCH);
    out
}

/// Why the archive could not be put in place.
#[derive(Debug)]
pub enum DownloadError {
    NoParent,
    Request(String),
    Body(String),
    Empty,
    Save(String),
    Open(String),
    Unpack(String),
    Rename(String),
}

/// The next piece of work of the download.
#[derive(Debug)]
pub enum DownloadNext {
    /// Send the request.
    Request(DownloadResult),
    /// Read the body, up to [`ARCHIVE_BYTES`]: how many bytes it has.
    ReadBody(DownloadBody),
    /// Write the body to a file beside the runtime.
    Save(DownloadResult),
    /// Open that file.
    Open(DownloadResult),
    /// Read the directory of the archive: the name of its first entry, if it
    /// has one.
    Parse(DownloadFirst),
    /// Unpack the archive beside the runtime.
    Unpack(DownloadResult),
    /// Delete the archive file.
    RemoveArchive(DownloadWork),
    /// Delete the runtime directory if it exists.
    ClearRuntime(DownloadWork),
    /// Move the directory that the archive was unpacked to, which
    /// [`inner_directory`] gives, into the runtime.
    Rename { first: Option<String>, after: DownloadResult },
    /// Record this as the revision of the runtime, or nothing where it is
    /// unknown.
    Record(Option<String>, DownloadWork),
    /// The download is over.
    Finish(Result<(), DownloadError>),
}

/// The download while it waits for work without a result.
#[derive(Debug)]
pub enum DownloadWork {
    ArchiveRemoved { first: Option<String>, revision: Option<String> },
    RuntimeCleared { first: Option<String>, revision: Option<String> },
    Recorded,
}

/// The download while it waits for the size of the body.
#[derive(Debug)]
pub struct DownloadBody {
    pub revision: Option<String>,
}

/// The download while it waits for the first entry of the archive.
#[derive(Debug)]
pub struct DownloadFirst {
    pub revision: Option<String>,
}

/// The download while it waits for work that can fail with a message.
#[derive(Debug)]
pub enum DownloadResult {
    Requested { revision: Option<String> },
    Saved { revision: Option<String> },
    Opened { revision: Option<String> },
    Unpacked { first: Option<String>, revision: Option<String> },
    Renamed { revision: Option<String> },
}

/// How the download of this revision begins: with a request, where the runtime
/// path has a parent directory.
pub open spec fn download_start(parent: bool, revision: Option<String>) -> DownloadNext {
    if parent {
        DownloadNext::Request(DownloadResult::Requested { revision })
    } else {
        DownloadNext::Finish(Err(DownloadError::NoParent))
    }
}

/// Begins the download of this revision, as far as it is known.
pub fn download_zip(parent: bool, revision: Option<String>) -> (r: DownloadNext)
    ensures
        r == download_start(parent, revision),
{
    if parent {
        DownloadNext::Request(DownloadResult::Requested { revision })
    } else {
        DownloadNext::Finish(Err(DownloadError::NoParent))
    }
}

impl DownloadBody {
    /// What follows the body: an empty one is an error.
    pub open spec fn next(self, size: Result<usize, String>) -> DownloadNext {
        match size {
            Ok(0) => DownloadNext::Finish(Err(DownloadError::Empty)),
            Ok(_) => DownloadNext::Save(DownloadResult::Saved { revision: self.revision }),
            Err(error) => DownloadNext::Finish(Err(DownloadError::Body(error))),
        }
    }

    /// Goes on with the size of the body.
    pub fn resume(self, size: Result<usize, String>) -> (r: DownloadNext)
        ensures
            r == self.next(size),
    {
        match size {
            Ok(size) => if size == 0 {
                DownloadNext::Finish(Err(DownloadError::Empty))
            } else {
                DownloadNext::Save(DownloadResult::Saved { revision: self.revision })
            },
            Err(error) => DownloadNext::Finish(Err(DownloadError::Body(error))),
        }
    }
}

impl DownloadFirst {
    /// What follows the directory of the archive.
    pub open spec fn next(self, first: Result<Option<String>, String>) -> DownloadNext {
        match first {
            Ok(first) => DownloadNext::Unpack(
                DownloadResult::Unpacked { first, revision: self.revision },
            ),
            Err(error) => DownloadNext::Finish(Err(DownloadError::Unpack(error))),
        }
    }

    /// Goes on with the name of the first entry.
    pub fn resume(self, first: Result<Option<String>, String>) -> (r: DownloadNext)
        ensures
            r == self.next(first),
    {
        match first {
            Ok(first) => DownloadNext::Unpack(
                DownloadResult::Unpacked { first, revision: self.revision },
            ),
            Err(error) => DownloadNext::Finish(Err(DownloadError::Unpack(error))),
        }
    }
}

impl DownloadWork {
    /// What follows the work.
    pub open spec fn next(self) -> DownloadNext {
        match self {
            DownloadWork::ArchiveRemoved { first, revision } => DownloadNext::ClearRuntime(
                DownloadWork::RuntimeCleared { first, revision },
            ),
            DownloadWork::RuntimeCleared { first, revision } => DownloadNext::Rename {
                first,
                after: DownloadResult::Renamed { revision },
            },
            DownloadWork::Recorded => DownloadNext::Finish(Ok(())),
        }
    }

    /// Goes on once the work is done.
    pub fn resume(self) -> (r: DownloadNext)
        ensures
            r == self.next(),
    {
        match self {
            DownloadWork::ArchiveRemoved { first, revision } => DownloadNext::ClearRuntime(
                DownloadWork::RuntimeCleared { first, revision },
            ),
            DownloadWork::RuntimeCleared { first, revision } => DownloadNext::Rename {
                first,
                after: DownloadResult::Renamed { revision },
            },
            DownloadWork::Recorded => DownloadNext::Finish(Ok(())),
        }
    }
}

impl DownloadResult {
    /// What follows the result.
    pub open spec fn next(self, result: Result<(), String>) -> DownloadNext {
        match (self, result) {
            (DownloadResult::Requested { revision }, Ok(())) => DownloadNext::ReadBody(
                DownloadBody { revision },
            ),
            (DownloadResult::Saved { revision }, Ok(())) => DownloadNext::Open(
                DownloadResult::Opened { revision },
            ),
            (DownloadResult::Opened { revision }, Ok(())) => DownloadNext::Parse(
                DownloadFirst { revision },
            ),
            (DownloadResult::Unpacked { first, revision }, Ok(())) => DownloadNext::RemoveArchive(
                DownloadWork::ArchiveRemoved { first, revision },
            ),
            (DownloadResult::Renamed { revision }, Ok(())) => DownloadNext::Record(
                revision,
                DownloadWork::Recorded,
            ),
            (_, Err(error)) => DownloadNext::Finish(Err(self.failed(error))),
        }
    }

    /// The error that a failure of this work is.
    pub open spec fn failed(self, error: String) -> DownloadError {
        match self {
            DownloadResult::Requested { .. } => DownloadError::Request(error),
            DownloadResult::Saved { .. } => DownloadError::Save(error),
            DownloadResult::Opened { .. } => DownloadError::Open(error),
            DownloadResult::Unpacked { .. } => DownloadError::Unpack(error),
            DownloadResult::Renamed { .. } => DownloadError::Rename(error),
        }
    }

    /// Goes on with the result.
    pub fn resume(self, result: Result<(), String>) -> (r: DownloadNext)
        ensures
            r == self.next(result),
    {
        match result {
            Ok(()) => match self {
                DownloadResult::Requested { revision } => DownloadNext::ReadBody(
                    DownloadBody { revision },
                ),
                DownloadResult::Saved { revision } => DownloadNext::Open(
                    DownloadResult::Opened { revision },
                ),
                DownloadResult::Opened { revision } => DownloadNext::Parse(
                    DownloadFirst { revision },
                ),
                DownloadResult::Unpacked { first, revision } => DownloadNext::RemoveArchive(
                    DownloadWork::ArchiveRemoved { first, revision },
                ),
                DownloadResult::Renamed { revision } => DownloadNext::Record(
                    revision,
                    DownloadWork::Recorded,
                ),
            },
            Err(error) => DownloadNext::Finish(
                Err(
                    match self {
                        DownloadResult::Requested { .. } => DownloadError::Request(error),
                        DownloadResult::Saved { .. } => DownloadError::Save(error),
                        DownloadResult::Opened { .. } => DownloadError::Open(error),
                        DownloadResult::Unpacked { .. } => DownloadError::Unpack(error),
                        DownloadResult::Renamed { .. } => DownloadError::Rename(error),
                    },
                ),
            ),
        }
    }
}

/// The directory that an archive with this first entry is unpacked to: the entry
/// without the slashes at its end. Nothing is left where there is no entry.
pub open spec fn directory_of(first: Option<String>) -> Seq<char> {
    crate::text::without_trailing(crate::text::or_nothing(first), '/')
}

/// The directory that an archive with this first entry is unpacked to.
pub fn inner_directory(first: &Option<String>) -> (r: String)
    ensures
        r@ == directory_of(*first),
{
    match first {
        Some(name) => trim_end_matches(name.as_str(), '/'),
        None => String::new(),
    }
}

impl DownloadError {
    /// What the user reads of the error.
    pub open spec fn line(self) -> Seq<char> {
        match self {
            DownloadError::NoParent => crate::runtime::no_parent(),
            DownloadError::Request(error) => "下载失败："@ + error@,
            DownloadError::Body(error) => "读取下载内容失败："@ + error@,
            DownloadError::Empty => "下载内容为空（网络可能不可达）"@,
            DownloadError::Save(error) => "写入临时文件失败："@ + error@,
            DownloadError::Open(error) => "打开临时文件失败："@ + error@,
            DownloadError::Unpack(error) => "解压失败："@ + error@,
            DownloadError::Rename(error) => "整理目录失败："@ + error@,
        }
    }

    /// What the user reads of the error.
    pub fn message(&self) -> (r: String)
        ensures
            r@ == self.line(),
    {
        let (head, error) = match self {
            DownloadError::NoParent => {
                return "runtime 路径没有父目录".to_owned();
            },
            DownloadError::Empty => {
                return "下载内容为空（网络可能不可达）".to_owned();
            },
            DownloadError::Request(error) => ("下载失败：", error),
            DownloadError::Body(error) => ("读取下载内容失败：", error),
            DownloadError::Save(error) => ("写入临时文件失败：", error),
            DownloadError::Open(error) => ("打开临时文件失败：", error),
            DownloadError::Unpack(error) => ("解压失败：", error),
            DownloadError::Rename(error) => ("整理目录失败：", error),
        };
        let mut out = head.to_owned();
        out.append(error.as_str());
        out
    }
}

// --- what a download comes to -------------------------------------------------------

/// What the network and the disk answer during one download.
pub struct DownloadWorld {
    pub request: Result<(), String>,
    pub body: Result<usize, String>,
    pub save: Result<(), String>,
    pub open: Result<(), String>,
    pub parse: Result<Option<String>, String>,
    pub unpack: Result<(), String>,
    pub rename: Result<(), String>,
}

/// How many answers the download can still take.
pub open spec fn download_rank(n: DownloadNext) -> nat {
    match n {
        DownloadNext::Request(k) => result_rank(k),
        DownloadNext::ReadBody(_) => 9,
        DownloadNext::Save(k) => result_rank(k),
        DownloadNext::Open(k) => result_rank(k),
        DownloadNext::Parse(_) => 6,
        DownloadNext::Unpack(k) => result_rank(k),
        DownloadNext::RemoveArchive(k) => work_rank(k),
        DownloadNext::ClearRuntime(k) => work_rank(k),
        DownloadNext::Rename { after, .. } => result_rank(after),
        DownloadNext::Record(_, k) => work_rank(k),
        DownloadNext::Finish(_) => 0,
    }
}

/// How many answers a download that waits for a result can still take.
pub open spec fn result_rank(k: DownloadResult) -> nat {
    match k {
        DownloadResult::Requested { .. } => 10,
        DownloadResult::Saved { .. } => 8,
        DownloadResult::Opened { .. } => 7,
        DownloadResult::Unpacked { .. } => 5,
        DownloadResult::Renamed { .. } => 2,
    }
}

/// How many answers a download that waits for work can still take.
pub open spec fn work_rank(k: DownloadWork) -> nat {
    match k {
        DownloadWork::ArchiveRemoved { .. } => 4,
        DownloadWork::RuntimeCleared { .. } => 3,
        DownloadWork::Recorded => 1,
    }
}

/// What a download does next in this world.
pub open spec fn download_step(n: DownloadNext, w: DownloadWorld) -> DownloadNext {
    match n {
        DownloadNext::Request(k) => k.next(w.request),
        DownloadNext::ReadBody(k) => k.next(w.body),
        DownloadNext::Save(k) => k.next(w.save),
        DownloadNext::Open(k) => k.next(w.open),
        DownloadNext::Parse(k) => k.next(w.parse),
        DownloadNext::Unpack(k) => k.next(w.unpack),
        DownloadNext::RemoveArchive(k) => k.next(),
        DownloadNext::ClearRuntime(k) => k.next(),
        DownloadNext::Rename { after, .. } => after.next(w.rename),
        DownloadNext::Record(_, k) => k.next(),
        DownloadNext::Finish(_) => n,
    }
}

/// Every answer brings a download nearer to its end.
pub proof fn download_ends(n: DownloadNext, w: DownloadWorld)
    requires
        !(n is Finish),
    ensures
        download_rank(download_step(n, w)) < download_rank(n),
{
}

/// All the work of a download in this world, from `n` on.
pub open spec fn work_from(n: DownloadNext, w: DownloadWorld) -> Seq<DownloadNext>
    decreases download_rank(n),
{
    if n is Finish {
        seq![n]
    } else {
        proof {
            download_ends(n, w);
        }
        seq![n] + work_from(download_step(n, w), w)
    }
}

/// The first failure of a download, if there is one.
pub open spec fn failure(parent: bool, w: DownloadWorld) -> Option<DownloadError> {
    match unpack_failure(parent, w) {
        Some(error) => Some(error),
        None => match w.rename {
            Err(error) => Some(DownloadError::Rename(error)),
            Ok(()) => None,
        },
    }
}

/// The first failure before the archive is unpacked, if there is one.
pub open spec fn unpack_failure(parent: bool, w: DownloadWorld) -> Option<DownloadError> {
    if !parent {
        Some(DownloadError::NoParent)
    } else if w.request is Err {
        Some(DownloadError::Request(w.request->Err_0))
    } else if w.body is Err {
        Some(DownloadError::Body(w.body->Err_0))
    } else if w.body->Ok_0 == 0 {
        Some(DownloadError::Empty)
    } else if w.save is Err {
        Some(DownloadError::Save(w.save->Err_0))
    } else if w.open is Err {
        Some(DownloadError::Open(w.open->Err_0))
    } else if w.parse is Err {
        Some(DownloadError::Unpack(w.parse->Err_0))
    } else if w.unpack is Err {
        Some(DownloadError::Unpack(w.unpack->Err_0))
    } else {
        None
    }
}

/// Whether a sequence of work deletes the runtime.
pub open spec fn clears(work: Seq<DownloadNext>) -> bool {
    exists|i: int| 0 <= i < work.len() && #[trigger] work[i] is ClearRuntime
}

/// Whether a sequence of work records the revision.
pub open spec fn records(work: Seq<DownloadNext>) -> bool {
    exists|i: int| 0 <= i < work.len() && #[trigger] work[i] is Record
}

proof fn longer(n: DownloadNext, rest: Seq<DownloadNext>)
    requires
        rest.len() > 0,
    ensures
        (seq![n] + rest).last() == rest.last(),
        clears(seq![n] + rest) == (n is ClearRuntime || clears(rest)),
        records(seq![n] + rest) == (n is Record || records(rest)),
{
    let all = seq![n] + rest;
    assert(all[0] == n);
    if clears(rest) {
        let i = choose|i: int| 0 <= i < rest.len() && #[trigger] rest[i] is ClearRuntime;
        assert(all[i + 1] is ClearRuntime);
    }
    if records(rest) {
        let i = choose|i: int| 0 <= i < rest.len() && #[trigger] rest[i] is Record;
        assert(all[i + 1] is Record);
    }
    if clears(all) && !(n is ClearRuntime) {
        let i = choose|i: int| 0 <= i < all.len() && #[trigger] all[i] is ClearRuntime;
        assert(rest[i - 1] is ClearRuntime);
    }
    if records(all) && !(n is Record) {
        let i = choose|i: int| 0 <= i < all.len() && #[trigger] all[i] is Record;
        assert(rest[i - 1] is Record);
    }
}

/// Where the flow stands in a world in which everything so far went well.
spec fn on_track(n: DownloadNext, w: DownloadWorld) -> bool {
    match n {
        DownloadNext::Request(k) => k is Requested,
        DownloadNext::ReadBody(_) => w.request is Ok,
        DownloadNext::Save(k) => k is Saved && w.request is Ok && w.body is Ok && w.body->Ok_0 != 0,
        DownloadNext::Open(k) => k is Opened && w.request is Ok && w.body is Ok && w.body->Ok_0 != 0
            && w.save is Ok,
        DownloadNext::Parse(_) => w.request is Ok && w.body is Ok && w.body->Ok_0 != 0 && w.save is Ok
            && w.open is Ok,
        DownloadNext::Unpack(k) => k is Unpacked && w.request is Ok && w.body is Ok
            && w.body->Ok_0 != 0 && w.save is Ok && w.open is Ok && w.parse is Ok,
        DownloadNext::RemoveArchive(k) => k is ArchiveRemoved && unpack_failure(true, w) is None,
        DownloadNext::ClearRuntime(k) => k is RuntimeCleared && unpack_failure(true, w) is None,
        DownloadNext::Rename { after, .. } => after is Renamed && unpack_failure(true, w) is None,
        DownloadNext::Record(_, k) => k is Recorded && failure(true, w) is None,
        DownloadNext::Finish(result) => match result {
            Ok(()) => failure(true, w) is None,
            Err(error) => failure(true, w) == Some(error),
        },
    }
}

proof fn stays_on_track(n: DownloadNext, w: DownloadWorld)
    requires
        on_track(n, w),
    ensures
        work_from(n, w).len() > 0,
        work_from(n, w).last() == DownloadNext::Finish(
            match failure(true, w) {
                Some(error) => Err(error),
                None => Ok(()),
            },
        ),
        download_rank(n) >= 3 ==> clears(work_from(n, w)) == (unpack_failure(true, w) is None),
        download_rank(n) == 0 ==> !clears(work_from(n, w)) && !records(work_from(n, w)),
        download_rank(n) >= 1 ==> records(work_from(n, w)) == (failure(true, w) is None),
    decreases download_rank(n),
{
    let all = work_from(n, w);
    if n is Finish {
        assert(all == seq![n]);
        if let DownloadNext::Finish(Ok(unit)) = n {
            assert(unit == ());
        }
    } else {
        let m = download_step(n, w);
        download_ends(n, w);
        stays_on_track(m, w);
        longer(n, work_from(m, w));
        assert(all == seq![n] + work_from(m, w));
    }
}

/// A download ends with its first failure, or with success where there is none.
/// It deletes the old runtime only once the archive is unpacked, so a network
/// or archive failure leaves the old runtime in place; and it records a
/// revision exactly where it succeeds.
pub proof fn download_comes_to(parent: bool, revision: Option<String>, w: DownloadWorld)
    ensures
        work_from(download_start(parent, revision), w).last() == DownloadNext::Finish(
            match failure(parent, w) {
                Some(error) => Err(error),
                None => Ok(()),
            },
        ),
        clears(work_from(download_start(parent, revision), w)) == (unpack_failure(
            parent,
            w,
        ) is None),
        records(work_from(download_start(parent, revision), w)) == (failure(parent, w) is None),
{
    let n = download_start(parent, revision);
    if parent {
        stays_on_track(n, w);
    } else {
        assert(work_from(n, w) == seq![n]);
    }
}

/// The revision that the download has in hand, where it still needs one.
pub open spec fn in_hand(n: DownloadNext) -> Option<Option<String>> {
    match n {
        DownloadNext::Request(k) => result_in_hand(k),
        DownloadNext::ReadBody(k) => Some(k.revision),
        DownloadNext::Save(k) => result_in_hand(k),
        DownloadNext::Open(k) => result_in_hand(k),
        DownloadNext::Parse(k) => Some(k.revision),
        DownloadNext::Unpack(k) => result_in_hand(k),
        DownloadNext::RemoveArchive(k) => work_in_hand(k),
        DownloadNext::ClearRuntime(k) => work_in_hand(k),
        DownloadNext::Rename { after, .. } => result_in_hand(after),
        DownloadNext::Record(revision, _) => Some(revision),
        DownloadNext::Finish(_) => None,
    }
}

/// The revision that a download which waits for a result has in hand.
pub open spec fn result_in_hand(k: DownloadResult) -> Option<Option<String>> {
    match k {
        DownloadResult::Requested { revision } => Some(revision),
        DownloadResult::Saved { revision } => Some(revision),
        DownloadResult::Opened { revision } => Some(revision),
        DownloadResult::Unpacked { revision, .. } => Some(revision),
        DownloadResult::Renamed { revision } => Some(revision),
    }
}

/// The revision that a download which waits for work has in hand.
pub open spec fn work_in_hand(k: DownloadWork) -> Option<Option<String>> {
    match k {
        DownloadWork::ArchiveRemoved { revision, .. } => Some(revision),
        DownloadWork::RuntimeCleared { revision, .. } => Some(revision),
        DownloadWork::Recorded => None,
    }
}

/// What a download records is the revision that it was asked for.
pub proof fn records_what_was_asked_for(
    parent: bool,
    revision: Option<String>,
    w: DownloadWorld,
    i: int,
)
    requires
        0 <= i < work_from(download_start(parent, revision), w).len(),
    ensures
        work_from(download_start(parent, revision), w)[i] matches DownloadNext::Record(recorded, _)
            ==> recorded == revision,
{
    recorded_from(download_start(parent, revision), w, revision, i);
}

proof fn recorded_from(n: DownloadNext, w: DownloadWorld, revision: Option<String>, i: int)
    requires
        in_hand(n) is Some ==> in_hand(n) == Some(revision),
        n matches DownloadNext::Record(_, k) ==> k is Recorded,
        0 <= i < work_from(n, w).len(),
    ensures
        work_from(n, w)[i] matches DownloadNext::Record(recorded, _) ==> recorded == revision,
    decreases download_rank(n),
{
    if !(n is Finish) && i > 0 {
        let m = download_step(n, w);
        download_ends(n, w);
        assert(work_from(n, w)[i] == work_from(m, w)[i - 1]);
        recorded_from(m, w, revision, i - 1);
    }
}

} // verus!
