//! Unpacking the source snapshot that ships with the shell.
use vstd::prelude::*;

verus! {

/// The directory, beside the runtime, into which the snapshot is unpacked.
pub const SCRATCH_DIR: &'static str = "_dsh_snapshot_extract";

/// The file in the runtime that records its revision.
pub const VERSION_FILE: &'static str = ".dsh-version";

/// What the version file records for the snapshot.
pub const SNAPSHOT_VERSION: &'static str = "snapshot";

// --- progress --------------------------------------------------------------------

/// The share of `total` that `done` makes up, in percent and at most a
/// hundred; an empty total counts as done.
pub open spec fn percent_of(done: nat, total: nat) -> nat {
    if total == 0 {
        100
    } else {
        let share = done * 100 / total;
        if share < 100 {
            share
        } else {
            100
        }
    }
}

/// The share of `total` that `done` makes up, in percent.
pub fn percent(done: u64, total: u64) -> (r: u32)
    requires
        done * 100 <= u64::MAX,
    ensures
        r == percent_of(done as nat, total as nat),
{
    if total == 0 {
        return 100;
    }
    let share: u64 = done * 100 / total;
    if share < 100 {
        share as u32
    } else {
        100
    }
}

/// Progress only grows while no more than the total is done, stays within a
/// hundred, and reaches it when everything is done.
pub proof fn percent_grows(a: nat, b: nat, total: nat)
    requires
        a <= b <= total,
    ensures
        percent_of(a, total) <= percent_of(b, total) <= 100,
        percent_of(total, total) == 100,
{
    if total > 0 {
        assert(a * 100 / total <= b * 100 / total && b * 100 / total <= 100 && total * 100 / total
            == 100) by (nonlinear_arith)
            requires
                a <= b <= total,
                total > 0,
        ;
        assert(0 <= a * 100 / total) by (nonlinear_arith)
            requires
                total > 0,
        ;
    }
}

/// The sum of the sizes that are known.
pub open spec fn known_sum(sizes: Seq<Option<u64>>) -> nat
    decreases sizes.len(),
{
    if sizes.len() == 0 {
        0
    } else {
        known_sum(sizes.drop_last()) + match sizes.last() {
            Some(size) => size as nat,
            None => 0,
        }
    }
}

proof fn known_sum_grows(sizes: Seq<Option<u64>>, n: int)
    requires
        0 <= n <= sizes.len(),
    ensures
        known_sum(sizes.take(n)) <= known_sum(sizes),
    decreases sizes.len() - n,
{
    if n == sizes.len() {
        assert(sizes.take(n) == sizes);
    } else {
        known_sum_grows(sizes, n + 1);
        assert(sizes.take(n + 1).drop_last() == sizes.take(n));
    }
}

fn sum_known(sizes: &Vec<Option<u64>>) -> (r: u64)
    requires
        known_sum(sizes@) <= u64::MAX,
    ensures
        r == known_sum(sizes@),
{
    let mut total: u64 = 0;
    let mut i: usize = 0;
    assert(sizes@.take(0) == Seq::<Option<u64>>::empty());
    while i < sizes.len()
        invariant
            i <= sizes.len(),
            known_sum(sizes@) <= u64::MAX,
            total == known_sum(sizes@.take(i as int)),
        decreases sizes.len() - i,
    {
        proof {
            known_sum_grows(sizes@, i + 1);
            assert(sizes@.take(i + 1).drop_last() == sizes@.take(i as int));
        }
        match sizes[i] {
            Some(size) => {
                total = total + size;
            },
            None => {},
        }
        i = i + 1;
    }
    assert(sizes@.take(i as int) == sizes@);
    total
}

// --- the bundled snapshot ------------------------------------------------------------

/// What unpacking reads of an entry.
#[derive(Clone, Copy, PartialEq, Eq, Structural, Debug)]
pub struct ZipEntry {
    /// The size once unpacked.
    pub size: u64,
    /// The entry is a directory.
    pub is_dir: bool,
    /// The name of the entry stays inside the directory it is unpacked into.
    pub enclosed: bool,
}

/// An entry that is being unpacked.
#[derive(Clone, Copy, PartialEq, Eq, Structural, Debug)]
pub struct EntryAt {
    /// Its place in the archive.
    pub index: usize,
    /// How many entries the archive has.
    pub count: usize,
    /// The size of all entries.
    pub total: u64,
    /// The size of the entries before this one.
    pub done: u64,
}

/// The rest of the archive, once an entry is dealt with.
#[derive(Clone, Copy, PartialEq, Eq, Structural, Debug)]
pub struct EntryDone {
    /// The share that is then unpacked.
    pub percent: u32,
    /// The next entry, or none where this was the last.
    pub rest: Option<EntryAt>,
}

/// Why the snapshot could not be unpacked.
#[derive(Debug)]
pub enum ExtractError {
    Open(String),
    Parse(String),
    Scratch(String),
    Entry(String),
    Directory(String),
    Write(String),
    List(String),
    Rename(String),
}

/// The next piece of work of unpacking the snapshot.
#[derive(Debug)]
pub enum ExtractNext {
    /// Open the archive file.
    Open(ExtractResult),
    /// Read the directory of the archive.
    Parse(ExtractResult),
    /// Delete the scratch directory if it exists.
    ClearScratch(ExtractWork),
    /// Create the scratch directory.
    CreateScratch(ExtractResult),
    /// Read the size of every entry, as far as the entry can be read.
    Measure,
    /// Read the entry at this place.
    ReadEntry(EntryAt),
    /// Create the directory of the entry that was read.
    MakeDirectory(ExtractResult),
    /// Write the entry that was read.
    WriteEntry(ExtractResult),
    /// Show the share that is unpacked.
    Report(u32, ExtractWork),
    /// List the scratch directory: of each item, whether it is a directory.
    ListScratch,
    /// Delete the runtime directory if it exists.
    ClearRuntime(ExtractWork),
    /// Move the code into the runtime: the only directory in the scratch
    /// directory where `inner` is set, else the scratch directory itself.
    Rename { inner: bool, after: ExtractResult },
    /// Record [`SNAPSHOT_VERSION`] as the revision of the runtime.
    Record(ExtractWork),
    /// Unpacking is over.
    Finish(Result<(), ExtractError>),
}

/// Unpacking while it waits for work without a result.
#[derive(Clone, Copy, PartialEq, Eq, Structural, Debug)]
pub enum ExtractWork {
    ScratchCleared,
    Reported(Option<EntryAt>),
    RuntimeCleared { inner: bool },
    Recorded,
}

/// Unpacking while it waits for work that can fail with a message.
#[derive(Clone, Copy, PartialEq, Eq, Structural, Debug)]
pub enum ExtractResult {
    Opened,
    Parsed,
    ScratchCreated,
    DirectoryMade(EntryDone),
    Written(EntryDone),
    Renamed,
}

/// What follows the entries before `at`.
pub open spec fn next_entry(at: Option<EntryAt>) -> ExtractNext {
    match at {
        Some(entry) => ExtractNext::ReadEntry(entry),
        None => ExtractNext::ListScratch,
    }
}

fn go_to_entry(at: Option<EntryAt>) -> (r: ExtractNext)
    ensures
        r == next_entry(at),
{
    match at {
        Some(entry) => ExtractNext::ReadEntry(entry),
        None => ExtractNext::ListScratch,
    }
}

/// Begins to unpack the snapshot.
pub fn extract_zip_into() -> (r: ExtractNext)
    ensures
        r == ExtractNext::Open(ExtractResult::Opened),
{
    ExtractNext::Open(ExtractResult::Opened)
}

impl ExtractWork {
    /// What follows the work.
    pub open spec fn next(self) -> ExtractNext {
        match self {
            ExtractWork::ScratchCleared => ExtractNext::CreateScratch(
                ExtractResult::ScratchCreated,
            ),
            ExtractWork::Reported(rest) => next_entry(rest),
            ExtractWork::RuntimeCleared { inner } => ExtractNext::Rename {
                inner,
                after: ExtractResult::Renamed,
            },
            ExtractWork::Recorded => ExtractNext::Finish(Ok(())),
        }
    }

    /// Goes on once the work is done.
    pub fn resume(self) -> (r: ExtractNext)
        ensures
            r == self.next(),
    {
        match self {
            ExtractWork::ScratchCleared => ExtractNext::CreateScratch(
                ExtractResult::ScratchCreated,
            ),
            ExtractWork::Reported(rest) => go_to_entry(rest),
            ExtractWork::RuntimeCleared { inner } => ExtractNext::Rename {
                inner,
                after: ExtractResult::Renamed,
            },
            ExtractWork::Recorded => ExtractNext::Finish(Ok(())),
        }
    }
}

impl ExtractResult {
    /// What follows the result.
    pub open spec fn next(self, result: Result<(), String>) -> ExtractNext {
        match (self, result) {
            (ExtractResult::Opened, Ok(())) => ExtractNext::Parse(ExtractResult::Parsed),
            (ExtractResult::Parsed, Ok(())) => ExtractNext::ClearScratch(
                ExtractWork::ScratchCleared,
            ),
            (ExtractResult::ScratchCreated, Ok(())) => ExtractNext::Measure,
            (ExtractResult::DirectoryMade(entry), Ok(())) => ExtractNext::WriteEntry(
                ExtractResult::Written(entry),
            ),
            (ExtractResult::Written(entry), Ok(())) => ExtractNext::Report(
                entry.percent,
                ExtractWork::Reported(entry.rest),
            ),
            (ExtractResult::Renamed, Ok(())) => ExtractNext::Record(ExtractWork::Recorded),
            (ExtractResult::Opened, Err(error)) => ExtractNext::Finish(
                Err(ExtractError::Open(error)),
            ),
            (ExtractResult::Parsed, Err(error)) => ExtractNext::Finish(
                Err(ExtractError::Parse(error)),
            ),
            (ExtractResult::ScratchCreated, Err(error)) => ExtractNext::Finish(
                Err(ExtractError::Scratch(error)),
            ),
            (ExtractResult::DirectoryMade(_), Err(error)) => ExtractNext::Finish(
                Err(ExtractError::Directory(error)),
            ),
            (ExtractResult::Written(_), Err(error)) => ExtractNext::Finish(
                Err(ExtractError::Write(error)),
            ),
            (ExtractResult::Renamed, Err(error)) => ExtractNext::Finish(
                Err(ExtractError::Rename(error)),
            ),
        }
    }

    /// Goes on with the result.
    pub fn resume(self, result: Result<(), String>) -> (r: ExtractNext)
        ensures
            r == self.next(result),
    {
        match result {
            Ok(()) => match self {
                ExtractResult::Opened => ExtractNext::Parse(ExtractResult::Parsed),
                ExtractResult::Parsed => ExtractNext::ClearScratch(ExtractWork::ScratchCleared),
                ExtractResult::ScratchCreated => ExtractNext::Measure,
                ExtractResult::DirectoryMade(entry) => ExtractNext::WriteEntry(
                    ExtractResult::Written(entry),
                ),
                ExtractResult::Written(entry) => ExtractNext::Report(
                    entry.percent,
                    ExtractWork::Reported(entry.rest),
                ),
                ExtractResult::Renamed => ExtractNext::Record(ExtractWork::Recorded),
            },
            Err(error) => ExtractNext::Finish(
                Err(
                    match self {
                        ExtractResult::Opened => ExtractError::Open(error),
                        ExtractResult::Parsed => ExtractError::Parse(error),
                        ExtractResult::ScratchCreated => ExtractError::Scratch(error),
                        ExtractResult::DirectoryMade(_) => ExtractError::Directory(error),
                        ExtractResult::Written(_) => ExtractError::Write(error),
                        ExtractResult::Renamed => ExtractError::Rename(error),
                    },
                ),
            ),
        }
    }
}

/// What follows the sizes of all entries: the first entry, if there is one.
pub open spec fn after_measure(sizes: Seq<Option<u64>>) -> ExtractNext {
    next_entry(
        if sizes.len() == 0 {
            None
        } else {
            Some(
                EntryAt {
                    index: 0,
                    count: sizes.len() as usize,
                    total: known_sum(sizes) as u64,
                    done: 0,
                },
            )
        },
    )
}

/// Goes on with the sizes of all entries.
pub fn measured(sizes: &Vec<Option<u64>>) -> (r: ExtractNext)
    requires
        known_sum(sizes@) <= u64::MAX,
    ensures
        r == after_measure(sizes@),
{
    let total = sum_known(sizes);
    if sizes.len() == 0 {
        ExtractNext::ListScratch
    } else {
        ExtractNext::ReadEntry(EntryAt { index: 0, count: sizes.len(), total, done: 0 })
    }
}

impl EntryAt {
    /// The rest of the archive once an entry of this size is dealt with.
    pub open spec fn past(self, size: u64) -> EntryDone {
        let done = (self.done + size) as u64;
        EntryDone {
            percent: percent_of(done as nat, self.total as nat) as u32,
            rest: if self.index + 1 < self.count {
                Some(EntryAt { index: (self.index + 1) as usize, done, ..self })
            } else {
                None
            },
        }
    }

    /// What follows the reading of this entry: a file whose name stays inside
    /// is written, anything else is passed over, and both count as unpacked.
    pub open spec fn next(self, entry: Result<ZipEntry, String>) -> ExtractNext {
        match entry {
            Err(error) => ExtractNext::Finish(Err(ExtractError::Entry(error))),
            Ok(entry) => {
                let past = self.past(entry.size);
                if !entry.is_dir && entry.enclosed {
                    ExtractNext::MakeDirectory(ExtractResult::DirectoryMade(past))
                } else {
                    ExtractNext::Report(past.percent, ExtractWork::Reported(past.rest))
                }
            },
        }
    }

    /// Goes on with the entry that was read.
    pub fn resume(self, entry: Result<ZipEntry, String>) -> (r: ExtractNext)
        requires
            self.index < self.count,
            entry matches Ok(e) ==> (self.done + e.size) * 100 <= u64::MAX,
        ensures
            r == self.next(entry),
    {
        match entry {
            Err(error) => ExtractNext::Finish(Err(ExtractError::Entry(error))),
            Ok(entry) => {
                let done: u64 = self.done + entry.size;
                let percent: u32 = percent(done, self.total);
                let index: usize = self.index + 1;
                let rest = if index < self.count {
                    Some(EntryAt { index, count: self.count, total: self.total, done })
                } else {
                    None
                };
                if !entry.is_dir && entry.enclosed {
                    ExtractNext::MakeDirectory(
                        ExtractResult::DirectoryMade(EntryDone { percent, rest }),
                    )
                } else {
                    ExtractNext::Report(percent, ExtractWork::Reported(rest))
                }
            },
        }
    }
}

/// Every entry that unpacking goes on to is one of the archive.
pub proof fn entries_are_in_the_archive(at: EntryAt, size: u64)
    ensures
        at.past(size).rest matches Some(next) ==> next.index < next.count == at.count,
{
}

/// What follows the listing of the scratch directory. An archive with one
/// directory at its top holds the code in that directory.
pub open spec fn after_listing(items: Result<Seq<bool>, String>) -> ExtractNext {
    match items {
        Ok(dirs) => ExtractNext::ClearRuntime(
            ExtractWork::RuntimeCleared { inner: dirs.len() == 1 && dirs[0] },
        ),
        Err(error) => ExtractNext::Finish(Err(ExtractError::List(error))),
    }
}

/// Goes on with the listing of the scratch directory.
pub fn listed(items: Result<Vec<bool>, String>) -> (r: ExtractNext)
    ensures
        r == after_listing(
            match items {
                Ok(dirs) => Ok(dirs@),
                Err(error) => Err(error),
            },
        ),
{
    match items {
        Ok(dirs) => {
            let inner = dirs.len() == 1 && dirs[0];
            ExtractNext::ClearRuntime(ExtractWork::RuntimeCleared { inner })
        },
        Err(error) => ExtractNext::Finish(Err(ExtractError::List(error))),
    }
}

impl ExtractError {
    /// What the user reads of the error.
    pub open spec fn line(self) -> Seq<char> {
        match self {
            ExtractError::Open(error) => "打开内置代码失败："@ + error@,
            ExtractError::Parse(error) => "解析内置代码失败："@ + error@,
            ExtractError::Scratch(error) => "创建临时目录失败："@ + error@,
            ExtractError::Entry(error) => "读取内置代码条目失败："@ + error@,
            ExtractError::Directory(error) => "创建目录失败："@ + error@,
            ExtractError::Write(error) => "写入内置代码失败："@ + error@,
            ExtractError::List(error) => "读取临时目录失败："@ + error@,
            ExtractError::Rename(error) => "整理目录失败："@ + error@,
        }
    }

    /// What the user reads of the error.
    pub fn message(&self) -> (r: String)
        ensures
            r@ == self.line(),
    {
        let (head, error) = match self {
            ExtractError::Open(error) => ("打开内置代码失败：", error),
            ExtractError::Parse(error) => ("解析内置代码失败：", error),
            ExtractError::Scratch(error) => ("创建临时目录失败：", error),
            ExtractError::Entry(error) => ("读取内置代码条目失败：", error),
            ExtractError::Directory(error) => ("创建目录失败：", error),
            ExtractError::Write(error) => ("写入内置代码失败：", error),
            ExtractError::List(error) => ("读取临时目录失败：", error),
            ExtractError::Rename(error) => ("整理目录失败：", error),
        };
        let mut out = head.to_owned();
        out.append(error.as_str());
        out
    }
}

// --- what unpacking reports ------------------------------------------------------------

/// The report that follows an entry which is read, and written where it is a
/// file, without an error.
pub open spec fn report_after(at: EntryAt, entry: ZipEntry) -> ExtractNext {
    match at.next(Ok(entry)) {
        ExtractNext::MakeDirectory(made) => match made.next(Ok(())) {
            ExtractNext::WriteEntry(written) => written.next(Ok(())),
            other => other,
        },
        other => other,
    }
}

/// The shares that are reported while these entries are unpacked without an
/// error, from `n` on.
pub open spec fn reports(n: ExtractNext, entries: Seq<ZipEntry>) -> Seq<u32>
    decreases entries.len(),
{
    match n {
        ExtractNext::ReadEntry(at) if entries.len() > 0 => match report_after(at, entries.first()) {
            ExtractNext::Report(share, after) => seq![share] + reports(
                after.next(),
                entries.drop_first(),
            ),
            _ => Seq::empty(),
        },
        _ => Seq::empty(),
    }
}

/// The size of all entries.
pub open spec fn entry_sum(entries: Seq<ZipEntry>) -> nat
    decreases entries.len(),
{
    if entries.len() == 0 {
        0
    } else {
        entries.first().size as nat + entry_sum(entries.drop_first())
    }
}

proof fn entry_sum_grows(entries: Seq<ZipEntry>, i: int, j: int)
    requires
        0 <= i <= j <= entries.len(),
    ensures
        entry_sum(entries.take(i)) <= entry_sum(entries.take(j)) <= entry_sum(entries),
    decreases entries.len(),
{
    if entries.len() > 0 && j > 0 {
        assert(entries.take(j).drop_first() == entries.drop_first().take(j - 1));
        if i > 0 {
            assert(entries.take(i).drop_first() == entries.drop_first().take(i - 1));
            entry_sum_grows(entries.drop_first(), i - 1, j - 1);
        } else {
            entry_sum_grows(entries.drop_first(), 0, j - 1);
        }
    }
}

proof fn reports_are(at: EntryAt, entries: Seq<ZipEntry>)
    requires
        at.count - at.index == entries.len(),
        entries.len() > 0,
        at.done + entry_sum(entries) <= u64::MAX,
    ensures
        reports(ExtractNext::ReadEntry(at), entries).len() == entries.len(),
        forall|i: int|
            0 <= i < entries.len() ==> #[trigger] reports(ExtractNext::ReadEntry(at), entries)[i]
                == percent_of(at.done as nat + entry_sum(entries.take(i + 1)), at.total as nat),
    decreases entries.len(),
{
    let first = entries.first();
    let rest = entries.drop_first();
    let all = reports(ExtractNext::ReadEntry(at), entries);
    let past = at.past(first.size);
    assert(report_after(at, first) == ExtractNext::Report(
        past.percent,
        ExtractWork::Reported(past.rest),
    ));
    let tail = reports(next_entry(past.rest), rest);
    assert(all == seq![past.percent] + tail);
    if rest.len() > 0 {
        reports_are(past.rest->0, rest);
    }
    assert(tail.len() == rest.len());
    assert forall|i: int| 0 <= i < entries.len() implies #[trigger] all[i] == percent_of(
        at.done as nat + entry_sum(entries.take(i + 1)),
        at.total as nat,
    ) by {
        assert(entries.take(i + 1).drop_first() == rest.take(i));
        if i == 0 {
            assert(rest.take(0) == Seq::<ZipEntry>::empty());
        } else {
            assert(all[i] == tail[i - 1]);
        }
    }
}

proof fn known_sum_is_entry_sum(sizes: Seq<Option<u64>>, entries: Seq<ZipEntry>)
    requires
        sizes.len() == entries.len(),
        forall|i: int| 0 <= i < sizes.len() ==> #[trigger] sizes[i] == Some(entries[i].size),
    ensures
        known_sum(sizes) == entry_sum(entries),
    decreases sizes.len(),
{
    if sizes.len() > 0 {
        known_sum_is_entry_sum(sizes.drop_last(), entries.drop_last());
        entry_sum_last(entries);
    }
}

proof fn entry_sum_last(entries: Seq<ZipEntry>)
    requires
        entries.len() > 0,
    ensures
        entry_sum(entries) == entry_sum(entries.drop_last()) + entries.last().size,
    decreases entries.len(),
{
    if entries.len() == 1 {
        assert(entries.drop_first() == Seq::<ZipEntry>::empty());
        assert(entries.drop_last() == Seq::<ZipEntry>::empty());
    } else {
        entry_sum_last(entries.drop_first());
        assert(entries.drop_first().drop_last() == entries.drop_last().drop_first());
    }
}

/// While an archive is unpacked without an error, one share is reported for
/// each entry; the shares never fall, stay within a hundred, and end there.
pub proof fn progress_reaches_hundred(sizes: Seq<Option<u64>>, entries: Seq<ZipEntry>)
    requires
        sizes.len() == entries.len() <= usize::MAX,
        forall|i: int| 0 <= i < sizes.len() ==> #[trigger] sizes[i] == Some(entries[i].size),
        known_sum(sizes) <= u64::MAX,
    ensures
        reports(after_measure(sizes), entries).len() == entries.len(),
        forall|i: int, j: int|
            0 <= i <= j < entries.len() ==> #[trigger] reports(after_measure(sizes), entries)[i]
                <= #[trigger] reports(after_measure(sizes), entries)[j] <= 100,
        entries.len() > 0 ==> reports(after_measure(sizes), entries).last() == 100,
{
    known_sum_is_entry_sum(sizes, entries);
    if entries.len() > 0 {
        let at = EntryAt {
            index: 0,
            count: sizes.len() as usize,
            total: known_sum(sizes) as u64,
            done: 0,
        };
        let all = reports(after_measure(sizes), entries);
        reports_are(at, entries);
        assert forall|i: int, j: int| 0 <= i <= j < entries.len() implies #[trigger] all[i]
            <= #[trigger] all[j] <= 100 by {
            entry_sum_grows(entries, i + 1, j + 1);
            percent_grows(
                entry_sum(entries.take(i + 1)),
                entry_sum(entries.take(j + 1)),
                known_sum(sizes),
            );
        }
        let last = entries.len() - 1;
        assert(entries.take(last + 1) == entries);
        percent_grows(known_sum(sizes), known_sum(sizes), known_sum(sizes));
        assert(all[last] == 100);
    }
}

// --- what unpacking comes to -------------------------------------------------------------

/// What the archive and the disk answer while a snapshot is unpacked; the
/// sequences answer for one entry each.
pub struct ExtractWorld {
    pub open: Result<(), String>,
    pub parse: Result<(), String>,
    pub scratch: Result<(), String>,
    pub sizes: Seq<Option<u64>>,
    pub entries: Seq<Result<ZipEntry, String>>,
    pub directories: Seq<Result<(), String>>,
    pub writes: Seq<Result<(), String>>,
    pub listing: Result<Seq<bool>, String>,
    pub rename: Result<(), String>,
}

/// How many entries there are from `at` on.
pub open spec fn entries_left(at: EntryAt) -> nat {
    if at.index < at.count {
        (at.count - at.index) as nat
    } else {
        1
    }
}

spec fn rest_left(rest: Option<EntryAt>) -> nat {
    match rest {
        Some(at) => entries_left(at),
        None => 0,
    }
}

spec fn work_stage(k: ExtractWork) -> (nat, nat, nat) {
    match k {
        ExtractWork::ScratchCleared => (7, 0, 0),
        ExtractWork::Reported(rest) => (4, rest_left(rest), 4),
        ExtractWork::RuntimeCleared { .. } => (2, 0, 0),
        ExtractWork::Recorded => (0, 0, 1),
    }
}

spec fn result_stage(k: ExtractResult) -> (nat, nat, nat) {
    match k {
        ExtractResult::Opened => (9, 0, 0),
        ExtractResult::Parsed => (8, 0, 0),
        ExtractResult::ScratchCreated => (6, 0, 0),
        ExtractResult::DirectoryMade(entry) => (4, rest_left(entry.rest), 6),
        ExtractResult::Written(entry) => (4, rest_left(entry.rest), 5),
        ExtractResult::Renamed => (1, 0, 0),
    }
}

/// How far unpacking has come: the stage, the entries left, the step within
/// an entry. It falls with every answer.
pub closed spec fn stage(n: ExtractNext) -> (nat, nat, nat) {
    match n {
        ExtractNext::Open(k) => result_stage(k),
        ExtractNext::Parse(k) => result_stage(k),
        ExtractNext::ClearScratch(k) => work_stage(k),
        ExtractNext::CreateScratch(k) => result_stage(k),
        ExtractNext::Measure => (5, 0, 0),
        ExtractNext::ReadEntry(at) => (4, entries_left(at), 3),
        ExtractNext::MakeDirectory(k) => result_stage(k),
        ExtractNext::WriteEntry(k) => result_stage(k),
        ExtractNext::Report(_, k) => work_stage(k),
        ExtractNext::ListScratch => (3, 0, 0),
        ExtractNext::ClearRuntime(k) => work_stage(k),
        ExtractNext::Rename { after, .. } => result_stage(after),
        ExtractNext::Record(k) => work_stage(k),
        ExtractNext::Finish(_) => (0, 0, 0),
    }
}

/// The next work in this world, while `at` is the entry that was read last.
pub open spec fn extract_step(n: ExtractNext, at: int, w: ExtractWorld) -> ExtractNext {
    match n {
        ExtractNext::Open(k) => k.next(w.open),
        ExtractNext::Parse(k) => k.next(w.parse),
        ExtractNext::ClearScratch(k) => k.next(),
        ExtractNext::CreateScratch(k) => k.next(w.scratch),
        ExtractNext::Measure => after_measure(w.sizes),
        ExtractNext::ReadEntry(entry) => entry.next(w.entries[entry.index as int]),
        ExtractNext::MakeDirectory(k) => k.next(w.directories[at]),
        ExtractNext::WriteEntry(k) => k.next(w.writes[at]),
        ExtractNext::Report(_, k) => k.next(),
        ExtractNext::ListScratch => after_listing(w.listing),
        ExtractNext::ClearRuntime(k) => k.next(),
        ExtractNext::Rename { after, .. } => after.next(w.rename),
        ExtractNext::Record(k) => k.next(),
        ExtractNext::Finish(_) => n,
    }
}

/// Whether one stage comes before another.
pub open spec fn before(a: (nat, nat, nat), b: (nat, nat, nat)) -> bool {
    a.0 < b.0 || (a.0 == b.0 && (a.1 < b.1 || (a.1 == b.1 && a.2 < b.2)))
}

/// Every answer brings unpacking nearer to its end.
pub proof fn stage_falls(n: ExtractNext, at: int, w: ExtractWorld)
    requires
        !(n is Finish),
    ensures
        before(stage(extract_step(n, at, w)), stage(n)),
{
    match n {
        ExtractNext::ReadEntry(entry) => {
            if let Ok(read) = w.entries[entry.index as int] {
                assert(rest_left(entry.past(read.size).rest) < entries_left(entry));
            }
        },
        ExtractNext::Open(k) => result_falls(k, w.open),
        ExtractNext::Parse(k) => result_falls(k, w.parse),
        ExtractNext::CreateScratch(k) => result_falls(k, w.scratch),
        ExtractNext::MakeDirectory(k) => result_falls(k, w.directories[at]),
        ExtractNext::WriteEntry(k) => result_falls(k, w.writes[at]),
        ExtractNext::Rename { after, .. } => result_falls(after, w.rename),
        _ => {},
    }
}

proof fn result_falls(k: ExtractResult, result: Result<(), String>)
    ensures
        before(stage(k.next(result)), result_stage(k)),
{
}

/// What unpacking comes to from `n` on, and whether it deletes the runtime on
/// the way.
pub open spec fn extract_outcome_from(n: ExtractNext, at: int, w: ExtractWorld) -> (
    Result<(), ExtractError>,
    bool,
)
    decreases stage(n).0, stage(n).1, stage(n).2,
{
    match n {
        ExtractNext::Finish(result) => (result, false),
        _ => {
            proof {
                stage_falls(n, at, w);
            }
            let rest = extract_outcome_from(
                extract_step(n, at, w),
                match n {
                    ExtractNext::ReadEntry(entry) => entry.index as int,
                    _ => at,
                },
                w,
            );
            (rest.0, n is ClearRuntime || rest.1)
        },
    }
}

/// The failure of one entry, if there is one.
pub open spec fn entry_failure(w: ExtractWorld, i: int) -> Option<ExtractError> {
    match w.entries[i] {
        Err(error) => Some(ExtractError::Entry(error)),
        Ok(entry) => if entry.is_dir || !entry.enclosed {
            None
        } else if w.directories[i] is Err {
            Some(ExtractError::Directory(w.directories[i]->Err_0))
        } else if w.writes[i] is Err {
            Some(ExtractError::Write(w.writes[i]->Err_0))
        } else {
            None
        },
    }
}

/// The first failure of the entries from the `i`th on, if there is one.
pub open spec fn entries_failure(w: ExtractWorld, i: int) -> Option<ExtractError>
    decreases w.sizes.len() - i,
{
    if i >= w.sizes.len() {
        None
    } else {
        match entry_failure(w, i) {
            Some(error) => Some(error),
            None => entries_failure(w, i + 1),
        }
    }
}

/// The first failure before all the code is unpacked, if there is one.
pub open spec fn unpacking_failure(w: ExtractWorld) -> Option<ExtractError> {
    if w.open is Err {
        Some(ExtractError::Open(w.open->Err_0))
    } else if w.parse is Err {
        Some(ExtractError::Parse(w.parse->Err_0))
    } else if w.scratch is Err {
        Some(ExtractError::Scratch(w.scratch->Err_0))
    } else if entries_failure(w, 0) is Some {
        entries_failure(w, 0)
    } else if w.listing is Err {
        Some(ExtractError::List(w.listing->Err_0))
    } else {
        None
    }
}

/// What unpacking comes to, and whether it deletes the old runtime: only once
/// all the code is unpacked.
pub open spec fn extract_outcome(w: ExtractWorld) -> (Result<(), ExtractError>, bool) {
    match unpacking_failure(w) {
        Some(error) => (Err(error), false),
        None => (
            match w.rename {
                Ok(()) => Ok(()),
                Err(error) => Err(ExtractError::Rename(error)),
            },
            true,
        ),
    }
}

spec fn listing_outcome(w: ExtractWorld) -> (Result<(), ExtractError>, bool) {
    match (w.listing, w.rename) {
        (Err(error), _) => (Err(ExtractError::List(error)), false),
        (Ok(_), Ok(())) => (Ok(()), true),
        (Ok(_), Err(error)) => (Err(ExtractError::Rename(error)), true),
    }
}

proof fn listing_flow(at: int, w: ExtractWorld)
    ensures
        extract_outcome_from(ExtractNext::ListScratch, at, w) == listing_outcome(w),
{
    reveal_with_fuel(extract_outcome_from, 6);
}

proof fn entries_flow(entry: EntryAt, at: int, w: ExtractWorld)
    requires
        entry.index < entry.count == w.sizes.len(),
    ensures
        extract_outcome_from(ExtractNext::ReadEntry(entry), at, w) == match entries_failure(
            w,
            entry.index as int,
        ) {
            Some(error) => (Err(error), false),
            None => listing_outcome(w),
        },
    decreases entry.count - entry.index,
{
    reveal_with_fuel(extract_outcome_from, 5);
    reveal_with_fuel(entries_failure, 2);
    let i = entry.index as int;
    if entry_failure(w, i) is None {
        let size = w.entries[i]->Ok_0.size;
        match entry.past(size).rest {
            Some(next) => entries_flow(next, i, w),
            None => listing_flow(i, w),
        }
    }
}

/// Unpacking comes to [`extract_outcome`]: it ends with its first failure, or
/// with success where there is none, and a failure before all the code is
/// unpacked leaves the runtime as it was.
pub proof fn extract_comes_to(w: ExtractWorld)
    requires
        w.sizes.len() <= usize::MAX,
    ensures
        extract_outcome_from(ExtractNext::Open(ExtractResult::Opened), 0, w) == extract_outcome(w),
{
    reveal_with_fuel(extract_outcome_from, 6);
    reveal_with_fuel(entries_failure, 2);
    if w.sizes.len() == 0 {
        listing_flow(0, w);
    } else {
        let first = EntryAt {
            index: 0,
            count: w.sizes.len() as usize,
            total: known_sum(w.sizes) as u64,
            done: 0,
        };
        entries_flow(first, 0, w);
    }
}

} // verus!
