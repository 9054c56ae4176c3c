//! The flows that run are the flows that the laws are about.
use crate::archive::{
    extract_zip_into, listed, measured, percent, EntryAt, EntryDone, ExtractError, ExtractNext,
    ExtractResult, ExtractWork, ZipEntry,
};
use crate::boot::{
    run, BootFlag, BootNext, BootPort, BootResult, BootRuntime, BootText, BootVersions, BootWork,
};
use crate::download::{
    download_zip, DownloadBody, DownloadFirst, DownloadNext, DownloadResult, DownloadWork,
};
use crate::force::{force_update_runtime, ForceError, ForceNext, ForceResult, ForceText, ForceWork};
use crate::runtime::{
    ensure_runtime, AfterResult, AfterText, AfterWork, EnsureNext, RuntimeError, RuntimeFacts,
    RuntimeState,
};
use crate::steps::{
    build_repo, install_deps, BuildFlag, BuildNext, BuildRun, BuildText, BuildWork, InstallNext,
    InstallRun, PnpmRun,
};
use crate::tools::Platform;
use crate::upgrade::{
    upgrade_harness, UpgradeFlag, UpgradeNext, UpgradeRefresh, UpgradeResult, UpgradeText,
    UpgradeWork,
};
use vstd::prelude::*;

verus! {

// --- preparing the runtime -------------------------------------------------------

/// A launch begins as its model does.
pub proof fn a_launch_begins(facts: RuntimeFacts, r: EnsureNext)
    requires
        call_ensures(ensure_runtime, (facts,), r),
    ensures
        r == crate::runtime::ensure_start(facts),
{
}

/// A launch goes on as its model does, whatever it waited for.
pub proof fn a_launch_goes_on(
    work: AfterWork,
    after_work: EnsureNext,
    text: AfterText,
    answer: Option<String>,
    after_text: EnsureNext,
    result: AfterResult,
    outcome: Result<(), String>,
    after_result: EnsureNext,
)
    requires
        call_ensures(AfterWork::resume, (work,), after_work),
        call_ensures(AfterText::resume, (text, answer), after_text),
        call_ensures(AfterResult::resume, (result, outcome), after_result),
    ensures
        after_work == work.next(),
        after_text == text.next(answer),
        after_result == result.next(outcome),
{
}

/// A launch that learns of the fetched commit leaves the checkout alone where it
/// is the one that is checked out, or where either is unknown, and moves it
/// everywhere else.
pub proof fn a_launch_compares_the_commits(
    head: Option<String>,
    fetched: Option<String>,
    r: EnsureNext,
)
    requires
        call_ensures(AfterText::resume, (AfterText::FetchHead(head), fetched), r),
    ensures
        match (head, fetched) {
            (Some(a), Some(b)) if a@ != b@ => r matches EnsureNext::Report(_, after)
                && after is Reset,
            _ => r == EnsureNext::Finish(Ok(RuntimeState::Unchanged)),
        },
{
}

/// A launch that learns of the recorded revision downloads nothing where it is the
/// newest one, and the newest one everywhere else.
pub proof fn a_launch_compares_the_revisions(
    newest: String,
    recorded: Option<String>,
    r: EnsureNext,
)
    requires
        call_ensures(AfterText::resume, (AfterText::Recorded(newest), recorded), r),
    ensures
        match recorded {
            Some(text) if text@ == newest@ => r == EnsureNext::Finish(Ok(RuntimeState::Unchanged)),
            _ => r matches EnsureNext::Report(_, after) && after == AfterWork::DownloadNew(newest),
        },
{
}

// --- the forced update -----------------------------------------------------------

/// A forced update begins as its model does.
pub proof fn a_forced_update_begins(checkout: bool, git: bool, r: ForceNext)
    requires
        call_ensures(force_update_runtime, (checkout, git), r),
    ensures
        r == crate::force::force_start(checkout, git),
{
}

/// A forced update goes on as its model does, whatever it waited for.
pub proof fn a_forced_update_goes_on(
    work: ForceWork,
    after_work: ForceNext,
    text: ForceText,
    answer: Option<String>,
    after_text: ForceNext,
    result: ForceResult,
    outcome: Result<(), String>,
    after_result: ForceNext,
)
    requires
        call_ensures(ForceWork::resume, (work,), after_work),
        call_ensures(ForceText::resume, (text, answer), after_text),
        call_ensures(ForceResult::resume, (result, outcome), after_result),
    ensures
        after_work == work.next(),
        after_text == text.next(answer),
        after_result == result.next(outcome),
{
}

/// A forced update that learns of the fetched commit leaves the checkout alone
/// where it is the one that is checked out, or where either is unknown, and moves
/// it everywhere else.
pub proof fn a_forced_update_compares_the_commits(
    head: Option<String>,
    fetched: Option<String>,
    r: ForceNext,
)
    requires
        call_ensures(ForceText::resume, (ForceText::FetchHead(head), fetched), r),
    ensures
        match (head, fetched) {
            (Some(a), Some(b)) if a@ != b@ => r matches ForceNext::Report(_, after) && after
                == ForceWork::Reset,
            _ => r == ForceNext::Finish(Ok(RuntimeState::Unchanged)),
        },
{
}

// --- installing and building -----------------------------------------------------

/// An installation begins and goes on as its model does.
pub proof fn an_installation_goes_on(
    start: InstallNext,
    k: InstallRun,
    result: Result<bool, String>,
    r: InstallNext,
)
    requires
        call_ensures(install_deps, (), start),
        call_ensures(InstallRun::resume, (k, result), r),
    ensures
        start == InstallNext::Run(PnpmRun::InstallFrozen, InstallRun::Frozen),
        r == k.next(result),
{
}

/// A build begins and goes on as its model does, whatever it waited for.
pub proof fn a_build_goes_on(
    revision: Option<String>,
    start: BuildNext,
    text: BuildText,
    marker: Option<String>,
    after_text: BuildNext,
    flag: BuildFlag,
    page: bool,
    after_flag: BuildNext,
    run: BuildRun,
    result: Result<bool, String>,
    after_run: BuildNext,
    work: BuildWork,
    after_work: BuildNext,
)
    requires
        call_ensures(build_repo, (revision,), start),
        call_ensures(BuildText::resume, (text, marker), after_text),
        call_ensures(BuildFlag::resume, (flag, page), after_flag),
        call_ensures(BuildRun::resume, (run, result), after_run),
        call_ensures(BuildWork::resume, (work,), after_work),
    ensures
        start == BuildNext::ReadMarker((BuildText { revision })),
        after_text == text.next(marker),
        after_flag == flag.next(page),
        after_run == run.next(result),
        after_work == work.next(),
{
}

/// A build that has read a marker goes without pnpm only where what stands in the
/// marker between white space is the revision, or nothing where that is unknown.
pub proof fn a_build_compares_the_marker(
    revision: Option<String>,
    marker: Option<String>,
    r: BuildNext,
    before: Seq<char>,
    text: Seq<char>,
    after: Seq<char>,
)
    requires
        call_ensures(BuildText::resume, ((BuildText { revision }), marker), r),
        marker matches Some(whole) ==> crate::git_laws::between_blanks(whole@, before, text, after),
    ensures
        ({
            let wanted = match revision {
                Some(known) => known@,
                None => Seq::<char>::empty(),
            };
            if marker is Some && text == wanted {
                r == BuildNext::LookForPage(BuildFlag { revision })
            } else {
                r == BuildNext::Run(PnpmRun::Build, BuildRun { revision })
            }
        }),
{
    if marker is Some {
        crate::text_laws::trimmed_between(before, text, after);
    }
}

// --- downloading -----------------------------------------------------------------

/// A download begins as its model does.
pub proof fn a_download_begins(parent: bool, revision: Option<String>, r: DownloadNext)
    requires
        call_ensures(download_zip, (parent, revision), r),
    ensures
        r == crate::download::download_start(parent, revision),
{
}

/// A download goes on as its model does, whatever it waited for.
pub proof fn a_download_goes_on(
    body: DownloadBody,
    size: Result<usize, String>,
    after_body: DownloadNext,
    first: DownloadFirst,
    name: Result<Option<String>, String>,
    after_first: DownloadNext,
    work: DownloadWork,
    after_work: DownloadNext,
    result: DownloadResult,
    outcome: Result<(), String>,
    after_result: DownloadNext,
)
    requires
        call_ensures(DownloadBody::resume, (body, size), after_body),
        call_ensures(DownloadFirst::resume, (first, name), after_first),
        call_ensures(DownloadWork::resume, (work,), after_work),
        call_ensures(DownloadResult::resume, (result, outcome), after_result),
    ensures
        after_body == body.next(size),
        after_first == first.next(name),
        after_work == work.next(),
        after_result == result.next(outcome),
{
}

// --- unpacking -------------------------------------------------------------------

/// Unpacking begins and goes on as its model does, whatever it waited for.
pub proof fn unpacking_goes_on(
    start: ExtractNext,
    work: ExtractWork,
    after_work: ExtractNext,
    result: ExtractResult,
    outcome: Result<(), String>,
    after_result: ExtractNext,
)
    requires
        call_ensures(extract_zip_into, (), start),
        call_ensures(ExtractWork::resume, (work,), after_work),
        call_ensures(ExtractResult::resume, (result, outcome), after_result),
    ensures
        start == ExtractNext::Open(ExtractResult::Opened),
        after_work == work.next(),
        after_result == result.next(outcome),
{
}

/// The share is the whole percentage of what is done, and a hundred where
/// everything is, or where there is nothing to do.
pub proof fn the_share_is_what_is_done(done: u64, total: u64, r: u32)
    requires
        done * 100 <= u64::MAX,
        call_ensures(percent, (done, total), r),
    ensures
        done >= total ==> r == 100,
        done < total ==> r * total <= done * 100 < (r + 1) * total,
{
    if total > 0 {
        let share = done as int * 100 / total as int;
        assert(share * total <= done * 100 && done * 100 < (share + 1) * total && 0 <= share)
            by (nonlinear_arith)
            requires
                total > 0,
                share == done as int * 100 / total as int,
        ;
        if done >= total {
            assert(share >= 100) by (nonlinear_arith)
                requires
                    done * 100 < (share + 1) * total,
                    done >= total,
                    total > 0,
            ;
        } else {
            assert(share < 100) by (nonlinear_arith)
                requires
                    share * total <= done * 100,
                    done < total,
            ;
        }
    }
}

/// Every size that is known counts in full, and one that is unknown for nothing.
pub proof fn known_sizes_add_up(sizes: Seq<Option<u64>>, size: u64)
    ensures
        crate::archive::known_sum(Seq::empty()) == 0,
        crate::archive::known_sum(sizes.push(Some(size))) == crate::archive::known_sum(sizes) + size,
        crate::archive::known_sum(sizes.push(None)) == crate::archive::known_sum(sizes),
{
    assert(sizes.push(Some(size)).drop_last() =~= sizes);
    assert(sizes.push(None).drop_last() =~= sizes);
}

/// Once the sizes are known, the first entry comes first, with all entries and
/// their sizes ahead of it; an archive without entries is listed at once.
pub proof fn the_first_entry_comes_first(sizes: &Vec<Option<u64>>, r: ExtractNext)
    requires
        crate::archive::known_sum(sizes@) <= u64::MAX,
        call_ensures(measured, (sizes,), r),
    ensures
        sizes@.len() == 0 ==> r is ListScratch,
        sizes@.len() > 0 ==> (r matches ExtractNext::ReadEntry(at) && at.index == 0 && at.count
            == sizes@.len() && at.done == 0 && at.total == crate::archive::known_sum(sizes@)),
{
    assert(sizes@.len() == sizes.len());
}

/// An entry is written where it is a file whose name stays inside, and passed
/// over where it is not. Either way its size is added to what is done, the share
/// is that of the new sum, and the next entry is the one behind it.
pub proof fn an_entry_is_dealt_with(
    at: EntryAt,
    entry: ZipEntry,
    r: ExtractNext,
    done: u64,
    share: u32,
    after: EntryDone,
)
    requires
        at.index < at.count,
        (at.done + entry.size) * 100 <= u64::MAX,
        call_ensures(EntryAt::resume, (at, Ok(entry)), r),
        done == at.done + entry.size,
        call_ensures(percent, (done, at.total), share),
        after.percent == share,
        match after.rest {
            Some(next) => at.index + 1 < at.count && next.index == at.index + 1 && next.count
                == at.count && next.total == at.total && next.done == done,
            None => at.index + 1 == at.count,
        },
    ensures
        !entry.is_dir && entry.enclosed ==> r == ExtractNext::MakeDirectory(
            ExtractResult::DirectoryMade(after),
        ),
        entry.is_dir || !entry.enclosed ==> r == ExtractNext::Report(
            share,
            ExtractWork::Reported(after.rest),
        ),
{
    let past = at.past(entry.size);
    assert(past.percent == share);
    assert(past.rest == after.rest);
    assert(past == after);
}

/// An entry that cannot be read ends unpacking with its reason.
pub proof fn an_unreadable_entry_ends_it(at: EntryAt, error: String, r: ExtractNext)
    requires
        at.index < at.count,
        call_ensures(EntryAt::resume, (at, Err::<ZipEntry, String>(error)), r),
    ensures
        r == ExtractNext::Finish(Err(ExtractError::Entry(error))),
{
}

/// The code is taken out of a directory exactly where that directory is the only
/// item that was unpacked.
pub proof fn only_a_sole_directory_is_entered(items: Result<Vec<bool>, String>, r: ExtractNext)
    requires
        call_ensures(listed, (items,), r),
    ensures
        items matches Err(error) ==> r == ExtractNext::Finish(Err(ExtractError::List(error))),
        items matches Ok(dirs) ==> (r matches ExtractNext::ClearRuntime(after) && after
            == ExtractWork::RuntimeCleared { inner: dirs@ == seq![true] }),
{
    if let Ok(dirs) = items {
        if dirs@.len() == 1 && dirs@[0] {
            assert(dirs@ =~= seq![true]);
        }
    }
}

// --- upgrading -------------------------------------------------------------------

/// An upgrade begins as its model does.
pub proof fn an_upgrade_begins(port: u16, r: UpgradeNext)
    requires
        call_ensures(upgrade_harness, (port,), r),
    ensures
        r == crate::upgrade::upgrade_start(port),
{
}

/// An upgrade goes on as its model does, whatever it waited for.
pub proof fn an_upgrade_goes_on(
    work: UpgradeWork,
    after_work: UpgradeNext,
    refresh: UpgradeRefresh,
    state: Result<RuntimeState, ForceError>,
    after_refresh: UpgradeNext,
    text: UpgradeText,
    revision: Option<String>,
    after_text: UpgradeNext,
    flag: UpgradeFlag,
    yes: bool,
    after_flag: UpgradeNext,
    result: UpgradeResult,
    outcome: Result<(), String>,
    after_result: UpgradeNext,
)
    requires
        call_ensures(UpgradeWork::resume, (work,), after_work),
        call_ensures(UpgradeRefresh::resume, (refresh, state), after_refresh),
        call_ensures(UpgradeText::resume, (text, revision), after_text),
        call_ensures(UpgradeFlag::resume, (flag, yes), after_flag),
        call_ensures(UpgradeResult::resume, (result, outcome), after_result),
    ensures
        after_work == work.next(),
        after_refresh == refresh.next(state),
        after_text == text.next(revision),
        after_flag == flag.next(yes),
        after_result == result.next(outcome),
{
}

// --- launching -------------------------------------------------------------------

/// The shell begins as its model does.
pub proof fn the_shell_begins(platform: Platform, port: u16, r: BootNext)
    requires
        call_ensures(run, (platform, port), r),
    ensures
        r == crate::boot::boot_start(platform, port),
{
}

/// The shell goes on as its model does, whatever it waited for.
pub proof fn the_shell_goes_on(
    work: BootWork,
    after_work: BootNext,
    flag: BootFlag,
    yes: bool,
    after_flag: BootNext,
    port: BootPort,
    found: u16,
    after_port: BootNext,
    runtime: BootRuntime,
    state: Result<RuntimeState, RuntimeError>,
    after_runtime: BootNext,
)
    requires
        call_ensures(BootWork::resume, (work,), after_work),
        call_ensures(BootFlag::resume, (flag, yes), after_flag),
        call_ensures(BootPort::resume, (port, found), after_port),
        call_ensures(BootRuntime::resume, (runtime, state), after_runtime),
    ensures
        after_work == work.next(),
        after_flag == flag.next(yes),
        after_port == port.next(found),
        after_runtime == runtime.next(state),
{
}

/// The shell goes on with texts and results as its model does.
pub proof fn the_shell_goes_on_with(
    text: BootText,
    revision: Option<String>,
    after_text: BootNext,
    versions: BootVersions,
    shell: Option<String>,
    harness: Option<String>,
    after_versions: BootNext,
    result: BootResult,
    outcome: Result<(), String>,
    after_result: BootNext,
)
    requires
        call_ensures(BootText::resume, (text, revision), after_text),
        call_ensures(BootVersions::resume, (versions, shell, harness), after_versions),
        call_ensures(BootResult::resume, (result, outcome), after_result),
    ensures
        after_text == text.next(revision),
        after_versions == versions.next(shell, harness),
        after_result == result.next(outcome),
{
}

} // verus!
