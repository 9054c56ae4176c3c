//! What holds of every launch of the runtime flow, whatever git, the network
//! and the disk answer.
use crate::download::{DownloadNext, DownloadWork, DownloadWorld};
use crate::git::GitQuery;
use crate::runtime::{
    has_moved, AfterResult, AfterText, AfterWork, EnsureNext, EnsureStatus, RuntimeError,
    RuntimeFacts, RuntimeState,
};
use vstd::prelude::*;

verus! {

/// An answer to a piece of work.
pub enum Answer {
    Done,
    Text(Option<String>),
    Outcome(Result<(), String>),
}

/// What the flow does next, where the answer fits the work.
pub open spec fn follow(n: EnsureNext, answer: Answer) -> Option<EnsureNext> {
    match (n, answer) {
        (EnsureNext::Report(_, k), Answer::Done) => Some(k.next()),
        (EnsureNext::RemoveRuntime(k), Answer::Done) => Some(k.next()),
        (EnsureNext::Pause(k), Answer::Done) => Some(k.next()),
        (EnsureNext::Git(_, k), Answer::Text(text)) => Some(k.next(text)),
        (EnsureNext::Latest(k), Answer::Text(text)) => Some(k.next(text)),
        (EnsureNext::Recorded(k), Answer::Text(text)) => Some(k.next(text)),
        (EnsureNext::ExtractSnapshot(k), Answer::Outcome(result)) => Some(k.next(result)),
        (EnsureNext::CloneSource(k), Answer::Outcome(result)) => Some(k.next(result)),
        (EnsureNext::Download(_, k), Answer::Outcome(result)) => Some(k.next(result)),
        _ => None,
    }
}

/// The work that the flow asks for, from `n` on, given these answers.
pub open spec fn trace(n: EnsureNext, answers: Seq<Answer>) -> Seq<EnsureNext>
    decreases answers.len(),
{
    if answers.len() == 0 {
        seq![n]
    } else {
        match follow(n, answers.first()) {
            Some(m) => seq![n] + trace(m, answers.drop_first()),
            None => seq![n],
        }
    }
}

// --- every launch ends -------------------------------------------------------------

spec fn work_rank(k: AfterWork) -> nat {
    match k {
        AfterWork::Fetch => 7,
        AfterWork::Reset => 3,
        AfterWork::AskLatest => 5,
        AfterWork::DownloadNew(_) => 2,
        AfterWork::Extract { .. } => 16,
        AfterWork::SnapshotFailed { .. } => 14,
        AfterWork::SnapshotCleared { .. } => 13,
        AfterWork::FirstDownload { .. } => 12,
        AfterWork::Clone { second, .. } => if second {
            7
        } else {
            11
        },
        AfterWork::CloneFailed { second, .. } => if second {
            5
        } else {
            9
        },
        AfterWork::CloneRested { second, .. } => if second {
            4
        } else {
            8
        },
        AfterWork::Backup { .. } => 3,
    }
}

spec fn text_rank(k: AfterText) -> nat {
    match k {
        AfterText::Fetched => 6,
        AfterText::Head => 5,
        AfterText::FetchHead(_) => 4,
        AfterText::Reset => 2,
        AfterText::Latest => 4,
        AfterText::Recorded(_) => 3,
        AfterText::Backup { .. } => 2,
    }
}

spec fn result_rank(k: AfterResult) -> nat {
    match k {
        AfterResult::Downloaded => 1,
        AfterResult::Extracted { .. } => 15,
        AfterResult::Cloned { second, .. } => if second {
            6
        } else {
            10
        },
        AfterResult::BackedUp { .. } => 1,
    }
}

/// How many answers the flow can still take.
pub closed spec fn rank(n: EnsureNext) -> nat {
    match n {
        EnsureNext::Report(_, k) => work_rank(k),
        EnsureNext::RemoveRuntime(k) => work_rank(k),
        EnsureNext::Pause(k) => work_rank(k),
        EnsureNext::Git(_, k) => text_rank(k),
        EnsureNext::Latest(k) => text_rank(k),
        EnsureNext::Recorded(k) => text_rank(k),
        EnsureNext::ExtractSnapshot(k) => result_rank(k),
        EnsureNext::CloneSource(k) => result_rank(k),
        EnsureNext::Download(_, k) => result_rank(k),
        EnsureNext::Finish(_) => 0,
    }
}

/// Every answer brings a launch nearer to its end.
pub proof fn rank_falls(n: EnsureNext, answer: Answer)
    ensures
        follow(n, answer) matches Some(m) ==> rank(m) < rank(n),
{
}

proof fn trace_is_short(n: EnsureNext, answers: Seq<Answer>)
    ensures
        1 <= trace(n, answers).len(),
        rank(trace(n, answers).last()) + trace(n, answers).len() <= rank(n) + 1,
    decreases answers.len(),
{
    if answers.len() > 0 {
        rank_falls(n, answers.first());
        if let Some(m) = follow(n, answers.first()) {
            trace_is_short(m, answers.drop_first());
            assert(trace(n, answers).last() == trace(m, answers.drop_first()).last());
        }
    }
}

/// Every launch ends: whatever the answers are, the flow asks for at most
/// sixteen pieces of work, and after that many it has finished.
pub proof fn launch_ends(facts: RuntimeFacts, answers: Seq<Answer>)
    ensures
        trace(crate::runtime::ensure_start(facts), answers).len() <= 17,
        trace(crate::runtime::ensure_start(facts), answers).len() == 17 ==> trace(
            crate::runtime::ensure_start(facts),
            answers,
        ).last() is Finish,
{
    trace_is_short(crate::runtime::ensure_start(facts), answers);
}

// --- updates switched off ------------------------------------------------------------

/// With updates switched off a launch asks for no work at all: it uses the
/// runtime as it is, or says that there is none.
pub proof fn skip_update_asks_for_nothing(facts: RuntimeFacts, answers: Seq<Answer>)
    requires
        facts.skip_update,
    ensures
        trace(crate::runtime::ensure_start(facts), answers) == seq![
            EnsureNext::Finish(
                if facts.checkout || facts.package {
                    Ok(RuntimeState::Unchanged)
                } else {
                    Err(RuntimeError::NothingToUse)
                },
            ),
        ],
{
}

// --- an unchanged runtime is untouched --------------------------------------------------

/// Whether the work writes to the runtime.
pub open spec fn writes(n: EnsureNext) -> bool {
    match n {
        EnsureNext::RemoveRuntime(_) => true,
        EnsureNext::Git(query, _) => query == GitQuery::Reset,
        EnsureNext::ExtractSnapshot(_) => true,
        EnsureNext::CloneSource(_) => true,
        EnsureNext::Download(..) => true,
        _ => false,
    }
}

/// Whether the flow can still find that nothing changed.
spec fn undecided(n: EnsureNext) -> bool {
    match n {
        EnsureNext::Report(_, k) => k is Fetch || k is AskLatest,
        EnsureNext::Git(query, k) => query != GitQuery::Reset && (k is Fetched || k is Head
            || k is FetchHead),
        EnsureNext::Latest(k) => k is Latest,
        EnsureNext::Recorded(k) => k is Recorded,
        EnsureNext::Finish(result) => result == Ok::<RuntimeState, RuntimeError>(
            RuntimeState::Unchanged,
        ),
        _ => false,
    }
}

/// Whether the work stands where the flow asks for it.
spec fn proper(n: EnsureNext) -> bool {
    match n {
        EnsureNext::Report(_, k) => k is Fetch || k is Reset || k is AskLatest || k is DownloadNew
            || k is SnapshotFailed || k is FirstDownload || k is CloneFailed || k is Backup,
        EnsureNext::RemoveRuntime(k) => k is Extract || k is SnapshotCleared || k is Clone,
        EnsureNext::Pause(k) => k is CloneRested,
        EnsureNext::Git(query, k) => match query {
            GitQuery::Fetch => k is Fetched,
            GitQuery::Head => k is Head,
            GitQuery::FetchHead => k is FetchHead,
            GitQuery::Reset => k is Reset,
        },
        EnsureNext::Latest(k) => k is Latest || k is Backup,
        EnsureNext::Recorded(k) => k is Recorded,
        EnsureNext::ExtractSnapshot(k) => k is Extracted,
        EnsureNext::CloneSource(k) => k is Cloned,
        EnsureNext::Download(_, k) => k is Downloaded || k is BackedUp,
        EnsureNext::Finish(_) => true,
    }
}

proof fn stays_proper(n: EnsureNext, answer: Answer)
    requires
        proper(n),
    ensures
        follow(n, answer) matches Some(m) ==> proper(m) && (undecided(m) ==> undecided(n)),
{
}

proof fn unchanged_means_undecided(n: EnsureNext, answers: Seq<Answer>, j: int)
    requires
        proper(n),
        0 <= j < trace(n, answers).len(),
        trace(n, answers)[j] == EnsureNext::Finish(Ok(RuntimeState::Unchanged)),
    ensures
        undecided(n),
        forall|i: int| 0 <= i < j ==> !writes(#[trigger] trace(n, answers)[i]),
    decreases answers.len(),
{
    if j > 0 {
        let m = follow(n, answers.first())->0;
        let rest = trace(m, answers.drop_first());
        assert(trace(n, answers) == seq![n] + rest);
        stays_proper(n, answers.first());
        unchanged_means_undecided(m, answers.drop_first(), j - 1);
        assert forall|i: int| 0 <= i < j implies !writes(#[trigger] trace(n, answers)[i]) by {
            if i > 0 {
                assert(trace(n, answers)[i] == rest[i - 1]);
            }
        }
    }
}

/// Where a launch finds the runtime unchanged, it has written nothing to it.
pub proof fn unchanged_is_untouched(facts: RuntimeFacts, answers: Seq<Answer>, j: int)
    requires
        0 <= j < trace(crate::runtime::ensure_start(facts), answers).len(),
        trace(crate::runtime::ensure_start(facts), answers)[j] == EnsureNext::Finish(
            Ok(RuntimeState::Unchanged),
        ),
    ensures
        forall|i: int|
            0 <= i < j ==> !writes(
                #[trigger] trace(crate::runtime::ensure_start(facts), answers)[i],
            ),
{
    unchanged_means_undecided(crate::runtime::ensure_start(facts), answers, j);
}

// --- an existing runtime is kept --------------------------------------------------------

/// Whether the work replaces the whole runtime directory.
pub open spec fn replaces(n: EnsureNext) -> bool {
    n is RemoveRuntime || n is ExtractSnapshot || n is CloneSource || n is Download
}

spec fn in_checkout(n: EnsureNext) -> bool {
    match n {
        EnsureNext::Report(_, k) => k is Fetch || k is Reset,
        EnsureNext::Git(_, k) => k is Fetched || k is Head || k is FetchHead || k is Reset,
        EnsureNext::Finish(_) => true,
        _ => false,
    }
}

proof fn checkout_trace(n: EnsureNext, answers: Seq<Answer>)
    requires
        in_checkout(n),
    ensures
        forall|i: int|
            0 <= i < trace(n, answers).len() ==> !replaces(#[trigger] trace(n, answers)[i]),
    decreases answers.len(),
{
    if answers.len() > 0 {
        if let Some(m) = follow(n, answers.first()) {
            checkout_trace(m, answers.drop_first());
            let rest = trace(m, answers.drop_first());
            assert(trace(n, answers) == seq![n] + rest);
            assert forall|i: int| 0 <= i < trace(n, answers).len() implies !replaces(
                #[trigger] trace(n, answers)[i],
            ) by {
                if i > 0 {
                    assert(trace(n, answers)[i] == rest[i - 1]);
                }
            }
        }
    }
}

/// Where there is git, a checkout is updated in place: no launch deletes or
/// replaces it.
pub proof fn checkout_is_kept(facts: RuntimeFacts, answers: Seq<Answer>)
    requires
        facts.checkout,
        facts.git,
    ensures
        forall|i: int|
            0 <= i < trace(crate::runtime::ensure_start(facts), answers).len() ==> !replaces(
                #[trigger] trace(crate::runtime::ensure_start(facts), answers)[i],
            ),
{
    checkout_trace(crate::runtime::ensure_start(facts), answers);
}

// --- the first launch ---------------------------------------------------------------------

/// Whether the work needs the network.
pub open spec fn online(n: EnsureNext) -> bool {
    match n {
        EnsureNext::Git(query, _) => query == GitQuery::Fetch,
        EnsureNext::Latest(_) => true,
        EnsureNext::CloneSource(_) => true,
        EnsureNext::Download(..) => true,
        _ => false,
    }
}

/// Whether the flow says that the bundled snapshot could not be used.
pub open spec fn gives_up_snapshot(n: EnsureNext) -> bool {
    n matches EnsureNext::Report(status, _) && status is SnapshotFailed
}

spec fn at_snapshot(n: EnsureNext) -> bool {
    match n {
        EnsureNext::RemoveRuntime(k) => k is Extract,
        EnsureNext::ExtractSnapshot(k) => k is Extracted,
        EnsureNext::Finish(_) => true,
        _ => false,
    }
}

proof fn snapshot_trace(n: EnsureNext, answers: Seq<Answer>, j: int)
    requires
        at_snapshot(n),
        0 <= j < trace(n, answers).len(),
        online(trace(n, answers)[j]),
    ensures
        exists|i: int| 0 <= i < j && gives_up_snapshot(#[trigger] trace(n, answers)[i]),
    decreases answers.len(),
{
    let m = follow(n, answers.first())->0;
    let rest = trace(m, answers.drop_first());
    assert(trace(n, answers) == seq![n] + rest);
    if gives_up_snapshot(m) {
        assert(rest[0] == m);
        assert(trace(n, answers)[1] == m);
    } else {
        assert(trace(n, answers)[j] == rest[j - 1]);
        snapshot_trace(m, answers.drop_first(), j - 1);
        let i = choose|i: int| 0 <= i < j - 1 && gives_up_snapshot(#[trigger] rest[i]);
        assert(trace(n, answers)[i + 1] == rest[i]);
    }
}

/// A bundled snapshot makes a fresh machine work without a network: the
/// network is asked only after the snapshot could not be used.
pub proof fn snapshot_needs_no_network(facts: RuntimeFacts, answers: Seq<Answer>, j: int)
    requires
        !facts.checkout,
        !facts.package,
        facts.snapshot,
        0 <= j < trace(crate::runtime::ensure_start(facts), answers).len(),
        online(trace(crate::runtime::ensure_start(facts), answers)[j]),
    ensures
        exists|i: int|
            0 <= i < j && gives_up_snapshot(
                #[trigger] trace(crate::runtime::ensure_start(facts), answers)[i],
            ),
{
    snapshot_trace(crate::runtime::ensure_start(facts), answers, j);
}

/// How many clones a sequence of work holds.
pub open spec fn clones(work: Seq<EnsureNext>) -> nat
    decreases work.len(),
{
    if work.len() == 0 {
        0
    } else {
        (if work.first() is CloneSource {
            1nat
        } else {
            0nat
        }) + clones(work.drop_first())
    }
}

spec fn clones_left(n: EnsureNext) -> nat {
    if n is Finish {
        0
    } else if rank(n) >= 10 {
        2
    } else if rank(n) >= 6 {
        1
    } else {
        0
    }
}

spec fn first_launch(n: EnsureNext) -> bool {
    match n {
        EnsureNext::Report(_, k) => k is SnapshotFailed || k is FirstDownload || k is CloneFailed
            || k is Backup,
        EnsureNext::RemoveRuntime(k) => k is Extract || k is SnapshotCleared || k is Clone,
        EnsureNext::Pause(k) => k is CloneRested,
        EnsureNext::Latest(k) => k is Backup,
        EnsureNext::ExtractSnapshot(k) => k is Extracted,
        EnsureNext::CloneSource(k) => k is Cloned,
        EnsureNext::Download(_, k) => k is BackedUp,
        EnsureNext::Finish(_) => true,
        _ => false,
    }
}

proof fn clones_bounded(n: EnsureNext, answers: Seq<Answer>)
    requires
        first_launch(n),
    ensures
        clones(trace(n, answers)) <= clones_left(n),
    decreases answers.len(),
{
    let all = trace(n, answers);
    if answers.len() > 0 && follow(n, answers.first()) is Some {
        let m = follow(n, answers.first())->0;
        clones_bounded(m, answers.drop_first());
        assert(all.drop_first() == trace(m, answers.drop_first()));
        assert(all.first() == n);
    } else {
        assert(all.drop_first() == Seq::<EnsureNext>::empty());
        assert(clones(all.drop_first()) == 0);
        assert(all.first() == n);
    }
}

/// A first launch clones at most twice.
pub proof fn at_most_two_clones(facts: RuntimeFacts, answers: Seq<Answer>)
    requires
        !facts.checkout,
        !facts.package,
    ensures
        clones(trace(crate::runtime::ensure_start(facts), answers)) <= 2,
{
    clones_bounded(crate::runtime::ensure_start(facts), answers);
}

spec fn has_parent(n: EnsureNext) -> bool {
    match n {
        EnsureNext::Report(_, k) => work_parent(k),
        EnsureNext::RemoveRuntime(k) => work_parent(k),
        EnsureNext::Pause(k) => work_parent(k),
        EnsureNext::ExtractSnapshot(k) => result_parent(k),
        EnsureNext::CloneSource(k) => result_parent(k),
        _ => true,
    }
}

spec fn work_parent(k: AfterWork) -> bool {
    match k {
        AfterWork::Extract { parent, .. } => parent,
        AfterWork::SnapshotFailed { parent, .. } => parent,
        AfterWork::SnapshotCleared { parent, .. } => parent,
        AfterWork::FirstDownload { parent, .. } => parent,
        AfterWork::Clone { parent, .. } => parent,
        AfterWork::CloneFailed { parent, .. } => parent,
        AfterWork::CloneRested { parent, .. } => parent,
        _ => true,
    }
}

spec fn result_parent(k: AfterResult) -> bool {
    match k {
        AfterResult::Extracted { parent, .. } => parent,
        AfterResult::Cloned { parent, .. } => parent,
        _ => true,
    }
}

proof fn failing_trace(n: EnsureNext, answers: Seq<Answer>, j: int)
    requires
        first_launch(n),
        has_parent(n),
        !(n is Finish),
        0 <= j < trace(n, answers).len(),
        trace(n, answers)[j] matches EnsureNext::Finish(result) && result is Err,
    ensures
        exists|i: int| 0 <= i < j && #[trigger] trace(n, answers)[i] is Download,
    decreases answers.len(),
{
    let m = follow(n, answers.first())->0;
    let rest = trace(m, answers.drop_first());
    assert(trace(n, answers) == seq![n] + rest);
    assert(trace(n, answers)[j] == rest[j - 1]);
    if n is Download {
        assert(trace(n, answers)[0] is Download);
    } else if m is Finish {
        assert(rest == seq![m]);
    } else {
        failing_trace(m, answers.drop_first(), j - 1);
        let i = choose|i: int| 0 <= i < j - 1 && #[trigger] rest[i] is Download;
        assert(trace(n, answers)[i + 1] == rest[i]);
    }
}

/// A first launch does not give up before it has tried the archive as well.
pub proof fn archive_is_tried_before_giving_up(facts: RuntimeFacts, answers: Seq<Answer>, j: int)
    requires
        !facts.checkout,
        !facts.package,
        !facts.skip_update,
        facts.parent,
        0 <= j < trace(crate::runtime::ensure_start(facts), answers).len(),
        trace(crate::runtime::ensure_start(facts), answers)[j] matches EnsureNext::Finish(result)
            && result is Err,
    ensures
        exists|i: int|
            0 <= i < j && #[trigger] trace(
                crate::runtime::ensure_start(facts),
                answers,
            )[i] is Download,
{
    failing_trace(crate::runtime::ensure_start(facts), answers, j);
}

// --- what a launch comes to ---------------------------------------------------------------

/// What git, the network and the disk answer during one launch.
pub struct World {
    pub fetch: Option<String>,
    pub head: Option<String>,
    pub fetch_head: Option<String>,
    pub reset: Option<String>,
    pub latest: Option<String>,
    pub recorded: Option<String>,
    pub snapshot: Result<(), String>,
    pub first_clone: Result<(), String>,
    pub second_clone: Result<(), String>,
    pub download: Result<(), String>,
}

/// What the flow comes to from `n` on in this world.
pub open spec fn outcome_from(n: EnsureNext, w: World) -> Result<RuntimeState, RuntimeError>
    decreases rank(n),
{
    proof {
        outcome_rank(n, w);
    }
    match n {
        EnsureNext::Report(_, k) => outcome_from(k.next(), w),
        EnsureNext::RemoveRuntime(k) => outcome_from(k.next(), w),
        EnsureNext::Pause(k) => outcome_from(k.next(), w),
        EnsureNext::Git(query, k) => outcome_from(k.next(git_answer(w, query)), w),
        EnsureNext::Latest(k) => outcome_from(k.next(w.latest), w),
        EnsureNext::Recorded(k) => outcome_from(k.next(w.recorded), w),
        EnsureNext::ExtractSnapshot(k) => outcome_from(k.next(w.snapshot), w),
        EnsureNext::CloneSource(k) => outcome_from(k.next(clone_answer(w, k)), w),
        EnsureNext::Download(_, k) => outcome_from(k.next(w.download), w),
        EnsureNext::Finish(result) => result,
    }
}

/// In every world each answer brings a launch nearer to its end.
pub proof fn outcome_rank(n: EnsureNext, w: World)
    ensures
        match n {
            EnsureNext::Report(_, k) => rank(k.next()) < rank(n),
            EnsureNext::RemoveRuntime(k) => rank(k.next()) < rank(n),
            EnsureNext::Pause(k) => rank(k.next()) < rank(n),
            EnsureNext::Git(query, k) => rank(k.next(git_answer(w, query))) < rank(n),
            EnsureNext::Latest(k) => rank(k.next(w.latest)) < rank(n),
            EnsureNext::Recorded(k) => rank(k.next(w.recorded)) < rank(n),
            EnsureNext::ExtractSnapshot(k) => rank(k.next(w.snapshot)) < rank(n),
            EnsureNext::CloneSource(k) => rank(k.next(clone_answer(w, k))) < rank(n),
            EnsureNext::Download(_, k) => rank(k.next(w.download)) < rank(n),
            EnsureNext::Finish(_) => true,
        },
{
}

/// The answer to a git command.
pub open spec fn git_answer(w: World, query: GitQuery) -> Option<String> {
    match query {
        GitQuery::Fetch => w.fetch,
        GitQuery::Head => w.head,
        GitQuery::FetchHead => w.fetch_head,
        GitQuery::Reset => w.reset,
    }
}

/// The answer to the first or the second clone.
pub open spec fn clone_answer(w: World, k: AfterResult) -> Result<(), String> {
    match k {
        AfterResult::Cloned { second: true, .. } => w.second_clone,
        _ => w.first_clone,
    }
}

/// The archive in place of a clone: fresh code, or an error that names both
/// failures.
pub open spec fn archive_outcome(w: World, clone: Option<String>) -> Result<
    RuntimeState,
    RuntimeError,
> {
    match w.download {
        Ok(()) => Ok(RuntimeState::Fresh),
        Err(download) => Err(RuntimeError::NothingHad { clone, download }),
    }
}

/// The online part of a first launch: up to two clones, then the archive.
pub open spec fn online_outcome(git: bool, parent: bool, w: World) -> Result<
    RuntimeState,
    RuntimeError,
> {
    if !git {
        archive_outcome(w, None)
    } else if !parent {
        Err(RuntimeError::NoParent)
    } else if w.first_clone is Ok || w.second_clone is Ok {
        Ok(RuntimeState::Fresh)
    } else {
        archive_outcome(w, Some(w.second_clone->Err_0))
    }
}

/// What a launch comes to.
pub open spec fn launch_outcome(facts: RuntimeFacts, w: World) -> Result<
    RuntimeState,
    RuntimeError,
> {
    if facts.checkout || facts.package {
        if facts.skip_update {
            Ok(RuntimeState::Unchanged)
        } else if facts.checkout && facts.git {
            if w.fetch is None {
                Err(RuntimeError::FetchFailed)
            } else if w.head is None || w.fetch_head is None || w.head->0@ == w.fetch_head->0@ {
                Ok(RuntimeState::Unchanged)
            } else if w.reset is None {
                Err(RuntimeError::ResetFailed)
            } else {
                Ok(RuntimeState::Updated)
            }
        } else if w.latest is None || (w.recorded is Some && w.recorded->0@ == w.latest->0@) {
            Ok(RuntimeState::Unchanged)
        } else {
            match w.download {
                Ok(()) => Ok(RuntimeState::Fresh),
                Err(error) => Err(RuntimeError::DownloadFailed(error)),
            }
        }
    } else if facts.skip_update {
        Err(RuntimeError::NothingToUse)
    } else if !facts.snapshot {
        online_outcome(facts.git, facts.parent, w)
    } else if !facts.parent {
        Err(RuntimeError::NoParent)
    } else if w.snapshot is Ok {
        Ok(RuntimeState::Fresh)
    } else {
        online_outcome(facts.git, facts.parent, w)
    }
}

proof fn archive_flow(clone: Option<String>, w: World)
    ensures
        outcome_from(crate::runtime::backup(clone), w) == archive_outcome(w, clone),
{
    reveal_with_fuel(outcome_from, 5);
}

proof fn online_flow(git: bool, parent: bool, w: World)
    ensures
        outcome_from(crate::runtime::first_download(git, parent), w) == online_outcome(
            git,
            parent,
            w,
        ),
{
    reveal_with_fuel(outcome_from, 11);
    archive_flow(None, w);
    if git && parent && w.first_clone is Err && w.second_clone is Err {
        archive_flow(Some(w.second_clone->Err_0), w);
    }
}

/// A launch comes to [`launch_outcome`]: what the flow decides step by step is
/// what the facts and the answers call for as a whole.
pub proof fn launch_comes_to(facts: RuntimeFacts, w: World)
    ensures
        outcome_from(crate::runtime::ensure_start(facts), w) == launch_outcome(facts, w),
{
    reveal_with_fuel(outcome_from, 7);
    online_flow(facts.git, facts.parent, w);
}

// --- the work of a launch -------------------------------------------------------------------

/// What a launch does next in this world.
pub open spec fn launch_step(n: EnsureNext, w: World) -> EnsureNext {
    match n {
        EnsureNext::Report(_, k) => k.next(),
        EnsureNext::RemoveRuntime(k) => k.next(),
        EnsureNext::Pause(k) => k.next(),
        EnsureNext::Git(query, k) => k.next(git_answer(w, query)),
        EnsureNext::Latest(k) => k.next(w.latest),
        EnsureNext::Recorded(k) => k.next(w.recorded),
        EnsureNext::ExtractSnapshot(k) => k.next(w.snapshot),
        EnsureNext::CloneSource(k) => k.next(clone_answer(w, k)),
        EnsureNext::Download(_, k) => k.next(w.download),
        EnsureNext::Finish(_) => n,
    }
}

/// The work of a launch from `n` on in this world, in order, with its end.
pub open spec fn work_from(n: EnsureNext, w: World) -> Seq<EnsureNext>
    decreases rank(n),
{
    if n is Finish {
        seq![n]
    } else {
        proof {
            outcome_rank(n, w);
        }
        seq![n] + work_from(launch_step(n, w), w)
    }
}

proof fn one_step(n: EnsureNext, w: World)
    requires
        !(n is Finish),
    ensures
        work_from(n, w) == seq![n] + work_from(launch_step(n, w), w),
{
}

/// The work on a checkout with git: it is moved where both commits are known and
/// differ, and is left alone otherwise.
pub open spec fn checkout_way(w: World) -> Seq<EnsureNext> {
    seq![
        EnsureNext::Report(EnsureStatus::Checking, AfterWork::Fetch),
        EnsureNext::Git(GitQuery::Fetch, AfterText::Fetched),
    ] + if w.fetch is None {
        seq![EnsureNext::Finish(Err(RuntimeError::FetchFailed))]
    } else {
        seq![
            EnsureNext::Git(GitQuery::Head, AfterText::Head),
            EnsureNext::Git(GitQuery::FetchHead, AfterText::FetchHead(w.head)),
        ] + match (w.head, w.fetch_head) {
            (Some(head), Some(fetched)) if head@ != fetched@ => seq![
                EnsureNext::Report(EnsureStatus::Updating, AfterWork::Reset),
                EnsureNext::Git(GitQuery::Reset, AfterText::Reset),
                EnsureNext::Finish(
                    if w.reset is Some {
                        Ok(RuntimeState::Updated)
                    } else {
                        Err(RuntimeError::ResetFailed)
                    },
                ),
            ],
            _ => seq![EnsureNext::Finish(Ok(RuntimeState::Unchanged))],
        }
    }
}

/// The work on a runtime that is updated by the archive: it is downloaded where
/// the newest revision is known and is not the recorded one.
pub open spec fn archive_way(w: World) -> Seq<EnsureNext> {
    seq![
        EnsureNext::Report(EnsureStatus::Checking, AfterWork::AskLatest),
        EnsureNext::Latest(AfterText::Latest),
    ] + match w.latest {
        None => seq![EnsureNext::Finish(Ok(RuntimeState::Unchanged))],
        Some(newest) => seq![EnsureNext::Recorded(AfterText::Recorded(newest))] + match w.recorded {
            Some(recorded) if recorded@ == newest@ => seq![
                EnsureNext::Finish(Ok(RuntimeState::Unchanged)),
            ],
            _ => seq![
                EnsureNext::Report(EnsureStatus::Downloading, AfterWork::DownloadNew(newest)),
                EnsureNext::Download(Some(newest), AfterResult::Downloaded),
                EnsureNext::Finish(
                    match w.download {
                        Ok(_) => Ok(RuntimeState::Fresh),
                        Err(error) => Err(RuntimeError::DownloadFailed(error)),
                    },
                ),
            ],
        },
    }
}

/// The work of one attempt at a clone that fails.
pub open spec fn failed_clone(second: bool, error: String) -> Seq<EnsureNext> {
    let parent = true;
    seq![
        EnsureNext::RemoveRuntime(AfterWork::Clone { parent, second }),
        EnsureNext::CloneSource(AfterResult::Cloned { parent, second }),
        EnsureNext::Report(
            EnsureStatus::CloneFailed { second },
            AfterWork::CloneFailed { parent, second, error },
        ),
        EnsureNext::Pause(AfterWork::CloneRested { parent, second, error }),
    ]
}

/// The work of one attempt at a clone that succeeds.
pub open spec fn good_clone(second: bool) -> Seq<EnsureNext> {
    let parent = true;
    seq![
        EnsureNext::RemoveRuntime(AfterWork::Clone { parent, second }),
        EnsureNext::CloneSource(AfterResult::Cloned { parent, second }),
        EnsureNext::Finish(Ok(RuntimeState::Fresh)),
    ]
}

/// The work that downloads the archive in place of a clone.
pub open spec fn backup_way(w: World, clone: Option<String>) -> Seq<EnsureNext> {
    seq![
        EnsureNext::Report(EnsureStatus::Backup, AfterWork::Backup { clone }),
        EnsureNext::Latest(AfterText::Backup { clone }),
        EnsureNext::Download(w.latest, AfterResult::BackedUp { clone }),
        EnsureNext::Finish(
            match w.download {
                Ok(_) => Ok(RuntimeState::Fresh),
                Err(download) => Err(RuntimeError::NothingHad { clone, download }),
            },
        ),
    ]
}

/// The online work of a first launch: two attempts at a clone where there is
/// git, and the archive where none succeeds.
pub open spec fn online_way(git: bool, parent: bool, w: World) -> Seq<EnsureNext> {
    seq![
        EnsureNext::Report(EnsureStatus::FirstDownload, AfterWork::FirstDownload { git, parent }),
    ] + if !git {
        backup_way(w, None)
    } else if !parent {
        seq![
            EnsureNext::RemoveRuntime(AfterWork::Clone { parent, second: false }),
            EnsureNext::Finish(Err(RuntimeError::NoParent)),
        ]
    } else {
        match (w.first_clone, w.second_clone) {
            (Ok(_), _) => good_clone(false),
            (Err(first), Ok(_)) => failed_clone(false, first) + good_clone(true),
            (Err(first), Err(second)) => failed_clone(false, first) + (failed_clone(true, second)
                + backup_way(w, Some(second))),
        }
    }
}

/// The work of a first launch with a bundled snapshot.
pub open spec fn snapshot_way(facts: RuntimeFacts, w: World) -> Seq<EnsureNext> {
    let git = facts.git;
    let parent = true;
    seq![
        EnsureNext::RemoveRuntime(AfterWork::Extract { git, parent }),
        EnsureNext::ExtractSnapshot(AfterResult::Extracted { git, parent }),
    ] + match w.snapshot {
        Ok(_) => seq![EnsureNext::Finish(Ok(RuntimeState::Fresh))],
        Err(error) => seq![
            EnsureNext::Report(
                EnsureStatus::SnapshotFailed(error),
                AfterWork::SnapshotFailed { git, parent },
            ),
            EnsureNext::RemoveRuntime(AfterWork::SnapshotCleared { git, parent }),
        ] + online_way(git, parent, w),
    }
}

proof fn backup_goes(w: World, clone: Option<String>)
    ensures
        work_from(EnsureNext::Report(EnsureStatus::Backup, AfterWork::Backup { clone }), w)
            == backup_way(w, clone),
{
    let n1 = EnsureNext::Report(EnsureStatus::Backup, AfterWork::Backup { clone });
    let n2 = EnsureNext::Latest(AfterText::Backup { clone });
    let n3 = EnsureNext::Download(w.latest, AfterResult::BackedUp { clone });
    one_step(n1, w);
    one_step(n2, w);
    one_step(n3, w);
    assert(launch_step(n1, w) == n2);
    assert(launch_step(n2, w) == n3);
    assert(launch_step(n3, w) == backup_way(w, clone)[3]);
    assert(work_from(n1, w) =~= backup_way(w, clone));
}

proof fn clone_goes(second: bool, w: World)
    ensures
        ({
            let parent = true;
            let n = EnsureNext::RemoveRuntime(AfterWork::Clone { parent, second });
            let result = if second {
                w.second_clone
            } else {
                w.first_clone
            };
            match result {
                Ok(_) => work_from(n, w) == good_clone(second),
                Err(error) => work_from(n, w) == failed_clone(second, error) + work_from(
                    AfterWork::CloneRested { parent, second, error }.next(),
                    w,
                ),
            }
        }),
{
    let parent = true;
    let n1 = EnsureNext::RemoveRuntime(AfterWork::Clone { parent, second });
    let n2 = EnsureNext::CloneSource(AfterResult::Cloned { parent, second });
    let result = if second {
        w.second_clone
    } else {
        w.first_clone
    };
    one_step(n1, w);
    one_step(n2, w);
    assert(launch_step(n1, w) == n2);
    assert(clone_answer(w, AfterResult::Cloned { parent, second }) == result);
    match result {
        Ok(_) => {
            assert(launch_step(n2, w) == good_clone(second)[2]);
            assert(work_from(n1, w) =~= good_clone(second));
        },
        Err(error) => {
            let n3 = failed_clone(second, error)[2];
            let n4 = failed_clone(second, error)[3];
            assert(launch_step(n2, w) == n3);
            one_step(n3, w);
            one_step(n4, w);
            assert(launch_step(n3, w) == n4);
            assert(work_from(n1, w) =~= failed_clone(second, error) + work_from(
                AfterWork::CloneRested { parent, second, error }.next(),
                w,
            ));
        },
    }
}

proof fn online_goes(git: bool, parent: bool, w: World)
    ensures
        work_from(
            EnsureNext::Report(
                EnsureStatus::FirstDownload,
                AfterWork::FirstDownload { git, parent },
            ),
            w,
        ) == online_way(git, parent, w),
{
    let n1 = EnsureNext::Report(
        EnsureStatus::FirstDownload,
        AfterWork::FirstDownload { git, parent },
    );
    one_step(n1, w);
    if !git {
        backup_goes(w, None);
        assert(work_from(n1, w) =~= online_way(git, parent, w));
    } else if !parent {
        let n2 = EnsureNext::RemoveRuntime(AfterWork::Clone { parent, second: false });
        assert(launch_step(n1, w) == n2);
        one_step(n2, w);
        assert(launch_step(n2, w) == EnsureNext::Finish(Err(RuntimeError::NoParent)));
        assert(work_from(n1, w) =~= online_way(git, parent, w));
    } else {
        clone_goes(false, w);
        clone_goes(true, w);
        match (w.first_clone, w.second_clone) {
            (Err(first), Err(second)) => {
                backup_goes(w, Some(second));
            },
            _ => {},
        }
        assert(work_from(n1, w) =~= online_way(git, parent, w));
    }
}

proof fn checkout_goes(w: World)
    ensures
        work_from(EnsureNext::Report(EnsureStatus::Checking, AfterWork::Fetch), w) == checkout_way(
            w,
        ),
{
    let n1 = EnsureNext::Report(EnsureStatus::Checking, AfterWork::Fetch);
    let n2 = EnsureNext::Git(GitQuery::Fetch, AfterText::Fetched);
    let n3 = EnsureNext::Git(GitQuery::Head, AfterText::Head);
    let n4 = EnsureNext::Git(GitQuery::FetchHead, AfterText::FetchHead(w.head));
    let n5 = EnsureNext::Report(EnsureStatus::Updating, AfterWork::Reset);
    let n6 = EnsureNext::Git(GitQuery::Reset, AfterText::Reset);
    one_step(n1, w);
    one_step(n2, w);
    one_step(n3, w);
    one_step(n4, w);
    one_step(n5, w);
    one_step(n6, w);
    assert(launch_step(n1, w) == n2);
    assert(launch_step(n3, w) == n4);
    assert(launch_step(n5, w) == n6);
    assert(work_from(n1, w) =~= checkout_way(w));
}

proof fn archive_goes(w: World)
    ensures
        work_from(EnsureNext::Report(EnsureStatus::Checking, AfterWork::AskLatest), w)
            == archive_way(w),
{
    let n1 = EnsureNext::Report(EnsureStatus::Checking, AfterWork::AskLatest);
    let n2 = EnsureNext::Latest(AfterText::Latest);
    one_step(n1, w);
    one_step(n2, w);
    assert(launch_step(n1, w) == n2);
    if let Some(newest) = w.latest {
        let n3 = EnsureNext::Recorded(AfterText::Recorded(newest));
        let n4 = EnsureNext::Report(EnsureStatus::Downloading, AfterWork::DownloadNew(newest));
        let n5 = EnsureNext::Download(Some(newest), AfterResult::Downloaded);
        one_step(n3, w);
        one_step(n4, w);
        one_step(n5, w);
        assert(launch_step(n2, w) == n3);
        assert(launch_step(n4, w) == n5);
    }
    assert(work_from(n1, w) =~= archive_way(w));
}

/// A launch goes the way that the facts and the answers call for, and no other.
pub proof fn launch_goes(facts: RuntimeFacts, w: World)
    ensures
        work_from(crate::runtime::ensure_start(facts), w) == (if facts.checkout || facts.package {
            if facts.skip_update {
                seq![EnsureNext::Finish(Ok(RuntimeState::Unchanged))]
            } else if facts.checkout && facts.git {
                checkout_way(w)
            } else {
                archive_way(w)
            }
        } else if facts.skip_update {
            seq![EnsureNext::Finish(Err(RuntimeError::NothingToUse))]
        } else if !facts.snapshot {
            online_way(facts.git, facts.parent, w)
        } else if !facts.parent {
            seq![EnsureNext::Finish(Err(RuntimeError::NoParent))]
        } else {
            snapshot_way(facts, w)
        }),
{
    checkout_goes(w);
    archive_goes(w);
    online_goes(facts.git, facts.parent, w);
    if !facts.checkout && !facts.package && !facts.skip_update && facts.snapshot && facts.parent {
        let way = snapshot_way(facts, w);
        let n1 = way[0];
        let n2 = way[1];
        one_step(n1, w);
        one_step(n2, w);
        assert(launch_step(n1, w) == n2);
        if w.snapshot is Err {
            one_step(way[2], w);
            one_step(way[3], w);
            assert(launch_step(n2, w) == way[2]);
            assert(launch_step(way[2], w) == way[3]);
        }
        assert(work_from(crate::runtime::ensure_start(facts), w) =~= way);
    }
}

/// Where a checkout is already at the fetched commit, no launch resets it and
/// the launch finds it unchanged; where the two commits are known and differ, it
/// is reset, and updated where that succeeds. Where either is unknown, it is
/// left alone.
pub proof fn the_commits_decide(facts: RuntimeFacts, w: World)
    requires
        facts.checkout,
        facts.git,
        !facts.skip_update,
        w.fetch is Some,
    ensures
        ({
            let work = work_from(crate::runtime::ensure_start(facts), w);
            let resets = exists|i: int|
                0 <= i < work.len() && (#[trigger] work[i] matches EnsureNext::Git(query, _)
                    && query == GitQuery::Reset);
            let outcome = outcome_from(crate::runtime::ensure_start(facts), w);
            match (w.head, w.fetch_head) {
                (Some(head), Some(fetched)) => if head@ == fetched@ {
                    !resets && outcome == Ok::<RuntimeState, RuntimeError>(RuntimeState::Unchanged)
                } else {
                    resets && outcome == (if w.reset is Some {
                        Ok(RuntimeState::Updated)
                    } else {
                        Err(RuntimeError::ResetFailed)
                    })
                },
                _ => !resets && outcome == Ok::<RuntimeState, RuntimeError>(
                    RuntimeState::Unchanged,
                ),
            }
        }),
{
    launch_goes(facts, w);
    launch_comes_to(facts, w);
    let work = checkout_way(w);
    if work.len() > 5 {
        assert(work[5] == EnsureNext::Git(GitQuery::Reset, AfterText::Reset));
    }
}

/// Two texts have moved apart where both are known and are not the same text.
pub proof fn texts_move_apart(head: &Option<String>, fetched: &Option<String>, r: bool)
    requires
        call_ensures(has_moved, (head, fetched), r),
    ensures
        r == match (head, fetched) {
            (Some(a), Some(b)) => a@ != b@,
            _ => false,
        },
{
}

// --- the newest revision -----------------------------------------------------------------

/// The revision that an existing runtime is at from `n` on, where it is at `at`
/// before: a reset moves a checkout to the commit that was fetched, and a
/// download puts the revision in place that it records.
pub open spec fn revision_from(n: EnsureNext, w: World, at: Option<Seq<char>>) -> Option<Seq<char>>
    decreases rank(n),
{
    proof {
        outcome_rank(n, w);
    }
    match n {
        EnsureNext::Report(_, k) => revision_from(k.next(), w, at),
        EnsureNext::RemoveRuntime(k) => revision_from(k.next(), w, None),
        EnsureNext::Pause(k) => revision_from(k.next(), w, at),
        EnsureNext::Git(query, k) => revision_from(
            k.next(git_answer(w, query)),
            w,
            if query == GitQuery::Reset && w.reset is Some {
                w.fetch_head.deep_view()
            } else {
                at
            },
        ),
        EnsureNext::Latest(k) => revision_from(k.next(w.latest), w, at),
        EnsureNext::Recorded(k) => revision_from(k.next(w.recorded), w, at),
        EnsureNext::ExtractSnapshot(k) => revision_from(k.next(w.snapshot), w, None),
        EnsureNext::CloneSource(k) => revision_from(k.next(clone_answer(w, k)), w, None),
        EnsureNext::Download(revision, k) => revision_from(
            k.next(w.download),
            w,
            if w.download is Ok {
                Some(crate::text::or_nothing(revision))
            } else {
                at
            },
        ),
        EnsureNext::Finish(_) => at,
    }
}

/// A launch that succeeds leaves a checkout at the newest commit, where there is
/// git and as far as it knows both commits.
pub proof fn checkout_ends_at_the_newest(facts: RuntimeFacts, w: World)
    requires
        facts.checkout,
        facts.git,
        !facts.skip_update,
        launch_outcome(facts, w) is Ok,
        w.head is Some,
        w.fetch_head is Some,
    ensures
        revision_from(crate::runtime::ensure_start(facts), w, w.head.deep_view())
            == w.fetch_head.deep_view(),
{
    reveal_with_fuel(revision_from, 8);
}

/// A launch that succeeds leaves an unpacked archive, and a checkout without
/// git, at the newest revision, where that could be looked up.
pub proof fn archive_ends_at_the_newest(facts: RuntimeFacts, w: World)
    requires
        if facts.checkout {
            !facts.git
        } else {
            facts.package
        },
        !facts.skip_update,
        launch_outcome(facts, w) is Ok,
        w.latest is Some,
    ensures
        revision_from(crate::runtime::ensure_start(facts), w, w.recorded.deep_view())
            == w.latest.deep_view(),
{
    reveal_with_fuel(revision_from, 6);
}

/// Whether a first launch gets its code by the archive: the snapshot could not
/// be used, and no clone succeeded.
pub open spec fn by_archive(facts: RuntimeFacts, w: World) -> bool {
    &&& !facts.checkout && !facts.package && !facts.skip_update
    &&& facts.snapshot ==> w.snapshot is Err
    &&& facts.git ==> w.first_clone is Err && w.second_clone is Err
}

/// A first launch that succeeds by the archive ends at the newest revision that
/// was looked up, and at none where it could not be.
pub proof fn first_launch_ends_at_the_newest(facts: RuntimeFacts, w: World, at: Option<Seq<char>>)
    requires
        by_archive(facts, w),
        launch_outcome(facts, w) is Ok,
    ensures
        revision_from(crate::runtime::ensure_start(facts), w, at) == Some(
            crate::text::or_nothing(w.latest),
        ),
{
    if facts.snapshot {
        assert(revision_from(crate::runtime::ensure_start(facts), w, at) == revision_from(
            crate::runtime::first_download(facts.git, facts.parent),
            w,
            None,
        )) by {
            reveal_with_fuel(revision_from, 5);
        }
        first_download_revision(facts, w, None);
    } else {
        first_download_revision(facts, w, at);
    }
}

proof fn first_download_revision(facts: RuntimeFacts, w: World, at: Option<Seq<char>>)
    requires
        by_archive(facts, w),
        launch_outcome(facts, w) is Ok,
    ensures
        revision_from(crate::runtime::first_download(facts.git, facts.parent), w, at) == Some(
            crate::text::or_nothing(w.latest),
        ),
{
    reveal_with_fuel(revision_from, 13);
}

/// A checkout without git is not an error: where the newest revision can be
/// looked up and downloaded, the launch succeeds and ends there.
pub proof fn missing_git_is_no_error(facts: RuntimeFacts, w: World)
    requires
        facts.checkout,
        !facts.git,
        !facts.skip_update,
        w.latest is Some,
        w.download is Ok,
    ensures
        launch_outcome(facts, w) is Ok,
        revision_from(crate::runtime::ensure_start(facts), w, w.recorded.deep_view())
            == w.latest.deep_view(),
{
    archive_ends_at_the_newest(facts, w);
}

// --- recorded revisions -----------------------------------------------------------------

/// What is downloaded is not downloaded again: once a revision without white
/// space around it was downloaded and recorded, a later launch that finds it to
/// be the newest, and reads what was recorded, leaves the runtime as it is.
pub proof fn downloaded_once(
    revision: String,
    parent: bool,
    w: DownloadWorld,
    i: int,
    written: Option<String>,
    contents: String,
    recorded: String,
)
    requires
        crate::text::trimmed(revision@) == revision@,
        0 <= i < crate::download::work_from(
            crate::download::download_start(parent, Some(revision)),
            w,
        ).len(),
        crate::download::work_from(
            crate::download::download_start(parent, Some(revision)),
            w,
        )[i] == DownloadNext::Record(written, DownloadWork::Recorded),
        contents@ == crate::text::or_nothing(written),
        recorded@ == crate::text::trimmed(contents@),
    ensures
        AfterText::Recorded(revision).next(Some(recorded)) == EnsureNext::Finish(
            Ok(RuntimeState::Unchanged),
        ),
{
    crate::download::records_what_was_asked_for(parent, Some(revision), w, i);
}

} // verus!
