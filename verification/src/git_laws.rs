//! What git commands and their results come to.
use crate::git::{
    clone_args, clone_source, current_sha, git_out, git_out_timeout, latest_sha, recorded_sha,
    spawn_failed, time_left, GitPoll, GitQuery, GitWait, LatestLookup, RevisionSource,
};
use vstd::prelude::*;

verus! {

/// Whether a text is `text` between white space, where `text` neither begins
/// nor ends with any.
pub open spec fn between_blanks(
    whole: Seq<char>,
    before: Seq<char>,
    text: Seq<char>,
    after: Seq<char>,
) -> bool {
    &&& whole == before + text + after
    &&& crate::text_laws::blank(before)
    &&& crate::text_laws::blank(after)
    &&& text.len() > 0 ==> !crate::text::is_space(text.first()) && !crate::text::is_space(
        text.last(),
    )
}

/// A command that succeeded gives what stands between the white space of its
/// output; one that failed gives nothing.
pub proof fn output_is_given_where_git_succeeds(
    success: bool,
    stdout: &str,
    r: Option<String>,
    before: Seq<char>,
    text: Seq<char>,
    after: Seq<char>,
)
    requires
        call_ensures(git_out, (success, stdout), r),
        between_blanks(stdout@, before, text, after),
    ensures
        !success ==> r is None,
        success ==> (r matches Some(given) && given@ == text),
{
    crate::text_laws::trimmed_between(before, text, after);
}

/// A command that has ended is never killed, and gives what stands between the
/// white space of its output, or of its error output where it failed.
pub proof fn an_ended_git_gives_its_output(
    success: bool,
    stdout: String,
    stderr: String,
    secs: u64,
    r: GitWait,
    before: Seq<char>,
    text: Seq<char>,
    after: Seq<char>,
)
    requires
        call_ensures(git_out_timeout, ((GitPoll::Ended { success, stdout, stderr }), secs), r),
        between_blanks(
            if success {
                stdout@
            } else {
                stderr@
            },
            before,
            text,
            after,
        ),
    ensures
        r matches GitWait::Stop { kill, result } && !kill && (match result {
            Ok(given) => success && given@ == text,
            Err(given) => !success && given@ == text,
        }),
{
    crate::text_laws::trimmed_between(before, text, after);
}

/// A running command is looked at again up to its deadline, and is killed with
/// an error after it.
pub proof fn the_deadline_decides(nanos: u128, secs: u64, r: GitWait)
    requires
        call_ensures(git_out_timeout, ((GitPoll::Running { nanos }), secs), r),
    ensures
        nanos <= secs * 1_000_000_000 ==> r is Again,
        nanos > secs * 1_000_000_000 ==> (r matches GitWait::Stop { kill, result } && kill
            && result is Err),
{
}

/// A command that got lost is killed with an error.
pub proof fn a_lost_git_is_killed(error: String, secs: u64, r: GitWait)
    requires
        call_ensures(git_out_timeout, (GitPoll::Lost(error), secs), r),
    ensures
        r matches GitWait::Stop { kill, result } && kill && result is Err,
{
}

/// The time that is left reaches exactly to the deadline, and there is none
/// once it has passed.
pub proof fn time_is_left_to_the_deadline(nanos: u128, secs: u64, r: u128)
    requires
        call_ensures(time_left, (nanos, secs), r),
    ensures
        nanos <= secs * 1_000_000_000 ==> nanos + r == secs * 1_000_000_000,
        nanos > secs * 1_000_000_000 ==> r == 0,
{
}

/// The commit is asked of git exactly where there is both git and a checkout.
pub proof fn git_is_asked_of_a_checkout(git: bool, checkout: bool, r: RevisionSource)
    requires
        call_ensures(current_sha, (git, checkout), r),
    ensures
        git && checkout ==> r == RevisionSource::Head,
        !git ==> r == RevisionSource::Recorded,
        !checkout ==> r == RevisionSource::Recorded,
{
}

/// The recorded revision is what stands in the file between white space.
pub proof fn the_recorded_revision_is_read(
    contents: Option<String>,
    r: Option<String>,
    before: Seq<char>,
    text: Seq<char>,
    after: Seq<char>,
)
    requires
        call_ensures(recorded_sha, (contents,), r),
        contents matches Some(whole) ==> between_blanks(whole@, before, text, after),
    ensures
        contents is None ==> r is None,
        contents is Some ==> (r matches Some(revision) && revision@ == text),
{
    if contents is Some {
        crate::text_laws::trimmed_between(before, text, after);
    }
}

/// The newest revision is asked online exactly where no local source is set. A
/// local one is asked in place, at the path it has, and goes unasked where there
/// is no git, no parent directory or no path.
pub proof fn the_newest_revision_is_asked(
    local: bool,
    git: bool,
    parent: bool,
    path: Option<String>,
    r: LatestLookup,
)
    requires
        call_ensures(latest_sha, (local, git, parent, path), r),
    ensures
        r is Online == !local,
        local && (!git || !parent || path is None) ==> r is Unknown,
        local && git && parent ==> (path matches Some(place) ==> (r matches LatestLookup::Local(args)
            && args.deep_view() == seq!["-C"@, place@] + seq!["rev-parse"@, "HEAD"@])),
{
    if let LatestLookup::Local(args) = r {
        if let Some(place) = path {
            assert(seq!["-C"@, place@] + seq!["rev-parse"@, "HEAD"@] =~= seq![
                "-C"@,
                place@,
                "rev-parse"@,
                "HEAD"@,
            ]);
        }
    }
}

/// Clones come from the local source as it is named, and from the public
/// repository where there is none.
pub proof fn clones_come_from(local: Option<String>, r: String)
    requires
        call_ensures(clone_source, (local,), r),
    ensures
        local matches Some(path) ==> r@ == path@,
        local is None ==> r@ == "https://github.com/deepseek-ai/deepseek-harness.git"@,
{
}

/// A clone names its source and behind it its target, whatever they are, after
/// the same arguments.
pub proof fn a_clone_names_source_and_target(source: &str, target: &str, r: Vec<String>)
    requires
        call_ensures(clone_args, (source, target), r),
    ensures
        r.deep_view() == seq!["clone"@, "--depth"@, "1"@, "--branch"@, "master"@] + seq![
            source@,
            target@,
        ],
{
    assert(r.deep_view() =~= seq!["clone"@, "--depth"@, "1"@, "--branch"@, "master"@] + seq![
        source@,
        target@,
    ]);
}

/// A reset goes to the commit whose name is asked for after the fetch, and that
/// commit is the newest one of the source branch.
pub proof fn a_reset_goes_to_what_was_fetched(
    fetch: Vec<String>,
    head: Vec<String>,
    fetched: Vec<String>,
    reset: Vec<String>,
)
    requires
        call_ensures(GitQuery::args, (&GitQuery::Fetch,), fetch),
        call_ensures(GitQuery::args, (&GitQuery::Head,), head),
        call_ensures(GitQuery::args, (&GitQuery::FetchHead,), fetched),
        call_ensures(GitQuery::args, (&GitQuery::Reset,), reset),
    ensures
        fetch.deep_view() == seq!["fetch"@, "--depth"@, "1"@, "origin"@, "master"@],
        head.deep_view() == seq!["rev-parse"@, "HEAD"@],
        fetched.deep_view() == seq!["rev-parse"@, "FETCH_HEAD"@],
        reset.deep_view() == seq!["reset"@, "--hard"@] + seq![fetched.deep_view().last()],
{
    assert(reset.deep_view() =~= seq!["reset"@, "--hard"@] + seq![fetched.deep_view().last()]);
}

/// Where git could not be started, the line ends with the reason, behind the same
/// words whatever it is.
pub proof fn the_reason_for_no_git_is_told(e: &str, r: String, f: &str, q: String)
    requires
        call_ensures(spawn_failed, (e,), r),
        call_ensures(spawn_failed, (f,), q),
    ensures
        crate::wording_laws::told_alike(r@, e@, q@, f@),
{
    crate::wording_laws::alike(r@, e@, q@, f@, "无法启动 git："@, ""@);
}

/// Where a git command is over its deadline, the line names the seconds it had,
/// between the same words whatever they are; where one got lost, the line ends
/// with the reason.
pub proof fn the_reason_for_a_stop_is_told(
    nanos: u128,
    secs: u64,
    late: u128,
    limit: u64,
    e: String,
    f: String,
    message: String,
    other: String,
    lost: String,
    gone: String,
)
    requires
        call_ensures(
            git_out_timeout,
            ((GitPoll::Running { nanos }), secs),
            (GitWait::Stop { kill: true, result: Err(message) }),
        ),
        call_ensures(
            git_out_timeout,
            ((GitPoll::Running { nanos: late }), limit),
            (GitWait::Stop { kill: true, result: Err(other) }),
        ),
        call_ensures(
            git_out_timeout,
            (GitPoll::Lost(e), secs),
            (GitWait::Stop { kill: true, result: Err(lost) }),
        ),
        call_ensures(
            git_out_timeout,
            (GitPoll::Lost(f), limit),
            (GitWait::Stop { kill: true, result: Err(gone) }),
        ),
    ensures
        crate::wording_laws::told_alike(
            message@,
            crate::text::decimal(secs as nat),
            other@,
            crate::text::decimal(limit as nat),
        ),
        crate::wording_laws::told_alike(lost@, e@, gone@, f@),
{
    crate::wording_laws::alike(
        message@,
        crate::text::decimal(secs as nat),
        other@,
        crate::text::decimal(limit as nat),
        "git 操作超时（"@,
        " 秒）"@,
    );
    crate::wording_laws::alike(lost@, e@, gone@, f@, "等待 git 失败："@, ""@);
}

} // verus!
