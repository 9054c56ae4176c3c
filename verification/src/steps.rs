//! Installing the dependencies of the runtime and building it.
use crate::text::{same_text, trim};
use vstd::prelude::*;

verus! {

/// The file below the runtime that records which revision was built.
pub const BUILD_MARKER: &'static str = ".dsh-build";

/// The directory below the runtime that holds its dependencies.
pub const MODULES_DIR: &'static str = "node_modules";

/// How long a step rests once it is over, so that its last lines are shown.
pub const FLUSH_MILLIS: u64 = 300;

/// A run of pnpm in the runtime.
#[derive(Clone, Copy, PartialEq, Eq, Structural, Debug)]
pub enum PnpmRun {
    /// Install exactly what the lock file names.
    InstallFrozen,
    /// Install what the packages ask for.
    Install,
    /// Build the libraries and the pages.
    Build,
}

impl PnpmRun {
    /// The arguments of the run.
    pub open spec fn arguments(self) -> Seq<Seq<char>> {
        match self {
            PnpmRun::InstallFrozen => seq!["install"@, "--frozen-lockfile"@],
            PnpmRun::Install => seq!["install"@],
            PnpmRun::Build => seq!["run"@, "build"@],
        }
    }

    /// The arguments of the run.
    pub fn args(&self) -> (r: Vec<String>)
        ensures
            r.deep_view() == self.arguments(),
    {
        let mut out: Vec<String> = Vec::new();
        match self {
            PnpmRun::InstallFrozen => {
                out.push("install".to_owned());
                out.push("--frozen-lockfile".to_owned());
            },
            PnpmRun::Install => {
                out.push("install".to_owned());
            },
            PnpmRun::Build => {
                out.push("run".to_owned());
                out.push("build".to_owned());
            },
        }
        assert(out.deep_view() =~= self.arguments());
        out
    }
}

/// What the user reads where a program could not be started.
pub fn start_failed(program: &str, error: &str) -> (r: String)
    ensures
        r@ == "无法启动 "@ + program@ + "："@ + error@,
{
    let mut out = "无法启动 ".to_owned();
    out.append(program);
    out.append("：");
    out.append(error);
    out
}

/// What the user reads where a program could not be waited for.
pub fn wait_failed(error: &str) -> (r: String)
    ensures
        r@ == "进程执行失败："@ + error@,
{
    let mut out = "进程执行失败：".to_owned();
    out.append(error);
    out
}

// --- installing ------------------------------------------------------------------

/// The next piece of work of an installation.
#[derive(Debug)]
pub enum InstallNext {
    /// Run pnpm: whether it succeeded, or why it did not run.
    Run(PnpmRun, InstallRun),
    /// The installation is over.
    Finish(Result<(), String>),
}

/// An installation while it waits for a run.
#[derive(Clone, Copy, PartialEq, Eq, Structural, Debug)]
pub enum InstallRun {
    Frozen,
    Plain,
}

/// Begins an installation, with exactly what the lock file names.
pub fn install_deps() -> (r: InstallNext)
    ensures
        r == InstallNext::Run(PnpmRun::InstallFrozen, InstallRun::Frozen),
{
    InstallNext::Run(PnpmRun::InstallFrozen, InstallRun::Frozen)
}

impl InstallRun {
    /// What follows the run: where the lock file has drifted, the packages
    /// decide, and that run counts whether it succeeded or not.
    pub open spec fn next(self, result: Result<bool, String>) -> InstallNext {
        match (self, result) {
            (_, Err(error)) => InstallNext::Finish(Err(error)),
            (InstallRun::Frozen, Ok(false)) => InstallNext::Run(
                PnpmRun::Install,
                InstallRun::Plain,
            ),
            _ => InstallNext::Finish(Ok(())),
        }
    }

    /// Goes on with the result of the run.
    pub fn resume(self, result: Result<bool, String>) -> (r: InstallNext)
        ensures
            r == self.next(result),
    {
        match result {
            Err(error) => InstallNext::Finish(Err(error)),
            Ok(success) => match self {
                InstallRun::Frozen => if success {
                    InstallNext::Finish(Ok(()))
                } else {
                    InstallNext::Run(PnpmRun::Install, InstallRun::Plain)
                },
                InstallRun::Plain => InstallNext::Finish(Ok(())),
            },
        }
    }
}

/// What an installation comes to from `n` on, where its two runs give these
/// results.
pub open spec fn install_outcome(
    n: InstallNext,
    frozen: Result<bool, String>,
    plain: Result<bool, String>,
) -> Result<(), String>
    decreases
            match n {
                InstallNext::Run(_, InstallRun::Frozen) => 2int,
                InstallNext::Run(_, InstallRun::Plain) => 1,
                InstallNext::Finish(_) => 0,
            },
{
    match n {
        InstallNext::Run(_, k) => install_outcome(
            k.next(
                if k == InstallRun::Frozen {
                    frozen
                } else {
                    plain
                },
            ),
            frozen,
            plain,
        ),
        InstallNext::Finish(result) => result,
    }
}

/// An installation fails only where pnpm could not be run: first with the lock
/// file, or, where that run failed, without it.
pub proof fn install_comes_to(frozen: Result<bool, String>, plain: Result<bool, String>)
    ensures
        install_outcome(
            InstallNext::Run(PnpmRun::InstallFrozen, InstallRun::Frozen),
            frozen,
            plain,
        ) == match (frozen, plain) {
            (Err(error), _) => Err::<(), String>(error),
            (Ok(false), Err(error)) => Err(error),
            _ => Ok(()),
        },
{
    reveal_with_fuel(install_outcome, 3);
}

/// The work of an installation from `n` on, in order and with its end, where its
/// two runs give these results.
pub open spec fn install_work_from(
    n: InstallNext,
    frozen: Result<bool, String>,
    plain: Result<bool, String>,
) -> Seq<InstallNext>
    decreases
            match n {
                InstallNext::Run(_, InstallRun::Frozen) => 2int,
                InstallNext::Run(_, InstallRun::Plain) => 1,
                InstallNext::Finish(_) => 0,
            },
{
    match n {
        InstallNext::Run(run, k) => seq![n] + install_work_from(
            k.next(
                if k == InstallRun::Frozen {
                    frozen
                } else {
                    plain
                },
            ),
            frozen,
            plain,
        ),
        InstallNext::Finish(_) => seq![n],
    }
}

/// An installation runs with the lock file first, and without it only where that
/// run came to its end and failed.
pub proof fn install_goes(frozen: Result<bool, String>, plain: Result<bool, String>)
    ensures
        ({
            let start = InstallNext::Run(PnpmRun::InstallFrozen, InstallRun::Frozen);
            install_work_from(start, frozen, plain) == seq![start] + (match frozen {
                Err(error) => seq![InstallNext::Finish(Err(error))],
                Ok(true) => seq![InstallNext::Finish(Ok(()))],
                Ok(false) => seq![
                    InstallNext::Run(PnpmRun::Install, InstallRun::Plain),
                    InstallNext::Finish(
                        match plain {
                            Err(error) => Err(error),
                            Ok(_) => Ok(()),
                        },
                    ),
                ],
            })
        }),
{
    reveal_with_fuel(install_work_from, 3);
    let start = InstallNext::Run(PnpmRun::InstallFrozen, InstallRun::Frozen);
    let plain_run = InstallNext::Run(PnpmRun::Install, InstallRun::Plain);
    match frozen {
        Ok(false) => {
            assert(install_work_from(start, frozen, plain) =~= seq![
                start,
                plain_run,
                InstallNext::Finish(
                    match plain {
                        Err(error) => Err(error),
                        Ok(_) => Ok(()),
                    },
                ),
            ]);
        },
        _ => {},
    }
}

// --- building --------------------------------------------------------------------

/// Why the build failed.
#[derive(Debug)]
pub enum BuildError {
    /// Pnpm ran and failed.
    Failed,
    /// Pnpm could not be run, for the reason given.
    NotRun(String),
}

/// The next piece of work of a build.
#[derive(Debug)]
pub enum BuildNext {
    /// Read [`BUILD_MARKER`].
    ReadMarker(BuildText),
    /// See whether the built page exists.
    LookForPage(BuildFlag),
    /// Run pnpm: whether it succeeded, or why it did not run.
    Run(PnpmRun, BuildRun),
    /// Write this revision, or nothing where it is unknown, to [`BUILD_MARKER`].
    WriteMarker(Option<String>, BuildWork),
    /// The build is over.
    Finish(Result<(), BuildError>),
}

/// A build while it waits for the marker.
#[derive(Debug)]
pub struct BuildText {
    pub revision: Option<String>,
}

/// A build while it waits to hear of the page.
#[derive(Debug)]
pub struct BuildFlag {
    pub revision: Option<String>,
}

/// A build while it waits for the run.
#[derive(Debug)]
pub struct BuildRun {
    pub revision: Option<String>,
}

/// A build while it waits for the marker to be written.
#[derive(Clone, Copy, PartialEq, Eq, Structural, Debug)]
pub struct BuildWork {}

/// The path of the built page below the runtime.
pub fn page_path() -> (r: Vec<String>)
    ensures
        r.deep_view() == seq!["apps"@, "web"@, "dist"@, "index.html"@],
{
    let mut out: Vec<String> = Vec::new();
    out.push("apps".to_owned());
    out.push("web".to_owned());
    out.push("dist".to_owned());
    out.push("index.html".to_owned());
    assert(out.deep_view() =~= seq!["apps"@, "web"@, "dist"@, "index.html"@]);
    out
}

/// Begins a build of the runtime at this revision.
pub fn build_repo(revision: Option<String>) -> (r: BuildNext)
    ensures
        r == BuildNext::ReadMarker((BuildText { revision })),
{
    BuildNext::ReadMarker(BuildText { revision })
}

/// Whether a marker of this content names the revision, white space around it
/// aside.
pub open spec fn marks(marker: Option<String>, revision: Option<String>) -> bool {
    marker is Some && crate::text::trimmed(marker->0@) == crate::text::or_nothing(revision)
}

impl BuildText {
    /// What follows the marker.
    pub open spec fn next(self, marker: Option<String>) -> BuildNext {
        if marks(marker, self.revision) {
            BuildNext::LookForPage(BuildFlag { revision: self.revision })
        } else {
            BuildNext::Run(PnpmRun::Build, BuildRun { revision: self.revision })
        }
    }

    /// Goes on with the content of the marker, where it could be read.
    pub fn resume(self, marker: Option<String>) -> (r: BuildNext)
        ensures
            r == self.next(marker),
    {
        let same = match &marker {
            Some(text) => {
                let recorded = trim(text.as_str());
                match &self.revision {
                    Some(revision) => same_text(recorded.as_str(), revision.as_str()),
                    None => {
                        assert(recorded@.len() == 0 ==> recorded@ =~= Seq::<char>::empty());
                        recorded.as_str().is_empty()
                    },
                }
            },
            None => false,
        };
        if same {
            BuildNext::LookForPage(BuildFlag { revision: self.revision })
        } else {
            BuildNext::Run(PnpmRun::Build, BuildRun { revision: self.revision })
        }
    }
}

impl BuildFlag {
    /// What follows the look for the page.
    pub open spec fn next(self, page: bool) -> BuildNext {
        if page {
            BuildNext::Finish(Ok(()))
        } else {
            BuildNext::Run(PnpmRun::Build, BuildRun { revision: self.revision })
        }
    }

    /// Goes on with whether the page exists.
    pub fn resume(self, page: bool) -> (r: BuildNext)
        ensures
            r == self.next(page),
    {
        if page {
            BuildNext::Finish(Ok(()))
        } else {
            BuildNext::Run(PnpmRun::Build, BuildRun { revision: self.revision })
        }
    }
}

impl BuildRun {
    /// What follows the run.
    pub open spec fn next(self, result: Result<bool, String>) -> BuildNext {
        match result {
            Ok(true) => BuildNext::WriteMarker(self.revision, BuildWork {  }),
            Ok(false) => BuildNext::Finish(Err(BuildError::Failed)),
            Err(error) => BuildNext::Finish(Err(BuildError::NotRun(error))),
        }
    }

    /// Goes on with the result of the run.
    pub fn resume(self, result: Result<bool, String>) -> (r: BuildNext)
        ensures
            r == self.next(result),
    {
        match result {
            Ok(success) => if success {
                BuildNext::WriteMarker(self.revision, BuildWork {  })
            } else {
                BuildNext::Finish(Err(BuildError::Failed))
            },
            Err(error) => BuildNext::Finish(Err(BuildError::NotRun(error))),
        }
    }
}

impl BuildWork {
    /// What follows the marker: the build is over, whether it could be written
    /// or not.
    pub open spec fn next(self) -> BuildNext {
        BuildNext::Finish(Ok(()))
    }

    /// Goes on once the marker is written.
    pub fn resume(self) -> (r: BuildNext)
        ensures
            r == self.next(),
    {
        BuildNext::Finish(Ok(()))
    }
}

impl BuildError {
    /// What the user reads of the error.
    pub open spec fn line(self) -> Seq<char> {
        match self {
            BuildError::Failed => "构建失败，详情见下方日志"@,
            BuildError::NotRun(error) => error@,
        }
    }

    /// What the user reads of the error.
    pub fn message(&self) -> (r: String)
        ensures
            r@ == self.line(),
    {
        match self {
            BuildError::Failed => "构建失败，详情见下方日志".to_owned(),
            BuildError::NotRun(error) => error.clone(),
        }
    }
}

/// What the disk and pnpm answer during one build.
pub struct BuildWorld {
    pub marker: Option<String>,
    pub page: bool,
    pub run: Result<bool, String>,
}

/// How many answers a build can still take.
pub open spec fn build_rank(n: BuildNext) -> nat {
    match n {
        BuildNext::ReadMarker(_) => 4,
        BuildNext::LookForPage(_) => 3,
        BuildNext::Run(_, _) => 2,
        BuildNext::WriteMarker(_, _) => 1,
        BuildNext::Finish(_) => 0,
    }
}

/// What a build comes to from `n` on: its result, and the marker that is left
/// where it can be written.
pub open spec fn build_outcome_from(n: BuildNext, w: BuildWorld, marker: Option<Seq<char>>) -> (
    Result<(), BuildError>,
    Option<Seq<char>>,
)
    decreases build_rank(n),
{
    match n {
        BuildNext::ReadMarker(k) => build_outcome_from(k.next(w.marker), w, marker),
        BuildNext::LookForPage(k) => build_outcome_from(k.next(w.page), w, marker),
        BuildNext::Run(_, k) => build_outcome_from(k.next(w.run), w, marker),
        BuildNext::WriteMarker(revision, k) => build_outcome_from(
            k.next(),
            w,
            Some(crate::text::or_nothing(revision)),
        ),
        BuildNext::Finish(result) => (result, marker),
    }
}

/// A build runs pnpm unless the marker names the revision and the page exists;
/// it succeeds where that run does, and only a build that succeeded is marked.
pub proof fn build_comes_to(revision: Option<String>, w: BuildWorld, marker: Option<Seq<char>>)
    ensures
        build_outcome_from(BuildNext::ReadMarker((BuildText { revision })), w, marker) == (
        if w.marker is Some && crate::text::trimmed(w.marker->0@) == (match revision {
            Some(text) => text@,
            None => Seq::<char>::empty(),
        }) && w.page {
            (Ok::<(), BuildError>(()), marker)
        } else {
            match w.run {
                Ok(true) => (
                    Ok(()),
                    Some(
                        match revision {
                            Some(text) => text@,
                            None => Seq::<char>::empty(),
                        },
                    ),
                ),
                Ok(false) => (Err(BuildError::Failed), marker),
                Err(error) => (Err(BuildError::NotRun(error)), marker),
            }
        }),
{
    reveal_with_fuel(build_outcome_from, 5);
}

/// What a build does next in this world.
pub open spec fn build_step(n: BuildNext, w: BuildWorld) -> BuildNext {
    match n {
        BuildNext::ReadMarker(k) => k.next(w.marker),
        BuildNext::LookForPage(k) => k.next(w.page),
        BuildNext::Run(_, k) => k.next(w.run),
        BuildNext::WriteMarker(_, k) => k.next(),
        BuildNext::Finish(_) => n,
    }
}

/// The work of a build from `n` on in this world, in order, with its end.
pub open spec fn build_work_from(n: BuildNext, w: BuildWorld) -> Seq<BuildNext>
    decreases build_rank(n),
{
    if n is Finish {
        seq![n]
    } else {
        seq![n] + build_work_from(build_step(n, w), w)
    }
}

/// The work of a build that runs pnpm, from that run on.
pub open spec fn build_run_way(revision: Option<String>, w: BuildWorld) -> Seq<BuildNext> {
    seq![BuildNext::Run(PnpmRun::Build, BuildRun { revision })] + match w.run {
        Ok(true) => seq![
            BuildNext::WriteMarker(revision, BuildWork {  }),
            BuildNext::Finish(Ok(())),
        ],
        Ok(false) => seq![BuildNext::Finish(Err(BuildError::Failed))],
        Err(error) => seq![BuildNext::Finish(Err(BuildError::NotRun(error)))],
    }
}

proof fn build_run_goes(revision: Option<String>, w: BuildWorld)
    ensures
        build_work_from(BuildNext::Run(PnpmRun::Build, (BuildRun { revision })), w)
            == build_run_way(revision, w),
{
    reveal_with_fuel(build_work_from, 3);
    assert(build_work_from(BuildNext::Run(PnpmRun::Build, BuildRun { revision }), w)
        =~= build_run_way(revision, w));
}

/// A build goes the way that the marker and the page call for. Where the marker
/// could be read and what stands in it between white space is the revision, or
/// nothing where that is unknown, the page is looked for, and pnpm runs unless
/// it is there; in every other case pnpm runs at once.
pub proof fn build_goes(
    revision: Option<String>,
    w: BuildWorld,
    before: Seq<char>,
    text: Seq<char>,
    after: Seq<char>,
)
    requires
        crate::text_laws::blank(before),
        crate::text_laws::blank(after),
        text.len() > 0 ==> !crate::text::is_space(text.first()) && !crate::text::is_space(
            text.last(),
        ),
        w.marker matches Some(marker) ==> marker@ == before + text + after,
    ensures
        ({
            let start = BuildNext::ReadMarker(BuildText { revision });
            let wanted = match revision {
                Some(known) => known@,
                None => Seq::<char>::empty(),
            };
            build_work_from(start, w) == seq![start] + (if w.marker is Some && text == wanted {
                seq![BuildNext::LookForPage(BuildFlag { revision })] + if w.page {
                    seq![BuildNext::Finish(Ok(()))]
                } else {
                    build_run_way(revision, w)
                }
            } else {
                build_run_way(revision, w)
            })
        }),
{
    crate::text_laws::trimmed_between(before, text, after);
    build_run_goes(revision, w);
    let start = BuildNext::ReadMarker(BuildText { revision });
    let look = BuildNext::LookForPage(BuildFlag { revision });
    assert(build_work_from(start, w) == seq![start] + build_work_from(build_step(start, w), w));
    assert(build_work_from(look, w) == seq![look] + build_work_from(build_step(look, w), w));
}

/// A build that comes to its end without a run of pnpm has read a marker that
/// names the revision, white space around it aside, and has seen the page; and
/// wherever the two texts differ, pnpm runs.
pub proof fn pnpm_runs_unless_the_marker_names_the_revision(
    revision: Option<String>,
    w: BuildWorld,
)
    ensures
        ({
            let work = build_work_from(BuildNext::ReadMarker(BuildText { revision }), w);
            let runs = exists|i: int|
                0 <= i < work.len() && (#[trigger] work[i] matches BuildNext::Run(run, _) && run
                    == PnpmRun::Build);
            runs == !(w.page && w.marker is Some && crate::text::trimmed(w.marker->0@) == (
            match revision {
                Some(known) => known@,
                None => Seq::<char>::empty(),
            }))
        }),
{
    build_run_goes(revision, w);
    let start = BuildNext::ReadMarker(BuildText { revision });
    let look = BuildNext::LookForPage(BuildFlag { revision });
    let run = build_run_way(revision, w);
    let work = build_work_from(start, w);
    assert(work == seq![start] + build_work_from(build_step(start, w), w));
    assert(build_work_from(look, w) == seq![look] + build_work_from(build_step(look, w), w));
    assert(run[0] matches BuildNext::Run(kind, _) && kind == PnpmRun::Build);
    if build_step(start, w) == look {
        if w.page {
            assert(work =~= seq![start, look, BuildNext::Finish(Ok(()))]);
        } else {
            assert(work[2] == run[0]);
        }
    } else {
        assert(work[1] == run[0]);
    }
}

/// What is built is not built again: once the marker of a revision without
/// white space around it was written and the page exists, the next build of
/// that revision does nothing.
pub proof fn built_once(revision: Option<String>, marker: String)
    requires
        crate::text::trimmed(crate::text::or_nothing(revision)) == crate::text::or_nothing(revision),
        marker@ == crate::text::or_nothing(revision),
    ensures
        (BuildText { revision }).next(Some(marker)) == BuildNext::LookForPage(
            (BuildFlag { revision }),
        ),
        (BuildFlag { revision }).next(true) == BuildNext::Finish(Ok(())),
{
}

} // verus!
