//! The upgrade that the update panel starts: newest code, dependencies, build,
//! and a service that runs it.
use crate::force::ForceError;
use crate::runtime::RuntimeState;
use vstd::prelude::*;

verus! {

/// How far an upgrade is while its code is refreshed, in percent.
pub const REFRESH_PERCENT: u32 = 5;

/// How long an upgrade rests before it reloads the page.
pub const RELOAD_PAUSE_SECS: u64 = 1;

/// What reloads the page.
pub const RELOAD_PAGE: &'static str = "location.reload()";

/// A status line of an upgrade.
#[derive(Debug)]
pub enum UpgradeStatus {
    /// The newest code is being fetched.
    Pulling,
    /// The dependencies are being installed.
    Installing,
    /// The code is being built.
    Building,
    /// The service is being restarted.
    Restarting,
    /// The upgrade is done.
    Done,
    /// The service did not come up again.
    NotRestarted,
    /// The code could not be refreshed.
    UpdateFailed(ForceError),
    /// The dependencies could not be installed, for the reason given.
    InstallFailed(String),
    /// The code could not be built, for the reason given.
    BuildFailed(String),
}

/// The next piece of work of an upgrade.
#[derive(Debug)]
pub enum UpgradeNext {
    /// Note how far the upgrade is, in percent, and what it is doing.
    Report(u32, UpgradeStatus, UpgradeWork),
    /// Run the forced update, with its own status lines noted at this many
    /// percent.
    Refresh(u32, UpgradeRefresh),
    /// Read the revision of the runtime.
    Revision(UpgradeText),
    /// See whether the dependencies are there.
    LookForModules(UpgradeFlag),
    /// Install the dependencies; where there is no window to log to, nothing
    /// is installed and that counts as done.
    Install(UpgradeResult),
    /// Build the code at this revision; where there is no window to log to,
    /// nothing is built and that counts as done.
    Build(Option<String>, UpgradeResult),
    /// Stop the service that the shell started, where it did.
    Stop(UpgradeWork),
    /// Start the service on this port and keep it as the shell's own.
    Start(u16, UpgradeWork),
    /// Wait for the service on this port.
    Await(u16, UpgradeWork),
    /// See whether the service is up on this port.
    LookForServer(u16, UpgradeFlag),
    /// Where there is a window, rest for [`RELOAD_PAUSE_SECS`] and run
    /// [`RELOAD_PAGE`] in it.
    Reload(UpgradeWork),
    /// The upgrade is over.
    Finish,
}

/// An upgrade while it waits for work without a result.
#[derive(Debug)]
pub enum UpgradeWork {
    Pulling(u16),
    Installing { port: u16, revision: Option<String> },
    Building { port: u16, revision: Option<String> },
    Restarting(u16),
    Stopped(u16),
    Started(u16),
    Awaited(u16),
    Told,
    Over,
}

/// An upgrade while it waits for the forced update.
#[derive(Clone, Copy, PartialEq, Eq, Structural, Debug)]
pub struct UpgradeRefresh {
    pub port: u16,
}

/// An upgrade while it waits for the revision of the runtime, which is in this
/// state.
#[derive(Clone, Copy, PartialEq, Eq, Structural, Debug)]
pub struct UpgradeText {
    pub port: u16,
    pub state: RuntimeState,
}

/// An upgrade while it waits for a yes or no.
#[derive(Debug)]
pub enum UpgradeFlag {
    Modules { port: u16, revision: Option<String> },
    Server,
}

/// An upgrade while it waits for work that can fail with a message.
#[derive(Debug)]
pub enum UpgradeResult {
    Installed { port: u16, revision: Option<String> },
    Built(u16),
}

/// How an upgrade of the service on this port begins.
pub open spec fn upgrade_start(port: u16) -> UpgradeNext {
    UpgradeNext::Report(2, UpgradeStatus::Pulling, UpgradeWork::Pulling(port))
}

/// Begins an upgrade of the service on this port.
pub fn upgrade_harness(port: u16) -> (r: UpgradeNext)
    ensures
        r == upgrade_start(port),
{
    UpgradeNext::Report(2, UpgradeStatus::Pulling, UpgradeWork::Pulling(port))
}

/// An upgrade that ends with this status line.
pub open spec fn stopped(status: UpgradeStatus) -> UpgradeNext {
    UpgradeNext::Report(100, status, UpgradeWork::Over)
}

/// The installation of the dependencies.
pub open spec fn installing(port: u16, revision: Option<String>) -> UpgradeNext {
    UpgradeNext::Report(15, UpgradeStatus::Installing, UpgradeWork::Installing { port, revision })
}

/// The build of this revision.
pub open spec fn building(port: u16, revision: Option<String>) -> UpgradeNext {
    UpgradeNext::Report(40, UpgradeStatus::Building, UpgradeWork::Building { port, revision })
}

impl UpgradeWork {
    /// What follows the work.
    pub open spec fn next(self) -> UpgradeNext {
        match self {
            UpgradeWork::Pulling(port) => UpgradeNext::Refresh(
                REFRESH_PERCENT,
                UpgradeRefresh { port },
            ),
            UpgradeWork::Installing { port, revision } => UpgradeNext::Install(
                UpgradeResult::Installed { port, revision },
            ),
            UpgradeWork::Building { port, revision } => UpgradeNext::Build(
                revision,
                UpgradeResult::Built(port),
            ),
            UpgradeWork::Restarting(port) => UpgradeNext::Stop(UpgradeWork::Stopped(port)),
            UpgradeWork::Stopped(port) => UpgradeNext::Start(port, UpgradeWork::Started(port)),
            UpgradeWork::Started(port) => UpgradeNext::Await(port, UpgradeWork::Awaited(port)),
            UpgradeWork::Awaited(port) => UpgradeNext::LookForServer(port, UpgradeFlag::Server),
            UpgradeWork::Told => UpgradeNext::Reload(UpgradeWork::Over),
            UpgradeWork::Over => UpgradeNext::Finish,
        }
    }

    /// Goes on once the work is done.
    pub fn resume(self) -> (r: UpgradeNext)
        ensures
            r == self.next(),
    {
        match self {
            UpgradeWork::Pulling(port) => UpgradeNext::Refresh(
                REFRESH_PERCENT,
                UpgradeRefresh { port },
            ),
            UpgradeWork::Installing { port, revision } => UpgradeNext::Install(
                UpgradeResult::Installed { port, revision },
            ),
            UpgradeWork::Building { port, revision } => UpgradeNext::Build(
                revision,
                UpgradeResult::Built(port),
            ),
            UpgradeWork::Restarting(port) => UpgradeNext::Stop(UpgradeWork::Stopped(port)),
            UpgradeWork::Stopped(port) => UpgradeNext::Start(port, UpgradeWork::Started(port)),
            UpgradeWork::Started(port) => UpgradeNext::Await(port, UpgradeWork::Awaited(port)),
            UpgradeWork::Awaited(port) => UpgradeNext::LookForServer(port, UpgradeFlag::Server),
            UpgradeWork::Told => UpgradeNext::Reload(UpgradeWork::Over),
            UpgradeWork::Over => UpgradeNext::Finish,
        }
    }
}

impl UpgradeRefresh {
    /// What follows the forced update.
    pub open spec fn next(self, result: Result<RuntimeState, ForceError>) -> UpgradeNext {
        match result {
            Ok(state) => UpgradeNext::Revision(UpgradeText { port: self.port, state }),
            Err(error) => stopped(UpgradeStatus::UpdateFailed(error)),
        }
    }

    /// Goes on with what the forced update came to.
    pub fn resume(self, result: Result<RuntimeState, ForceError>) -> (r: UpgradeNext)
        ensures
            r == self.next(result),
    {
        match result {
            Ok(state) => UpgradeNext::Revision(UpgradeText { port: self.port, state }),
            Err(error) => UpgradeNext::Report(
                100,
                UpgradeStatus::UpdateFailed(error),
                UpgradeWork::Over,
            ),
        }
    }
}

impl UpgradeText {
    /// What follows the revision: code that has changed gets its dependencies
    /// installed, other code only where they are missing.
    pub open spec fn next(self, revision: Option<String>) -> UpgradeNext {
        if self.state != RuntimeState::Unchanged {
            installing(self.port, revision)
        } else {
            UpgradeNext::LookForModules(UpgradeFlag::Modules { port: self.port, revision })
        }
    }

    /// Goes on with the revision, where it is known.
    pub fn resume(self, revision: Option<String>) -> (r: UpgradeNext)
        ensures
            r == self.next(revision),
    {
        let port: u16 = self.port;
        if self.state != RuntimeState::Unchanged {
            UpgradeNext::Report(
                15,
                UpgradeStatus::Installing,
                UpgradeWork::Installing { port, revision },
            )
        } else {
            UpgradeNext::LookForModules(UpgradeFlag::Modules { port, revision })
        }
    }
}

impl UpgradeFlag {
    /// What follows the answer.
    pub open spec fn next(self, yes: bool) -> UpgradeNext {
        match self {
            UpgradeFlag::Modules { port, revision } => if yes {
                building(port, revision)
            } else {
                installing(port, revision)
            },
            UpgradeFlag::Server => UpgradeNext::Report(
                100,
                if yes {
                    UpgradeStatus::Done
                } else {
                    UpgradeStatus::NotRestarted
                },
                UpgradeWork::Told,
            ),
        }
    }

    /// Goes on with the answer.
    pub fn resume(self, yes: bool) -> (r: UpgradeNext)
        ensures
            r == self.next(yes),
    {
        match self {
            UpgradeFlag::Modules { port, revision } => if yes {
                UpgradeNext::Report(
                    40,
                    UpgradeStatus::Building,
                    UpgradeWork::Building { port, revision },
                )
            } else {
                UpgradeNext::Report(
                    15,
                    UpgradeStatus::Installing,
                    UpgradeWork::Installing { port, revision },
                )
            },
            UpgradeFlag::Server => UpgradeNext::Report(
                100,
                if yes {
                    UpgradeStatus::Done
                } else {
                    UpgradeStatus::NotRestarted
                },
                UpgradeWork::Told,
            ),
        }
    }
}

impl UpgradeResult {
    /// What follows the result.
    pub open spec fn next(self, result: Result<(), String>) -> UpgradeNext {
        match (self, result) {
            (UpgradeResult::Installed { port, revision }, Ok(())) => building(port, revision),
            (UpgradeResult::Installed { .. }, Err(error)) => stopped(
                UpgradeStatus::InstallFailed(error),
            ),
            (UpgradeResult::Built(port), Ok(())) => UpgradeNext::Report(
                85,
                UpgradeStatus::Restarting,
                UpgradeWork::Restarting(port),
            ),
            (UpgradeResult::Built(_), Err(error)) => stopped(UpgradeStatus::BuildFailed(error)),
        }
    }

    /// Goes on with the result.
    pub fn resume(self, result: Result<(), String>) -> (r: UpgradeNext)
        ensures
            r == self.next(result),
    {
        match self {
            UpgradeResult::Installed { port, revision } => match result {
                Ok(()) => UpgradeNext::Report(
                    40,
                    UpgradeStatus::Building,
                    UpgradeWork::Building { port, revision },
                ),
                Err(error) => UpgradeNext::Report(
                    100,
                    UpgradeStatus::InstallFailed(error),
                    UpgradeWork::Over,
                ),
            },
            UpgradeResult::Built(port) => match result {
                Ok(()) => UpgradeNext::Report(
                    85,
                    UpgradeStatus::Restarting,
                    UpgradeWork::Restarting(port),
                ),
                Err(error) => UpgradeNext::Report(
                    100,
                    UpgradeStatus::BuildFailed(error),
                    UpgradeWork::Over,
                ),
            },
        }
    }
}

// --- wording -------------------------------------------------------------------

impl UpgradeStatus {
    /// The status line.
    pub open spec fn line(self) -> Seq<char> {
        match self {
            UpgradeStatus::Pulling => "正在拉取官方最新代码…"@,
            UpgradeStatus::Installing => "正在安装依赖（可能需要几分钟）…"@,
            UpgradeStatus::Building => "正在构建（可能需要 10-20 分钟）…"@,
            UpgradeStatus::Restarting => "正在重启服务…"@,
            UpgradeStatus::Done => "更新完成 ✓"@,
            UpgradeStatus::NotRestarted => "服务重启失败，请手动重新打开应用"@,
            UpgradeStatus::UpdateFailed(error) => "更新失败："@ + error.line(),
            UpgradeStatus::InstallFailed(error) => "安装依赖失败："@ + error@,
            UpgradeStatus::BuildFailed(error) => "构建失败："@ + error@,
        }
    }

    /// The status line.
    pub fn text(&self) -> (r: String)
        ensures
            r@ == self.line(),
    {
        match self {
            UpgradeStatus::Pulling => "正在拉取官方最新代码…".to_owned(),
            UpgradeStatus::Installing => "正在安装依赖（可能需要几分钟）…".to_owned(),
            UpgradeStatus::Building => "正在构建（可能需要 10-20 分钟）…".to_owned(),
            UpgradeStatus::Restarting => "正在重启服务…".to_owned(),
            UpgradeStatus::Done => "更新完成 ✓".to_owned(),
            UpgradeStatus::NotRestarted => "服务重启失败，请手动重新打开应用".to_owned(),
            UpgradeStatus::UpdateFailed(error) => {
                let mut out = "更新失败：".to_owned();
                out.append(error.message().as_str());
                out
            },
            UpgradeStatus::InstallFailed(error) => {
                let mut out = "安装依赖失败：".to_owned();
                out.append(error.as_str());
                out
            },
            UpgradeStatus::BuildFailed(error) => {
                let mut out = "构建失败：".to_owned();
                out.append(error.as_str());
                out
            },
        }
    }
}

// --- what an upgrade comes to ------------------------------------------------------

/// What is answered during one upgrade.
pub struct UpgradeWorld {
    pub refresh: Result<RuntimeState, ForceError>,
    pub revision: Option<String>,
    pub modules: bool,
    pub install: Result<(), String>,
    pub build: Result<(), String>,
    pub server: bool,
}

/// How many answers an upgrade can still take.
pub open spec fn upgrade_rank(n: UpgradeNext) -> nat {
    match n {
        UpgradeNext::Report(_, _, k) => work_rank(k),
        UpgradeNext::Refresh(_, _) => 15,
        UpgradeNext::Revision(_) => 14,
        UpgradeNext::LookForModules(k) => flag_rank(k),
        UpgradeNext::Install(k) => result_rank(k),
        UpgradeNext::Build(_, k) => result_rank(k),
        UpgradeNext::Stop(k) => work_rank(k),
        UpgradeNext::Start(_, k) => work_rank(k),
        UpgradeNext::Await(_, k) => work_rank(k),
        UpgradeNext::LookForServer(_, k) => flag_rank(k),
        UpgradeNext::Reload(k) => work_rank(k),
        UpgradeNext::Finish => 0,
    }
}

/// How many answers an upgrade that waits for work can still take.
pub open spec fn work_rank(k: UpgradeWork) -> nat {
    match k {
        UpgradeWork::Pulling(_) => 16,
        UpgradeWork::Installing { .. } => 12,
        UpgradeWork::Building { .. } => 10,
        UpgradeWork::Restarting(_) => 8,
        UpgradeWork::Stopped(_) => 7,
        UpgradeWork::Started(_) => 6,
        UpgradeWork::Awaited(_) => 5,
        UpgradeWork::Told => 2,
        UpgradeWork::Over => 1,
    }
}

/// How many answers an upgrade that waits for a yes or no can still take.
pub open spec fn flag_rank(k: UpgradeFlag) -> nat {
    match k {
        UpgradeFlag::Modules { .. } => 13,
        UpgradeFlag::Server => 3,
    }
}

/// How many answers an upgrade that waits for a result can still take.
pub open spec fn result_rank(k: UpgradeResult) -> nat {
    match k {
        UpgradeResult::Installed { .. } => 11,
        UpgradeResult::Built(_) => 9,
    }
}

/// What an upgrade does next in this world.
pub open spec fn upgrade_step(n: UpgradeNext, w: UpgradeWorld) -> UpgradeNext {
    match n {
        UpgradeNext::Report(_, _, k) => k.next(),
        UpgradeNext::Refresh(_, k) => k.next(w.refresh),
        UpgradeNext::Revision(k) => k.next(w.revision),
        UpgradeNext::LookForModules(k) => k.next(w.modules),
        UpgradeNext::Install(k) => k.next(w.install),
        UpgradeNext::Build(_, k) => k.next(w.build),
        UpgradeNext::Stop(k) => k.next(),
        UpgradeNext::Start(_, k) => k.next(),
        UpgradeNext::Await(_, k) => k.next(),
        UpgradeNext::LookForServer(_, k) => k.next(w.server),
        UpgradeNext::Reload(k) => k.next(),
        UpgradeNext::Finish => n,
    }
}

/// Every answer brings an upgrade nearer to its end.
pub proof fn upgrade_ends(n: UpgradeNext, w: UpgradeWorld)
    requires
        !(n is Finish),
    ensures
        upgrade_rank(upgrade_step(n, w)) < upgrade_rank(n),
{
}

/// The pieces of work of an upgrade from `n` on in this world, in order.
pub open spec fn upgrade_trace(n: UpgradeNext, w: UpgradeWorld) -> Seq<UpgradeNext>
    decreases upgrade_rank(n),
{
    if n is Finish {
        Seq::empty()
    } else {
        proof {
            upgrade_ends(n, w);
        }
        seq![n] + upgrade_trace(upgrade_step(n, w), w)
    }
}

/// How far the upgrade is told to be during a piece of work, where that is told.
pub open spec fn percent_at(n: UpgradeNext) -> Option<u32> {
    match n {
        UpgradeNext::Report(percent, _, _) => Some(percent),
        UpgradeNext::Refresh(percent, _) => Some(percent),
        _ => None,
    }
}

/// The least that an upgrade can tell from `n` on, in percent.
pub open spec fn floor_of(n: UpgradeNext) -> u32 {
    match n {
        UpgradeNext::Report(percent, _, _) => percent,
        UpgradeNext::Refresh(percent, _) => percent,
        UpgradeNext::Revision(_) => 15,
        UpgradeNext::LookForModules(_) => 15,
        UpgradeNext::Install(_) => 40,
        UpgradeNext::Build(_, _) => 85,
        UpgradeNext::Stop(_) => 100,
        UpgradeNext::Start(_, _) => 100,
        UpgradeNext::Await(_, _) => 100,
        UpgradeNext::LookForServer(_, _) => 100,
        UpgradeNext::Reload(_) => 100,
        UpgradeNext::Finish => 100,
    }
}

/// Whether the pieces of work fit what they wait for.
pub open spec fn fits(n: UpgradeNext) -> bool {
    match n {
        UpgradeNext::Report(percent, _, k) => match k {
            UpgradeWork::Pulling(_) => percent == 2,
            UpgradeWork::Installing { .. } => percent == 15,
            UpgradeWork::Building { .. } => percent == 40,
            UpgradeWork::Restarting(_) => percent == 85,
            UpgradeWork::Told => percent == 100,
            UpgradeWork::Over => percent == 100,
            _ => false,
        },
        UpgradeNext::Refresh(percent, _) => percent == REFRESH_PERCENT,
        UpgradeNext::Revision(_) => true,
        UpgradeNext::LookForModules(k) => k is Modules,
        UpgradeNext::Install(k) => k is Installed,
        UpgradeNext::Build(_, k) => k is Built,
        UpgradeNext::Stop(k) => k is Stopped,
        UpgradeNext::Start(_, k) => k is Started,
        UpgradeNext::Await(_, k) => k is Awaited,
        UpgradeNext::LookForServer(_, k) => k is Server,
        UpgradeNext::Reload(k) => k is Over,
        UpgradeNext::Finish => true,
    }
}

proof fn never_below(n: UpgradeNext, w: UpgradeWorld)
    requires
        fits(n),
    ensures
        forall|i: int|
            0 <= i < upgrade_trace(n, w).len() && percent_at(#[trigger] upgrade_trace(n, w)[i]) is Some
                ==> percent_at(upgrade_trace(n, w)[i])->0 >= floor_of(n),
    decreases upgrade_rank(n),
{
    if !(n is Finish) {
        let m = upgrade_step(n, w);
        upgrade_ends(n, w);
        assert(fits(m) && floor_of(m) >= floor_of(n));
        never_below(m, w);
        let t = upgrade_trace(n, w);
        let rest = upgrade_trace(m, w);
        assert forall|i: int| 0 <= i < t.len() && percent_at(#[trigger] t[i]) is Some implies percent_at(
            t[i],
        )->0 >= floor_of(n) by {
            if i > 0 {
                assert(t[i] == rest[i - 1]);
            }
        }
    }
}

/// The progress of an upgrade never falls.
pub proof fn progress_never_falls(port: u16, w: UpgradeWorld, i: int, j: int)
    requires
        0 <= i <= j < upgrade_trace(upgrade_start(port), w).len(),
        percent_at(upgrade_trace(upgrade_start(port), w)[i]) is Some,
        percent_at(upgrade_trace(upgrade_start(port), w)[j]) is Some,
    ensures
        percent_at(upgrade_trace(upgrade_start(port), w)[i])->0 <= percent_at(
            upgrade_trace(upgrade_start(port), w)[j],
        )->0,
{
    never_falls_from(upgrade_start(port), w, i, j);
}

proof fn never_falls_from(n: UpgradeNext, w: UpgradeWorld, i: int, j: int)
    requires
        fits(n),
        0 <= i <= j < upgrade_trace(n, w).len(),
        percent_at(upgrade_trace(n, w)[i]) is Some,
        percent_at(upgrade_trace(n, w)[j]) is Some,
    ensures
        percent_at(upgrade_trace(n, w)[i])->0 <= percent_at(upgrade_trace(n, w)[j])->0,
    decreases upgrade_rank(n),
{
    let t = upgrade_trace(n, w);
    let m = upgrade_step(n, w);
    upgrade_ends(n, w);
    if i == 0 {
        never_below(n, w);
        assert(t[0] == n);
    } else {
        assert(t[i] == upgrade_trace(m, w)[i - 1]);
        assert(t[j] == upgrade_trace(m, w)[j - 1]);
        never_falls_from(m, w, i - 1, j - 1);
    }
}

/// The last status line of an upgrade from `n` on, with its percentage.
pub open spec fn last_report(n: UpgradeNext, w: UpgradeWorld, told: (u32, UpgradeStatus)) -> (
    u32,
    UpgradeStatus,
)
    decreases upgrade_rank(n),
{
    if n is Finish {
        told
    } else {
        proof {
            upgrade_ends(n, w);
        }
        last_report(
            upgrade_step(n, w),
            w,
            match n {
                UpgradeNext::Report(percent, status, _) => (percent, status),
                _ => told,
            },
        )
    }
}

/// What an upgrade comes to.
pub open spec fn upgrade_outcome(w: UpgradeWorld) -> UpgradeStatus {
    match w.refresh {
        Err(error) => UpgradeStatus::UpdateFailed(error),
        Ok(state) => {
            let installs = state != RuntimeState::Unchanged || !w.modules;
            match (w.install, w.build) {
                (Err(error), _) if installs => UpgradeStatus::InstallFailed(error),
                (_, Err(error)) => UpgradeStatus::BuildFailed(error),
                _ => if w.server {
                    UpgradeStatus::Done
                } else {
                    UpgradeStatus::NotRestarted
                },
            }
        },
    }
}

/// An upgrade ends at a hundred percent, and its last line says what came of
/// it.
#[verifier::rlimit(40)]
pub proof fn upgrade_comes_to(port: u16, w: UpgradeWorld, told: (u32, UpgradeStatus))
    ensures
        last_report(upgrade_start(port), w, told) == (100u32, upgrade_outcome(w)),
{
    reveal_with_fuel(last_report, 17);
}

/// Whether the dependencies are installed.
pub open spec fn installs(w: UpgradeWorld) -> bool {
    w.refresh != Ok::<RuntimeState, ForceError>(RuntimeState::Unchanged) || !w.modules
}

// The way of an upgrade in three stretches: to the code, to the build, and to
// the page.

/// The work that refreshes the code and installs its dependencies.
pub open spec fn way_to_code(port: u16, w: UpgradeWorld) -> Seq<UpgradeNext> {
    seq![
        UpgradeNext::Report(2, UpgradeStatus::Pulling, UpgradeWork::Pulling(port)),
        UpgradeNext::Refresh(5, UpgradeRefresh { port }),
    ] + match w.refresh {
        Err(error) => seq![
            UpgradeNext::Report(100, UpgradeStatus::UpdateFailed(error), UpgradeWork::Over),
        ],
        Ok(state) => seq![UpgradeNext::Revision(UpgradeText { port, state })] + (if state
            == RuntimeState::Unchanged {
            seq![
                UpgradeNext::LookForModules(UpgradeFlag::Modules { port, revision: w.revision }),
            ]
        } else {
            Seq::empty()
        }) + (if installs(w) {
            way_to_modules(port, w)
        } else {
            Seq::empty()
        }),
    }
}

/// The work that installs the dependencies.
pub open spec fn way_to_modules(port: u16, w: UpgradeWorld) -> Seq<UpgradeNext> {
    seq![
        UpgradeNext::Report(
            15,
            UpgradeStatus::Installing,
            UpgradeWork::Installing { port, revision: w.revision },
        ),
        UpgradeNext::Install(UpgradeResult::Installed { port, revision: w.revision }),
    ] + match w.install {
        Err(error) => seq![
            UpgradeNext::Report(100, UpgradeStatus::InstallFailed(error), UpgradeWork::Over),
        ],
        Ok(_) => Seq::empty(),
    }
}

/// The work that builds the code.
pub open spec fn way_to_build(port: u16, w: UpgradeWorld) -> Seq<UpgradeNext> {
    seq![
        UpgradeNext::Report(
            40,
            UpgradeStatus::Building,
            UpgradeWork::Building { port, revision: w.revision },
        ),
        UpgradeNext::Build(w.revision, UpgradeResult::Built(port)),
    ] + match w.build {
        Err(error) => seq![
            UpgradeNext::Report(100, UpgradeStatus::BuildFailed(error), UpgradeWork::Over),
        ],
        Ok(_) => Seq::empty(),
    }
}

/// The work that restarts the service and reloads the page: the service of the
/// shell is stopped before the new one is started, and the page is reloaded
/// once it was told what came of it.
pub open spec fn way_to_page(port: u16, w: UpgradeWorld) -> Seq<UpgradeNext> {
    seq![
        UpgradeNext::Report(85, UpgradeStatus::Restarting, UpgradeWork::Restarting(port)),
        UpgradeNext::Stop(UpgradeWork::Stopped(port)),
        UpgradeNext::Start(port, UpgradeWork::Started(port)),
        UpgradeNext::Await(port, UpgradeWork::Awaited(port)),
        UpgradeNext::LookForServer(port, UpgradeFlag::Server),
        UpgradeNext::Report(
            100,
            if w.server {
                UpgradeStatus::Done
            } else {
                UpgradeStatus::NotRestarted
            },
            UpgradeWork::Told,
        ),
        UpgradeNext::Reload(UpgradeWork::Over),
    ]
}

/// Whether the code is refreshed and has its dependencies.
pub open spec fn has_code(w: UpgradeWorld) -> bool {
    w.refresh is Ok && (installs(w) ==> w.install is Ok)
}

/// The work that follows the code.
pub open spec fn way_from_code(port: u16, w: UpgradeWorld) -> Seq<UpgradeNext> {
    way_to_build(port, w) + (if w.build is Ok {
        way_to_page(port, w)
    } else {
        Seq::empty()
    })
}

proof fn stopped_trace(status: UpgradeStatus, w: UpgradeWorld)
    ensures
        upgrade_trace(stopped(status), w) == seq![stopped(status)],
{
    reveal_with_fuel(upgrade_trace, 2);
    assert(upgrade_trace(stopped(status), w) =~= seq![stopped(status)]);
}

proof fn page_trace(port: u16, w: UpgradeWorld)
    ensures
        upgrade_trace(
            UpgradeNext::Report(85, UpgradeStatus::Restarting, UpgradeWork::Restarting(port)),
            w,
        ) == way_to_page(port, w),
{
    reveal_with_fuel(upgrade_trace, 8);
    assert(upgrade_trace(
        UpgradeNext::Report(85, UpgradeStatus::Restarting, UpgradeWork::Restarting(port)),
        w,
    ) =~= way_to_page(port, w));
}

proof fn build_trace(port: u16, w: UpgradeWorld)
    ensures
        upgrade_trace(building(port, w.revision), w) == way_from_code(port, w),
{
    reveal_with_fuel(upgrade_trace, 4);
    page_trace(port, w);
    assert(upgrade_trace(building(port, w.revision), w) =~= way_from_code(port, w));
}

proof fn modules_trace(port: u16, w: UpgradeWorld)
    ensures
        upgrade_trace(installing(port, w.revision), w) == way_to_modules(port, w) + (
        if w.install is Ok {
            way_from_code(port, w)
        } else {
            Seq::empty()
        }),
{
    let n1 = installing(port, w.revision);
    let n2 = UpgradeNext::Install(UpgradeResult::Installed { port, revision: w.revision });
    build_trace(port, w);
    assert(upgrade_step(n1, w) == n2);
    assert(upgrade_trace(n1, w) == seq![n1] + upgrade_trace(n2, w));
    match w.install {
        Ok(_) => {
            assert(upgrade_step(n2, w) == building(port, w.revision));
            assert(upgrade_trace(n1, w) =~= way_to_modules(port, w) + way_from_code(port, w));
        },
        Err(error) => {
            stopped_trace(UpgradeStatus::InstallFailed(error), w);
            assert(upgrade_step(n2, w) == stopped(UpgradeStatus::InstallFailed(error)));
            assert(upgrade_trace(n1, w) =~= way_to_modules(port, w) + Seq::<
                UpgradeNext,
            >::empty());
        },
    }
}

/// An upgrade goes the way that its answers call for, and no other: to the
/// code, from there to the build, and from there to the page.
pub proof fn upgrade_goes(port: u16, w: UpgradeWorld)
    ensures
        upgrade_trace(upgrade_start(port), w) == way_to_code(port, w) + (if has_code(w) {
            way_from_code(port, w)
        } else {
            Seq::empty()
        }),
{
    let n1 = upgrade_start(port);
    let n2 = UpgradeNext::Refresh(REFRESH_PERCENT, UpgradeRefresh { port });
    let rest = if has_code(w) {
        way_from_code(port, w)
    } else {
        Seq::empty()
    };
    build_trace(port, w);
    modules_trace(port, w);
    assert(upgrade_step(n1, w) == n2);
    assert(upgrade_trace(n1, w) == seq![n1] + upgrade_trace(n2, w));
    match w.refresh {
        Ok(state) => {
            let n3 = UpgradeNext::Revision(UpgradeText { port, state });
            assert(upgrade_step(n2, w) == n3);
            assert(upgrade_trace(n2, w) == seq![n2] + upgrade_trace(n3, w));
            if state == RuntimeState::Unchanged {
                let n4 = UpgradeNext::LookForModules(
                    UpgradeFlag::Modules { port, revision: w.revision },
                );
                assert(upgrade_step(n3, w) == n4);
                assert(upgrade_trace(n3, w) == seq![n3] + upgrade_trace(n4, w));
                assert(upgrade_trace(n4, w) == seq![n4] + upgrade_trace(upgrade_step(n4, w), w));
            }
            assert(upgrade_trace(n1, w) =~= way_to_code(port, w) + rest);
        },
        Err(error) => {
            stopped_trace(UpgradeStatus::UpdateFailed(error), w);
            assert(upgrade_step(n2, w) == stopped(UpgradeStatus::UpdateFailed(error)));
            assert(upgrade_trace(n1, w) =~= way_to_code(port, w) + rest);
        },
    }
}

/// Whether an upgrade does any of this work from `n` on in this world.
pub open spec fn does(n: UpgradeNext, w: UpgradeWorld, work: spec_fn(UpgradeNext) -> bool) -> bool {
    exists|i: int| 0 <= i < upgrade_trace(n, w).len() && work(#[trigger] upgrade_trace(n, w)[i])
}

/// Whether a piece of work concerns the service on another port than this.
pub open spec fn elsewhere(n: UpgradeNext, port: u16) -> bool {
    match n {
        UpgradeNext::Start(p, _) => p != port,
        UpgradeNext::Await(p, _) => p != port,
        UpgradeNext::LookForServer(p, _) => p != port,
        _ => false,
    }
}

/// The port that is served before an upgrade is the one that is started, waited
/// for and looked at.
pub proof fn upgrade_stays_on_its_port(port: u16, w: UpgradeWorld)
    ensures
        !does(upgrade_start(port), w, |n: UpgradeNext| elsewhere(n, port)),
{
    upgrade_goes(port, w);
    let t = upgrade_trace(upgrade_start(port), w);
    let a = way_to_code(port, w);
    let b = way_to_build(port, w);
    assert forall|i: int| 0 <= i < t.len() implies !elsewhere(#[trigger] t[i], port) by {
        if i < a.len() {
            assert(t[i] == a[i]);
        } else if i < a.len() + b.len() {
            assert(t[i] == b[i - a.len()]);
        } else {
            assert(t[i] == way_to_page(port, w)[i - a.len() - b.len()]);
        }
    }
}

/// The service is restarted where the code was refreshed, installed and built,
/// and is left alone where any of that failed: it is neither stopped nor
/// started then.
pub proof fn only_built_code_is_served(port: u16, w: UpgradeWorld)
    ensures
        does(upgrade_start(port), w, |n: UpgradeNext| n is Stop) == (has_code(w) && w.build is Ok),
        does(upgrade_start(port), w, |n: UpgradeNext| n is Start) == (has_code(w)
            && w.build is Ok),
{
    upgrade_goes(port, w);
    let t = upgrade_trace(upgrade_start(port), w);
    let a = way_to_code(port, w);
    let b = way_to_build(port, w);
    if has_code(w) && w.build is Ok {
        let c = way_to_page(port, w);
        assert(t[(a.len() + b.len() + 1) as int] == c[1]);
        assert(t[(a.len() + b.len() + 2) as int] == c[2]);
    } else {
        assert forall|i: int| 0 <= i < t.len() implies !(#[trigger] t[i] is Stop || t[i] is Start) by {
            if i < a.len() {
                assert(t[i] == a[i]);
            } else {
                assert(t[i] == b[i - a.len()]);
            }
        }
    }
}

/// The service of the shell is stopped right before a new one is started.
pub proof fn stops_before_it_starts(port: u16, w: UpgradeWorld, i: int)
    requires
        0 <= i < upgrade_trace(upgrade_start(port), w).len(),
        upgrade_trace(upgrade_start(port), w)[i] is Start,
    ensures
        i > 0,
        upgrade_trace(upgrade_start(port), w)[i - 1] is Stop,
{
    upgrade_goes(port, w);
    let t = upgrade_trace(upgrade_start(port), w);
    let a = way_to_code(port, w);
    let b = way_to_build(port, w);
    if i < a.len() {
        assert(t[i] == a[i]);
    } else if i < a.len() + b.len() {
        assert(t[i] == b[i - a.len()]);
    } else {
        let c = way_to_page(port, w);
        let k = i - a.len() - b.len();
        assert(t[i] == c[k]);
        assert(k == 2);
        assert(t[i - 1] == c[k - 1]);
    }
}

} // verus!
