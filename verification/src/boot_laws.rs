//! What holds of every launch, whatever the disk, the network and the service
//! answer.
use crate::boot::{
    BootError, BootFlag, BootLatest, BootNext, BootPort, BootResult, BootRuntime, BootStatus,
    BootText, BootVersions, BootWork,
};
use crate::runtime::{RuntimeError, RuntimeState};
use crate::tools::Platform;
use vstd::prelude::*;

verus! {

/// What is answered during one launch.
pub struct BootWorld {
    /// The bundled pnpm exists.
    pub pnpm: bool,
    /// The bundled node exists.
    pub node: bool,
    /// The port that is set already serves a harness.
    pub served: bool,
    /// The port that is set is free.
    pub free: bool,
    /// The port that the search for another finds.
    pub found: u16,
    /// What becomes of the runtime.
    pub runtime: Result<RuntimeState, RuntimeError>,
    /// The revision of the runtime.
    pub revision: Option<String>,
    /// The dependencies are there.
    pub modules: bool,
    /// What becomes of the installation.
    pub install: Result<(), String>,
    /// What becomes of the build.
    pub build: Result<(), String>,
    /// The service is up once the code is built.
    pub running: bool,
    /// The service is up once it was waited for.
    pub up: bool,
    /// The newest version of the shell.
    pub shell: Option<String>,
    /// The newest revision of the harness.
    pub harness: Option<String>,
}

/// How many answers a launch that waits for work can still take.
pub open spec fn work_rank(k: BootWork) -> nat {
    match k {
        BootWork::Begun { platform, port } => 29,
        BootWork::PortChosen(_) => 23,
        BootWork::VersionShown { port, state } => 21,
        BootWork::Installing { port, revision } => 18,
        BootWork::Building { port, revision } => 16,
        BootWork::Starting(_) => 13,
        BootWork::Started(_) => 12,
        BootWork::Awaited(_) => 11,
        BootWork::Launching(_) => 9,
        BootWork::PluginsAwaited(_) => 8,
        BootWork::Opening(_) => 7,
        BootWork::Opened(_) => 6,
        BootWork::Watched(_) => 5,
        BootWork::BridgeStarted(_) => 2,
        BootWork::PanelShown(_) => 1,
    }
}

/// How many answers a launch that waits for a yes or no can still take.
pub open spec fn flag_rank(k: BootFlag) -> nat {
    match k {
        BootFlag::Pnpm { platform, port } => 28,
        BootFlag::Node { platform, port } => 27,
        BootFlag::ServedAlready(_) => 26,
        BootFlag::Free(_) => 25,
        BootFlag::Modules { port, revision } => 19,
        BootFlag::Running(_) => 14,
        BootFlag::Up(_) => 10,
    }
}

/// How many answers a launch that waits for a result can still take.
pub open spec fn result_rank(k: BootResult) -> nat {
    match k {
        BootResult::Installed { port, revision } => 17,
        BootResult::Built(_) => 15,
    }
}

/// How many answers a launch can still take.
pub open spec fn boot_rank(n: BootNext) -> nat {
    match n {
        BootNext::Pause(k) => work_rank(k),
        BootNext::LookForPnpm(k) => flag_rank(k),
        BootNext::LookForNode(k) => flag_rank(k),
        BootNext::LookForServer(_, k) => flag_rank(k),
        BootNext::LookAtPort(_, k) => flag_rank(k),
        BootNext::FindPort(_, _) => 24,
        BootNext::Report(_, k) => work_rank(k),
        BootNext::EnsureRuntime(_) => 22,
        BootNext::ShowVersion(k) => work_rank(k),
        BootNext::Revision(k) => if k is ToBuild {
            20
        } else {
            4
        },
        BootNext::LookForModules(k) => flag_rank(k),
        BootNext::Install(k) => result_rank(k),
        BootNext::Build(_, k) => result_rank(k),
        BootNext::StartServer(_, k) => work_rank(k),
        BootNext::AwaitServer(_, k) => work_rank(k),
        BootNext::AwaitPlugins(_, k) => work_rank(k),
        BootNext::OpenPage(_, k) => work_rank(k),
        BootNext::WatchPage(k) => work_rank(k),
        BootNext::CheckUpdates(_) => 3,
        BootNext::StartBridge(_, _, k) => work_rank(k),
        BootNext::ShowPanel(k) => work_rank(k),
        BootNext::Finish(_) => 0,
    }
}

/// What is answered to a question of the launch in this world.
pub open spec fn boot_answer(k: BootFlag, w: BootWorld) -> bool {
    match k {
        BootFlag::Pnpm { platform, port } => w.pnpm,
        BootFlag::Node { platform, port } => w.node,
        BootFlag::ServedAlready(_) => w.served,
        BootFlag::Free(_) => w.free,
        BootFlag::Modules { port, revision } => w.modules,
        BootFlag::Running(_) => w.running,
        BootFlag::Up(_) => w.up,
    }
}

/// What a launch does next in this world.
pub open spec fn boot_step(n: BootNext, w: BootWorld) -> BootNext {
    match n {
        BootNext::Pause(k) => k.next(),
        BootNext::LookForPnpm(k) => k.next(boot_answer(k, w)),
        BootNext::LookForNode(k) => k.next(boot_answer(k, w)),
        BootNext::LookForServer(_, k) => k.next(boot_answer(k, w)),
        BootNext::LookAtPort(_, k) => k.next(boot_answer(k, w)),
        BootNext::FindPort(_, k) => k.next(w.found),
        BootNext::Report(_, k) => k.next(),
        BootNext::EnsureRuntime(k) => k.next(w.runtime),
        BootNext::ShowVersion(k) => k.next(),
        BootNext::Revision(k) => k.next(w.revision),
        BootNext::LookForModules(k) => k.next(boot_answer(k, w)),
        BootNext::Install(k) => k.next(w.install),
        BootNext::Build(_, k) => k.next(w.build),
        BootNext::StartServer(_, k) => k.next(),
        BootNext::AwaitServer(_, k) => k.next(),
        BootNext::AwaitPlugins(_, k) => k.next(),
        BootNext::OpenPage(_, k) => k.next(),
        BootNext::WatchPage(k) => k.next(),
        BootNext::CheckUpdates(k) => k.next(w.shell, w.harness),
        BootNext::StartBridge(_, _, k) => k.next(),
        BootNext::ShowPanel(k) => k.next(),
        BootNext::Finish(_) => n,
    }
}

proof fn work_ends(k: BootWork)
    ensures
        boot_rank(k.next()) < work_rank(k),
{
}

proof fn flag_ends(k: BootFlag, yes: bool)
    ensures
        boot_rank(k.next(yes)) < flag_rank(k),
{
}

proof fn result_ends(k: BootResult, result: Result<(), String>)
    ensures
        boot_rank(k.next(result)) < result_rank(k),
{
}

/// Every answer brings a launch nearer to its end.
pub proof fn boot_ends(n: BootNext, w: BootWorld)
    requires
        !(n is Finish),
    ensures
        boot_rank(boot_step(n, w)) < boot_rank(n),
{
    match n {
        BootNext::Pause(k) => work_ends(k),
        BootNext::LookForPnpm(k) => flag_ends(k, boot_answer(k, w)),
        BootNext::LookForNode(k) => flag_ends(k, boot_answer(k, w)),
        BootNext::LookForServer(_, k) => flag_ends(k, boot_answer(k, w)),
        BootNext::LookAtPort(_, k) => flag_ends(k, boot_answer(k, w)),
        BootNext::FindPort(_, _) => {},
        BootNext::Report(_, k) => work_ends(k),
        BootNext::EnsureRuntime(_) => {},
        BootNext::ShowVersion(k) => work_ends(k),
        BootNext::Revision(_) => {},
        BootNext::LookForModules(k) => flag_ends(k, boot_answer(k, w)),
        BootNext::Install(k) => result_ends(k, w.install),
        BootNext::Build(_, k) => result_ends(k, w.build),
        BootNext::StartServer(_, k) => work_ends(k),
        BootNext::AwaitServer(_, k) => work_ends(k),
        BootNext::AwaitPlugins(_, k) => work_ends(k),
        BootNext::OpenPage(_, k) => work_ends(k),
        BootNext::WatchPage(k) => work_ends(k),
        BootNext::CheckUpdates(_) => {},
        BootNext::StartBridge(_, _, k) => work_ends(k),
        BootNext::ShowPanel(k) => work_ends(k),
        BootNext::Finish(_) => {},
    }
}

/// Whether a launch does any of this work from `n` on in this world.
pub open spec fn does(n: BootNext, w: BootWorld, work: spec_fn(BootNext) -> bool) -> bool
    decreases boot_rank(n),
{
    if n is Finish {
        work(n)
    } else {
        proof {
            boot_ends(n, w);
        }
        work(n) || does(boot_step(n, w), w, work)
    }
}

/// What a launch comes to from `n` on in this world.
pub open spec fn boot_outcome_from(n: BootNext, w: BootWorld) -> Result<u16, BootError>
    decreases boot_rank(n),
{
    match n {
        BootNext::Finish(result) => result,
        _ => {
            proof {
                boot_ends(n, w);
            }
            boot_outcome_from(boot_step(n, w), w)
        },
    }
}

/// The port that a launch uses: the one that is set where it serves a harness
/// already or is free, else the one that was found.
pub open spec fn boot_port(port: u16, w: BootWorld) -> u16 {
    if w.served || w.free {
        port
    } else {
        w.found
    }
}

/// Whether the dependencies are installed.
pub open spec fn installs(w: BootWorld) -> bool {
    w.runtime != Ok::<RuntimeState, RuntimeError>(RuntimeState::Unchanged) || !w.modules
}

/// Whether the code gets built.
pub open spec fn gets_built(w: BootWorld) -> bool {
    w.pnpm && w.node && w.runtime is Ok && (installs(w) ==> w.install is Ok) && w.build is Ok
}

/// What a launch comes to.
pub open spec fn boot_outcome(platform: Platform, port: u16, w: BootWorld) -> Result<
    u16,
    BootError,
> {
    if !w.pnpm || !w.node {
        Err(BootError::ToolsMissing(platform))
    } else {
        match (w.runtime, w.install, w.build) {
            (Err(error), _, _) => Err(BootError::Runtime(error)),
            (_, Err(error), _) if installs(w) => Err(BootError::Install(error)),
            (_, _, Err(error)) => Err(BootError::Build(error)),
            _ => if w.up {
                Ok(boot_port(port, w))
            } else {
                Err(BootError::NotUp)
            },
        }
    }
}

// The way of a launch in four stretches: to the runtime, to the build, to the
// service, and to the open page.

spec fn to_runtime(
    platform: Platform,
    port: u16,
    w: BootWorld,
    work: spec_fn(BootNext) -> bool,
) -> bool {
    let missing = BootNext::Finish(Err(BootError::ToolsMissing(platform)));
    ||| work(BootNext::Pause(BootWork::Begun { platform, port }))
    ||| work(BootNext::LookForPnpm(BootFlag::Pnpm { platform, port }))
    ||| !w.pnpm && work(missing)
    ||| w.pnpm && work(BootNext::LookForNode(BootFlag::Node { platform, port }))
    ||| w.pnpm && !w.node && work(missing)
    ||| w.pnpm && w.node && {
        ||| work(BootNext::LookForServer(port, BootFlag::ServedAlready(port)))
        ||| !w.served && work(BootNext::LookAtPort(port, BootFlag::Free(port)))
        ||| !w.served && !w.free && {
            ||| work(BootNext::FindPort(crate::boot::port_behind(port), BootPort {  }))
            ||| work(
                BootNext::Report(BootStatus::PortTaken(w.found), BootWork::PortChosen(w.found)),
            )
        }
    }
}

spec fn to_build(port: u16, w: BootWorld, work: spec_fn(BootNext) -> bool) -> bool {
    let revision = w.revision;
    match w.runtime {
        Err(error) => {
            ||| work(BootNext::EnsureRuntime(BootRuntime { port }))
            ||| work(BootNext::Finish(Err(BootError::Runtime(error))))
        },
        Ok(state) => {
            ||| work(BootNext::EnsureRuntime(BootRuntime { port }))
            ||| work(BootNext::ShowVersion(BootWork::VersionShown { port, state }))
            ||| work(BootNext::Revision(BootText::ToBuild { port, state }))
            ||| state == RuntimeState::Unchanged && work(
                BootNext::LookForModules(BootFlag::Modules { port, revision }),
            )
            ||| installs(w) && {
                ||| work(crate::boot::installing(port, revision))
                ||| work(BootNext::Install(BootResult::Installed { port, revision }))
                ||| match w.install {
                    Err(error) => work(BootNext::Finish(Err(BootError::Install(error)))),
                    Ok(_) => false,
                }
            }
        },
    }
}

spec fn to_service(port: u16, w: BootWorld, work: spec_fn(BootNext) -> bool) -> bool {
    ||| work(crate::boot::building(port, w.revision))
    ||| work(BootNext::Build(w.revision, BootResult::Built(port)))
    ||| match w.build {
        Err(error) => work(BootNext::Finish(Err(BootError::Build(error)))),
        Ok(_) => {
            ||| work(BootNext::LookForServer(port, BootFlag::Running(port)))
            ||| !w.running && work(BootNext::Report(BootStatus::Starting, BootWork::Starting(port)))
            ||| !w.running && work(BootNext::StartServer(port, BootWork::Started(port)))
        },
    }
}

spec fn to_page(port: u16, w: BootWorld, work: spec_fn(BootNext) -> bool) -> bool {
    ||| work(BootNext::AwaitServer(port, BootWork::Awaited(port)))
    ||| work(BootNext::LookForServer(port, BootFlag::Up(port)))
    ||| !w.up && work(BootNext::Finish(Err(BootError::NotUp)))
    ||| w.up && {
        ||| work(BootNext::Report(BootStatus::Launching, BootWork::Launching(port)))
        ||| work(BootNext::AwaitPlugins(port, BootWork::PluginsAwaited(port)))
        ||| work(BootNext::Report(BootStatus::Opening, BootWork::Opening(port)))
        ||| work(BootNext::OpenPage(port, BootWork::Opened(port)))
        ||| work(BootNext::WatchPage(BootWork::Watched(port)))
        ||| work(BootNext::Revision(BootText::ToShow(port)))
        ||| work(BootNext::CheckUpdates(BootVersions { port, current: w.revision }))
        ||| work(
            BootNext::StartBridge(
                port,
                BootLatest {
                    harness_current: w.revision,
                    shell_latest: w.shell,
                    harness_latest: w.harness,
                },
                BootWork::BridgeStarted(port),
            ),
        )
        ||| work(BootNext::ShowPanel(BootWork::PanelShown(port)))
        ||| work(BootNext::Finish(Ok(port)))
    }
}

proof fn way_to_runtime(
    platform: Platform,
    port: u16,
    w: BootWorld,
    work: spec_fn(BootNext) -> bool,
)
    ensures
        does(crate::boot::boot_start(platform, port), w, work) == (to_runtime(
            platform,
            port,
            w,
            work,
        ) || w.pnpm && w.node && does(
            BootNext::EnsureRuntime((BootRuntime { port: boot_port(port, w) })),
            w,
            work,
        )),
{
    reveal_with_fuel(does, 8);
}

proof fn way_to_build(port: u16, w: BootWorld, work: spec_fn(BootNext) -> bool)
    ensures
        does(BootNext::EnsureRuntime((BootRuntime { port })), w, work) == (to_build(port, w, work)
            || w.runtime is Ok && (installs(w) ==> w.install is Ok) && does(
            crate::boot::building(port, w.revision),
            w,
            work,
        )),
{
    reveal_with_fuel(does, 7);
}

proof fn way_to_service(port: u16, w: BootWorld, work: spec_fn(BootNext) -> bool)
    ensures
        does(crate::boot::building(port, w.revision), w, work) == (to_service(port, w, work)
            || w.build is Ok && does(
            BootNext::AwaitServer(port, BootWork::Awaited(port)),
            w,
            work,
        )),
{
    reveal_with_fuel(does, 6);
}

proof fn way_to_page(port: u16, w: BootWorld, work: spec_fn(BootNext) -> bool)
    ensures
        does(BootNext::AwaitServer(port, BootWork::Awaited(port)), w, work) == to_page(
            port,
            w,
            work,
        ),
{
    reveal_with_fuel(does, 13);
}

proof fn whole_way(platform: Platform, port: u16, w: BootWorld, work: spec_fn(BootNext) -> bool)
    ensures
        does(crate::boot::boot_start(platform, port), w, work) == {
            let p = boot_port(port, w);
            let prepared = w.pnpm && w.node && w.runtime is Ok && (installs(w) ==> w.install is Ok);
            ||| to_runtime(platform, port, w, work)
            ||| w.pnpm && w.node && to_build(p, w, work)
            ||| prepared && to_service(p, w, work)
            ||| gets_built(w) && to_page(p, w, work)
        },
{
    let p = boot_port(port, w);
    way_to_runtime(platform, port, w, work);
    way_to_build(p, w, work);
    way_to_service(p, w, work);
    way_to_page(p, w, work);
}

proof fn ends_as_told(n: BootNext, w: BootWorld, result: Result<u16, BootError>)
    requires
        does(n, w, |m: BootNext| m == BootNext::Finish(result)),
    ensures
        boot_outcome_from(n, w) == result,
    decreases boot_rank(n),
{
    if !(n is Finish) {
        boot_ends(n, w);
        ends_as_told(boot_step(n, w), w, result);
    }
}

/// A launch comes to [`boot_outcome`]: what the flow decides step by step is
/// what the answers call for as a whole.
pub proof fn boot_comes_to(platform: Platform, port: u16, w: BootWorld)
    ensures
        boot_outcome_from(crate::boot::boot_start(platform, port), w) == boot_outcome(
            platform,
            port,
            w,
        ),
{
    let result = boot_outcome(platform, port, w);
    whole_way(platform, port, w, |m: BootNext| m == BootNext::Finish(result));
    ends_as_told(crate::boot::boot_start(platform, port), w, result);
}

/// A service of its own is started where the code is built and no service is up
/// yet, and nowhere else: one that the user started is left as it is.
pub proof fn starts_only_what_is_missing(platform: Platform, port: u16, w: BootWorld)
    ensures
        does(
            crate::boot::boot_start(platform, port),
            w,
            |n: BootNext| n is StartServer,
        ) == (gets_built(w) && !w.running),
{
    whole_way(platform, port, w, |n: BootNext| n is StartServer);
}

/// The page is opened where the launch succeeds, so only once the service is
/// up, and nowhere else.
pub proof fn opens_only_what_is_up(platform: Platform, port: u16, w: BootWorld)
    ensures
        does(crate::boot::boot_start(platform, port), w, |n: BootNext| n is OpenPage) == (
        gets_built(w) && w.up),
{
    whole_way(platform, port, w, |n: BootNext| n is OpenPage);
}

/// The dependencies are installed where the code is new or they are missing,
/// and nowhere else.
pub proof fn installs_what_changed(platform: Platform, port: u16, w: BootWorld)
    ensures
        does(crate::boot::boot_start(platform, port), w, |n: BootNext| n is Install) == (w.pnpm
            && w.node && w.runtime is Ok && installs(w)),
{
    whole_way(platform, port, w, |n: BootNext| n is Install);
}

/// What is built is the revision that the runtime is at.
pub proof fn builds_the_revision(platform: Platform, port: u16, w: BootWorld)
    ensures
        !does(
            crate::boot::boot_start(platform, port),
            w,
            |n: BootNext| n matches BootNext::Build(revision, _) && revision != w.revision,
        ),
{
    whole_way(
        platform,
        port,
        w,
        |n: BootNext| n matches BootNext::Build(revision, _) && revision != w.revision,
    );
}

/// Whether a piece of work concerns the service on another port than this.
pub open spec fn elsewhere(n: BootNext, port: u16) -> bool {
    match n {
        BootNext::StartServer(p, _) => p != port,
        BootNext::AwaitServer(p, _) => p != port,
        BootNext::AwaitPlugins(p, _) => p != port,
        BootNext::OpenPage(p, _) => p != port,
        BootNext::StartBridge(p, _, _) => p != port,
        BootNext::LookForServer(p, k) => !(k is ServedAlready) && p != port,
        _ => false,
    }
}

/// Once the port is chosen, it is the one that is served, waited for and
/// opened.
pub proof fn one_port_is_served(platform: Platform, port: u16, w: BootWorld)
    ensures
        !does(
            crate::boot::boot_start(platform, port),
            w,
            |n: BootNext| elsewhere(n, boot_port(port, w)),
        ),
{
    whole_way(platform, port, w, |n: BootNext| elsewhere(n, boot_port(port, w)));
}

/// Another port is looked for only where the one that is set serves no harness
/// and is not free, and only behind it, as far as there are ports behind it.
pub proof fn foreign_ports_are_left(platform: Platform, port: u16, w: BootWorld)
    ensures
        does(crate::boot::boot_start(platform, port), w, |n: BootNext| n is FindPort) == (w.pnpm
            && w.node && !w.served && !w.free),
        !does(
            crate::boot::boot_start(platform, port),
            w,
            |n: BootNext|
                n matches BootNext::FindPort(from, _) && from != (if port < 65535 {
                    port + 1
                } else {
                    65535
                }),
        ),
{
    whole_way(platform, port, w, |n: BootNext| n is FindPort);
    whole_way(
        platform,
        port,
        w,
        |n: BootNext|
            n matches BootNext::FindPort(from, _) && from != (if port < 65535 {
                port + 1
            } else {
                65535
            }),
    );
}

} // verus!
