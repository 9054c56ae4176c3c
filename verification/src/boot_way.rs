//! The way of a launch, piece by piece.
use crate::boot::{
    BootError, BootFlag, BootLatest, BootNext, BootPort, BootResult, BootRuntime, BootStatus,
    BootText, BootVersions, BootWork,
};
use crate::boot_laws::BootWorld;
use crate::runtime::RuntimeState;
use crate::tools::Platform;
use vstd::prelude::*;

verus! {

/// The work of a launch from `n` on in this world, in order, with its end.
pub open spec fn boot_trace(n: BootNext, w: BootWorld) -> Seq<BootNext>
    decreases crate::boot_laws::boot_rank(n),
{
    if n is Finish {
        seq![n]
    } else {
        proof {
            crate::boot_laws::boot_ends(n, w);
        }
        seq![n] + boot_trace(crate::boot_laws::boot_step(n, w), w)
    }
}

proof fn one_step(n: BootNext, w: BootWorld)
    requires
        !(n is Finish),
    ensures
        boot_trace(n, w) == seq![n] + boot_trace(crate::boot_laws::boot_step(n, w), w),
{
}

/// The work that looks for the bundled tools, up to the end of the launch where
/// one of them is missing.
pub open spec fn tools_way(platform: Platform, port: u16, w: BootWorld) -> Seq<BootNext> {
    let missing = BootNext::Finish(Err(BootError::ToolsMissing(platform)));
    seq![
        BootNext::Pause(BootWork::Begun { platform, port }),
        BootNext::LookForPnpm(BootFlag::Pnpm { platform, port }),
    ] + if !w.pnpm {
        seq![missing]
    } else {
        seq![BootNext::LookForNode(BootFlag::Node { platform, port })] + if !w.node {
            seq![missing]
        } else {
            Seq::empty()
        }
    }
}

/// The work that settles the port: a port that serves a harness or is free is
/// used, and otherwise one is looked for from the next number on.
pub open spec fn port_way(port: u16, w: BootWorld) -> Seq<BootNext> {
    seq![BootNext::LookForServer(port, BootFlag::ServedAlready(port))] + if w.served {
        Seq::empty()
    } else {
        seq![BootNext::LookAtPort(port, BootFlag::Free(port))] + if w.free {
            Seq::empty()
        } else {
            seq![
                BootNext::FindPort(
                    if port < 65535 {
                        (port + 1) as u16
                    } else {
                        65535
                    },
                    BootPort {  },
                ),
                BootNext::Report(BootStatus::PortTaken(w.found), BootWork::PortChosen(w.found)),
            ]
        }
    }
}

/// The work that prepares the runtime.
pub open spec fn runtime_way(port: u16, w: BootWorld) -> Seq<BootNext> {
    seq![BootNext::EnsureRuntime(BootRuntime { port })] + match w.runtime {
        Err(error) => seq![BootNext::Finish(Err(BootError::Runtime(error)))],
        Ok(state) => seq![
            BootNext::ShowVersion(BootWork::VersionShown { port, state }),
            BootNext::Revision(BootText::ToBuild { port, state }),
        ] + if state == RuntimeState::Unchanged {
            seq![BootNext::LookForModules(BootFlag::Modules { port, revision: w.revision })]
        } else {
            Seq::empty()
        },
    }
}

/// The work that installs the dependencies.
pub open spec fn install_way(port: u16, w: BootWorld) -> Seq<BootNext> {
    let revision = w.revision;
    seq![
        BootNext::Report(BootStatus::Installing, BootWork::Installing { port, revision }),
        BootNext::Install(BootResult::Installed { port, revision }),
    ] + match w.install {
        Err(error) => seq![BootNext::Finish(Err(BootError::Install(error)))],
        Ok(_) => Seq::empty(),
    }
}

/// The work that builds the code and starts the service where none is up.
pub open spec fn service_way(port: u16, w: BootWorld) -> Seq<BootNext> {
    let revision = w.revision;
    seq![
        BootNext::Report(BootStatus::Building, BootWork::Building { port, revision }),
        BootNext::Build(revision, BootResult::Built(port)),
    ] + match w.build {
        Err(error) => seq![BootNext::Finish(Err(BootError::Build(error)))],
        Ok(_) => seq![BootNext::LookForServer(port, BootFlag::Running(port))] + if w.running {
            Seq::empty()
        } else {
            seq![
                BootNext::Report(BootStatus::Starting, BootWork::Starting(port)),
                BootNext::StartServer(port, BootWork::Started(port)),
            ]
        },
    }
}

/// The work that waits for the service and opens its page.
pub open spec fn page_way(port: u16, w: BootWorld) -> Seq<BootNext> {
    seq![
        BootNext::AwaitServer(port, BootWork::Awaited(port)),
        BootNext::LookForServer(port, BootFlag::Up(port)),
    ] + if !w.up {
        seq![BootNext::Finish(Err(BootError::NotUp))]
    } else {
        seq![
            BootNext::Report(BootStatus::Launching, BootWork::Launching(port)),
            BootNext::AwaitPlugins(port, BootWork::PluginsAwaited(port)),
            BootNext::Report(BootStatus::Opening, BootWork::Opening(port)),
            BootNext::OpenPage(port, BootWork::Opened(port)),
            BootNext::WatchPage(BootWork::Watched(port)),
            BootNext::Revision(BootText::ToShow(port)),
            BootNext::CheckUpdates(BootVersions { port, current: w.revision }),
            BootNext::StartBridge(
                port,
                BootLatest {
                    harness_current: w.revision,
                    shell_latest: w.shell,
                    harness_latest: w.harness,
                },
                BootWork::BridgeStarted(port),
            ),
            BootNext::ShowPanel(BootWork::PanelShown(port)),
            BootNext::Finish(Ok(port)),
        ]
    }
}

/// The work from the build on.
pub open spec fn way_from_build(port: u16, w: BootWorld) -> Seq<BootNext> {
    service_way(port, w) + if w.build is Ok {
        page_way(port, w)
    } else {
        Seq::empty()
    }
}

/// The work from the runtime on: the dependencies are installed where the code
/// is new or they are missing.
pub open spec fn way_from_runtime(port: u16, w: BootWorld) -> Seq<BootNext> {
    runtime_way(port, w) + match w.runtime {
        Err(_) => Seq::empty(),
        Ok(state) => if state != RuntimeState::Unchanged || !w.modules {
            install_way(port, w) + if w.install is Ok {
                way_from_build(port, w)
            } else {
                Seq::empty()
            }
        } else {
            way_from_build(port, w)
        },
    }
}

/// The whole work of a launch.
pub open spec fn launch_way(platform: Platform, port: u16, w: BootWorld) -> Seq<BootNext> {
    tools_way(platform, port, w) + if w.pnpm && w.node {
        port_way(port, w) + way_from_runtime(
            if w.served || w.free {
                port
            } else {
                w.found
            },
            w,
        )
    } else {
        Seq::empty()
    }
}

proof fn page_goes(port: u16, w: BootWorld)
    ensures
        boot_trace(BootNext::AwaitServer(port, BootWork::Awaited(port)), w) == page_way(port, w),
{
    let way = page_way(port, w);
    one_step(way[0], w);
    one_step(way[1], w);
    assert(crate::boot_laws::boot_step(way[0], w) == way[1]);
    if w.up {
        assert forall|i: int| 1 <= i < 11 implies crate::boot_laws::boot_step(#[trigger] way[i], w)
            == way[i + 1] by {}
        one_step(way[2], w);
        one_step(way[3], w);
        one_step(way[4], w);
        one_step(way[5], w);
        one_step(way[6], w);
        one_step(way[7], w);
        one_step(way[8], w);
        one_step(way[9], w);
        one_step(way[10], w);
    }
    assert(boot_trace(way[0], w) =~= way);
}

proof fn build_goes(port: u16, w: BootWorld)
    ensures
        boot_trace(
            BootNext::Report(
                BootStatus::Building,
                BootWork::Building { port, revision: w.revision },
            ),
            w,
        ) == way_from_build(port, w),
{
    let way = service_way(port, w);
    page_goes(port, w);
    one_step(way[0], w);
    one_step(way[1], w);
    assert(crate::boot_laws::boot_step(way[0], w) == way[1]);
    if w.build is Ok {
        let n = BootNext::LookForServer(port, BootFlag::Running(port));
        one_step(n, w);
        assert(crate::boot_laws::boot_step(way[1], w) == n);
        if !w.running {
            let a = BootNext::Report(BootStatus::Starting, BootWork::Starting(port));
            let b = BootNext::StartServer(port, BootWork::Started(port));
            one_step(a, w);
            one_step(b, w);
            assert(crate::boot_laws::boot_step(n, w) == a);
            assert(crate::boot_laws::boot_step(a, w) == b);
        }
    }
    assert(boot_trace(way[0], w) =~= way_from_build(port, w));
}

proof fn install_goes(port: u16, w: BootWorld)
    ensures
        boot_trace(
            BootNext::Report(
                BootStatus::Installing,
                BootWork::Installing { port, revision: w.revision },
            ),
            w,
        ) == install_way(port, w) + (if w.install is Ok {
            way_from_build(port, w)
        } else {
            Seq::empty()
        }),
{
    let way = install_way(port, w);
    build_goes(port, w);
    one_step(way[0], w);
    one_step(way[1], w);
    assert(crate::boot_laws::boot_step(way[0], w) == way[1]);
    assert(boot_trace(way[0], w) =~= way + (if w.install is Ok {
        way_from_build(port, w)
    } else {
        Seq::empty()
    }));
}

proof fn runtime_goes(port: u16, w: BootWorld)
    ensures
        boot_trace(BootNext::EnsureRuntime((BootRuntime { port })), w) == way_from_runtime(port, w),
{
    let n1 = BootNext::EnsureRuntime(BootRuntime { port });
    install_goes(port, w);
    build_goes(port, w);
    one_step(n1, w);
    if let Ok(state) = w.runtime {
        let n2 = BootNext::ShowVersion(BootWork::VersionShown { port, state });
        let n3 = BootNext::Revision(BootText::ToBuild { port, state });
        let n4 = BootNext::LookForModules(BootFlag::Modules { port, revision: w.revision });
        one_step(n2, w);
        one_step(n3, w);
        one_step(n4, w);
        assert(crate::boot_laws::boot_step(n1, w) == n2);
        assert(crate::boot_laws::boot_step(n2, w) == n3);
    }
    assert(boot_trace(n1, w) =~= way_from_runtime(port, w));
}

proof fn port_goes(port: u16, w: BootWorld)
    ensures
        boot_trace(BootNext::LookForServer(port, BootFlag::ServedAlready(port)), w) == port_way(
            port,
            w,
        ) + way_from_runtime(
            if w.served || w.free {
                port
            } else {
                w.found
            },
            w,
        ),
{
    let n1 = BootNext::LookForServer(port, BootFlag::ServedAlready(port));
    let n2 = BootNext::LookAtPort(port, BootFlag::Free(port));
    runtime_goes(port, w);
    runtime_goes(w.found, w);
    one_step(n1, w);
    one_step(n2, w);
    if !w.served && !w.free {
        let way = port_way(port, w);
        one_step(way[2], w);
        one_step(way[3], w);
        assert(crate::boot_laws::boot_step(n1, w) == n2);
        assert(crate::boot_laws::boot_step(n2, w) == way[2]);
        assert(crate::boot_laws::boot_step(way[2], w) == way[3]);
    }
    assert(boot_trace(n1, w) =~= port_way(port, w) + way_from_runtime(
        if w.served || w.free {
            port
        } else {
            w.found
        },
        w,
    ));
}

/// A launch goes the way that its answers call for, and no other: to the tools,
/// the port, the runtime, the build, the service and the page, with the status
/// lines in their places, and it ends where one of them fails.
pub proof fn boot_goes(platform: Platform, port: u16, w: BootWorld)
    ensures
        boot_trace(crate::boot::boot_start(platform, port), w) == launch_way(platform, port, w),
{
    let n1 = BootNext::Pause(BootWork::Begun { platform, port });
    let n2 = BootNext::LookForPnpm(BootFlag::Pnpm { platform, port });
    let n3 = BootNext::LookForNode(BootFlag::Node { platform, port });
    one_step(n1, w);
    one_step(n2, w);
    one_step(n3, w);
    port_goes(port, w);
    assert(crate::boot_laws::boot_step(n1, w) == n2);
    assert(boot_trace(n1, w) =~= launch_way(platform, port, w));
}

} // verus!
