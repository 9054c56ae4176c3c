//! The launch: from the first look at the bundled tools to the open page.
use crate::runtime::{RuntimeError, RuntimeState};
use crate::text::push_decimal;
use crate::tools::Platform;
use vstd::prelude::*;

verus! {

/// How long the launch gives its first page to load.
pub const PAGE_MILLIS: u64 = 1200;

/// A status line of the launch.
#[derive(Clone, Copy, PartialEq, Eq, Structural, Debug)]
pub enum BootStatus {
    /// The port was taken; this one is used.
    PortTaken(u16),
    /// The dependencies are being installed.
    Installing,
    /// The code is being built.
    Building,
    /// The service is being started.
    Starting,
    /// The plugins of the service are being waited for.
    Launching,
    /// The page is being opened.
    Opening,
}

/// Why the launch failed.
#[derive(Debug)]
pub enum BootError {
    /// The bundled tools for this platform are not there.
    ToolsMissing(Platform),
    /// The runtime could not be prepared.
    Runtime(RuntimeError),
    /// The dependencies could not be installed, for the reason given.
    Install(String),
    /// The code could not be built, for the reason given.
    Build(String),
    /// The service did not come up.
    NotUp,
}

/// The next piece of work of the launch.
#[derive(Debug)]
pub enum BootNext {
    /// Wait for [`PAGE_MILLIS`].
    Pause(BootWork),
    /// See whether the bundled pnpm exists.
    LookForPnpm(BootFlag),
    /// See whether the bundled node exists.
    LookForNode(BootFlag),
    /// See whether the service is up on this port.
    LookForServer(u16, BootFlag),
    /// See whether this port is free.
    LookAtPort(u16, BootFlag),
    /// Look for a free port from this one on.
    FindPort(u16, BootPort),
    /// Show a status line.
    Report(BootStatus, BootWork),
    /// Prepare the runtime.
    EnsureRuntime(BootRuntime),
    /// Show the versions of the harness and of the shell.
    ShowVersion(BootWork),
    /// Read the revision of the runtime.
    Revision(BootText),
    /// See whether the dependencies are there.
    LookForModules(BootFlag),
    /// Install the dependencies.
    Install(BootResult),
    /// Build the code at this revision.
    Build(Option<String>, BootResult),
    /// Start the service on this port and keep it as the shell's own.
    StartServer(u16, BootWork),
    /// Wait for the service on this port.
    AwaitServer(u16, BootWork),
    /// Wait for the plugins of the service on this port.
    AwaitPlugins(u16, BootWork),
    /// Open the page of the service on this port.
    OpenPage(u16, BootWork),
    /// Watch over the page.
    WatchPage(BootWork),
    /// Look up the newest versions of the shell and of the harness.
    CheckUpdates(BootVersions),
    /// Start the bridge of the update panel for the service on this port, with
    /// these versions.
    StartBridge(u16, BootLatest, BootWork),
    /// Put the update panel into the page.
    ShowPanel(BootWork),
    /// The launch is over: the page is served on this port.
    Finish(Result<u16, BootError>),
}

/// The versions that the update panel begins with, as far as they are known.
#[derive(Debug)]
pub struct BootLatest {
    pub harness_current: Option<String>,
    pub shell_latest: Option<String>,
    pub harness_latest: Option<String>,
}

/// The launch while it waits for work without a result.
#[derive(Debug)]
pub enum BootWork {
    Begun { platform: Platform, port: u16 },
    PortChosen(u16),
    VersionShown { port: u16, state: RuntimeState },
    Installing { port: u16, revision: Option<String> },
    Building { port: u16, revision: Option<String> },
    Starting(u16),
    Started(u16),
    Awaited(u16),
    Launching(u16),
    PluginsAwaited(u16),
    Opening(u16),
    Opened(u16),
    Watched(u16),
    BridgeStarted(u16),
    PanelShown(u16),
}

/// The launch while it waits for a yes or no.
#[derive(Debug)]
pub enum BootFlag {
    Pnpm { platform: Platform, port: u16 },
    Node { platform: Platform, port: u16 },
    ServedAlready(u16),
    Free(u16),
    Modules { port: u16, revision: Option<String> },
    Running(u16),
    Up(u16),
}

/// The launch while it waits for a port.
#[derive(Clone, Copy, PartialEq, Eq, Structural, Debug)]
pub struct BootPort {}

/// The launch while it waits for the runtime.
#[derive(Clone, Copy, PartialEq, Eq, Structural, Debug)]
pub struct BootRuntime {
    pub port: u16,
}

/// The launch while it waits for the revision of the runtime.
#[derive(Clone, Copy, PartialEq, Eq, Structural, Debug)]
pub enum BootText {
    ToBuild { port: u16, state: RuntimeState },
    ToShow(u16),
}

/// The launch while it waits for the newest versions.
#[derive(Debug)]
pub struct BootVersions {
    pub port: u16,
    pub current: Option<String>,
}

/// The launch while it waits for work that can fail with a message.
#[derive(Debug)]
pub enum BootResult {
    Installed { port: u16, revision: Option<String> },
    Built(u16),
}

/// How the launch begins where the service is set to this port.
pub open spec fn boot_start(platform: Platform, port: u16) -> BootNext {
    BootNext::Pause(BootWork::Begun { platform, port })
}

/// Begins the launch.
pub fn run(platform: Platform, port: u16) -> (r: BootNext)
    ensures
        r == boot_start(platform, port),
{
    BootNext::Pause(BootWork::Begun { platform, port })
}

/// The installation of the dependencies.
pub open spec fn installing(port: u16, revision: Option<String>) -> BootNext {
    BootNext::Report(BootStatus::Installing, BootWork::Installing { port, revision })
}

/// The build of this revision.
pub open spec fn building(port: u16, revision: Option<String>) -> BootNext {
    BootNext::Report(BootStatus::Building, BootWork::Building { port, revision })
}

/// The port behind this one, where there is one.
pub open spec fn port_behind(port: u16) -> u16 {
    if port < u16::MAX {
        (port + 1) as u16
    } else {
        port
    }
}

impl BootWork {
    /// What follows the work.
    pub open spec fn next(self) -> BootNext {
        match self {
            BootWork::Begun { platform, port } => BootNext::LookForPnpm(
                BootFlag::Pnpm { platform, port },
            ),
            BootWork::PortChosen(port) => BootNext::EnsureRuntime(BootRuntime { port }),
            BootWork::VersionShown { port, state } => BootNext::Revision(
                BootText::ToBuild { port, state },
            ),
            BootWork::Installing { port, revision } => BootNext::Install(
                BootResult::Installed { port, revision },
            ),
            BootWork::Building { port, revision } => BootNext::Build(
                revision,
                BootResult::Built(port),
            ),
            BootWork::Starting(port) => BootNext::StartServer(port, BootWork::Started(port)),
            BootWork::Started(port) => BootNext::AwaitServer(port, BootWork::Awaited(port)),
            BootWork::Awaited(port) => BootNext::LookForServer(port, BootFlag::Up(port)),
            BootWork::Launching(port) => BootNext::AwaitPlugins(
                port,
                BootWork::PluginsAwaited(port),
            ),
            BootWork::PluginsAwaited(port) => BootNext::Report(
                BootStatus::Opening,
                BootWork::Opening(port),
            ),
            BootWork::Opening(port) => BootNext::OpenPage(port, BootWork::Opened(port)),
            BootWork::Opened(port) => BootNext::WatchPage(BootWork::Watched(port)),
            BootWork::Watched(port) => BootNext::Revision(BootText::ToShow(port)),
            BootWork::BridgeStarted(port) => BootNext::ShowPanel(BootWork::PanelShown(port)),
            BootWork::PanelShown(port) => BootNext::Finish(Ok(port)),
        }
    }

    /// Goes on once the work is done.
    pub fn resume(self) -> (r: BootNext)
        ensures
            r == self.next(),
    {
        match self {
            BootWork::Begun { platform, port } => BootNext::LookForPnpm(
                BootFlag::Pnpm { platform, port },
            ),
            BootWork::PortChosen(port) => BootNext::EnsureRuntime(BootRuntime { port }),
            BootWork::VersionShown { port, state } => BootNext::Revision(
                BootText::ToBuild { port, state },
            ),
            BootWork::Installing { port, revision } => BootNext::Install(
                BootResult::Installed { port, revision },
            ),
            BootWork::Building { port, revision } => BootNext::Build(
                revision,
                BootResult::Built(port),
            ),
            BootWork::Starting(port) => BootNext::StartServer(port, BootWork::Started(port)),
            BootWork::Started(port) => BootNext::AwaitServer(port, BootWork::Awaited(port)),
            BootWork::Awaited(port) => BootNext::LookForServer(port, BootFlag::Up(port)),
            BootWork::Launching(port) => BootNext::AwaitPlugins(
                port,
                BootWork::PluginsAwaited(port),
            ),
            BootWork::PluginsAwaited(port) => BootNext::Report(
                BootStatus::Opening,
                BootWork::Opening(port),
            ),
            BootWork::Opening(port) => BootNext::OpenPage(port, BootWork::Opened(port)),
            BootWork::Opened(port) => BootNext::WatchPage(BootWork::Watched(port)),
            BootWork::Watched(port) => BootNext::Revision(BootText::ToShow(port)),
            BootWork::BridgeStarted(port) => BootNext::ShowPanel(BootWork::PanelShown(port)),
            BootWork::PanelShown(port) => BootNext::Finish(Ok(port)),
        }
    }
}

impl BootFlag {
    /// What follows the answer. A port that already serves a harness is used as
    /// it is, and so is a free one; any other is given up for the first free
    /// one behind it.
    pub open spec fn next(self, yes: bool) -> BootNext {
        match self {
            BootFlag::Pnpm { platform, port } => if yes {
                BootNext::LookForNode(BootFlag::Node { platform, port })
            } else {
                BootNext::Finish(Err(BootError::ToolsMissing(platform)))
            },
            BootFlag::Node { platform, port } => if yes {
                BootNext::LookForServer(port, BootFlag::ServedAlready(port))
            } else {
                BootNext::Finish(Err(BootError::ToolsMissing(platform)))
            },
            BootFlag::ServedAlready(port) => if yes {
                BootNext::EnsureRuntime(BootRuntime { port })
            } else {
                BootNext::LookAtPort(port, BootFlag::Free(port))
            },
            BootFlag::Free(port) => if yes {
                BootNext::EnsureRuntime(BootRuntime { port })
            } else {
                BootNext::FindPort(port_behind(port), BootPort {  })
            },
            BootFlag::Modules { port, revision } => if yes {
                building(port, revision)
            } else {
                installing(port, revision)
            },
            BootFlag::Running(port) => if yes {
                BootNext::AwaitServer(port, BootWork::Awaited(port))
            } else {
                BootNext::Report(BootStatus::Starting, BootWork::Starting(port))
            },
            BootFlag::Up(port) => if yes {
                BootNext::Report(BootStatus::Launching, BootWork::Launching(port))
            } else {
                BootNext::Finish(Err(BootError::NotUp))
            },
        }
    }

    /// Goes on with the answer.
    pub fn resume(self, yes: bool) -> (r: BootNext)
        ensures
            r == self.next(yes),
    {
        match self {
            BootFlag::Pnpm { platform, port } => if yes {
                BootNext::LookForNode(BootFlag::Node { platform, port })
            } else {
                BootNext::Finish(Err(BootError::ToolsMissing(platform)))
            },
            BootFlag::Node { platform, port } => if yes {
                BootNext::LookForServer(port, BootFlag::ServedAlready(port))
            } else {
                BootNext::Finish(Err(BootError::ToolsMissing(platform)))
            },
            BootFlag::ServedAlready(port) => if yes {
                BootNext::EnsureRuntime(BootRuntime { port })
            } else {
                BootNext::LookAtPort(port, BootFlag::Free(port))
            },
            BootFlag::Free(port) => if yes {
                BootNext::EnsureRuntime(BootRuntime { port })
            } else {
                BootNext::FindPort(
                    if port < u16::MAX {
                        port + 1
                    } else {
                        port
                    },
                    BootPort {  },
                )
            },
            BootFlag::Modules { port, revision } => if yes {
                BootNext::Report(BootStatus::Building, BootWork::Building { port, revision })
            } else {
                BootNext::Report(BootStatus::Installing, BootWork::Installing { port, revision })
            },
            BootFlag::Running(port) => if yes {
                BootNext::AwaitServer(port, BootWork::Awaited(port))
            } else {
                BootNext::Report(BootStatus::Starting, BootWork::Starting(port))
            },
            BootFlag::Up(port) => if yes {
                BootNext::Report(BootStatus::Launching, BootWork::Launching(port))
            } else {
                BootNext::Finish(Err(BootError::NotUp))
            },
        }
    }
}

impl BootPort {
    /// What follows the search for a port.
    pub open spec fn next(self, port: u16) -> BootNext {
        BootNext::Report(BootStatus::PortTaken(port), BootWork::PortChosen(port))
    }

    /// Goes on with the port that was found.
    pub fn resume(self, port: u16) -> (r: BootNext)
        ensures
            r == self.next(port),
    {
        BootNext::Report(BootStatus::PortTaken(port), BootWork::PortChosen(port))
    }
}

impl BootRuntime {
    /// What follows the runtime.
    pub open spec fn next(self, result: Result<RuntimeState, RuntimeError>) -> BootNext {
        match result {
            Ok(state) => BootNext::ShowVersion(BootWork::VersionShown { port: self.port, state }),
            Err(error) => BootNext::Finish(Err(BootError::Runtime(error))),
        }
    }

    /// Goes on with what became of the runtime.
    pub fn resume(self, result: Result<RuntimeState, RuntimeError>) -> (r: BootNext)
        ensures
            r == self.next(result),
    {
        match result {
            Ok(state) => BootNext::ShowVersion(BootWork::VersionShown { port: self.port, state }),
            Err(error) => BootNext::Finish(Err(BootError::Runtime(error))),
        }
    }
}

impl BootText {
    /// What follows the revision: code that has changed gets its dependencies
    /// installed, other code only where they are missing.
    pub open spec fn next(self, revision: Option<String>) -> BootNext {
        match self {
            BootText::ToBuild { port, state } => if state != RuntimeState::Unchanged {
                installing(port, revision)
            } else {
                BootNext::LookForModules(BootFlag::Modules { port, revision })
            },
            BootText::ToShow(port) => BootNext::CheckUpdates(
                BootVersions { port, current: revision },
            ),
        }
    }

    /// Goes on with the revision, where it is known.
    pub fn resume(self, revision: Option<String>) -> (r: BootNext)
        ensures
            r == self.next(revision),
    {
        match self {
            BootText::ToBuild { port, state } => if state != RuntimeState::Unchanged {
                BootNext::Report(BootStatus::Installing, BootWork::Installing { port, revision })
            } else {
                BootNext::LookForModules(BootFlag::Modules { port, revision })
            },
            BootText::ToShow(port) => BootNext::CheckUpdates(
                BootVersions { port, current: revision },
            ),
        }
    }
}

impl BootVersions {
    /// What follows the newest versions.
    pub open spec fn next(self, shell: Option<String>, harness: Option<String>) -> BootNext {
        BootNext::StartBridge(
            self.port,
            BootLatest {
                harness_current: self.current,
                shell_latest: shell,
                harness_latest: harness,
            },
            BootWork::BridgeStarted(self.port),
        )
    }

    /// Goes on with the newest versions of the shell and of the harness, where
    /// they are known.
    pub fn resume(self, shell: Option<String>, harness: Option<String>) -> (r: BootNext)
        ensures
            r == self.next(shell, harness),
    {
        BootNext::StartBridge(
            self.port,
            BootLatest {
                harness_current: self.current,
                shell_latest: shell,
                harness_latest: harness,
            },
            BootWork::BridgeStarted(self.port),
        )
    }
}

impl BootResult {
    /// What follows the result.
    pub open spec fn next(self, result: Result<(), String>) -> BootNext {
        match (self, result) {
            (BootResult::Installed { port, revision }, Ok(())) => building(port, revision),
            (BootResult::Installed { port, revision }, Err(error)) => BootNext::Finish(
                Err(BootError::Install(error)),
            ),
            (BootResult::Built(port), Ok(())) => BootNext::LookForServer(
                port,
                BootFlag::Running(port),
            ),
            (BootResult::Built(port), Err(error)) => BootNext::Finish(
                Err(BootError::Build(error)),
            ),
        }
    }

    /// Goes on with the result.
    pub fn resume(self, result: Result<(), String>) -> (r: BootNext)
        ensures
            r == self.next(result),
    {
        match self {
            BootResult::Installed { port, revision } => match result {
                Ok(()) => BootNext::Report(
                    BootStatus::Building,
                    BootWork::Building { port, revision },
                ),
                Err(error) => BootNext::Finish(Err(BootError::Install(error))),
            },
            BootResult::Built(port) => match result {
                Ok(()) => BootNext::LookForServer(port, BootFlag::Running(port)),
                Err(error) => BootNext::Finish(Err(BootError::Build(error))),
            },
        }
    }
}

// --- wording -------------------------------------------------------------------

/// The status line while the bundled snapshot is unpacked.
pub fn unpacking_text(percent: u32) -> (r: String)
    ensures
        r@ == "正在使用内置代码初始化… "@ + crate::text::decimal(percent as nat) + "%"@,
{
    let mut out = "正在使用内置代码初始化… ".to_owned();
    push_decimal(&mut out, percent as u64);
    out.append("%");
    out
}

impl BootStatus {
    /// The status line.
    pub open spec fn line(self) -> Seq<char> {
        match self {
            BootStatus::PortTaken(port) => "端口 "@ + crate::text::decimal(port as nat)
                + " 被占用，已切换到 "@ + crate::text::decimal(port as nat),
            BootStatus::Installing => "正在安装依赖（首次可能需要几分钟）…"@,
            BootStatus::Building => "正在构建（首次可能需要 10-20 分钟，进度见下方日志）…"@,
            BootStatus::Starting => "正在启动服务…"@,
            BootStatus::Launching => "正在启动 DeepSeek Harness…"@,
            BootStatus::Opening => "正在打开 DeepSeek Harness…"@,
        }
    }

    /// The status line.
    pub fn text(&self) -> (r: String)
        ensures
            r@ == self.line(),
    {
        match self {
            BootStatus::PortTaken(port) => {
                let mut out = "端口 ".to_owned();
                push_decimal(&mut out, *port as u64);
                out.append(" 被占用，已切换到 ");
                push_decimal(&mut out, *port as u64);
                out
            },
            BootStatus::Installing => "正在安装依赖（首次可能需要几分钟）…".to_owned(),
            BootStatus::Building => "正在构建（首次可能需要 10-20 分钟，进度见下方日志）…".to_owned(),
            BootStatus::Starting => "正在启动服务…".to_owned(),
            BootStatus::Launching => "正在启动 DeepSeek Harness…".to_owned(),
            BootStatus::Opening => "正在打开 DeepSeek Harness…".to_owned(),
        }
    }
}

impl BootError {
    /// What the user reads of the error.
    pub open spec fn line(self) -> Seq<char> {
        match self {
            BootError::ToolsMissing(platform) => "运行时组件缺失：未找到 tools/"@ + (
            match platform {
                Platform::Windows => "pnpm.exe"@,
                Platform::Unix => "pnpm"@,
            }) + " 或 tools/node，请重新安装应用"@,
            BootError::Runtime(error) => "准备运行环境失败："@ + error.line(),
            BootError::Install(error) => "安装依赖失败："@ + error@,
            BootError::Build(error) => "构建失败："@ + error@,
            BootError::NotUp => "服务启动超时（120 秒）。请检查网络后重新打开应用"@,
        }
    }

    /// What the user reads of the error.
    pub fn message(&self) -> (r: String)
        ensures
            r@ == self.line(),
    {
        match self {
            BootError::ToolsMissing(platform) => {
                let mut out = "运行时组件缺失：未找到 tools/".to_owned();
                match platform {
                    Platform::Windows => out.append("pnpm.exe"),
                    Platform::Unix => out.append("pnpm"),
                }
                out.append(" 或 tools/node，请重新安装应用");
                out
            },
            BootError::Runtime(error) => {
                let mut out = "准备运行环境失败：".to_owned();
                out.append(error.message().as_str());
                out
            },
            BootError::Install(error) => {
                let mut out = "安装依赖失败：".to_owned();
                out.append(error.as_str());
                out
            },
            BootError::Build(error) => {
                let mut out = "构建失败：".to_owned();
                out.append(error.as_str());
                out
            },
            BootError::NotUp => "服务启动超时（120 秒）。请检查网络后重新打开应用".to_owned(),
        }
    }
}

} // verus!
