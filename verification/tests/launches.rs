use dsh_desktop::boot::{run, unpacking_text, BootError, BootFlag, BootNext, BootStatus};
use dsh_desktop::force::ForceError;
use dsh_desktop::runtime::{RuntimeError, RuntimeState};
use dsh_desktop::tools::Platform;
use dsh_desktop::upgrade::{upgrade_harness, UpgradeNext};

struct Machine {
    pnpm: bool,
    node: bool,
    up: Vec<bool>,
    free: bool,
    found: u16,
    runtime: Result<RuntimeState, RuntimeError>,
    modules: bool,
    install: Result<(), String>,
    build: Result<(), String>,
}

fn machine() -> Machine {
    Machine {
        pnpm: true,
        node: true,
        up: vec![false, false, true],
        free: true,
        found: 4000,
        runtime: Ok(RuntimeState::Unchanged),
        modules: true,
        install: Ok(()),
        build: Ok(()),
    }
}

fn launch(port: u16, m: Machine) -> (Vec<String>, Result<u16, BootError>) {
    let mut log: Vec<String> = vec![];
    let mut up = m.up.into_iter();
    let mut runtime = Some(m.runtime);
    let mut next = run(Platform::Unix, port);
    loop {
        next = match next {
            BootNext::Pause(after) => after.resume(),
            BootNext::LookForPnpm(after) => after.resume(m.pnpm),
            BootNext::LookForNode(after) => after.resume(m.node),
            BootNext::LookForServer(port, after) => {
                log.push(format!("look {}", port));
                after.resume(up.next().unwrap())
            }
            BootNext::LookAtPort(_, after) => after.resume(m.free),
            BootNext::FindPort(from, after) => {
                log.push(format!("find {}", from));
                after.resume(m.found)
            }
            BootNext::Report(status, after) => {
                log.push(status.text());
                after.resume()
            }
            BootNext::EnsureRuntime(after) => after.resume(runtime.take().unwrap()),
            BootNext::ShowVersion(after) => {
                log.push("version".to_string());
                after.resume()
            }
            BootNext::Revision(after) => after.resume(Some("abc".to_string())),
            BootNext::LookForModules(after) => after.resume(m.modules),
            BootNext::Install(after) => {
                log.push("install".to_string());
                after.resume(m.install.clone())
            }
            BootNext::Build(revision, after) => {
                log.push(format!("build {}", revision.unwrap_or_default()));
                after.resume(m.build.clone())
            }
            BootNext::StartServer(port, after) => {
                log.push(format!("start {}", port));
                after.resume()
            }
            BootNext::AwaitServer(port, after) => {
                log.push(format!("await {}", port));
                after.resume()
            }
            BootNext::AwaitPlugins(port, after) => {
                log.push(format!("plugins {}", port));
                after.resume()
            }
            BootNext::OpenPage(port, after) => {
                log.push(format!("open {}", port));
                after.resume()
            }
            BootNext::WatchPage(after) => {
                log.push("watch".to_string());
                after.resume()
            }
            BootNext::CheckUpdates(after) => after.resume(Some("0.2.0".to_string()), None),
            BootNext::StartBridge(port, latest, after) => {
                log.push(format!("bridge {}", port));
                assert_eq!(latest.harness_current, Some("abc".to_string()));
                assert_eq!(latest.shell_latest, Some("0.2.0".to_string()));
                assert_eq!(latest.harness_latest, None);
                after.resume()
            }
            BootNext::ShowPanel(after) => {
                log.push("panel".to_string());
                after.resume()
            }
            BootNext::Finish(result) => return (log, result),
        };
    }
}

#[test]
fn a_launch_builds_and_serves() {
    let (log, result) = launch(3080, machine());
    assert_eq!(result.unwrap(), 3080);
    assert_eq!(
        log,
        vec![
            "look 3080",
            "version",
            "正在构建（首次可能需要 10-20 分钟，进度见下方日志）…",
            "build abc",
            "look 3080",
            "正在启动服务…",
            "start 3080",
            "await 3080",
            "look 3080",
            "正在启动 DeepSeek Harness…",
            "plugins 3080",
            "正在打开 DeepSeek Harness…",
            "open 3080",
            "watch",
            "bridge 3080",
            "panel",
        ]
    );
}

#[test]
fn a_service_that_is_up_already_is_used() {
    let m = Machine { up: vec![true, true, true], free: false, ..machine() };
    let (log, result) = launch(3080, m);
    assert_eq!(result.unwrap(), 3080);
    assert!(!log.iter().any(|line| line.starts_with("start") || line.starts_with("find")));
    assert!(!log.contains(&BootStatus::Starting.text()));
}

#[test]
fn a_taken_port_is_given_up_for_a_free_one() {
    let (log, result) = launch(3080, Machine { free: false, ..machine() });
    assert_eq!(result.unwrap(), 4000);
    assert_eq!(log[1], "find 3081");
    assert_eq!(log[2], "端口 4000 被占用，已切换到 4000");
    for line in ["look 4000", "start 4000", "await 4000", "plugins 4000", "open 4000", "bridge 4000"] {
        assert!(log.contains(&line.to_string()), "{}", line);
    }
}

#[test]
fn ports_are_given_up_to_the_last() {
    for (port, behind) in [(3080, 3081), (65514, 65515), (65534, 65535), (65535, 65535)] {
        match BootFlag::Free(port).resume(false) {
            BootNext::FindPort(from, _) => assert_eq!(from, behind),
            other => panic!("{:?}", other),
        }
    }
    assert!(matches!(BootFlag::Free(65535).resume(true), BootNext::EnsureRuntime(_)));
}

#[test]
fn dependencies_are_installed_where_the_code_is_new_or_they_are_missing() {
    for state in [RuntimeState::Fresh, RuntimeState::Updated] {
        let (log, _) = launch(3080, Machine { runtime: Ok(state), ..machine() });
        assert!(log.contains(&"正在安装依赖（首次可能需要几分钟）…".to_string()));
        assert!(log.contains(&"install".to_string()));
    }
    let (log, _) = launch(3080, Machine { modules: false, ..machine() });
    assert!(log.contains(&"install".to_string()));
    let (log, _) = launch(3080, machine());
    assert!(!log.contains(&"install".to_string()));
}

#[test]
fn errors_of_a_launch() {
    let message = |m: Machine| launch(3080, m).1.unwrap_err().message();
    let tools = "运行时组件缺失：未找到 tools/pnpm 或 tools/node，请重新安装应用";
    assert_eq!(message(Machine { pnpm: false, ..machine() }), tools);
    assert_eq!(message(Machine { node: false, ..machine() }), tools);
    assert_eq!(
        BootError::ToolsMissing(Platform::Windows).message(),
        "运行时组件缺失：未找到 tools/pnpm.exe 或 tools/node，请重新安装应用"
    );
    assert_eq!(
        message(Machine { runtime: Err(RuntimeError::FetchFailed), ..machine() }),
        "准备运行环境失败：检查更新失败（网络或仓库不可达）"
    );
    assert_eq!(
        message(Machine { modules: false, install: Err("x".to_string()), ..machine() }),
        "安装依赖失败：x"
    );
    assert_eq!(message(Machine { build: Err("y".to_string()), ..machine() }), "构建失败：y");
    assert_eq!(
        message(Machine { up: vec![false, false, false], ..machine() }),
        "服务启动超时（120 秒）。请检查网络后重新打开应用"
    );
}

#[test]
fn unpacking_is_shown_in_percent() {
    assert_eq!(unpacking_text(7), "正在使用内置代码初始化… 7%");
    assert_eq!(unpacking_text(100), "正在使用内置代码初始化… 100%");
}

// --- upgrades ----------------------------------------------------------------------

struct Upgrade {
    refresh: Result<RuntimeState, ForceError>,
    modules: bool,
    install: Result<(), String>,
    build: Result<(), String>,
    server: bool,
}

fn sound() -> Upgrade {
    Upgrade {
        refresh: Ok(RuntimeState::Updated),
        modules: true,
        install: Ok(()),
        build: Ok(()),
        server: true,
    }
}

fn upgrade(u: Upgrade) -> Vec<String> {
    let mut log: Vec<String> = vec![];
    let mut percents: Vec<u32> = vec![];
    let mut refresh = Some(u.refresh);
    let mut next = upgrade_harness(3080);
    loop {
        next = match next {
            UpgradeNext::Report(percent, status, after) => {
                percents.push(percent);
                log.push(format!("{} {}", percent, status.text()));
                after.resume()
            }
            UpgradeNext::Refresh(percent, after) => {
                percents.push(percent);
                log.push(format!("{} refresh", percent));
                after.resume(refresh.take().unwrap())
            }
            UpgradeNext::Revision(after) => after.resume(Some("abc".to_string())),
            UpgradeNext::LookForModules(after) => after.resume(u.modules),
            UpgradeNext::Install(after) => {
                log.push("install".to_string());
                after.resume(u.install.clone())
            }
            UpgradeNext::Build(revision, after) => {
                log.push(format!("build {}", revision.unwrap_or_default()));
                after.resume(u.build.clone())
            }
            UpgradeNext::Stop(after) => {
                log.push("stop".to_string());
                after.resume()
            }
            UpgradeNext::Start(port, after) => {
                log.push(format!("start {}", port));
                after.resume()
            }
            UpgradeNext::Await(port, after) => {
                log.push(format!("await {}", port));
                after.resume()
            }
            UpgradeNext::LookForServer(port, after) => {
                log.push(format!("look {}", port));
                after.resume(u.server)
            }
            UpgradeNext::Reload(after) => {
                log.push("reload".to_string());
                after.resume()
            }
            UpgradeNext::Finish => break,
        };
    }
    assert!(percents.windows(2).all(|pair| pair[0] <= pair[1]));
    assert_eq!(percents.last(), Some(&100));
    log
}

#[test]
fn an_upgrade_runs_from_the_code_to_the_page() {
    assert_eq!(
        upgrade(sound()),
        vec![
            "2 正在拉取官方最新代码…",
            "5 refresh",
            "15 正在安装依赖（可能需要几分钟）…",
            "install",
            "40 正在构建（可能需要 10-20 分钟）…",
            "build abc",
            "85 正在重启服务…",
            "stop",
            "start 3080",
            "await 3080",
            "look 3080",
            "100 更新完成 ✓",
            "reload",
        ]
    );
}

#[test]
fn an_upgrade_to_the_same_code_installs_only_what_is_missing() {
    let same = || Upgrade { refresh: Ok(RuntimeState::Unchanged), ..sound() };
    assert!(!upgrade(same()).contains(&"install".to_string()));
    assert!(upgrade(Upgrade { modules: false, ..same() }).contains(&"install".to_string()));
}

#[test]
fn an_upgrade_that_failed_leaves_the_service_alone() {
    let failing = vec![
        (
            Upgrade { refresh: Err(ForceError::GitMissing), ..sound() },
            "100 更新失败：更新需要 git，但系统中没有找到 git",
        ),
        (Upgrade { install: Err("x".to_string()), ..sound() }, "100 安装依赖失败：x"),
        (Upgrade { build: Err("y".to_string()), ..sound() }, "100 构建失败：y"),
    ];
    for (u, last) in failing {
        let log = upgrade(u);
        assert_eq!(log.last().unwrap(), last);
        assert!(!log.iter().any(|line| line == "stop" || line.starts_with("start")));
    }
}

#[test]
fn a_service_that_does_not_come_back_is_told() {
    let log = upgrade(Upgrade { server: false, ..sound() });
    assert!(log.contains(&"100 服务重启失败，请手动重新打开应用".to_string()));
    assert_eq!(log.last().unwrap(), "reload");
}
