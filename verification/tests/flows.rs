use dsh_desktop::archive::{
    extract_zip_into, listed, measured, percent, ExtractError, ExtractNext, ZipEntry,
    SNAPSHOT_VERSION, VERSION_FILE,
};
use dsh_desktop::download::{
    archive_url, download_zip, inner_directory, DownloadError, DownloadNext,
};
use dsh_desktop::force::{force_update_runtime, ForceError, ForceNext, ForceStatus};
use dsh_desktop::git::{
    clone_args, clone_source, current_sha, git_out, git_out_timeout, latest_sha, recorded_sha,
    spawn_failed, time_left, GitPoll, GitQuery, GitWait, LatestLookup, RevisionSource,
};
use dsh_desktop::runtime::{ensure_runtime, EnsureNext, RuntimeError, RuntimeFacts, RuntimeState};
use dsh_desktop::steps::{
    build_repo, install_deps, page_path, start_failed, wait_failed, BuildError, BuildNext,
    InstallNext, PnpmRun,
};

fn some(text: &str) -> Option<String> {
    Some(text.to_string())
}

fn failed(text: &str) -> Result<(), String> {
    Err(text.to_string())
}

// --- git -----------------------------------------------------------------------

#[test]
fn git_commands() {
    assert_eq!(GitQuery::Fetch.args(), vec!["fetch", "--depth", "1", "origin", "master"]);
    assert_eq!(GitQuery::Head.args(), vec!["rev-parse", "HEAD"]);
    assert_eq!(GitQuery::FetchHead.args(), vec!["rev-parse", "FETCH_HEAD"]);
    assert_eq!(GitQuery::Reset.args(), vec!["reset", "--hard", "FETCH_HEAD"]);
    assert_eq!(
        clone_source(None),
        "https://github.com/deepseek-ai/deepseek-harness.git"
    );
    assert_eq!(clone_source(some("/src")), "/src");
    assert_eq!(
        clone_args("/src", "/runtime"),
        vec!["clone", "--depth", "1", "--branch", "master", "/src", "/runtime"]
    );
}

#[test]
fn git_output_is_trimmed_and_counts_on_success_only() {
    assert_eq!(git_out(true, " abc\n"), some("abc"));
    assert_eq!(git_out(true, ""), some(""));
    assert_eq!(git_out(false, "abc"), None);
    assert_eq!(spawn_failed("x"), "无法启动 git：x");
}

#[test]
fn git_is_given_up_once_it_is_overdue() {
    let secs = 240;
    match git_out_timeout(GitPoll::Running { nanos: 240_000_000_000 }, secs) {
        GitWait::Again => {}
        other => panic!("{:?}", other),
    }
    match git_out_timeout(GitPoll::Running { nanos: 240_000_000_001 }, secs) {
        GitWait::Stop { kill, result } => {
            assert!(kill);
            assert_eq!(result, Err("git 操作超时（240 秒）".to_string()));
        }
        other => panic!("{:?}", other),
    }
}

#[test]
fn git_is_given_up_by_the_look_after_twice_its_seconds() {
    let secs: u64 = 120;
    let mut looks: u128 = 0;
    while matches!(
        git_out_timeout(GitPoll::Running { nanos: looks * 500_000_000 }, secs),
        GitWait::Again
    ) {
        looks += 1;
    }
    assert_eq!(looks, 241);
}

#[test]
fn output_is_waited_for_until_the_deadline_only() {
    assert_eq!(time_left(0, 240), 240_000_000_000);
    assert_eq!(time_left(239_999_999_999, 240), 1);
    assert_eq!(time_left(240_000_000_000, 240), 0);
    assert_eq!(time_left(240_000_000_001, 240), 0);
    assert_eq!(time_left(u128::MAX, u64::MAX), 0);
    assert_eq!(time_left(0, u64::MAX), u64::MAX as u128 * 1_000_000_000);
}

#[test]
fn git_that_exited_tells_its_output() {
    let exited = |success: bool| GitPoll::Ended {
        success,
        stdout: " out \n".to_string(),
        stderr: "fatal: no\n".to_string(),
    };
    match git_out_timeout(exited(true), 1) {
        GitWait::Stop { kill, result } => {
            assert!(!kill);
            assert_eq!(result, Ok("out".to_string()));
        }
        other => panic!("{:?}", other),
    }
    match git_out_timeout(exited(false), 1) {
        GitWait::Stop { kill, result } => {
            assert!(!kill);
            assert_eq!(result, Err("fatal: no".to_string()));
        }
        other => panic!("{:?}", other),
    }
    match git_out_timeout(GitPoll::Lost("x".to_string()), 1) {
        GitWait::Stop { kill, result } => {
            assert!(kill);
            assert_eq!(result, Err("等待 git 失败：x".to_string()));
        }
        other => panic!("{:?}", other),
    }
}

#[test]
fn revisions_come_from_the_checkout_or_from_the_record() {
    assert_eq!(current_sha(true, true), RevisionSource::Head);
    assert_eq!(current_sha(true, false), RevisionSource::Recorded);
    assert_eq!(current_sha(false, true), RevisionSource::Recorded);
    assert_eq!(recorded_sha(some("abc\n")), some("abc"));
    assert_eq!(recorded_sha(None), None);
}

#[test]
fn the_newest_revision_is_looked_up_locally_or_online() {
    assert!(matches!(latest_sha(false, false, false, None), LatestLookup::Online));
    match latest_sha(true, true, true, some("/src/.git")) {
        LatestLookup::Local(args) => assert_eq!(args, vec!["-C", "/src/.git", "rev-parse", "HEAD"]),
        other => panic!("{:?}", other),
    }
    assert!(matches!(latest_sha(true, false, true, some("/s")), LatestLookup::Unknown));
    assert!(matches!(latest_sha(true, true, false, some("/s")), LatestLookup::Unknown));
    assert!(matches!(latest_sha(true, true, true, None), LatestLookup::Unknown));
}

// --- the runtime ---------------------------------------------------------------

struct Network {
    fetch: bool,
    head: &'static str,
    fetch_head: &'static str,
    reset: bool,
    latest: Option<&'static str>,
    recorded: Option<&'static str>,
    extract: Result<(), &'static str>,
    clones: Vec<Result<(), &'static str>>,
    download: Result<(), &'static str>,
}

fn all_well() -> Network {
    Network {
        fetch: true,
        head: "a",
        fetch_head: "b",
        reset: true,
        latest: Some("b"),
        recorded: Some("a"),
        extract: Ok(()),
        clones: vec![Ok(()), Ok(())],
        download: Ok(()),
    }
}

fn facts() -> RuntimeFacts {
    RuntimeFacts {
        checkout: false,
        package: false,
        skip_update: false,
        git: true,
        snapshot: false,
        parent: true,
    }
}

fn told(result: Result<(), &'static str>) -> Result<(), String> {
    result.map_err(|e| e.to_string())
}

fn launch(facts: RuntimeFacts, net: Network) -> (Vec<String>, Result<RuntimeState, RuntimeError>) {
    let mut log: Vec<String> = vec![];
    let mut clones = net.clones.into_iter();
    let mut next = ensure_runtime(facts);
    loop {
        next = match next {
            EnsureNext::Report(status, after) => {
                log.push(status.text());
                after.resume()
            }
            EnsureNext::RemoveRuntime(after) => {
                log.push("remove".to_string());
                after.resume()
            }
            EnsureNext::Pause(after) => {
                log.push("pause".to_string());
                after.resume()
            }
            EnsureNext::Git(query, after) => {
                log.push(query.args().join(" "));
                after.resume(match query {
                    GitQuery::Fetch => net.fetch.then_some(String::new()),
                    GitQuery::Head => some(net.head),
                    GitQuery::FetchHead => some(net.fetch_head),
                    GitQuery::Reset => net.reset.then_some(String::new()),
                })
            }
            EnsureNext::Latest(after) => {
                log.push("latest".to_string());
                after.resume(net.latest.map(str::to_string))
            }
            EnsureNext::Recorded(after) => {
                log.push("recorded".to_string());
                after.resume(net.recorded.map(str::to_string))
            }
            EnsureNext::ExtractSnapshot(after) => {
                log.push("extract".to_string());
                after.resume(told(net.extract))
            }
            EnsureNext::CloneSource(after) => {
                log.push("clone".to_string());
                after.resume(told(clones.next().unwrap()))
            }
            EnsureNext::Download(revision, after) => {
                log.push(format!("download {}", revision.unwrap_or_default()));
                after.resume(told(net.download))
            }
            EnsureNext::Finish(result) => return (log, result),
        };
    }
}

#[test]
fn a_checkout_is_moved_to_a_newer_commit() {
    let (log, result) = launch(RuntimeFacts { checkout: true, ..facts() }, all_well());
    assert!(matches!(result, Ok(RuntimeState::Updated)));
    assert_eq!(
        log,
        vec![
            "正在检查 DeepSeek Harness 最新版本…",
            "fetch --depth 1 origin master",
            "rev-parse HEAD",
            "rev-parse FETCH_HEAD",
            "发现新版本，正在更新…",
            "reset --hard FETCH_HEAD",
        ]
    );
}

#[test]
fn a_checkout_at_the_newest_commit_is_left_as_it_is() {
    let net = Network { fetch_head: "a", ..all_well() };
    let (log, result) = launch(RuntimeFacts { checkout: true, ..facts() }, net);
    assert!(matches!(result, Ok(RuntimeState::Unchanged)));
    assert_eq!(log.len(), 4);
}

#[test]
fn a_checkout_that_cannot_be_updated_is_an_error() {
    let checkout = RuntimeFacts { checkout: true, ..facts() };
    let (_, result) = launch(checkout, Network { fetch: false, ..all_well() });
    assert_eq!(result.unwrap_err().message(), "检查更新失败（网络或仓库不可达）");
    let (_, result) = launch(checkout, Network { reset: false, ..all_well() });
    assert_eq!(result.unwrap_err().message(), "更新代码失败（git reset）");
}

#[test]
fn a_checkout_without_git_is_updated_by_the_archive() {
    let checkout = RuntimeFacts { checkout: true, package: true, git: false, ..facts() };
    let (log, result) = launch(checkout, Network { recorded: None, ..all_well() });
    assert!(matches!(result, Ok(RuntimeState::Fresh)));
    assert_eq!(
        log,
        vec![
            "正在检查 DeepSeek Harness 最新版本…",
            "latest",
            "recorded",
            "发现新版本，正在下载…",
            "download b",
        ]
    );
    let bare = RuntimeFacts { package: false, ..checkout };
    let (_, result) = launch(bare, Network { latest: None, ..all_well() });
    assert!(matches!(result, Ok(RuntimeState::Unchanged)));
    let (_, result) = launch(checkout, Network { download: Err("x"), ..all_well() });
    assert_eq!(result.unwrap_err().message(), "x");
}

#[test]
fn with_updates_switched_off_nothing_is_asked_for() {
    for checkout in [true, false] {
        let (log, result) = launch(
            RuntimeFacts { checkout, package: true, skip_update: true, git: false, ..facts() },
            all_well(),
        );
        assert!(log.is_empty());
        assert!(matches!(result, Ok(RuntimeState::Unchanged)));
    }
    let (log, result) =
        launch(RuntimeFacts { skip_update: true, snapshot: true, ..facts() }, all_well());
    assert!(log.is_empty());
    assert_eq!(
        result.unwrap_err().message(),
        "DSH_SKIP_UPDATE 已设置，但本地没有可用的运行环境"
    );
}

#[test]
fn an_unpacked_archive_is_downloaded_again_once_it_is_old() {
    let package = RuntimeFacts { package: true, git: false, ..facts() };
    let (log, result) = launch(package, all_well());
    assert!(matches!(result, Ok(RuntimeState::Fresh)));
    assert_eq!(
        log,
        vec![
            "正在检查 DeepSeek Harness 最新版本…",
            "latest",
            "recorded",
            "发现新版本，正在下载…",
            "download b",
        ]
    );
    let (log, result) = launch(package, Network { recorded: Some("b"), ..all_well() });
    assert!(matches!(result, Ok(RuntimeState::Unchanged)));
    assert_eq!(log.len(), 3);
    let (log, result) = launch(package, Network { latest: None, ..all_well() });
    assert!(matches!(result, Ok(RuntimeState::Unchanged)));
    assert_eq!(log.len(), 2);
    let (_, result) = launch(
        package,
        Network { recorded: None, download: Err("下载失败：x"), ..all_well() },
    );
    assert_eq!(result.unwrap_err().message(), "下载失败：x");
}

#[test]
fn a_recorded_revision_is_not_downloaded_again() {
    let written = dsh_desktop::text::text_or_nothing(some("b"));
    let read = recorded_sha(Some(written));
    assert_eq!(read, some("b"));
    let (log, result) = launch(
        RuntimeFacts { package: true, ..facts() },
        Network { recorded: Some("b"), ..all_well() },
    );
    assert!(matches!(result, Ok(RuntimeState::Unchanged)));
    assert!(!log.iter().any(|line| line.starts_with("download")));
}

#[test]
fn the_snapshot_makes_a_first_launch_work_without_a_network() {
    let bundled = RuntimeFacts { snapshot: true, ..facts() };
    let (log, result) = launch(bundled, all_well());
    assert!(matches!(result, Ok(RuntimeState::Fresh)));
    assert_eq!(log, vec!["remove", "extract"]);
    let (_, result) = launch(RuntimeFacts { parent: false, ..bundled }, all_well());
    assert_eq!(result.unwrap_err().message(), "runtime 路径没有父目录");
}

#[test]
fn a_first_launch_tries_everything_in_turn() {
    let net = Network {
        extract: Err("坏"),
        clones: vec![Err("one"), Err("two")],
        ..all_well()
    };
    let (log, result) = launch(RuntimeFacts { snapshot: true, ..facts() }, net);
    assert!(matches!(result, Ok(RuntimeState::Fresh)));
    assert_eq!(
        log,
        vec![
            "remove",
            "extract",
            "内置代码初始化失败（坏），尝试在线下载…",
            "remove",
            "首次运行：正在下载 DeepSeek Harness 最新代码…",
            "remove",
            "clone",
            "git 克隆失败（第 1 次），正在尝试备用下载…",
            "pause",
            "remove",
            "clone",
            "git 克隆失败（第 2 次），正在尝试备用下载…",
            "pause",
            "正在通过备用通道下载…",
            "latest",
            "download b",
        ]
    );
}

#[test]
fn a_second_clone_can_succeed() {
    let (log, result) =
        launch(facts(), Network { clones: vec![Err("one"), Ok(())], ..all_well() });
    assert!(matches!(result, Ok(RuntimeState::Fresh)));
    assert_eq!(log.iter().filter(|line| *line == "clone").count(), 2);
}

#[test]
fn a_first_launch_that_gets_nothing_tells_both_reasons() {
    let net = Network {
        clones: vec![Err("one"), Err("two")],
        download: Err("down"),
        ..all_well()
    };
    let (_, result) = launch(facts(), net);
    assert_eq!(
        result.unwrap_err().message(),
        "下载代码失败：git clone 失败（two），备用下载也失败（down）"
    );
    let net = Network { latest: None, download: Err("down"), ..all_well() };
    let (log, result) = launch(RuntimeFacts { git: false, ..facts() }, net);
    assert_eq!(log.last().unwrap(), "download ");
    assert_eq!(
        result.unwrap_err().message(),
        "下载代码失败：git clone 失败（系统未安装 git），备用下载也失败（down）"
    );
    let net = Network {
        clones: vec![Err("one"), Err("")],
        download: Err("down"),
        ..all_well()
    };
    let (_, result) = launch(facts(), net);
    assert_eq!(
        result.unwrap_err().message(),
        "下载代码失败：git clone 失败（系统未安装 git），备用下载也失败（down）"
    );
}

#[test]
fn a_clone_needs_a_parent_directory() {
    let (log, result) = launch(RuntimeFacts { parent: false, ..facts() }, all_well());
    assert_eq!(log.last().unwrap(), "remove");
    assert!(matches!(result, Err(RuntimeError::NoParent)));
}

// --- the forced update -------------------------------------------------------------

fn force(
    checkout: bool,
    git: bool,
    fetch: Result<(), String>,
    fetch_head: Option<String>,
    reset: Result<(), String>,
    download: Result<(), String>,
) -> (Vec<String>, Result<RuntimeState, ForceError>) {
    let mut log: Vec<String> = vec![];
    let mut next = force_update_runtime(checkout, git);
    loop {
        next = match next {
            ForceNext::Report(status, after) => {
                log.push(status.text());
                after.resume()
            }
            ForceNext::GitTimed(query, secs, after) => {
                log.push(format!("{} in {}", query.args().join(" "), secs));
                after.resume(if query == GitQuery::Fetch { fetch.clone() } else { reset.clone() })
            }
            ForceNext::Git(query, after) => after.resume(if query == GitQuery::Head {
                some("a")
            } else {
                fetch_head.clone()
            }),
            ForceNext::Latest(after) => after.resume(some("b")),
            ForceNext::Download(revision, after) => {
                log.push(format!("download {}", revision.unwrap_or_default()));
                after.resume(download.clone())
            }
            ForceNext::Finish(result) => return (log, result),
        };
    }
}

#[test]
fn a_forced_update_moves_the_checkout() {
    let (log, result) = force(true, true, Ok(()), some("b"), Ok(()), Ok(()));
    assert!(matches!(result, Ok(RuntimeState::Updated)));
    assert_eq!(
        log,
        vec![
            "正在拉取官方最新代码…",
            "fetch --depth 1 origin master in 240",
            "发现新版本，正在更新…",
            "reset --hard FETCH_HEAD in 120",
        ]
    );
    let (_, result) = force(true, true, Ok(()), some("a"), Ok(()), Ok(()));
    assert!(matches!(result, Ok(RuntimeState::Unchanged)));
    let (_, result) = force(true, true, Ok(()), None, Ok(()), Ok(()));
    assert!(matches!(result, Ok(RuntimeState::Unchanged)));
    assert_eq!(ForceStatus::Downloading.text(), "正在下载官方最新代码…");
}

#[test]
fn a_forced_update_without_a_checkout_downloads() {
    let (log, result) = force(false, false, Ok(()), None, Ok(()), Ok(()));
    assert!(matches!(result, Ok(RuntimeState::Fresh)));
    assert_eq!(log, vec!["正在下载官方最新代码…", "download b"]);
}

#[test]
fn errors_of_a_forced_update() {
    let (_, result) = force(true, false, Ok(()), None, Ok(()), Ok(()));
    assert_eq!(result.unwrap_err().message(), "更新需要 git，但系统中没有找到 git");
    let (_, result) = force(true, true, failed("x"), None, Ok(()), Ok(()));
    assert_eq!(result.unwrap_err().message(), "拉取更新失败：x");
    let (_, result) = force(true, true, Ok(()), some("b"), failed("y"), Ok(()));
    assert_eq!(result.unwrap_err().message(), "更新代码失败：y");
    let (_, result) = force(false, true, Ok(()), None, Ok(()), failed("z"));
    assert_eq!(result.unwrap_err().message(), "z");
}

// --- unpacking the snapshot ----------------------------------------------------------

fn file(size: u64) -> Result<ZipEntry, String> {
    Ok(ZipEntry { size, is_dir: false, enclosed: true })
}

fn unpack(
    entries: Vec<Result<ZipEntry, String>>,
    items: Result<Vec<bool>, String>,
    failing: &str,
) -> (Vec<String>, Result<(), ExtractError>) {
    let mut log: Vec<String> = vec![];
    let mut next = extract_zip_into();
    loop {
        let mut work = |name: &str| -> Result<(), String> {
            log.push(name.to_string());
            if name == failing {
                failed("x")
            } else {
                Ok(())
            }
        };
        next = match next {
            ExtractNext::Open(after) => after.resume(work("open")),
            ExtractNext::Parse(after) => after.resume(work("parse")),
            ExtractNext::ClearScratch(after) => {
                let _ = work("clear scratch");
                after.resume()
            }
            ExtractNext::CreateScratch(after) => after.resume(work("scratch")),
            ExtractNext::Measure => {
                measured(&entries.iter().map(|e| e.as_ref().ok().map(|e| e.size)).collect())
            }
            ExtractNext::ReadEntry(at) => at.resume(entries[at.index].clone()),
            ExtractNext::MakeDirectory(after) => after.resume(work("directory")),
            ExtractNext::WriteEntry(after) => after.resume(work("write")),
            ExtractNext::Report(share, after) => {
                log.push(format!("{}%", share));
                after.resume()
            }
            ExtractNext::ListScratch => listed(items.clone()),
            ExtractNext::ClearRuntime(after) => {
                let _ = work("clear runtime");
                after.resume()
            }
            ExtractNext::Rename { inner, after } => {
                let name = if inner { "rename inner" } else { "rename all" };
                after.resume(work(name))
            }
            ExtractNext::Record(after) => {
                let _ = work("record");
                after.resume()
            }
            ExtractNext::Finish(result) => return (log, result),
        };
    }
}

#[test]
fn a_snapshot_with_one_directory_is_unpacked() {
    let entries = vec![
        Ok(ZipEntry { size: 0, is_dir: true, enclosed: true }),
        file(30),
        Ok(ZipEntry { size: 20, is_dir: false, enclosed: false }),
        file(50),
    ];
    let (log, result) = unpack(entries, Ok(vec![true]), "");
    assert!(matches!(result, Ok(())));
    assert_eq!(
        log,
        vec![
            "open",
            "parse",
            "clear scratch",
            "scratch",
            "0%",
            "directory",
            "write",
            "30%",
            "50%",
            "directory",
            "write",
            "100%",
            "clear runtime",
            "rename inner",
            "record",
        ]
    );
}

/// Unpacks an archive of these files and gives back what is in the runtime.
fn unpacked_runtime(files: &[(&str, &str)]) -> Vec<(String, String)> {
    let mut scratch: Vec<(String, String)> = vec![("stale".to_string(), "old".to_string())];
    let mut runtime: Vec<(String, String)> = vec![("old".to_string(), "old".to_string())];
    let mut read = 0;
    let mut next = extract_zip_into();
    loop {
        let tops = || {
            let mut tops: Vec<String> = vec![];
            for (path, _) in scratch.iter() {
                let top = path.split('/').next().unwrap().to_string();
                if !tops.contains(&top) {
                    tops.push(top);
                }
            }
            tops
        };
        next = match next {
            ExtractNext::Open(after) => after.resume(Ok(())),
            ExtractNext::Parse(after) => after.resume(Ok(())),
            ExtractNext::ClearScratch(after) => {
                scratch.clear();
                after.resume()
            }
            ExtractNext::CreateScratch(after) => after.resume(Ok(())),
            ExtractNext::Measure => {
                measured(&files.iter().map(|(_, text)| Some(text.len() as u64)).collect())
            }
            ExtractNext::ReadEntry(at) => {
                read = at.index;
                at.resume(file(files[at.index].1.len() as u64))
            }
            ExtractNext::MakeDirectory(after) => after.resume(Ok(())),
            ExtractNext::WriteEntry(after) => {
                scratch.push((files[read].0.to_string(), files[read].1.to_string()));
                after.resume(Ok(()))
            }
            ExtractNext::Report(_, after) => after.resume(),
            ExtractNext::ListScratch => {
                let is_dir = |top: &String| !scratch.iter().any(|(path, _)| path == top);
                listed(Ok(tops().iter().map(is_dir).collect()))
            }
            ExtractNext::ClearRuntime(after) => {
                runtime.clear();
                after.resume()
            }
            ExtractNext::Rename { inner, after } => {
                let skip = if inner { tops()[0].len() + 1 } else { 0 };
                for (path, text) in scratch.iter() {
                    runtime.push((path[skip..].to_string(), text.to_string()));
                }
                after.resume(Ok(()))
            }
            ExtractNext::Record(after) => {
                runtime.push((VERSION_FILE.to_string(), SNAPSHOT_VERSION.to_string()));
                after.resume()
            }
            ExtractNext::Finish(result) => {
                assert!(result.is_ok());
                return runtime;
            }
        };
    }
}

#[test]
fn flat_and_wrapped_archives_leave_the_same_runtime() {
    let flat = unpacked_runtime(&[("package.json", "{}"), ("apps/web/a.ts", "x")]);
    let wrapped = unpacked_runtime(&[("h-1/package.json", "{}"), ("h-1/apps/web/a.ts", "x")]);
    assert_eq!(flat, wrapped);
    assert_eq!(
        flat,
        vec![
            ("package.json".to_string(), "{}".to_string()),
            ("apps/web/a.ts".to_string(), "x".to_string()),
            (".dsh-version".to_string(), "snapshot".to_string()),
        ]
    );
}

#[test]
fn a_flat_snapshot_is_unpacked() {
    for items in [vec![true, false], vec![false], vec![]] {
        let (log, result) = unpack(vec![file(0)], Ok(items), "");
        assert!(matches!(result, Ok(())));
        assert!(log.contains(&"100%".to_string()));
        assert!(log.contains(&"rename all".to_string()));
    }
    let (log, _) = unpack(vec![], Ok(vec![]), "");
    assert!(!log.iter().any(|line| line.ends_with('%')));
}

#[test]
fn errors_of_unpacking() {
    let expected = [
        ("open", "打开内置代码失败：x"),
        ("parse", "解析内置代码失败：x"),
        ("scratch", "创建临时目录失败：x"),
        ("directory", "创建目录失败：x"),
        ("write", "写入内置代码失败：x"),
        ("rename all", "整理目录失败：x"),
    ];
    for (failing, message) in expected {
        let (log, result) = unpack(vec![file(1)], Ok(vec![]), failing);
        assert_eq!(result.unwrap_err().message(), message);
        assert_eq!(log.last().unwrap(), failing);
    }
    let (log, result) = unpack(vec![file(1), Err("y".to_string())], Ok(vec![]), "");
    assert_eq!(result.unwrap_err().message(), "读取内置代码条目失败：y");
    assert!(!log.contains(&"clear runtime".to_string()));
    let (log, result) = unpack(vec![file(1)], Err("z".to_string()), "");
    assert_eq!(result.unwrap_err().message(), "读取临时目录失败：z");
    assert!(!log.contains(&"clear runtime".to_string()));
}

#[test]
fn shares_in_percent() {
    assert_eq!(percent(0, 0), 100);
    assert_eq!(percent(0, 3), 0);
    assert_eq!(percent(1, 3), 33);
    assert_eq!(percent(2, 3), 66);
    assert_eq!(percent(3, 3), 100);
    assert_eq!(percent(9, 3), 100);
    assert_eq!(percent(42949673, 1), 100);
    assert_eq!(percent(42949672, 1), 100);
    assert_eq!(percent(u64::MAX / 100, u64::MAX), 0);
}

// --- downloading -----------------------------------------------------------------------

fn download(
    parent: bool,
    size: Result<usize, String>,
    first: Result<Option<String>, String>,
    failing: &str,
) -> (Vec<String>, Result<(), DownloadError>) {
    let mut log: Vec<String> = vec![];
    let mut next = download_zip(parent, some("abc"));
    loop {
        let mut work = |name: &str| -> Result<(), String> {
            log.push(name.to_string());
            if name == failing {
                failed("x")
            } else {
                Ok(())
            }
        };
        next = match next {
            DownloadNext::Request(after) => after.resume(work("request")),
            DownloadNext::ReadBody(after) => after.resume(size.clone()),
            DownloadNext::Save(after) => after.resume(work("save")),
            DownloadNext::Open(after) => after.resume(work("open")),
            DownloadNext::Parse(after) => after.resume(first.clone()),
            DownloadNext::Unpack(after) => after.resume(work("unpack")),
            DownloadNext::RemoveArchive(after) => {
                let _ = work("remove archive");
                after.resume()
            }
            DownloadNext::ClearRuntime(after) => {
                let _ = work("clear runtime");
                after.resume()
            }
            DownloadNext::Rename { first, after } => {
                assert_eq!(inner_directory(&first), "harness-master");
                after.resume(work("rename"))
            }
            DownloadNext::Record(revision, after) => {
                assert_eq!(revision, some("abc"));
                let _ = work("record");
                after.resume()
            }
            DownloadNext::Finish(result) => return (log, result),
        };
    }
}

#[test]
fn an_archive_is_downloaded() {
    assert_eq!(
        archive_url(),
        "https://codeload.github.com/deepseek-ai/deepseek-harness/zip/refs/heads/master"
    );
    let (log, result) = download(true, Ok(9), Ok(some("harness-master/")), "");
    assert!(matches!(result, Ok(())));
    assert_eq!(
        log,
        vec![
            "request",
            "save",
            "open",
            "unpack",
            "remove archive",
            "clear runtime",
            "rename",
            "record",
        ]
    );
    assert_eq!(inner_directory(&None), "");
}

#[test]
fn errors_of_a_download() {
    let expected = [
        ("request", "下载失败：x"),
        ("save", "写入临时文件失败：x"),
        ("open", "打开临时文件失败：x"),
        ("unpack", "解压失败：x"),
        ("rename", "整理目录失败：x"),
    ];
    for (failing, message) in expected {
        let (log, result) = download(true, Ok(9), Ok(some("harness-master/")), failing);
        assert_eq!(result.unwrap_err().message(), message);
        assert_eq!(log.contains(&"clear runtime".to_string()), failing == "rename");
    }
    let name = || Ok(some("harness-master/"));
    let (_, result) = download(true, Err("y".to_string()), name(), "");
    assert_eq!(result.unwrap_err().message(), "读取下载内容失败：y");
    let (_, result) = download(true, Ok(0), name(), "");
    assert_eq!(result.unwrap_err().message(), "下载内容为空（网络可能不可达）");
    let (_, result) = download(true, Ok(9), Err("z".to_string()), "");
    assert_eq!(result.unwrap_err().message(), "解压失败：z");
    let (log, result) = download(false, Ok(9), name(), "");
    assert!(log.is_empty());
    assert_eq!(result.unwrap_err().message(), "runtime 路径没有父目录");
}

// --- installing and building -------------------------------------------------------------

fn install(results: Vec<Result<bool, String>>) -> (Vec<String>, Result<(), String>) {
    let mut log: Vec<String> = vec![];
    let mut results = results.into_iter();
    let mut next = install_deps();
    loop {
        next = match next {
            InstallNext::Run(run, after) => {
                log.push(run.args().join(" "));
                after.resume(results.next().unwrap())
            }
            InstallNext::Finish(result) => return (log, result),
        };
    }
}

#[test]
fn dependencies_are_installed_by_the_lock_file_first() {
    assert_eq!(install(vec![Ok(true)]), (vec!["install --frozen-lockfile".to_string()], Ok(())));
    let both = vec!["install --frozen-lockfile".to_string(), "install".to_string()];
    assert_eq!(install(vec![Ok(false), Ok(true)]), (both.clone(), Ok(())));
    assert_eq!(install(vec![Ok(false), Ok(false)]), (both.clone(), Ok(())));
    assert_eq!(install(vec![Ok(false), Err("x".to_string())]), (both, failed("x")));
    assert_eq!(install(vec![Err("y".to_string())]).1, failed("y"));
}

fn build(
    revision: Option<String>,
    marker: Option<String>,
    page: bool,
    run: Result<bool, String>,
) -> (Vec<String>, Result<(), BuildError>) {
    let mut log: Vec<String> = vec![];
    let mut next = build_repo(revision);
    loop {
        next = match next {
            BuildNext::ReadMarker(after) => after.resume(marker.clone()),
            BuildNext::LookForPage(after) => {
                log.push("page".to_string());
                after.resume(page)
            }
            BuildNext::Run(which, after) => {
                assert_eq!(which, PnpmRun::Build);
                log.push(which.args().join(" "));
                after.resume(run.clone())
            }
            BuildNext::WriteMarker(revision, after) => {
                log.push(format!("mark {}", dsh_desktop::text::text_or_nothing(revision)));
                after.resume()
            }
            BuildNext::Finish(result) => return (log, result),
        };
    }
}

#[test]
fn a_build_is_skipped_where_it_is_marked() {
    let (log, result) = build(some("abc"), some("abc\n"), true, Ok(false));
    assert!(matches!(result, Ok(())));
    assert_eq!(log, vec!["page"]);
    let (log, result) = build(None, some(" "), true, Ok(false));
    assert!(matches!(result, Ok(())));
    assert_eq!(log, vec!["page"]);
}

#[test]
fn a_build_runs_where_anything_is_missing() {
    let (log, result) = build(some("abc"), some("abc"), false, Ok(true));
    assert!(matches!(result, Ok(())));
    assert_eq!(log, vec!["page", "run build", "mark abc"]);
    let (log, _) = build(some("abc"), some("abd"), true, Ok(true));
    assert_eq!(log, vec!["run build", "mark abc"]);
    let (log, _) = build(None, None, true, Ok(true));
    assert_eq!(log, vec!["run build", "mark "]);
}

#[test]
fn errors_of_a_build() {
    let (log, result) = build(some("abc"), None, true, Ok(false));
    assert_eq!(log, vec!["run build"]);
    assert_eq!(result.unwrap_err().message(), "构建失败，详情见下方日志");
    let (_, result) = build(some("abc"), None, true, Err("x".to_string()));
    assert_eq!(result.unwrap_err().message(), "x");
    assert_eq!(start_failed("/t/pnpm", "x"), "无法启动 /t/pnpm：x");
    assert_eq!(wait_failed("x"), "进程执行失败：x");
    assert_eq!(page_path(), vec!["apps", "web", "dist", "index.html"]);
}
