use dsh_desktop::bridge::{
    bridge_reply, clone_inner_for_bridge, open_release, route, BridgeAction, Route, UpdateSnapshot,
};
use dsh_desktop::server::{
    await_server, fallback_port, is_console, kill_tree, looked, page_address, plugin_answered, probe_request,
    server_args, server_plugins_ready, server_ready, watch_boot_failure, PortSearch, Wait, Watch,
    PLUGIN_PATH, RELOAD_SCRIPT, ROOT_PATH,
};
use dsh_desktop::tools::Platform;

fn reply(text: &str) -> Option<Vec<u8>> {
    Some(text.as_bytes().to_vec())
}

#[test]
fn requests_to_the_service() {
    assert_eq!(
        probe_request(ROOT_PATH, 3080),
        "GET / HTTP/1.0\r\nHost: 127.0.0.1:3080\r\n\r\n"
    );
    assert_eq!(
        probe_request(PLUGIN_PATH, 80),
        "GET /plugins/@deepseek-ai/dsh-typert-registry/client.js HTTP/1.0\r\nHost: 127.0.0.1:80\r\n\r\n"
    );
    assert_eq!(page_address(3081), "http://127.0.0.1:3081");
}

#[test]
fn only_a_harness_counts_as_the_service() {
    assert!(server_ready(&reply("HTTP/1.1 200 OK\r\n\r\nwindow.__DSH_BOOT__ = {}")));
    assert!(server_ready(&reply("HTTP/1.1 200 OK\r\n\r\n<title>DeepSeek Harness</title>")));
    assert!(!server_ready(&reply("HTTP/1.1 200 OK\r\n\r\n<title>nginx</title>")));
    assert!(!server_ready(&reply("HTTP/1.1 404 Not Found\r\n\r\nDeepSeek Harness")));
    assert!(!server_ready(&reply("")));
    assert!(!server_ready(&None));
    let mut broken = b"HTTP/1.0 200 OK\r\n\r\n".to_vec();
    broken.extend_from_slice(&[0xff, 0xe7]);
    broken.extend_from_slice(b"__DSH_BOOT__");
    assert!(server_ready(&Some(broken)));
}

#[test]
fn only_the_status_line_tells_success() {
    let missing = "HTTP/1.0 404 Not Found\r\nContent-Length: 200\r\n\r\n__DSH_BOOT__";
    assert!(!server_ready(&reply(missing)));
    assert!(!plugin_answered(&reply(missing)));
    for text in [
        "200 __DSH_BOOT__",
        "HTTP/1.0",
        "HTTP/1.0 20",
        "HTTP/1.0  200 OK",
        "HTTP/1.0\r\n 200 OK",
        " HTTP/1.0 200 OK",
        "http/1.0 200 OK",
        "HTTP/1.0 302 200",
        "",
    ] {
        assert!(!plugin_answered(&reply(text)), "{}", text);
        assert!(!server_ready(&reply(&format!("{} __DSH_BOOT__", text))), "{}", text);
    }
    assert!(plugin_answered(&reply("HTTP/1.0 200")));
    assert!(plugin_answered(&reply("HTTP/2 200 OK\r\n")));
}

#[test]
fn plugins_are_live_once_their_bundle_answers() {
    assert!(plugin_answered(&reply("HTTP/1.1 200 OK")));
    assert!(!plugin_answered(&reply("HTTP/1.1 503 Service Unavailable")));
    assert!(!plugin_answered(&None));
}

#[test]
fn waits_look_until_their_time_is_up() {
    assert_eq!(await_server(0), Wait::Look);
    assert_eq!(await_server(119_999_999_999), Wait::Look);
    assert_eq!(await_server(120_000_000_000), Wait::Over(false));
    assert_eq!(server_plugins_ready(59_999_999_999), Wait::Look);
    assert_eq!(server_plugins_ready(60_000_000_000), Wait::Over(false));
    assert_eq!(looked(true), Wait::Over(true));
    assert_eq!(looked(false), Wait::Rest);
}

#[test]
fn a_wait_ends_after_as_many_looks_as_its_time_holds() {
    let mut nanos: u128 = 0;
    let mut looks = 0;
    while await_server(nanos) == Wait::Look {
        assert_eq!(looked(false), Wait::Rest);
        looks += 1;
        nanos += 750_000_000;
    }
    assert_eq!(looks, 160);
}

#[test]
fn the_first_free_port_is_found() {
    assert_eq!(fallback_port(3081, &vec![]), PortSearch::Look(3081));
    assert_eq!(fallback_port(3081, &vec![true]), PortSearch::Use(3081));
    assert_eq!(fallback_port(3081, &vec![false]), PortSearch::Look(3082));
    assert_eq!(fallback_port(3081, &vec![false, false, true]), PortSearch::Use(3083));
    assert_eq!(fallback_port(3081, &vec![false; 20]), PortSearch::Look(3101));
    let mut last = vec![false; 20];
    last.push(true);
    assert_eq!(fallback_port(3081, &last), PortSearch::Use(3101));
    assert_eq!(fallback_port(3081, &vec![false; 21]), PortSearch::Use(3081));
    assert_eq!(fallback_port(65530, &vec![false, true]), PortSearch::Use(65531));
    assert_eq!(fallback_port(65530, &vec![false; 5]), PortSearch::Look(65535));
    assert_eq!(fallback_port(65530, &vec![false; 6]), PortSearch::Use(65530));
    assert_eq!(fallback_port(65535, &vec![]), PortSearch::Look(65535));
    assert_eq!(fallback_port(65535, &vec![false]), PortSearch::Use(65535));
}

#[test]
fn a_search_for_a_port_takes_the_first_free_one() {
    let free = |port: u16| port == 3084 || port == 3090;
    let mut answers: Vec<bool> = vec![];
    let found = loop {
        match fallback_port(3081, &answers) {
            PortSearch::Look(port) => answers.push(free(port)),
            PortSearch::Use(port) => break port,
        }
    };
    assert_eq!(found, 3084);
    assert_eq!(answers.len(), 4);
}

#[test]
fn starting_and_stopping_the_service() {
    assert_eq!(server_args(3080), vec!["dsh", "web", "--port", "3080"]);
    let windows = kill_tree(Platform::Windows, 42);
    assert_eq!(windows.program, "taskkill");
    assert_eq!(windows.args, vec!["/PID", "42", "/T", "/F"]);
    let unix = kill_tree(Platform::Unix, 42);
    assert_eq!(unix.program, "kill");
    assert_eq!(unix.args, vec!["-TERM", "-42"]);
}

#[test]
fn the_console_of_the_service_is_a_shown_window_of_its_process() {
    assert!(is_console(42, 42, true));
    assert!(!is_console(42, 42, false));
    assert!(!is_console(41, 42, true));
}

#[test]
fn the_page_is_watched_three_times() {
    assert_eq!(watch_boot_failure(0), Watch::Look(1));
    assert_eq!(watch_boot_failure(2), Watch::Look(3));
    assert_eq!(watch_boot_failure(3), Watch::Stop);
    assert_eq!(watch_boot_failure(255), Watch::Stop);
    assert_eq!(
        RELOAD_SCRIPT,
        "if (document.body && document.body.innerText && document.body.innerText.indexOf('Failed to load plugins') !== -1) { location.reload() }"
    );
}

fn snapshot() -> UpdateSnapshot {
    UpdateSnapshot::first(
        "0.1.0",
        Some("0.2.0".to_string()),
        Some("abc".to_string()),
        None,
    )
}

#[test]
fn the_first_snapshot_knows_of_no_upgrade() {
    assert_eq!(
        snapshot().json(),
        "{\"shellCurrent\":\"0.1.0\",\"shellLatest\":\"0.2.0\",\"harnessCurrent\":\"abc\",\"harnessLatest\":null,\"upgrading\":false,\"progress\":0,\"status\":\"\"}"
    );
    assert_eq!(UpdateSnapshot::first("0.1.0", None, None, None).harness_current, "");
}

#[test]
fn the_snapshot_reads_back() {
    let mut s = snapshot();
    s.harness_latest = Some("a\"b\\\n\u{1}".to_string());
    s.report(85, "正在重启服务…".to_string());
    let value: serde_json::Value = serde_json::from_str(&s.json()).unwrap();
    assert_eq!(value["shellCurrent"].as_str(), Some("0.1.0"));
    assert_eq!(value["shellLatest"].as_str(), Some("0.2.0"));
    assert_eq!(value["harnessCurrent"].as_str(), Some("abc"));
    assert_eq!(value["harnessLatest"].as_str(), Some("a\"b\\\n\u{1}"));
    assert_eq!(value["upgrading"].as_bool(), Some(true));
    assert_eq!(value["progress"].as_u64(), Some(85));
    assert_eq!(value["status"].as_str(), Some("正在重启服务…"));
    assert_eq!(value.as_object().map(|members| members.len()), Some(7));
}

#[test]
fn a_copy_holds_what_the_shared_snapshot_holds() {
    let mut s = snapshot();
    s.report(5, "x".to_string());
    assert_eq!(clone_inner_for_bridge(Some(&s)).json(), s.json());
    assert_eq!(
        clone_inner_for_bridge(None).json(),
        "{\"shellCurrent\":\"\",\"shellLatest\":null,\"harnessCurrent\":\"\",\"harnessLatest\":null,\"upgrading\":false,\"progress\":0,\"status\":\"\"}"
    );
}

#[test]
fn requests_are_told_apart_by_method_and_path() {
    assert_eq!(route("POST /upgrade-harness HTTP/1.1\r\n"), Route::Upgrade);
    assert_eq!(route("GET /upgrade-harness HTTP/1.1\r\n"), Route::Unknown);
    assert_eq!(route("post /upgrade-harness HTTP/1.1\r\n"), Route::Unknown);
    assert_eq!(route("POST /open-release"), Route::OpenRelease);
    assert_eq!(route("GET /open-release"), Route::Unknown);
    assert_eq!(route("GET /status HTTP/1.1\r\n"), Route::Status);
    assert_eq!(route("DELETE /status"), Route::Status);
    assert_eq!(route("GET /status?x=1 HTTP/1.1"), Route::Unknown);
    assert_eq!(route("GET"), Route::Unknown);
    assert_eq!(route(""), Route::Unknown);
}

#[test]
fn answers_of_the_bridge() {
    let mut s = snapshot();
    let accepted = bridge_reply("POST /upgrade-harness HTTP/1.1\r\n", &s);
    assert_eq!(accepted.action, BridgeAction::StartUpgrade);
    assert_eq!(
        accepted.response,
        "HTTP/1.1 202 Accepted\r\nContent-Length: 2\r\nConnection: close\r\n\r\nok"
    );
    let opened = bridge_reply("POST /open-release HTTP/1.1\r\n", &s);
    assert_eq!(opened.action, BridgeAction::OpenRelease);
    assert_eq!(
        opened.response,
        "HTTP/1.1 200 OK\r\nContent-Length: 2\r\nConnection: close\r\n\r\nok"
    );
    let unknown = bridge_reply("GET /x HTTP/1.1\r\n", &s);
    assert_eq!(unknown.action, BridgeAction::Nothing);
    assert_eq!(
        unknown.response,
        "HTTP/1.1 404 Not Found\r\nContent-Length: 2\r\nConnection: close\r\n\r\nno"
    );
    s.report(2, "正在拉取官方最新代码…".to_string());
    let refused = bridge_reply("POST /upgrade-harness HTTP/1.1\r\n", &s);
    assert_eq!(refused.action, BridgeAction::Nothing);
    assert_eq!(
        refused.response,
        "HTTP/1.1 409 Conflict\r\nContent-Length: 2\r\nConnection: close\r\n\r\nno"
    );
}

#[test]
fn an_upgrade_keeps_the_versions() {
    let mut s = snapshot();
    s.report(2, "a".to_string());
    s.report(100, "b".to_string());
    assert_eq!(s.shell_current, "0.1.0");
    assert_eq!(s.shell_latest, Some("0.2.0".to_string()));
    assert_eq!(s.harness_current, "abc");
    assert_eq!(s.harness_latest, None);
    assert_eq!((s.upgrading, s.progress, s.status.as_str()), (true, 100, "b"));
}

#[test]
fn the_status_tells_the_bytes_of_its_body() {
    let mut s = snapshot();
    s.report(100, "更新完成 ✓".to_string());
    let told = bridge_reply("GET /status HTTP/1.1\r\n", &s);
    assert_eq!(told.action, BridgeAction::Nothing);
    let json = s.json();
    assert!(json.len() > json.chars().count());
    assert_eq!(
        told.response,
        format!(
            "HTTP/1.1 200 OK\r\nContent-Type: application/json\r\nContent-Length: {}\r\nConnection: close\r\n\r\n{}",
            json.len(),
            json
        )
    );
}

#[test]
fn the_page_of_the_releases_is_opened() {
    let page = "https://github.com/Myoontyee/deepseek-harness-desktop/releases/latest";
    let windows = open_release(Platform::Windows);
    assert_eq!(windows.program, "cmd");
    assert_eq!(windows.args, vec!["/c", "start", "", page]);
    let unix = open_release(Platform::Unix);
    assert_eq!(unix.program, "open");
    assert_eq!(unix.args, vec![page]);
}
