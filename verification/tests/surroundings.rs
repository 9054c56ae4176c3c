use dsh_desktop::proxy::{proxy_environment, system_proxy_url};
use dsh_desktop::search::find_yes;
use dsh_desktop::settings::{
    env_flag, env_or, local_source, nonempty, port, runtime_dir, skip_update, tools_dir, BaseDir,
    Location,
};
use dsh_desktop::tools::{
    find_git, git_name, git_places, node_bin, pnpm_bin, prepend_path, GitPlace,
    GitSearch, PathEntry, Platform, SNAPSHOT_FILE,
};
use dsh_desktop::updates::{
    check_updates, harness_version, latest_revision, member_text, release_version,
};

fn some(text: &str) -> Option<String> {
    Some(text.to_string())
}

fn bytes(text: &str) -> Option<Vec<u8>> {
    Some(text.as_bytes().to_vec())
}

#[test]
fn empty_settings_count_as_unset() {
    assert_eq!(env_or(some("x"), "d"), "x");
    assert_eq!(env_or(some(""), "d"), "d");
    assert_eq!(env_or(None, "d"), "d");
    assert_eq!(nonempty(some("")), None);
    assert_eq!(local_source(some("/src")), some("/src"));
    assert_eq!(local_source(some("")), None);
    assert_eq!(local_source(None), None);
}

#[test]
fn flags_are_set_by_one_only() {
    assert!(env_flag(some("1")));
    assert!(!env_flag(some("true")));
    assert!(!env_flag(some("")));
    assert!(!env_flag(some("1 ")));
    assert!(!env_flag(None));
    assert!(skip_update(some("1")));
    assert!(!skip_update(some("0")));
}

#[test]
fn the_port_is_3080_unless_set() {
    assert_eq!(port(None), 3080);
    assert_eq!(port(some("")), 3080);
    assert_eq!(port(some("4000")), 4000);
    assert_eq!(port(some("+80")), 80);
    assert_eq!(port(some("65535")), 65535);
    assert_eq!(port(some("65536")), 3080);
    assert_eq!(port(some("http")), 3080);
    assert_eq!(port(some("-1")), 3080);
}

#[test]
fn every_port_can_be_set_by_its_number() {
    for number in 0..=65535u16 {
        assert_eq!(port(Some(number.to_string())), number);
    }
}

#[test]
fn the_runtime_lies_below_the_application_data() {
    match runtime_dir(some("/r"), true) {
        Location::Chosen(path) => assert_eq!(path, "/r"),
        other => panic!("{:?}", other),
    }
    match runtime_dir(some(""), true) {
        Location::Below { base, parts } => {
            assert_eq!(base, BaseDir::LocalAppData);
            assert_eq!(parts, vec!["DeepSeekHarness", "runtime"]);
        }
        other => panic!("{:?}", other),
    }
    match runtime_dir(None, false) {
        Location::Below { base, .. } => assert_eq!(base, BaseDir::Temporary),
        other => panic!("{:?}", other),
    }
}

#[test]
fn the_tools_lie_beside_the_program() {
    match tools_dir(some("/t"), true) {
        Location::Chosen(path) => assert_eq!(path, "/t"),
        other => panic!("{:?}", other),
    }
    match tools_dir(None, true) {
        Location::Below { base, parts } => {
            assert_eq!(base, BaseDir::Program);
            assert_eq!(parts, vec!["tools"]);
        }
        other => panic!("{:?}", other),
    }
    match tools_dir(some(""), false) {
        Location::Below { base, .. } => assert_eq!(base, BaseDir::Temporary),
        other => panic!("{:?}", other),
    }
}

#[test]
fn bundled_programs_have_the_names_of_the_platform() {
    assert_eq!(pnpm_bin(Platform::Windows), vec!["pnpm.exe"]);
    assert_eq!(pnpm_bin(Platform::Unix), vec!["pnpm"]);
    assert_eq!(node_bin(Platform::Windows), vec!["node", "node.exe"]);
    assert_eq!(node_bin(Platform::Unix), vec!["node", "bin", "node"]);
    assert_eq!(git_name(Platform::Windows), "git.exe");
    assert_eq!(git_name(Platform::Unix), "git");
    assert_eq!(SNAPSHOT_FILE, "dsh-runtime-snapshot.zip");
}

#[test]
fn own_directories_come_first_on_the_path() {
    assert_eq!(prepend_path(0), vec![PathEntry::Tools, PathEntry::Node]);
    assert_eq!(
        prepend_path(2),
        vec![PathEntry::Tools, PathEntry::Node, PathEntry::Inherited(0), PathEntry::Inherited(1)]
    );
}

#[test]
fn git_is_looked_for_on_the_path_and_then_at_known_places() {
    let windows = Platform::Windows;
    assert_eq!(git_places(windows).len(), 3);
    assert_eq!(git_places(windows)[0], r"C:\Program Files\Git\cmd\git.exe");
    assert_eq!(git_places(windows)[1], r"C:\Program Files (x86)\Git\cmd\git.exe");
    assert_eq!(git_places(windows)[2], r"C:\Program Files\Git\bin\git.exe");
    assert_eq!(
        git_places(Platform::Unix),
        vec!["/usr/bin/git", "/usr/local/bin/git", "/opt/homebrew/bin/git", "/opt/local/bin/git"]
    );
    assert_eq!(find_git(windows, 2, &vec![]), GitSearch::Look(GitPlace::OnPath(0)));
    assert_eq!(find_git(windows, 2, &vec![true]), GitSearch::Found(GitPlace::OnPath(0)));
    assert_eq!(find_git(windows, 2, &vec![false]), GitSearch::Look(GitPlace::OnPath(1)));
    assert_eq!(find_git(windows, 2, &vec![false, false]), GitSearch::Look(GitPlace::Known(0)));
    assert_eq!(
        find_git(windows, 2, &vec![false, false, false, true]),
        GitSearch::Found(GitPlace::Known(1))
    );
    assert_eq!(find_git(windows, 2, &vec![false; 5]), GitSearch::Nowhere);
    assert_eq!(find_git(Platform::Unix, 0, &vec![false; 3]), GitSearch::Look(GitPlace::Known(3)));
    assert_eq!(find_git(Platform::Unix, 0, &vec![false; 4]), GitSearch::Nowhere);
}

#[test]
fn git_is_the_first_that_is_there() {
    let there = |place: GitPlace| place == GitPlace::Known(1) || place == GitPlace::Known(2);
    let mut answers: Vec<bool> = vec![];
    let found = loop {
        match find_git(Platform::Unix, 3, &answers) {
            GitSearch::Look(place) => answers.push(there(place)),
            settled => break settled,
        }
    };
    assert_eq!(found, GitSearch::Found(GitPlace::Known(1)));
    assert_eq!(answers.len(), 5);
    assert_eq!(find_yes(&vec![false, true, true]), 1);
    assert_eq!(find_yes(&vec![]), 0);
}

#[test]
fn the_proxy_of_the_system() {
    let windows = Platform::Windows;
    assert_eq!(
        system_proxy_url(windows, Some(1), some("127.0.0.1:7897")),
        some("http://127.0.0.1:7897")
    );
    assert_eq!(system_proxy_url(windows, Some(0), some("127.0.0.1:7897")), None);
    assert_eq!(system_proxy_url(windows, None, some("127.0.0.1:7897")), None);
    assert_eq!(system_proxy_url(windows, Some(1), None), None);
    assert_eq!(system_proxy_url(windows, Some(1), some("")), None);
    assert_eq!(system_proxy_url(Platform::Unix, Some(1), some("127.0.0.1:7897")), None);
}

#[test]
fn the_proxy_of_the_system_by_protocol() {
    let of = |server: &str| system_proxy_url(Platform::Windows, Some(1), some(server));
    assert_eq!(of("http=a:1;https=b:2"), some("http://a:1"));
    assert_eq!(of("ftp=a:1;HTTPS=b:2"), some("http://b:2"));
    assert_eq!(of("ftp=a:1;socks=b:2"), None);
    assert_eq!(of("plain;https=b=2"), some("http://b=2"));
    assert_eq!(of("https="), some("http://"));
    assert_eq!(of(" http=a:1"), None);
}

#[test]
fn git_gets_the_proxy_under_every_name() {
    let url = "http://127.0.0.1:7897";
    let pair = |name: &str| (name.to_string(), url.to_string());
    assert_eq!(
        proxy_environment(Some(url)),
        vec![pair("HTTPS_PROXY"), pair("HTTP_PROXY"), pair("https_proxy"), pair("http_proxy")]
    );
    assert_eq!(proxy_environment(None), vec![]);
}

#[test]
fn the_newest_revision_is_read_from_the_reply() {
    assert_eq!(latest_revision(bytes("{\"sha\":\"abc\",\"node_id\":\"n\"}")), some("abc"));
    assert_eq!(latest_revision(bytes("{\"a\":{\"sha\":\"no\"},\"sha\":\"\\u00e9\\n\"}")), some("é\n"));
    assert_eq!(latest_revision(bytes("{\"sha\":12}")), None);
    assert_eq!(latest_revision(bytes("{\"sha\":null}")), None);
    assert_eq!(latest_revision(bytes("{\"SHA\":\"abc\"}")), None);
    assert_eq!(latest_revision(bytes("[\"sha\",\"abc\"]")), None);
    assert_eq!(latest_revision(bytes("{\"sha\":\"abc\"")), None);
    assert_eq!(latest_revision(bytes("{\"sha\":\"abc\"} x")), None);
    assert_eq!(latest_revision(Some(vec![b'"', 0xff, b'"'])), None);
    assert_eq!(latest_revision(bytes("{\"sha\":\"a\",\"sha\":\"b\"}")), some("b"));
    assert_eq!(latest_revision(None), None);
}

#[test]
fn updates_are_looked_up_as_far_as_possible() {
    assert_eq!(
        check_updates(bytes("{\"tag_name\":\"v0.2.0\"}"), bytes("{\"sha\":\"abc\"}")),
        (some("0.2.0"), some("abc"))
    );
    assert_eq!(check_updates(None, bytes("{\"sha\":\"abc\"}")), (None, some("abc")));
    assert_eq!(check_updates(bytes("{\"tag_name\":\"vv1\"}"), None), (some("1"), None));
    assert_eq!(check_updates(bytes("{\"tag_name\":3}"), bytes("oops")), (None, None));
    assert_eq!(check_updates(bytes("{\"tag_name\":\"release-v1\"}"), None), (some("release-v1"), None));
}

#[test]
fn members_of_a_reply() {
    let members = vec![
        ("a".to_string(), None),
        ("tag_name".to_string(), some("v3")),
        ("b".to_string(), some("x")),
    ];
    assert_eq!(member_text(&members, "b"), some("x"));
    assert_eq!(member_text(&members, "a"), None);
    assert_eq!(member_text(&members, "c"), None);
    assert_eq!(release_version(&members), some("3"));
    assert_eq!(release_version(&vec![]), None);
}

#[test]
fn the_version_of_the_harness_is_that_of_its_package() {
    assert_eq!(harness_version(some("{\"name\":\"h\",\"version\":\"1.2.3\"}")), some("1.2.3"));
    assert_eq!(harness_version(some("{\"version\":\"版本\"}")), some("版本"));
    assert_eq!(harness_version(some("{\"name\":\"h\"}")), None);
    assert_eq!(harness_version(some("")), None);
    assert_eq!(harness_version(None), None);
}
