//! The loopback bridge that the update panel of the page talks to.
use crate::script::js_string;
use crate::text::{push_decimal, same_text, split_whitespace, text_or_nothing};
use crate::tools::{CommandLine, Platform};
use vstd::prelude::*;

verus! {

/// The port of the bridge.
pub const BRIDGE_PORT: u16 = 3091;

/// The page of the releases of the shell.
pub const RELEASES_PAGE: &'static str =
    "https://github.com/Myoontyee/deepseek-harness-desktop/releases/latest";

// --- the snapshot ------------------------------------------------------------------

/// What the update panel shows.
#[derive(Debug)]
pub struct UpdateSnapshot {
    /// The version of the shell.
    pub shell_current: String,
    /// The newest version of the shell, where it is known.
    pub shell_latest: Option<String>,
    /// The revision of the harness.
    pub harness_current: String,
    /// The newest revision of the harness, where it is known.
    pub harness_latest: Option<String>,
    /// An upgrade has been started.
    pub upgrading: bool,
    /// How far the upgrade is, in percent.
    pub progress: u32,
    /// What the upgrade is doing, or what became of it.
    pub status: String,
}

/// The text of a snapshot's parts.
pub struct SnapshotView {
    pub shell_current: Seq<char>,
    pub shell_latest: Option<Seq<char>>,
    pub harness_current: Seq<char>,
    pub harness_latest: Option<Seq<char>>,
    pub upgrading: bool,
    pub progress: u32,
    pub status: Seq<char>,
}

impl View for UpdateSnapshot {
    type V = SnapshotView;

    open spec fn view(&self) -> SnapshotView {
        SnapshotView {
            shell_current: self.shell_current@,
            shell_latest: self.shell_latest.deep_view(),
            harness_current: self.harness_current@,
            harness_latest: self.harness_latest.deep_view(),
            upgrading: self.upgrading,
            progress: self.progress,
            status: self.status@,
        }
    }
}

/// A text in JSON that may be missing.
pub open spec fn optional_literal(text: Option<Seq<char>>) -> Seq<char> {
    match text {
        Some(s) => crate::script::literal(s),
        None => "null"@,
    }
}

/// A truth value in JSON.
pub open spec fn truth(b: bool) -> Seq<char> {
    if b {
        "true"@
    } else {
        "false"@
    }
}

impl SnapshotView {
    /// The snapshot once it was noted how far an upgrade is and what it is doing.
    pub open spec fn reported(self, percent: u32, status: Seq<char>) -> SnapshotView {
        SnapshotView { upgrading: true, progress: percent, status, ..self }
    }

    /// The JSON of a snapshot from its status on.
    pub open spec fn json_status(self) -> Seq<char> {
        ",\"status\":"@ + (crate::script::literal(self.status) + "}"@)
    }

    /// The JSON of a snapshot from its progress on.
    pub open spec fn json_progress(self) -> Seq<char> {
        ",\"progress\":"@ + (crate::text::decimal(self.progress as nat) + self.json_status())
    }

    /// The JSON of a snapshot from the mark of an upgrade on.
    pub open spec fn json_upgrading(self) -> Seq<char> {
        ",\"upgrading\":"@ + (truth(self.upgrading) + self.json_progress())
    }

    /// The JSON of a snapshot from the newest revision on.
    pub open spec fn json_harness_latest(self) -> Seq<char> {
        ",\"harnessLatest\":"@ + (optional_literal(self.harness_latest) + self.json_upgrading())
    }

    /// The JSON of a snapshot from the revision on.
    pub open spec fn json_harness(self) -> Seq<char> {
        ",\"harnessCurrent\":"@ + (crate::script::literal(self.harness_current)
            + self.json_harness_latest())
    }

    /// The JSON of a snapshot from the newest version on.
    pub open spec fn json_shell_latest(self) -> Seq<char> {
        ",\"shellLatest\":"@ + (optional_literal(self.shell_latest) + self.json_harness())
    }

    /// The JSON of a snapshot.
    pub open spec fn json(self) -> Seq<char> {
        "{\"shellCurrent\":"@ + (crate::script::literal(self.shell_current)
            + self.json_shell_latest())
    }
}

proof fn splice(before: Seq<char>, a: Seq<char>, b: Seq<char>, rest: Seq<char>)
    ensures
        before + a + b + rest == before + (a + (b + rest)),
{
    assert(before + a + b + rest =~= before + (a + (b + rest)));
}

proof fn nothing_before(s: Seq<char>)
    ensures
        Seq::<char>::empty() + s == s,
{
    assert(Seq::<char>::empty() + s =~= s);
}

fn push_optional(out: &mut String, text: &Option<String>)
    ensures
        final(out)@ == old(out)@ + optional_literal(text.deep_view()),
{
    match text {
        Some(s) => {
            let literal = js_string(s.as_str());
            out.append(literal.as_str());
        },
        None => out.append("null"),
    }
}

impl UpdateSnapshot {
    /// The snapshot as JSON.
    pub fn json(&self) -> (r: String)
        ensures
            r@ == self@.json(),
    {
        let ghost v = self@;
        let mut out = String::new();
        let ghost before = out@;
        out.append("{\"shellCurrent\":");
        out.append(js_string(self.shell_current.as_str()).as_str());
        proof {
            splice(
                before,
                "{\"shellCurrent\":"@,
                crate::script::literal(v.shell_current),
                v.json_shell_latest(),
            );
        }
        let ghost before = out@;
        out.append(",\"shellLatest\":");
        push_optional(&mut out, &self.shell_latest);
        proof {
            splice(
                before,
                ",\"shellLatest\":"@,
                optional_literal(v.shell_latest),
                v.json_harness(),
            );
        }
        let ghost before = out@;
        out.append(",\"harnessCurrent\":");
        out.append(js_string(self.harness_current.as_str()).as_str());
        proof {
            splice(
                before,
                ",\"harnessCurrent\":"@,
                crate::script::literal(v.harness_current),
                v.json_harness_latest(),
            );
        }
        let ghost before = out@;
        out.append(",\"harnessLatest\":");
        push_optional(&mut out, &self.harness_latest);
        proof {
            splice(
                before,
                ",\"harnessLatest\":"@,
                optional_literal(v.harness_latest),
                v.json_upgrading(),
            );
        }
        let ghost before = out@;
        out.append(",\"upgrading\":");
        if self.upgrading {
            out.append("true");
        } else {
            out.append("false");
        }
        proof {
            splice(before, ",\"upgrading\":"@, truth(v.upgrading), v.json_progress());
        }
        let ghost before = out@;
        out.append(",\"progress\":");
        push_decimal(&mut out, self.progress as u64);
        proof {
            splice(
                before,
                ",\"progress\":"@,
                crate::text::decimal(v.progress as nat),
                v.json_status(),
            );
        }
        let ghost before = out@;
        out.append(",\"status\":");
        out.append(js_string(self.status.as_str()).as_str());
        out.append("}");
        proof {
            splice(before, ",\"status\":"@, crate::script::literal(v.status), "}"@);
            nothing_before(v.json());
        }
        out
    }

    /// The snapshot before any upgrade, with the versions that were looked up.
    pub fn first(
        shell_current: &str,
        shell_latest: Option<String>,
        harness_current: Option<String>,
        harness_latest: Option<String>,
    ) -> (r: UpdateSnapshot)
        ensures
            r.shell_current@ == shell_current@,
            r.shell_latest == shell_latest,
            r.harness_current@ == crate::text::or_nothing(harness_current),
            r.harness_latest == harness_latest,
            !r.upgrading,
            r.progress == 0,
            r.status@ == Seq::<char>::empty(),
    {
        UpdateSnapshot {
            shell_current: shell_current.to_owned(),
            shell_latest,
            harness_current: text_or_nothing(harness_current),
            harness_latest,
            upgrading: false,
            progress: 0,
            status: String::new(),
        }
    }

    /// Notes how far an upgrade is and what it is doing.
    pub fn report(&mut self, percent: u32, status: String)
        ensures
            final(self)@ == old(self)@.reported(percent, status@),
            final(self).upgrading,
            final(self).progress == percent,
            final(self).status@ == status@,
            final(self).shell_current == old(self).shell_current,
            final(self).shell_latest == old(self).shell_latest,
            final(self).harness_current == old(self).harness_current,
            final(self).harness_latest == old(self).harness_latest,
    {
        self.upgrading = true;
        self.progress = percent;
        self.status = status;
    }
}

/// A snapshot of nothing.
pub open spec fn blank() -> SnapshotView {
    SnapshotView {
        shell_current: Seq::empty(),
        shell_latest: None,
        harness_current: Seq::empty(),
        harness_latest: None,
        upgrading: false,
        progress: 0,
        status: Seq::empty(),
    }
}

fn copied(text: &Option<String>) -> (r: Option<String>)
    ensures
        r == *text,
{
    match text {
        Some(s) => Some(s.clone()),
        None => None,
    }
}

/// A copy of the shared snapshot for one request: a snapshot of nothing where
/// the shared one cannot be read.
pub fn clone_inner_for_bridge(shared: Option<&UpdateSnapshot>) -> (r: UpdateSnapshot)
    ensures
        r@ == match shared {
            Some(snapshot) => snapshot@,
            None => blank(),
        },
{
    match shared {
        Some(snapshot) => UpdateSnapshot {
            shell_current: snapshot.shell_current.clone(),
            shell_latest: copied(&snapshot.shell_latest),
            harness_current: snapshot.harness_current.clone(),
            harness_latest: copied(&snapshot.harness_latest),
            upgrading: snapshot.upgrading,
            progress: snapshot.progress,
            status: snapshot.status.clone(),
        },
        None => UpdateSnapshot {
            shell_current: String::new(),
            shell_latest: None,
            harness_current: String::new(),
            harness_latest: None,
            upgrading: false,
            progress: 0,
            status: String::new(),
        },
    }
}

// --- requests ------------------------------------------------------------------------

/// What a request asks for.
#[derive(Clone, Copy, PartialEq, Eq, Structural, Debug)]
pub enum Route {
    /// Upgrade the harness.
    Upgrade,
    /// Open the page of the releases.
    OpenRelease,
    /// Tell the snapshot.
    Status,
    /// Nothing that the bridge has.
    Unknown,
}

/// The method of a request, by its first line; nothing where the line is blank.
pub open spec fn method_of(line: Seq<char>) -> Seq<char> {
    let words = crate::text::words(line);
    if words.len() > 0 {
        words[0]
    } else {
        ""@
    }
}

/// The path of a request, by its first line; `/` where there is none.
pub open spec fn path_of(line: Seq<char>) -> Seq<char> {
    let words = crate::text::words(line);
    if words.len() > 1 {
        words[1]
    } else {
        "/"@
    }
}

/// What a request asks for, by its first line.
pub open spec fn route_of(line: Seq<char>) -> Route {
    if path_of(line) == "/upgrade-harness"@ && method_of(line) == "POST"@ {
        Route::Upgrade
    } else if path_of(line) == "/open-release"@ && method_of(line) == "POST"@ {
        Route::OpenRelease
    } else if path_of(line) == "/status"@ {
        Route::Status
    } else {
        Route::Unknown
    }
}

/// What a request asks for, by its first line.
pub fn route(line: &str) -> (r: Route)
    ensures
        r == route_of(line@),
{
    let words = split_whitespace(line);
    let method = if words.len() > 0 {
        words[0].as_str()
    } else {
        ""
    };
    let path = if words.len() > 1 {
        words[1].as_str()
    } else {
        "/"
    };
    assert(method@ == method_of(line@));
    assert(path@ == path_of(line@));
    let post = same_text(method, "POST");
    if same_text(path, "/upgrade-harness") && post {
        Route::Upgrade
    } else if same_text(path, "/open-release") && post {
        Route::OpenRelease
    } else if same_text(path, "/status") {
        Route::Status
    } else {
        Route::Unknown
    }
}

/// An answer: its status, the kind of its body where that is told, and the
/// body. The head tells how many bytes the body has.
pub open spec fn http_text(
    status: Seq<char>,
    content_type: Option<Seq<char>>,
    body: Seq<char>,
) -> Seq<char> {
    "HTTP/1.1 "@ + status + "\r\n"@ + (match content_type {
        Some(kind) => "Content-Type: "@ + kind + "\r\n"@,
        None => ""@,
    }) + "Content-Length: "@ + crate::text::decimal(vstd::utf8::encode_utf8(body).len())
        + "\r\nConnection: close\r\n\r\n"@ + body
}

fn http_response(status: &str, json: bool, body: &str) -> (r: String)
    ensures
        r@ == http_text(
            status@,
            if json {
                Some("application/json"@)
            } else {
                None
            },
            body@,
        ),
{
    let mut out = "HTTP/1.1 ".to_owned();
    out.append(status);
    out.append("\r\n");
    if json {
        out.append("Content-Type: ");
        out.append("application/json");
        out.append("\r\n");
    }
    out.append("Content-Length: ");
    let length: usize = body.as_bytes().len();
    push_decimal(&mut out, length as u64);
    out.append("\r\nConnection: close\r\n\r\n");
    out.append(body);
    proof {
        reveal_strlit("");
        assert(out@ =~= http_text(
            status@,
            if json {
                Some("application/json"@)
            } else {
                None
            },
            body@,
        ));
    }
    out
}

/// What the bridge does beside answering.
#[derive(Clone, Copy, PartialEq, Eq, Structural, Debug)]
pub enum BridgeAction {
    /// Nothing.
    Nothing,
    /// Start an upgrade of the harness.
    StartUpgrade,
    /// Open [`RELEASES_PAGE`].
    OpenRelease,
}

/// What the bridge does upon a request.
#[derive(Debug)]
pub struct BridgeReply {
    pub action: BridgeAction,
    pub response: String,
}

/// What the bridge does beside answering a request: an upgrade is started only
/// where none has been.
pub open spec fn action_of(route: Route, upgrading: bool) -> BridgeAction {
    match route {
        Route::Upgrade => if upgrading {
            BridgeAction::Nothing
        } else {
            BridgeAction::StartUpgrade
        },
        Route::OpenRelease => BridgeAction::OpenRelease,
        _ => BridgeAction::Nothing,
    }
}

/// What the bridge answers a request.
pub open spec fn response_of(route: Route, snapshot: SnapshotView) -> Seq<char> {
    match route {
        Route::Upgrade => if snapshot.upgrading {
            http_text("409 Conflict"@, None, "no"@)
        } else {
            http_text("202 Accepted"@, None, "ok"@)
        },
        Route::OpenRelease => http_text("200 OK"@, None, "ok"@),
        Route::Status => http_text("200 OK"@, Some("application/json"@), snapshot.json()),
        Route::Unknown => http_text("404 Not Found"@, None, "no"@),
    }
}

/// What the bridge does upon a request, given its first line.
pub fn bridge_reply(line: &str, snapshot: &UpdateSnapshot) -> (r: BridgeReply)
    ensures
        r.action == action_of(route_of(line@), snapshot.upgrading),
        r.response@ == response_of(route_of(line@), snapshot@),
{
    match route(line) {
        Route::Upgrade => if snapshot.upgrading {
            BridgeReply {
                action: BridgeAction::Nothing,
                response: http_response("409 Conflict", false, "no"),
            }
        } else {
            BridgeReply {
                action: BridgeAction::StartUpgrade,
                response: http_response("202 Accepted", false, "ok"),
            }
        },
        Route::OpenRelease => BridgeReply {
            action: BridgeAction::OpenRelease,
            response: http_response("200 OK", false, "ok"),
        },
        Route::Status => BridgeReply {
            action: BridgeAction::Nothing,
            response: http_response("200 OK", true, snapshot.json().as_str()),
        },
        Route::Unknown => BridgeReply {
            action: BridgeAction::Nothing,
            response: http_response("404 Not Found", false, "no"),
        },
    }
}

/// The program that opens a page in the browser.
pub open spec fn open_program(platform: Platform) -> Seq<char> {
    match platform {
        Platform::Windows => "cmd"@,
        Platform::Unix => "open"@,
    }
}

/// The arguments of [`open_program`] for the page of the releases.
pub open spec fn open_arguments(platform: Platform) -> Seq<Seq<char>> {
    match platform {
        Platform::Windows => seq!["/c"@, "start"@, ""@, RELEASES_PAGE@],
        Platform::Unix => seq![RELEASES_PAGE@],
    }
}

/// The command that opens the page of the releases.
pub fn open_release(platform: Platform) -> (r: CommandLine)
    ensures
        r.program@ == open_program(platform),
        r.args.deep_view() == open_arguments(platform),
{
    let mut args: Vec<String> = Vec::new();
    let program = match platform {
        Platform::Windows => {
            args.push("/c".to_owned());
            args.push("start".to_owned());
            args.push("".to_owned());
            "cmd".to_owned()
        },
        Platform::Unix => "open".to_owned(),
    };
    args.push(RELEASES_PAGE.to_owned());
    assert(args.deep_view() =~= open_arguments(platform));
    CommandLine { program, args }
}

// --- what holds of the bridge ----------------------------------------------------------

/// The snapshot once all of this was noted, in order.
pub open spec fn after_reports(snapshot: SnapshotView, reports: Seq<(u32, Seq<char>)>) -> SnapshotView
    decreases reports.len(),
{
    if reports.len() == 0 {
        snapshot
    } else {
        after_reports(snapshot, reports.drop_last()).reported(
            reports.last().0,
            reports.last().1,
        )
    }
}

/// Once an upgrade has noted anything, no other is started, whatever it notes
/// later: a request for one is refused.
pub proof fn one_upgrade_at_a_time(
    line: Seq<char>,
    snapshot: SnapshotView,
    reports: Seq<(u32, Seq<char>)>,
)
    requires
        reports.len() > 0,
    ensures
        ({
            let later = after_reports(snapshot, reports);
            &&& action_of(route_of(line), later.upgrading) != BridgeAction::StartUpgrade
            &&& route_of(line) == Route::Upgrade ==> response_of(route_of(line), later)
                == http_text("409 Conflict"@, None, "no"@)
        }),
{
}

/// An upgrade changes only what the panel shows of it: the versions stay as they
/// were looked up.
pub proof fn upgrades_keep_the_versions(snapshot: SnapshotView, reports: Seq<(u32, Seq<char>)>)
    ensures
        ({
            let later = after_reports(snapshot, reports);
            &&& later.shell_current == snapshot.shell_current
            &&& later.shell_latest == snapshot.shell_latest
            &&& later.harness_current == snapshot.harness_current
            &&& later.harness_latest == snapshot.harness_latest
        }),
    decreases reports.len(),
{
    if reports.len() > 0 {
        upgrades_keep_the_versions(snapshot, reports.drop_last());
    }
}

} // verus!
