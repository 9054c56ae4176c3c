//! What the update panel can read out of a snapshot and out of an answer of the
//! bridge.
use crate::bridge::{
    bridge_reply, clone_inner_for_bridge, route, BridgeAction, BridgeReply, Route, SnapshotView,
    UpdateSnapshot,
};
use vstd::prelude::*;

verus! {

/// What follows `prefix` at the start of `t`.
pub open spec fn after(t: Seq<char>, prefix: Seq<char>) -> Option<Seq<char>> {
    if prefix.len() <= t.len() && t.take(prefix.len() as int) == prefix {
        Some(t.skip(prefix.len() as int))
    } else {
        None
    }
}

/// Reads a member whose value is a text: the text, and what follows it.
pub open spec fn read_text(t: Seq<char>, name: Seq<char>) -> Option<(Seq<char>, Seq<char>)> {
    match after(t, name) {
        Some(value) => crate::script::read_literal(value),
        None => None,
    }
}

/// Reads a member whose value is a text or `null`.
pub open spec fn read_optional(t: Seq<char>, name: Seq<char>) -> Option<
    (Option<Seq<char>>, Seq<char>),
> {
    match after(t, name) {
        Some(value) => match crate::script::read_literal(value) {
            Some((text, rest)) => Some((Some(text), rest)),
            None => match after(value, "null"@) {
                Some(rest) => Some((None, rest)),
                None => None,
            },
        },
        None => None,
    }
}

/// Reads a member whose value is a truth value.
pub open spec fn read_truth(t: Seq<char>, name: Seq<char>) -> Option<(bool, Seq<char>)> {
    match after(t, name) {
        Some(value) => match (after(value, "true"@), after(value, "false"@)) {
            (Some(rest), _) => Some((true, rest)),
            (None, Some(rest)) => Some((false, rest)),
            (None, None) => None,
        },
        None => None,
    }
}

/// How many decimal digits `t` starts with.
pub open spec fn digits_length(t: Seq<char>) -> nat
    decreases t.len(),
{
    if t.len() > 0 && '0' <= t.first() <= '9' {
        1 + digits_length(t.drop_first())
    } else {
        0
    }
}

/// Reads a member whose value is a number.
pub open spec fn read_number(t: Seq<char>, name: Seq<char>) -> Option<(nat, Seq<char>)> {
    match after(t, name) {
        Some(value) => {
            let n = digits_length(value) as int;
            match crate::text::number(value.take(n)) {
                Some(number) => Some((number, value.skip(n))),
                None => None,
            }
        },
        None => None,
    }
}

/// Reads the JSON of a snapshot.
pub open spec fn read_snapshot(t: Seq<char>) -> Option<SnapshotView> {
    match read_text(t, "{\"shellCurrent\":"@) {
        Some((shell_current, t)) => match read_optional(t, ",\"shellLatest\":"@) {
            Some((shell_latest, t)) => read_from_harness(shell_current, shell_latest, t),
            None => None,
        },
        None => None,
    }
}

/// Reads the JSON of a snapshot from its revision on.
pub open spec fn read_from_harness(
    shell_current: Seq<char>,
    shell_latest: Option<Seq<char>>,
    t: Seq<char>,
) -> Option<SnapshotView> {
    match read_text(t, ",\"harnessCurrent\":"@) {
        Some((harness_current, t)) => match read_optional(t, ",\"harnessLatest\":"@) {
            Some((harness_latest, t)) => match read_upgrade(t) {
                Some((upgrading, progress, status)) => Some(
                    SnapshotView {
                        shell_current,
                        shell_latest,
                        harness_current,
                        harness_latest,
                        upgrading,
                        progress,
                        status,
                    },
                ),
                None => None,
            },
            None => None,
        },
        None => None,
    }
}

/// Reads the JSON of a snapshot from the mark of an upgrade on.
pub open spec fn read_upgrade(t: Seq<char>) -> Option<(bool, u32, Seq<char>)> {
    match read_truth(t, ",\"upgrading\":"@) {
        Some((upgrading, t)) => match read_number(t, ",\"progress\":"@) {
            Some((progress, t)) => match read_text(t, ",\"status\":"@) {
                Some((status, rest)) => if rest == "}"@ && progress <= u32::MAX {
                    Some((upgrading, progress as u32, status))
                } else {
                    None
                },
                None => None,
            },
            None => None,
        },
        None => None,
    }
}

proof fn after_prefix(prefix: Seq<char>, rest: Seq<char>)
    ensures
        after(prefix + rest, prefix) == Some(rest),
{
    assert((prefix + rest).take(prefix.len() as int) =~= prefix);
    assert((prefix + rest).skip(prefix.len() as int) =~= rest);
}

proof fn text_reads_back(name: Seq<char>, text: Seq<char>, rest: Seq<char>)
    ensures
        read_text(name + (crate::script::literal(text) + rest), name) == Some((text, rest)),
{
    after_prefix(name, crate::script::literal(text) + rest);
    crate::script::literal_reads_back(text, rest);
}

proof fn optional_reads_back(name: Seq<char>, text: Option<Seq<char>>, rest: Seq<char>)
    ensures
        read_optional(name + (crate::bridge::optional_literal(text) + rest), name) == Some(
            (text, rest),
        ),
{
    let value = crate::bridge::optional_literal(text) + rest;
    after_prefix(name, value);
    match text {
        Some(s) => {
            crate::script::literal_reads_back(s, rest);
        },
        None => {
            reveal_strlit("null");
            assert(value[0] == 'n');
            after_prefix("null"@, rest);
        },
    }
}

proof fn truth_reads_back(name: Seq<char>, b: bool, rest: Seq<char>)
    ensures
        read_truth(name + (crate::bridge::truth(b) + rest), name) == Some((b, rest)),
{
    let value = crate::bridge::truth(b) + rest;
    after_prefix(name, value);
    after_prefix(crate::bridge::truth(b), rest);
    reveal_strlit("true");
    reveal_strlit("false");
    if !b {
        assert(value[0] == 'f');
        if after(value, "true"@) is Some {
            assert(value.take(4)[0] == 't');
        }
    }
}

proof fn digits_end(digits: Seq<char>, rest: Seq<char>)
    requires
        crate::text::all_digits(digits),
        rest.len() > 0 ==> !('0' <= rest.first() <= '9'),
    ensures
        digits_length(digits + rest) == digits.len(),
    decreases digits.len(),
{
    if digits.len() == 0 {
        assert(digits + rest =~= rest);
    } else {
        let tail = digits.drop_first();
        assert forall|i: int| 0 <= i < tail.len() implies '0' <= #[trigger] tail[i] <= '9' by {
            assert(tail[i] == digits[i + 1]);
        }
        digits_end(tail, rest);
        assert((digits + rest).drop_first() =~= tail + rest);
        assert((digits + rest).first() == digits[0]);
    }
}

proof fn number_reads_back(name: Seq<char>, n: nat, rest: Seq<char>)
    requires
        rest.len() > 0 ==> !('0' <= rest.first() <= '9'),
    ensures
        read_number(name + (crate::text::decimal(n) + rest), name) == Some((n, rest)),
{
    let digits = crate::text::decimal(n);
    after_prefix(name, digits + rest);
    crate::text::decimal_digits(n);
    digits_end(digits, rest);
    assert((digits + rest).take(digits.len() as int) =~= digits);
    assert((digits + rest).skip(digits.len() as int) =~= rest);
    crate::text::number_reads_decimal(n);
}

/// The panel reads of a snapshot exactly what is in it: reading its JSON gives
/// every part back.
pub proof fn snapshot_reads_back(s: SnapshotView)
    ensures
        read_snapshot(s.json()) == Some(s),
{
    text_reads_back("{\"shellCurrent\":"@, s.shell_current, s.json_shell_latest());
    optional_reads_back(",\"shellLatest\":"@, s.shell_latest, s.json_harness());
    text_reads_back(",\"harnessCurrent\":"@, s.harness_current, s.json_harness_latest());
    optional_reads_back(",\"harnessLatest\":"@, s.harness_latest, s.json_upgrading());
    upgrade_reads_back(s);
}

proof fn upgrade_reads_back(s: SnapshotView)
    ensures
        read_upgrade(s.json_upgrading()) == Some((s.upgrading, s.progress, s.status)),
{
    truth_reads_back(",\"upgrading\":"@, s.upgrading, s.json_progress());
    reveal_strlit(",\"status\":");
    assert(s.json_status().first() == ',');
    number_reads_back(",\"progress\":"@, s.progress as nat, s.json_status());
    text_reads_back(",\"status\":"@, s.status, "}"@);
}

/// What a snapshot holds, part by part.
pub open spec fn parts_of(s: &UpdateSnapshot) -> SnapshotView {
    SnapshotView {
        shell_current: s.shell_current@,
        shell_latest: match s.shell_latest {
            Some(text) => Some(text@),
            None => None,
        },
        harness_current: s.harness_current@,
        harness_latest: match s.harness_latest {
            Some(text) => Some(text@),
            None => None,
        },
        upgrading: s.upgrading,
        progress: s.progress,
        status: s.status@,
    }
}

/// The JSON of a snapshot reads back as what the snapshot holds.
pub proof fn json_reads_back(s: &UpdateSnapshot, r: String)
    requires
        call_ensures(UpdateSnapshot::json, (s,), r),
    ensures
        read_snapshot(r@) == Some(parts_of(s)),
{
    snapshot_reads_back(s@);
}

/// A copy for one request holds what the shared snapshot holds.
pub proof fn copies_hold_the_same(shared: Option<&UpdateSnapshot>, r: UpdateSnapshot)
    requires
        call_ensures(clone_inner_for_bridge, (shared,), r),
    ensures
        shared matches Some(s) ==> parts_of(&r) == parts_of(s),
        shared is None ==> r.shell_current@.len() == 0 && r.shell_latest is None
            && r.harness_current@.len() == 0 && r.harness_latest is None && !r.upgrading
            && r.progress == 0 && r.status@.len() == 0,
{
    if shared is None {
        assert(r@.shell_current.len() == 0);
        assert(r@.harness_current.len() == 0);
        assert(r@.status.len() == 0);
        assert(r@.shell_latest is None);
        assert(r@.harness_latest is None);
    } else {
        assert(r@ == shared->0@);
        assert(parts_of(&r) == r@);
        assert(parts_of(shared->0) == shared->0@);
    }
}

/// The first snapshot holds the versions that were looked up, and no upgrade.
pub proof fn the_first_snapshot_holds_the_versions(
    shell_current: &str,
    shell_latest: Option<String>,
    harness_current: Option<String>,
    harness_latest: Option<String>,
    r: UpdateSnapshot,
)
    requires
        call_ensures(
            UpdateSnapshot::first,
            (shell_current, shell_latest, harness_current, harness_latest),
            r,
        ),
    ensures
        r.shell_current@ == shell_current@,
        r.shell_latest == shell_latest,
        harness_current matches Some(text) ==> r.harness_current@ == text@,
        harness_current is None ==> r.harness_current@.len() == 0,
        r.harness_latest == harness_latest,
        !r.upgrading,
        r.progress == 0,
        r.status@.len() == 0,
{
}

/// What an upgrade notes is what the snapshot holds of it from then on, and the
/// rest stays as it was.
pub proof fn what_is_noted_is_held(s: &mut UpdateSnapshot, percent: u32, status: String)
    requires
        call_ensures(UpdateSnapshot::report, (s, percent, status), ()),
    ensures
        final(s).upgrading,
        final(s).progress == percent,
        final(s).status@ == status@,
        final(s).shell_current@ == old(s).shell_current@,
        final(s).shell_latest == old(s).shell_latest,
        final(s).harness_current@ == old(s).harness_current@,
        final(s).harness_latest == old(s).harness_latest,
{
}

/// What an upgrade notes is what the panel reads next.
pub proof fn reports_are_shown(s: SnapshotView, percent: u32, status: Seq<char>)
    ensures
        ({
            let shown = read_snapshot(s.reported(percent, status).json());
            &&& shown is Some
            &&& shown->0.upgrading
            &&& shown->0.progress == percent
            &&& shown->0.status == status
            &&& shown->0.shell_current == s.shell_current
            &&& shown->0.shell_latest == s.shell_latest
            &&& shown->0.harness_current == s.harness_current
            &&& shown->0.harness_latest == s.harness_latest
        }),
{
    snapshot_reads_back(s.reported(percent, status));
}

// --- reading an answer ---------------------------------------------------------------

/// A line end.
pub open spec fn line_end() -> Seq<char> {
    seq!['\r', '\n']
}

/// Whether a text stays on one line.
pub open spec fn on_one_line(s: Seq<char>) -> bool {
    forall|i: int| 0 <= i < s.len() ==> #[trigger] s[i] != '\r'
}

/// How long the first line is.
pub open spec fn line_length(t: Seq<char>) -> nat
    decreases t.len(),
{
    if t.len() == 0 || t.first() == '\r' {
        0
    } else {
        1 + line_length(t.drop_first())
    }
}

/// The first line.
pub open spec fn first_line(t: Seq<char>) -> Seq<char> {
    t.take(line_length(t) as int)
}

/// What follows the first line and its end.
pub open spec fn after_line(t: Seq<char>) -> Seq<char> {
    t.skip(line_length(t) as int + 2)
}

/// What follows the first empty line, where there is one.
pub open spec fn body_of(t: Seq<char>) -> Option<Seq<char>>
    decreases t.len(),
{
    if line_length(t) + 2 > t.len() {
        None
    } else if line_length(t) == 0 {
        Some(after_line(t))
    } else {
        body_of(after_line(t))
    }
}

/// What follows this name at the start of a line before the first empty one.
pub open spec fn field(t: Seq<char>, name: Seq<char>) -> Option<Seq<char>>
    decreases t.len(),
{
    if line_length(t) + 2 > t.len() || line_length(t) == 0 {
        None
    } else if after(first_line(t), name) is Some {
        after(first_line(t), name)
    } else {
        field(after_line(t), name)
    }
}

proof fn line_is_read(a: Seq<char>, t: Seq<char>)
    requires
        on_one_line(a),
    ensures
        line_length(a + line_end() + t) == a.len(),
        first_line(a + line_end() + t) == a,
        after_line(a + line_end() + t) == t,
    decreases a.len(),
{
    let s = a + line_end() + t;
    if a.len() > 0 {
        assert(s.first() == a[0]);
        assert(s.drop_first() =~= a.drop_first() + line_end() + t);
        line_is_read(a.drop_first(), t);
    } else {
        assert(s.first() == '\r');
    }
    assert(s.take(a.len() as int) =~= a);
    assert(s.skip(a.len() as int + 2) =~= t);
}

/// An answer in full: no field beside the kind of its body, where that is told,
/// the number of its bytes, and that the connection ends with it.
pub open spec fn answer_text(status: Seq<char>, json: bool, body: Seq<char>) -> Seq<char> {
    "HTTP/1.1 "@ + status + line_end() + (if json {
        "Content-Type: application/json"@ + line_end()
    } else {
        Seq::empty()
    }) + "Content-Length: "@ + crate::text::decimal(vstd::utf8::encode_utf8(body).len())
        + line_end() + "Connection: close"@ + line_end() + line_end() + body
}

/// What is read of an answer: its status line, the kind and the number of bytes
/// of its body, and its body.
pub proof fn answers_are_read(status: Seq<char>, json: bool, body: Seq<char>)
    requires
        on_one_line(status),
    ensures
        ({
            let kind = if json {
                Some("application/json"@)
            } else {
                None
            };
            let t = crate::bridge::http_text(status, kind, body);
            &&& first_line(t) == "HTTP/1.1 "@ + status
            &&& body_of(t) == Some(body)
            &&& field(t, "Content-Length: "@) is Some
            &&& crate::text::number(field(t, "Content-Length: "@)->0) == Some(
                vstd::utf8::encode_utf8(body).len(),
            )
            &&& field(t, "Content-Type: "@) == kind
            &&& t == answer_text(status, json, body)
        }),
{
    let kind = if json {
        Some("application/json"@)
    } else {
        None
    };
    let t = crate::bridge::http_text(status, kind, body);
    let length = vstd::utf8::encode_utf8(body).len();
    let digits = crate::text::decimal(length);
    crate::text::decimal_digits(length);
    crate::text::number_reads_decimal(length);
    reveal_strlit("");
    reveal_strlit("\r\n");
    reveal_strlit("HTTP/1.1 ");
    reveal_strlit("Content-Length: ");
    reveal_strlit("Content-Type: ");
    reveal_strlit("application/json");
    reveal_strlit("\r\nConnection: close\r\n\r\n");
    let close = "\r\nConnection: close\r\n\r\n"@.subrange(2, 19);
    let a1 = "HTTP/1.1 "@ + status;
    let a2 = "Content-Type: "@ + "application/json"@;
    let a3 = "Content-Length: "@ + digits;
    let t4 = line_end() + body;
    let t3 = close + line_end() + t4;
    let t2 = a3 + line_end() + t3;
    let t1 = if json {
        a2 + line_end() + t2
    } else {
        t2
    };
    assert("\r\n"@ =~= line_end());
    assert("\r\nConnection: close\r\n\r\n"@ =~= line_end() + close + line_end() + line_end());
    assert(t =~= a1 + line_end() + t1);
    reveal_strlit("Connection: close");
    reveal_strlit("Content-Type: application/json");
    assert("Connection: close"@ =~= close);
    assert("Content-Type: application/json"@ =~= a2);
    assert(t =~= answer_text(status, json, body));
    assert forall|i: int| 0 <= i < a3.len() implies #[trigger] a3[i] != '\r' by {
        if i >= 16 {
            assert(a3[i] == digits[i - 16]);
        }
    }
    line_is_read(a1, t1);
    line_is_read(a2, t2);
    line_is_read(a3, t3);
    line_is_read(close, t4);
    line_is_read(Seq::empty(), body);
    assert(Seq::<char>::empty() + line_end() + body =~= t4);
    assert(t.len() >= a1.len() + 2 && t1.len() >= a3.len() + 2 && t2.len() >= a3.len() + 2
        && t3.len() >= close.len() + 2);
    reveal_with_fuel(body_of, 6);
    reveal_with_fuel(field, 5);
    assert(body_of(t) == Some(body));
    after_prefix("Content-Length: "@, digits);
    after_prefix("Content-Type: "@, "application/json"@);
    assert(a1[0] == 'H' && a2[0] == 'C' && a2[8] == 'T' && a3[8] == 'L' && close[0] == 'C'
        && close[2] == 'n' && close[3] == 'n');
    let cl = "Content-Length: "@;
    let ct = "Content-Type: "@;
    assert(after(a1, cl) is None) by {
        if after(a1, cl) is Some {
            assert(a1.take(16)[0] == cl[0]);
        }
    }
    assert(after(a1, ct) is None) by {
        if after(a1, ct) is Some {
            assert(a1.take(14)[0] == ct[0]);
        }
    }
    assert(after(a2, cl) is None) by {
        if after(a2, cl) is Some {
            assert(a2.take(16)[8] == cl[8]);
        }
    }
    assert(after(a3, ct) is None) by {
        if after(a3, ct) is Some {
            assert(a3.take(14)[8] == ct[8]);
        }
    }
    assert(after(close, ct) is None) by {
        if after(close, ct) is Some {
            assert(close.take(14)[3] == ct[3]);
        }
    }
    assert(line_length(t4) == 0);
    assert(field(t4, ct) is None);
    assert(field(t3, ct) is None);
    assert(field(t2, ct) is None);
    assert(field(t2, cl) == Some(digits));
}

// --- requests ------------------------------------------------------------------------

/// The first line of a request: its method, its path, and what follows them.
pub open spec fn request_line(
    before: Seq<char>,
    method: Seq<char>,
    gap: Seq<char>,
    path: Seq<char>,
    rest: Seq<char>,
) -> Seq<char> {
    before + method + (gap + path + rest)
}

/// Whether these make up a request: two words with white space between them and
/// around them.
pub open spec fn is_request(
    before: Seq<char>,
    method: Seq<char>,
    gap: Seq<char>,
    path: Seq<char>,
    rest: Seq<char>,
) -> bool {
    &&& crate::text_laws::blank(before)
    &&& method.len() > 0 && crate::text_laws::solid(method)
    &&& gap.len() > 0 && crate::text_laws::blank(gap)
    &&& path.len() > 0 && crate::text_laws::solid(path)
    &&& rest.len() > 0 ==> crate::text::is_space(rest.first())
}

proof fn request_is_read(
    before: Seq<char>,
    method: Seq<char>,
    gap: Seq<char>,
    path: Seq<char>,
    rest: Seq<char>,
)
    requires
        is_request(before, method, gap, path, rest),
    ensures
        crate::bridge::method_of(request_line(before, method, gap, path, rest)) == method,
        crate::bridge::path_of(request_line(before, method, gap, path, rest)) == path,
{
    let tail = gap + path + rest;
    assert(tail.first() == gap[0]);
    crate::text_laws::first_word(before, method, tail);
    crate::text_laws::first_word(gap, path, rest);
}

proof fn paths_differ()
    ensures
        "/upgrade-harness"@ != "/open-release"@,
        "/upgrade-harness"@ != "/status"@,
        "/open-release"@ != "/status"@,
        "/"@ != "/upgrade-harness"@,
        "/"@ != "/open-release"@,
        "/"@ != "/status"@,
{
    reveal_strlit("/");
    reveal_strlit("/upgrade-harness");
    reveal_strlit("/open-release");
    reveal_strlit("/status");
    assert("/upgrade-harness"@.len() == 16 && "/open-release"@.len() == 13 && "/status"@.len() == 7
        && "/"@.len() == 1);
}

/// What a request asks for is told by its method and its path, whatever white
/// space stands between them and whatever follows.
pub proof fn requests_are_told_apart(
    line: &str,
    r: Route,
    before: Seq<char>,
    method: Seq<char>,
    gap: Seq<char>,
    path: Seq<char>,
    rest: Seq<char>,
)
    requires
        call_ensures(route, (line,), r),
        line@ == request_line(before, method, gap, path, rest),
        is_request(before, method, gap, path, rest),
    ensures
        path == "/status"@ ==> r == Route::Status,
        path == "/upgrade-harness"@ ==> r == (if method == "POST"@ {
            Route::Upgrade
        } else {
            Route::Unknown
        }),
        path == "/open-release"@ ==> r == (if method == "POST"@ {
            Route::OpenRelease
        } else {
            Route::Unknown
        }),
        path != "/status"@ && path != "/upgrade-harness"@ && path != "/open-release"@ ==> r
            == Route::Unknown,
{
    request_is_read(before, method, gap, path, rest);
    paths_differ();
}

/// A line of fewer than two words asks for nothing that the bridge has.
pub proof fn a_request_has_two_words(
    line: &str,
    r: Route,
    before: Seq<char>,
    word: Seq<char>,
    rest: Seq<char>,
)
    requires
        call_ensures(route, (line,), r),
        line@ == before + word + rest,
        crate::text_laws::blank(before),
        crate::text_laws::solid(word),
        crate::text_laws::blank(rest),
    ensures
        r == Route::Unknown,
{
    paths_differ();
    if word.len() == 0 {
        assert(line@ =~= before + rest);
        assert forall|i: int| 0 <= i < line@.len() implies crate::text::is_space(
            #[trigger] line@[i],
        ) by {
            if i < before.len() {
                assert(line@[i] == before[i]);
            } else {
                assert(line@[i] == rest[i - before.len()]);
            }
        }
        crate::text_laws::words_of_blank(line@);
    } else {
        if rest.len() > 0 {
            assert(crate::text::is_space(rest[0]));
        }
        crate::text_laws::first_word(before, word, rest);
        crate::text_laws::words_of_blank(rest);
    }
}

// --- answers ---------------------------------------------------------------------------

/// A request for the status is answered with success and with a body that reads
/// back as exactly the snapshot, whatever the snapshot holds; the head tells
/// that it is JSON and how many bytes it has. Nothing is started.
pub proof fn the_status_is_told(
    line: &str,
    snapshot: &UpdateSnapshot,
    r: BridgeReply,
    before: Seq<char>,
    method: Seq<char>,
    gap: Seq<char>,
    rest: Seq<char>,
)
    requires
        call_ensures(bridge_reply, (line, snapshot), r),
        line@ == request_line(before, method, gap, "/status"@, rest),
        is_request(before, method, gap, "/status"@, rest),
    ensures
        r.action == BridgeAction::Nothing,
        first_line(r.response@) == "HTTP/1.1 "@ + "200 OK"@,
        field(r.response@, "Content-Type: "@) == Some("application/json"@),
        body_of(r.response@) matches Some(body) && read_snapshot(body) == Some(parts_of(snapshot))
            && field(r.response@, "Content-Length: "@) is Some && crate::text::number(
            field(r.response@, "Content-Length: "@)->0,
        ) == Some(vstd::utf8::encode_utf8(body).len()) && r.response@ == answer_text(
            "200 OK"@,
            true,
            body,
        ),
{
    request_is_read(before, method, gap, "/status"@, rest);
    paths_differ();
    snapshot_reads_back(snapshot@);
    statuses_stay_on_one_line();
    answers_are_read("200 OK"@, true, snapshot@.json());
}

proof fn statuses_stay_on_one_line()
    ensures
        on_one_line("200 OK"@),
        on_one_line("202 Accepted"@),
        on_one_line("404 Not Found"@),
        on_one_line("409 Conflict"@),
{
    reveal_strlit("200 OK");
    reveal_strlit("202 Accepted");
    reveal_strlit("404 Not Found");
    reveal_strlit("409 Conflict");
}

/// Whether an answer has this status and this body, and tells how many bytes the
/// body has.
pub open spec fn answers(t: Seq<char>, status: Seq<char>, body: Seq<char>) -> bool {
    &&& first_line(t) == "HTTP/1.1 "@ + status
    &&& body_of(t) == Some(body)
    &&& field(t, "Content-Length: "@) is Some
    &&& crate::text::number(field(t, "Content-Length: "@)->0) == Some(
        vstd::utf8::encode_utf8(body).len(),
    )
    &&& t == answer_text(status, false, body)
}

/// A request for an upgrade is accepted and starts one where none was noted, and
/// is refused and starts nothing where one was, whatever else the snapshot
/// holds.
pub proof fn an_upgrade_is_accepted_once(
    line: &str,
    snapshot: &UpdateSnapshot,
    r: BridgeReply,
    before: Seq<char>,
    gap: Seq<char>,
    rest: Seq<char>,
)
    requires
        call_ensures(bridge_reply, (line, snapshot), r),
        line@ == request_line(before, "POST"@, gap, "/upgrade-harness"@, rest),
        is_request(before, "POST"@, gap, "/upgrade-harness"@, rest),
    ensures
        snapshot.upgrading ==> r.action == BridgeAction::Nothing && answers(
            r.response@,
            "409 Conflict"@,
            "no"@,
        ),
        !snapshot.upgrading ==> r.action == BridgeAction::StartUpgrade && answers(
            r.response@,
            "202 Accepted"@,
            "ok"@,
        ),
{
    request_is_read(before, "POST"@, gap, "/upgrade-harness"@, rest);
    paths_differ();
    statuses_stay_on_one_line();
    answers_are_read("409 Conflict"@, false, "no"@);
    answers_are_read("202 Accepted"@, false, "ok"@);
}

/// A request for the page of the releases opens it, whatever the snapshot holds.
pub proof fn the_release_page_is_opened(
    line: &str,
    snapshot: &UpdateSnapshot,
    r: BridgeReply,
    before: Seq<char>,
    gap: Seq<char>,
    rest: Seq<char>,
)
    requires
        call_ensures(bridge_reply, (line, snapshot), r),
        line@ == request_line(before, "POST"@, gap, "/open-release"@, rest),
        is_request(before, "POST"@, gap, "/open-release"@, rest),
    ensures
        r.action == BridgeAction::OpenRelease,
        answers(r.response@, "200 OK"@, "ok"@),
{
    request_is_read(before, "POST"@, gap, "/open-release"@, rest);
    paths_differ();
    statuses_stay_on_one_line();
    answers_are_read("200 OK"@, false, "ok"@);
}

/// Any other request is answered with nothing found and does nothing.
pub proof fn other_requests_find_nothing(
    line: &str,
    snapshot: &UpdateSnapshot,
    r: BridgeReply,
    before: Seq<char>,
    method: Seq<char>,
    gap: Seq<char>,
    path: Seq<char>,
    rest: Seq<char>,
)
    requires
        call_ensures(bridge_reply, (line, snapshot), r),
        line@ == request_line(before, method, gap, path, rest),
        is_request(before, method, gap, path, rest),
        path != "/status"@,
        method != "POST"@ || (path != "/upgrade-harness"@ && path != "/open-release"@),
    ensures
        r.action == BridgeAction::Nothing,
        answers(r.response@, "404 Not Found"@, "no"@),
{
    request_is_read(before, method, gap, path, rest);
    paths_differ();
    statuses_stay_on_one_line();
    answers_are_read("404 Not Found"@, false, "no"@);
}

} // verus!
