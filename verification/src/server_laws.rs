//! What counts as the service, how long it is waited for, and which port it
//! gets, said of what goes in and what comes out.
use crate::server::{
    await_server, fallback_port, is_console, kill_tree, looked, page_address, plugin_answered,
    probe_request, server_args, server_plugins_ready, server_ready, watch_boot_failure, PortSearch,
    Wait, Watch,
};
use crate::tools::{CommandLine, Platform};
use vstd::prelude::*;

verus! {

/// The bytes of a text.
pub open spec fn bytes(text: Seq<char>) -> Seq<u8> {
    vstd::utf8::encode_utf8(text)
}

/// Whether bytes hold neither a blank nor a line end.
pub open spec fn one_token(v: Seq<u8>) -> bool {
    forall|i: int| 0 <= i < v.len() ==> #[trigger] v[i] != 32 && v[i] != 13 && v[i] != 10
}

/// A reply that begins with this version of the protocol, a blank and this
/// code, and goes on in whatever way.
pub open spec fn reply_of(version: Seq<u8>, code: Seq<u8>, rest: Seq<u8>) -> Seq<u8> {
    bytes("HTTP/"@) + version + seq![32u8] + code + rest
}

proof fn http_bytes()
    ensures
        bytes("HTTP/"@) == seq![72u8, 84, 84, 80, 47],
        bytes(" 200"@) == seq![32u8, 50, 48, 48],
        bytes("200"@) == seq![50u8, 48, 48],
{
    reveal_strlit("HTTP/");
    reveal_strlit(" 200");
    reveal_strlit("200");
    vstd::utf8::is_ascii_chars_encode_utf8("HTTP/"@);
    vstd::utf8::is_ascii_chars_encode_utf8(" 200"@);
    vstd::utf8::is_ascii_chars_encode_utf8("200"@);
    assert(bytes("HTTP/"@) =~= seq![72u8, 84, 84, 80, 47]);
    assert(bytes(" 200"@) =~= seq![32u8, 50, 48, 48]);
    assert(bytes("200"@) =~= seq![50u8, 48, 48]);
}

proof fn status_is_read(version: Seq<u8>, code: Seq<u8>, rest: Seq<u8>)
    requires
        one_token(version),
        code.len() == 3,
    ensures
        crate::server::succeeded(reply_of(version, code, rest)) == (code == bytes("200"@)),
{
    http_bytes();
    let r = reply_of(version, code, rest);
    let n = 5 + version.len() as int;
    let http = bytes("HTTP/"@);
    assert(r.subrange(0, 5) =~= http);
    assert forall|i: int| 0 <= i < n implies #[trigger] r[i] != 32 && r[i] != 13 && r[i] != 10 by {
        if i < 5 {
            assert(r[i] == http[i]);
        } else {
            assert(r[i] == version[i - 5]);
        }
    }
    assert(r[n] == 32);
    crate::server::token_length_is(r, n);
    let part = r.subrange(n, n + 4);
    assert(part =~= seq![32u8] + code);
    if code == bytes("200"@) {
        assert(part =~= bytes(" 200"@));
    } else if part == bytes(" 200"@) {
        assert(code =~= part.skip(1));
        assert(code =~= bytes("200"@));
    }
}

/// The mark of a harness in the bytes that follow the code.
pub open spec fn marked(rest: Seq<u8>, before: Seq<u8>, after: Seq<u8>) -> bool {
    rest == before + bytes("__DSH_BOOT__"@) + after || rest == before + bytes("DeepSeek Harness"@)
        + after
}

proof fn mark_is_held(head: Seq<u8>, before: Seq<u8>, mark: Seq<u8>, after: Seq<u8>)
    ensures
        crate::text::occurs(head + (before + mark + after), mark),
{
    let all = head + (before + mark + after);
    let at = (head.len() + before.len()) as int;
    assert(all.subrange(at, at + mark.len()) =~= mark);
    assert(crate::text::occurs_at(all, mark, at));
}

/// A reply with the code 200 that carries a mark of the harness counts, wherever
/// the mark stands and however long the reply is.
pub proof fn marked_success_is_the_service(
    reply: &Option<Vec<u8>>,
    r: bool,
    version: Seq<u8>,
    rest: Seq<u8>,
    before: Seq<u8>,
    after: Seq<u8>,
)
    requires
        call_ensures(server_ready, (reply,), r),
        reply is Some,
        reply->0@ == reply_of(version, bytes("200"@), rest),
        one_token(version),
        marked(rest, before, after) || marked(reply->0@, before, after),
    ensures
        r,
{
    http_bytes();
    status_is_read(version, bytes("200"@), rest);
    let head = bytes("HTTP/"@) + version + seq![32u8] + bytes("200"@);
    mark_is_held(head, before, bytes("__DSH_BOOT__"@), after);
    mark_is_held(head, before, bytes("DeepSeek Harness"@), after);
    mark_is_held(Seq::empty(), before, bytes("__DSH_BOOT__"@), after);
    mark_is_held(Seq::empty(), before, bytes("DeepSeek Harness"@), after);
    assert(Seq::<u8>::empty() + (before + bytes("__DSH_BOOT__"@) + after) =~= before + bytes(
        "__DSH_BOOT__"@,
    ) + after);
    assert(Seq::<u8>::empty() + (before + bytes("DeepSeek Harness"@) + after) =~= before + bytes(
        "DeepSeek Harness"@,
    ) + after);
    assert(reply->0@ == head + rest);
}

proof fn success_has_the_code(reply: Seq<u8>)
    requires
        crate::server::succeeded(reply),
    ensures
        exists|version: Seq<u8>, rest: Seq<u8>|
            one_token(version) && reply == #[trigger] reply_of(version, bytes("200"@), rest),
{
    http_bytes();
    let n = crate::server::token_length(reply) as int;
    crate::server::token_length_in(reply);
    let http = reply.subrange(0, 5);
    let part = reply.subrange(n, n + 4);
    assert(http == bytes("HTTP/"@));
    assert(part == bytes(" 200"@));
    assert(n >= 5) by {
        assert forall|i: int| 0 <= i < 5 implies #[trigger] reply[i] != 32 by {
            assert(reply[i] == http[i]);
        }
        assert(part[0] == reply[n]);
    }
    let version = reply.subrange(5, n);
    let rest = reply.skip(n + 4);
    assert forall|i: int| 0 <= i < version.len() implies #[trigger] version[i] != 32 && version[i]
        != 13 && version[i] != 10 by {
        assert(version[i] == reply[i + 5]);
    }
    assert(part =~= seq![32u8] + bytes("200"@));
    assert(reply =~= http + version + part + rest);
    assert(reply =~= reply_of(version, bytes("200"@), rest));
}

/// A reply with another code is not the service, whatever else it holds.
pub proof fn other_codes_are_not_the_service(
    reply: &Option<Vec<u8>>,
    r: bool,
    version: Seq<u8>,
    code: Seq<u8>,
    rest: Seq<u8>,
)
    requires
        call_ensures(server_ready, (reply,), r),
        reply is Some,
        reply->0@ == reply_of(version, code, rest),
        one_token(version),
        code.len() == 3,
        code != bytes("200"@),
    ensures
        !r,
{
    status_is_read(version, code, rest);
}

/// What counts as the service begins with a version of the protocol and the code
/// 200, and holds one of its marks.
pub proof fn the_service_is_marked(reply: &Option<Vec<u8>>, r: bool)
    requires
        call_ensures(server_ready, (reply,), r),
        r,
    ensures
        reply is Some,
        exists|version: Seq<u8>, rest: Seq<u8>|
            one_token(version) && reply->0@ == #[trigger] reply_of(version, bytes("200"@), rest),
        exists|before: Seq<u8>, after: Seq<u8>| #[trigger] marked(reply->0@, before, after),
{
    let all = reply->0@;
    success_has_the_code(all);
    let mark = if crate::text::occurs(all, bytes("__DSH_BOOT__"@)) {
        bytes("__DSH_BOOT__"@)
    } else {
        bytes("DeepSeek Harness"@)
    };
    let at = choose|at: int| crate::text::occurs_at(all, mark, at);
    let before = all.take(at);
    let after = all.skip(at + mark.len());
    assert(all =~= before + all.subrange(at, at + mark.len()) + after);
    assert(marked(all, before, after));
}

/// What counts as the service still counts with more bytes behind it.
pub proof fn more_bytes_change_nothing(
    reply: &Option<Vec<u8>>,
    r: bool,
    longer: &Option<Vec<u8>>,
    q: bool,
    more: Seq<u8>,
)
    requires
        call_ensures(server_ready, (reply,), r),
        call_ensures(server_ready, (longer,), q),
        reply is Some,
        longer is Some,
        longer->0@ == reply->0@ + more,
        r,
    ensures
        q,
{
    success_is_kept(reply->0@, more);
    let a = reply->0@;
    let b = longer->0@;
    assert forall|mark: Seq<u8>, at: int| #[trigger]
        crate::text::occurs_at(a, mark, at) implies crate::text::occurs_at(b, mark, at) by {
        assert(b.subrange(at, at + mark.len()) =~= a.subrange(at, at + mark.len()));
    }
    if crate::text::occurs(a, bytes("__DSH_BOOT__"@)) {
        let at = choose|at: int| crate::text::occurs_at(a, bytes("__DSH_BOOT__"@), at);
        assert(crate::text::occurs_at(b, bytes("__DSH_BOOT__"@), at));
    } else {
        let at = choose|at: int| crate::text::occurs_at(a, bytes("DeepSeek Harness"@), at);
        assert(crate::text::occurs_at(b, bytes("DeepSeek Harness"@), at));
    }
}

proof fn success_is_kept(a: Seq<u8>, more: Seq<u8>)
    requires
        crate::server::succeeded(a),
    ensures
        crate::server::succeeded(a + more),
{
    http_bytes();
    let b = a + more;
    let n = crate::server::token_length(a) as int;
    crate::server::token_length_in(a);
    assert(a.subrange(n, n + 4)[0] == 32);
    assert forall|i: int| 0 <= i < n implies #[trigger] b[i] != 32 && b[i] != 13 && b[i] != 10 by {
        assert(b[i] == a[i]);
    }
    crate::server::token_length_is(b, n);
    assert(b.subrange(0, 5) =~= a.subrange(0, 5));
    assert(b.subrange(n, n + 4) =~= a.subrange(n, n + 4));
}

/// The plugin routes are live where the code is 200, and only there, whatever
/// follows it.
pub proof fn plugins_are_live_by_the_code(
    reply: &Option<Vec<u8>>,
    r: bool,
    version: Seq<u8>,
    code: Seq<u8>,
    rest: Seq<u8>,
)
    requires
        call_ensures(plugin_answered, (reply,), r),
        reply is Some,
        reply->0@ == reply_of(version, code, rest),
        one_token(version),
        code.len() == 3,
    ensures
        r == (code == bytes("200"@)),
{
    status_is_read(version, code, rest);
}

/// Where the plugin routes are live, the reply begins with a version of the
/// protocol and the code 200.
pub proof fn live_plugins_have_the_code(reply: &Option<Vec<u8>>, r: bool)
    requires
        call_ensures(plugin_answered, (reply,), r),
        r,
    ensures
        reply is Some,
        exists|version: Seq<u8>, rest: Seq<u8>|
            one_token(version) && reply->0@ == #[trigger] reply_of(version, bytes("200"@), rest),
{
    success_has_the_code(reply->0@);
}

/// No reply is no service and no live route, and neither is a reply that does
/// not begin as one of the protocol.
pub proof fn no_answer_is_no_service(reply: &Option<Vec<u8>>, ready: bool, live: bool)
    requires
        call_ensures(server_ready, (reply,), ready),
        call_ensures(plugin_answered, (reply,), live),
        reply matches Some(b) ==> b@.len() < 5 || b@.take(5) != bytes("HTTP/"@),
    ensures
        !ready,
        !live,
{
    if let Some(b) = reply {
        http_bytes();
        if b@.len() >= 5 {
            assert(b@.subrange(0, 5) =~= b@.take(5));
        }
    }
}

// --- asking ------------------------------------------------------------------------

/// A request asks for the page that it was made for: read as a request, its
/// method is `GET` and its path is the given one.
pub proof fn requests_name_their_page(path: &str, port: u16, r: String)
    requires
        call_ensures(probe_request, (path, port), r),
        path@.len() > 0,
        crate::text_laws::solid(path@),
    ensures
        crate::bridge::method_of(r@) == "GET"@,
        crate::bridge::path_of(r@) == path@,
{
    reveal_strlit("GET ");
    reveal_strlit("GET");
    reveal_strlit(" HTTP/1.0\r\nHost: 127.0.0.1:");
    let digits = crate::text::decimal(port as nat);
    let tail = " HTTP/1.0\r\nHost: 127.0.0.1:"@ + digits + "\r\n\r\n"@;
    let rest = seq![' '] + path@ + tail;
    assert(r@ =~= Seq::<char>::empty() + "GET"@ + rest);
    assert(crate::text_laws::solid("GET"@));
    crate::text_laws::first_word(Seq::empty(), "GET"@, rest);
    assert(tail.first() == ' ');
    crate::text_laws::first_word(seq![' '], path@, tail);
}

/// A request ends with the port that it is made to and an empty line.
pub proof fn requests_name_their_port(path: &str, port: u16, r: String)
    requires
        call_ensures(probe_request, (path, port), r),
    ensures
        exists|head: Seq<char>, digits: Seq<char>|
            r@ == #[trigger] (head + digits + "\r\n\r\n"@) && crate::text::number(digits) == Some(
                port as nat,
            ) && digits == crate::text::decimal(port as nat) && head.len() > 0 && head.last()
                == ':',
{
    reveal_strlit(" HTTP/1.0\r\nHost: 127.0.0.1:");
    let digits = crate::text::decimal(port as nat);
    let head = "GET "@ + path@ + " HTTP/1.0\r\nHost: 127.0.0.1:"@;
    crate::text::number_reads_decimal(port as nat);
    assert(r@ =~= head + digits + "\r\n\r\n"@);
}

/// Two requests differ in nothing but the page and the port that they name.
pub proof fn requests_are_alike(
    path: &str,
    port: u16,
    r: String,
    another: &str,
    other: u16,
    q: String,
)
    requires
        call_ensures(probe_request, (path, port), r),
        call_ensures(probe_request, (another, other), q),
    ensures
        port == other ==> crate::wording_laws::told_alike(r@, path@, q@, another@),
        path@ == another@ ==> crate::wording_laws::told_alike(
            r@,
            crate::text::decimal(port as nat),
            q@,
            crate::text::decimal(other as nat),
        ),
{
    let middle = " HTTP/1.0\r\nHost: 127.0.0.1:"@;
    let end = "\r\n\r\n"@;
    let a = crate::text::decimal(port as nat);
    let b = crate::text::decimal(other as nat);
    if port == other {
        let rest = middle + a + end;
        assert(r@ =~= "GET "@ + path@ + rest);
        assert(q@ =~= "GET "@ + another@ + rest);
        crate::wording_laws::alike(r@, path@, q@, another@, "GET "@, rest);
    }
    if path@ == another@ {
        crate::wording_laws::alike(r@, a, q@, b, "GET "@ + path@ + middle, end);
    }
}

/// The address of the page ends with the port of the service.
pub proof fn pages_name_their_port(port: u16, r: String)
    requires
        call_ensures(page_address, (port,), r),
    ensures
        exists|digits: Seq<char>|
            r@ == #[trigger] ("http://127.0.0.1:"@ + digits) && crate::text::number(digits) == Some(
                port as nat,
            ) && digits == crate::text::decimal(port as nat),
{
    crate::text::number_reads_decimal(port as nat);
    assert(r@ == "http://127.0.0.1:"@ + crate::text::decimal(port as nat));
}

/// The service is started on the port that it was asked for.
pub proof fn service_gets_its_port(port: u16, r: Vec<String>)
    requires
        call_ensures(server_args, (port,), r),
    ensures
        r@.len() == 4,
        r@[0]@ == "dsh"@ && r@[1]@ == "web"@ && r@[2]@ == "--port"@,
        crate::text::number(r@[3]@) == Some(port as nat),
        r@[3]@ == crate::text::decimal(port as nat),
{
    crate::text::number_reads_decimal(port as nat);
    assert(r.deep_view().len() == 4);
    assert(r.deep_view()[0] == r@[0]@ && r.deep_view()[1] == r@[1]@ && r.deep_view()[2] == r@[2]@
        && r.deep_view()[3] == r@[3]@);
}

/// The process that is stopped is the one that was named, with all that it
/// started: on Windows as a tree, elsewhere as a group.
pub proof fn the_named_process_is_stopped(platform: Platform, pid: u32, r: CommandLine)
    requires
        call_ensures(kill_tree, (platform, pid), r),
    ensures
        platform == Platform::Windows ==> r.program@ == "taskkill"@ && r.args@.len() == 4
            && r.args@[0]@ == "/PID"@ && crate::text::number(r.args@[1]@) == Some(pid as nat)
            && r.args@[2]@ == "/T"@ && r.args@[3]@ == "/F"@,
        platform == Platform::Unix ==> r.program@ == "kill"@ && r.args@.len() == 2 && r.args@[0]@
            == "-TERM"@ && r.args@[1]@.len() > 0 && r.args@[1]@[0] == '-' && crate::text::number(
            r.args@[1]@.drop_first(),
        ) == Some(pid as nat),
        platform == Platform::Windows ==> r.args@[1]@ == crate::text::decimal(pid as nat),
        platform == Platform::Unix ==> r.args@[1]@.drop_first() == crate::text::decimal(pid as nat),
{
    crate::text::number_reads_decimal(pid as nat);
    let v = r.args.deep_view();
    if platform == Platform::Windows {
        assert(v.len() == 4);
        assert(v[0] == r.args@[0]@ && v[1] == r.args@[1]@ && v[2] == r.args@[2]@ && v[3]
            == r.args@[3]@);
    } else {
        assert(v.len() == 2);
        assert(v[0] == r.args@[0]@ && v[1] == r.args@[1]@);
        reveal_strlit("-");
        assert(r.args@[1]@.drop_first() =~= crate::text::decimal(pid as nat));
    }
}

/// Only a shown window of the process is its console.
pub proof fn consoles_are_shown_windows_of_the_process(
    window_pid: u32,
    server_pid: u32,
    visible: bool,
    r: bool,
)
    requires
        call_ensures(is_console, (window_pid, server_pid, visible), r),
    ensures
        r <==> visible && window_pid == server_pid,
{
}

/// The page is looked at three times at most.
pub proof fn the_watch_ends(looks: u8, r: Watch)
    requires
        call_ensures(watch_boot_failure, (looks,), r),
    ensures
        looks >= 3 ==> r is Stop,
        looks < 3 ==> r == Watch::Look((looks + 1) as u8),
{
}

// --- waiting -------------------------------------------------------------------------

/// Both waits look while their time lasts, two minutes and one, and are over
/// without success after it.
pub proof fn waits_last_their_time(nanos: u128, service: Wait, plugins: Wait)
    requires
        call_ensures(await_server, (nanos,), service),
        call_ensures(server_plugins_ready, (nanos,), plugins),
    ensures
        service == (if nanos < 120_000_000_000 {
            Wait::Look
        } else {
            Wait::Over(false)
        }),
        plugins == (if nanos < 60_000_000_000 {
            Wait::Look
        } else {
            Wait::Over(false)
        }),
{
}

/// A look ends a wait with success where it finds what is waited for, and only
/// there.
pub proof fn looks_decide(there: bool, r: Wait)
    requires
        call_ensures(looked, (there,), r),
    ensures
        there ==> r == Wait::Over(true),
        !there ==> r == Wait::Rest,
{
}

/// A wait comes to what its first turn calls for that does not go on: success
/// where the look finds it in time, failure where the time is up.
pub proof fn waits_come_to(turns: Seq<(u128, bool)>, secs: u64, i: int)
    requires
        0 <= i < turns.len(),
        forall|j: int|
            0 <= j < i ==> (#[trigger] turns[j]).0 < secs * 1_000_000_000 && !turns[j].1,
    ensures
        turns[i].0 < secs * 1_000_000_000 && turns[i].1 ==> crate::server::wait_from(turns, secs)
            == Some(true),
        turns[i].0 >= secs * 1_000_000_000 ==> crate::server::wait_from(turns, secs) == Some(
            false,
        ),
    decreases i,
{
    if i > 0 {
        let rest = turns.drop_first();
        assert(turns[0].0 < secs * 1_000_000_000 && !turns[0].1);
        assert forall|j: int| 0 <= j < i - 1 implies (#[trigger] rest[j]).0 < secs * 1_000_000_000
            && !rest[j].1 by {
            assert(rest[j] == turns[j + 1]);
        }
        waits_come_to(rest, secs, i - 1);
        assert(rest[i - 1] == turns[i]);
    }
}

// --- ports -----------------------------------------------------------------------------

/// The answers to a search for a port are told apart by the first that is yes:
/// it names the port that is used, where it is no further than twenty above.
pub proof fn the_first_free_port_is_used(
    preferred: u16,
    answers: &Vec<bool>,
    r: PortSearch,
    i: int,
)
    requires
        call_ensures(fallback_port, (preferred, answers), r),
        0 <= i <= answers@.len(),
        forall|j: int| 0 <= j < i ==> !answers@[j],
        i < answers@.len() ==> answers@[i],
    ensures
        i > 20 || preferred + i > 65535 ==> r == PortSearch::Use(preferred),
        i <= 20 && preferred + i <= 65535 && i < answers@.len() ==> r == PortSearch::Use(
            (preferred + i) as u16,
        ),
        i <= 20 && preferred + i <= 65535 && i == answers@.len() ==> r == PortSearch::Look(
            (preferred + i) as u16,
        ),
{
    crate::search::first_yes_is(answers@, i);
}

/// A search for a port settles on the first free one from the preferred port to
/// twenty above it, as far as there are ports, and on the preferred one where
/// none of them is free.
pub proof fn the_port_that_is_found(preferred: u16, free: spec_fn(u16) -> bool, p: u16)
    ensures
        ({
            let found = crate::server::port_found(preferred, free, Seq::empty(), 21);
            &&& found is Some
            &&& free(p) && preferred <= p <= preferred + 20 ==> free(found->0) && preferred
                <= found->0 <= p
            &&& !free(found->0) ==> found->0 == preferred
            &&& free(found->0) ==> preferred <= found->0 <= preferred + 20
        }),
{
    crate::server::port_found_is_first_free(preferred, free);
}

} // verus!
