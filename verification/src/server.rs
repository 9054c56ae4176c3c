//! The local service: how it is started, watched, and stopped.
use crate::search::find_yes;
use crate::text::{contains_bytes, push_decimal, stands_at};
use crate::tools::{CommandLine, Platform};
use vstd::prelude::*;

verus! {

/// The address that the service listens on.
pub const HOST: &'static str = "127.0.0.1";

/// The page that every service answers.
pub const ROOT_PATH: &'static str = "/";

/// A plugin bundle that every service has once its plugin routes are live.
pub const PLUGIN_PATH: &'static str = "/plugins/@deepseek-ai/dsh-typert-registry/client.js";

/// The most that is read of an answer to the root page, in bytes.
pub const ROOT_BYTES: usize = 2048;

/// The most that is read of an answer to the plugin bundle, in bytes.
pub const PLUGIN_BYTES: usize = 64;

/// How long an answer may take.
pub const READ_SECS: u64 = 2;

/// How long the service has to come up.
pub const STARTUP_SECS: u64 = 120;

/// How long the plugin routes have to come up.
pub const PLUGINS_SECS: u64 = 60;

/// How long a wait rests between two looks.
pub const REST_MILLIS: u64 = 750;

/// The log of the service below the runtime.
pub const LOG_FILE: &'static str = "server.log";

// --- asking the service ------------------------------------------------------------

/// The request for a page of the service.
pub open spec fn request_text(path: Seq<char>, port: u16) -> Seq<char> {
    "GET "@ + path + " HTTP/1.0\r\nHost: 127.0.0.1:"@ + crate::text::decimal(port as nat)
        + "\r\n\r\n"@
}

/// The request for a page of the service.
pub fn probe_request(path: &str, port: u16) -> (r: String)
    ensures
        r@ == request_text(path@, port),
{
    let mut out = "GET ".to_owned();
    out.append(path);
    out.append(" HTTP/1.0\r\nHost: 127.0.0.1:");
    push_decimal(&mut out, port as u64);
    out.append("\r\n\r\n");
    out
}

/// Whether the bytes hold the text.
pub open spec fn holds(bytes: Seq<u8>, text: Seq<char>) -> bool {
    crate::text::occurs(bytes, vstd::utf8::encode_utf8(text))
}

/// How many bytes stand before the first blank or line end.
pub open spec fn token_length(bytes: Seq<u8>) -> nat
    decreases bytes.len(),
{
    if bytes.len() > 0 && bytes.first() != 32 && bytes.first() != 13 && bytes.first() != 10 {
        1 + token_length(bytes.drop_first())
    } else {
        0
    }
}

/// Whether an answer succeeded: its status line is the version of the protocol,
/// one blank, and the code 200.
pub open spec fn succeeded(reply: Seq<u8>) -> bool {
    crate::text::occurs_at(reply, vstd::utf8::encode_utf8("HTTP/"@), 0) && crate::text::occurs_at(
        reply,
        vstd::utf8::encode_utf8(" 200"@),
        token_length(reply) as int,
    )
}

/// What stands before the first blank or line end, and what stands there.
pub proof fn token_length_in(bytes: Seq<u8>)
    ensures
        token_length(bytes) <= bytes.len(),
        forall|i: int|
            0 <= i < token_length(bytes) ==> #[trigger] bytes[i] != 32 && bytes[i] != 13 && bytes[i]
                != 10,
    decreases bytes.len(),
{
    if bytes.len() > 0 && bytes.first() != 32 && bytes.first() != 13 && bytes.first() != 10 {
        let rest = bytes.drop_first();
        token_length_in(rest);
        assert forall|i: int| 0 <= i < token_length(bytes) implies #[trigger] bytes[i] != 32
            && bytes[i] != 13 && bytes[i] != 10 by {
            if i > 0 {
                assert(bytes[i] == rest[i - 1]);
            }
        }
    }
}

/// A run without blanks and line ends, up to one of them or the end, is what
/// stands before the first.
pub proof fn token_length_is(bytes: Seq<u8>, n: int)
    requires
        0 <= n <= bytes.len(),
        forall|i: int|
            0 <= i < n ==> #[trigger] bytes[i] != 32 && bytes[i] != 13 && bytes[i] != 10,
        n < bytes.len() ==> bytes[n] == 32 || bytes[n] == 13 || bytes[n] == 10,
    ensures
        token_length(bytes) == n,
    decreases n,
{
    if n > 0 {
        let rest = bytes.drop_first();
        assert forall|i: int| 0 <= i < n - 1 implies #[trigger] rest[i] != 32 && rest[i] != 13
            && rest[i] != 10 by {
            assert(rest[i] == bytes[i + 1]);
        }
        token_length_is(rest, n - 1);
    }
}

fn has_succeeded(reply: &[u8]) -> (r: bool)
    ensures
        r == succeeded(reply@),
{
    let size: usize = reply.len();
    let mut at: usize = 0;
    while at < size && reply[at] != 32 && reply[at] != 13 && reply[at] != 10
        invariant
            at <= size == reply@.len(),
            forall|i: int|
                0 <= i < at ==> #[trigger] reply@[i] != 32 && reply@[i] != 13 && reply@[i] != 10,
        decreases size - at,
    {
        at = at + 1;
    }
    proof {
        token_length_is(reply@, at as int);
    }
    stands_at(reply, "HTTP/".as_bytes(), 0) && stands_at(reply, " 200".as_bytes(), at)
}

/// Whether an answer to the root page is that of a harness: it succeeded, and
/// it carries a mark that no other web server has.
pub open spec fn is_harness(reply: Seq<u8>) -> bool {
    succeeded(reply) && (holds(reply, "__DSH_BOOT__"@) || holds(reply, "DeepSeek Harness"@))
}

/// Whether the service is up, by what it answered to the root page; there is no
/// reply where none could be had. A web server of another kind does not count.
pub fn server_ready(reply: &Option<Vec<u8>>) -> (r: bool)
    ensures
        r == (reply is Some && is_harness(reply->0@)),
{
    match reply {
        Some(bytes) => has_succeeded(bytes.as_slice()) && (contains_bytes(
            bytes.as_slice(),
            "__DSH_BOOT__".as_bytes(),
        ) || contains_bytes(bytes.as_slice(), "DeepSeek Harness".as_bytes())),
        None => false,
    }
}

/// Whether the plugin routes are live: the service answered to the plugin
/// bundle, and the answer succeeded.
pub fn plugin_answered(reply: &Option<Vec<u8>>) -> (r: bool)
    ensures
        r == (reply is Some && succeeded(reply->0@)),
{
    match reply {
        Some(bytes) => has_succeeded(bytes.as_slice()),
        None => false,
    }
}

// --- waiting -----------------------------------------------------------------------

/// The next step of a wait.
#[derive(Clone, Copy, PartialEq, Eq, Structural, Debug)]
pub enum Wait {
    /// Look whether it is there.
    Look,
    /// Rest for [`REST_MILLIS`] and read the clock again.
    Rest,
    /// The wait is over: it was there at the last look, or was not in time.
    Over(bool),
}

/// Whether a wait of so many seconds is still on so many nanoseconds after it
/// began.
pub open spec fn in_time(nanos: u128, secs: u64) -> bool {
    nanos < secs * 1_000_000_000
}

/// What a wait does once it has read the clock.
pub open spec fn after_clock(nanos: u128, secs: u64) -> Wait {
    if in_time(nanos, secs) {
        Wait::Look
    } else {
        Wait::Over(false)
    }
}

/// What a wait does once it has looked.
pub open spec fn after_look(there: bool) -> Wait {
    if there {
        Wait::Over(true)
    } else {
        Wait::Rest
    }
}

fn clock(nanos: u128, secs: u64) -> (r: Wait)
    ensures
        r == after_clock(nanos, secs),
{
    if nanos < (secs as u128) * 1_000_000_000 {
        Wait::Look
    } else {
        Wait::Over(false)
    }
}

/// The wait for the service, given the nanoseconds since it began.
pub fn await_server(nanos: u128) -> (r: Wait)
    ensures
        r == after_clock(nanos, STARTUP_SECS),
{
    clock(nanos, STARTUP_SECS)
}

/// The wait for the plugin routes, given the nanoseconds since it began.
pub fn server_plugins_ready(nanos: u128) -> (r: Wait)
    ensures
        r == after_clock(nanos, PLUGINS_SECS),
{
    clock(nanos, PLUGINS_SECS)
}

/// Either wait, given what the look found.
pub fn looked(there: bool) -> (r: Wait)
    ensures
        r == after_look(there),
{
    if there {
        Wait::Over(true)
    } else {
        Wait::Rest
    }
}

/// What a wait comes to where the clock reads these nanoseconds at each turn
/// and each look finds what is given.
pub open spec fn wait_from(turns: Seq<(u128, bool)>, secs: u64) -> Option<bool>
    decreases turns.len(),
{
    if turns.len() == 0 {
        None
    } else {
        match after_clock(turns.first().0, secs) {
            Wait::Look => match after_look(turns.first().1) {
                Wait::Over(there) => Some(there),
                _ => wait_from(turns.drop_first(), secs),
            },
            Wait::Over(there) => Some(there),
            Wait::Rest => wait_from(turns.drop_first(), secs),
        }
    }
}

/// No wait goes on for ever: where every turn comes at least [`REST_MILLIS`]
/// after the one before, a wait is over by the turn whose rests fill its time.
pub proof fn waits_end(turns: Seq<(u128, bool)>, secs: u64)
    requires
        forall|j: int|
            0 <= j < turns.len() ==> #[trigger] turns[j].0 >= j * REST_MILLIS * 1_000_000,
        (turns.len() - 1) * REST_MILLIS >= secs * 1_000,
    ensures
        wait_from(turns, secs) is Some,
{
    wait_ends_from(turns, secs);
}

proof fn wait_ends_from(turns: Seq<(u128, bool)>, secs: u64)
    requires
        turns.len() > 0,
        turns.last().0 >= secs * 1_000_000_000,
    ensures
        wait_from(turns, secs) is Some,
    decreases turns.len(),
{
    if turns.len() > 1 {
        assert(turns.drop_first().last() == turns.last());
        wait_ends_from(turns.drop_first(), secs);
    }
}

/// A wait says that it is there only where a look in time found it, and says
/// that it is not only once its time is up.
pub proof fn wait_is_truthful(turns: Seq<(u128, bool)>, secs: u64)
    ensures
        wait_from(turns, secs) == Some(true) ==> exists|i: int|
            0 <= i < turns.len() && in_time(turns[i].0, secs) && (#[trigger] turns[i]).1,
        wait_from(turns, secs) == Some(false) ==> exists|i: int|
            0 <= i < turns.len() && !in_time((#[trigger] turns[i]).0, secs),
    decreases turns.len(),
{
    if turns.len() > 0 {
        let rest = turns.drop_first();
        wait_is_truthful(rest, secs);
        assert(turns[0] == turns.first());
        if in_time(turns.first().0, secs) && !turns.first().1 {
            if wait_from(rest, secs) == Some(true) {
                let i = choose|i: int|
                    0 <= i < rest.len() && in_time(rest[i].0, secs) && (#[trigger] rest[i]).1;
                assert(turns[i + 1] == rest[i]);
            }
            if wait_from(rest, secs) == Some(false) {
                let i = choose|i: int|
                    0 <= i < rest.len() && !in_time((#[trigger] rest[i]).0, secs);
                assert(turns[i + 1] == rest[i]);
            }
        }
    }
}

// --- the port ----------------------------------------------------------------------

/// How far above the preferred port a search for a free one goes.
pub const FALLBACK_REACH: u16 = 20;

/// The next step of a search for a free port.
#[derive(Clone, Copy, PartialEq, Eq, Structural, Debug)]
pub enum PortSearch {
    /// See whether this port is free.
    Look(u16),
    /// Use this port.
    Use(u16),
}

/// The last port that a search from `preferred` on looks at: as far as it goes,
/// and no further than there are ports.
pub open spec fn last_port(preferred: u16) -> int {
    if preferred + FALLBACK_REACH <= u16::MAX {
        preferred + FALLBACK_REACH
    } else {
        u16::MAX as int
    }
}

/// The next step of the search for a free port from `preferred` on, given what
/// the ports looked at so far answered: the first free one, the next one to
/// look at, or `preferred` itself where all of them are taken.
pub open spec fn port_search(preferred: u16, answers: Seq<bool>) -> PortSearch {
    let i = crate::search::first_yes(answers);
    if preferred + i > last_port(preferred) {
        PortSearch::Use(preferred)
    } else if i < answers.len() {
        PortSearch::Use((preferred + i) as u16)
    } else {
        PortSearch::Look((preferred + i) as u16)
    }
}

/// The next step of the search for a free port.
pub fn fallback_port(preferred: u16, answers: &Vec<bool>) -> (r: PortSearch)
    ensures
        r == port_search(preferred, answers@),
{
    let i = find_yes(answers);
    if i > FALLBACK_REACH as usize || i > (u16::MAX - preferred) as usize {
        PortSearch::Use(preferred)
    } else if i < answers.len() {
        PortSearch::Use(preferred + i as u16)
    } else {
        PortSearch::Look(preferred + i as u16)
    }
}

/// What a search settles on where `free` says which ports are free and so many
/// looks are still allowed.
pub open spec fn port_found(
    preferred: u16,
    free: spec_fn(u16) -> bool,
    answers: Seq<bool>,
    looks: nat,
) -> Option<u16>
    decreases looks,
{
    match port_search(preferred, answers) {
        PortSearch::Use(port) => Some(port),
        PortSearch::Look(port) => if looks == 0 {
            None
        } else {
            port_found(preferred, free, answers.push(free(port)), (looks - 1) as nat)
        },
    }
}

/// Whether `found` is the first free port from `preferred` to [`last_port`], or
/// `preferred` where none of them is free.
pub open spec fn is_first_free(preferred: u16, free: spec_fn(u16) -> bool, found: u16) -> bool {
    &&& free(found) ==> preferred <= found <= last_port(preferred) && (forall|p: u16|
        preferred <= p < found ==> !#[trigger] free(p))
    &&& !free(found) ==> found == preferred && (forall|p: u16|
        preferred <= p <= last_port(preferred) ==> !#[trigger] free(p))
}

/// A search for a port settles on the first free one from the preferred port
/// on, and on the preferred port where all that it looks at are taken.
pub proof fn port_found_is_first_free(preferred: u16, free: spec_fn(u16) -> bool)
    ensures
        ({
            let found = port_found(preferred, free, Seq::empty(), FALLBACK_REACH as nat + 1);
            found is Some && is_first_free(preferred, free, found->0)
        }),
{
    port_found_from(preferred, free, Seq::empty());
}

proof fn port_found_from(preferred: u16, free: spec_fn(u16) -> bool, answers: Seq<bool>)
    requires
        preferred + answers.len() <= last_port(preferred) + 1,
        forall|i: int| 0 <= i < answers.len() ==> !answers[i] && !free((preferred + i) as u16),
    ensures
        ({
            let looks = (FALLBACK_REACH + 1 - answers.len()) as nat;
            let found = port_found(preferred, free, answers, looks);
            found is Some && is_first_free(preferred, free, found->0)
        }),
    decreases FALLBACK_REACH + 1 - answers.len(),
{
    reveal_with_fuel(port_found, 2);
    let n = answers.len() as int;
    crate::search::first_yes_is(answers, n);
    assert forall|p: u16| preferred <= p < preferred + n implies !#[trigger] free(p) by {
        let i = p - preferred;
        assert(!answers[i]);
    }
    if preferred + n <= last_port(preferred) {
        let port = (preferred + n) as u16;
        let more = answers.push(free(port));
        if free(port) {
            crate::search::first_yes_is(more, n);
        } else {
            assert forall|i: int| 0 <= i < more.len() implies !more[i] && !free(
                (preferred + i) as u16,
            ) by {
                if i < n {
                    assert(!answers[i]);
                }
            }
            port_found_from(preferred, free, more);
        }
    }
}

// --- starting and stopping -----------------------------------------------------------

/// The arguments of the pnpm that runs the service.
pub fn server_args(port: u16) -> (r: Vec<String>)
    ensures
        r.deep_view() == seq!["dsh"@, "web"@, "--port"@, crate::text::decimal(port as nat)],
{
    let mut number = String::new();
    push_decimal(&mut number, port as u64);
    let mut out: Vec<String> = Vec::new();
    out.push("dsh".to_owned());
    out.push("web".to_owned());
    out.push("--port".to_owned());
    out.push(number);
    assert(out.deep_view() =~= seq![
        "dsh"@,
        "web"@,
        "--port"@,
        crate::text::decimal(port as nat),
    ]);
    out
}

/// The program that stops a process with all that it started.
pub open spec fn kill_program(platform: Platform) -> Seq<char> {
    match platform {
        Platform::Windows => "taskkill"@,
        Platform::Unix => "kill"@,
    }
}

/// The arguments of [`kill_program`] for the process `pid`, on Unix the leader
/// of its group.
pub open spec fn kill_arguments(platform: Platform, pid: u32) -> Seq<Seq<char>> {
    match platform {
        Platform::Windows => seq!["/PID"@, crate::text::decimal(pid as nat), "/T"@, "/F"@],
        Platform::Unix => seq!["-TERM"@, "-"@ + crate::text::decimal(pid as nat)],
    }
}

/// The command that stops the service with all that it started.
pub fn kill_tree(platform: Platform, pid: u32) -> (r: CommandLine)
    ensures
        r.program@ == kill_program(platform),
        r.args.deep_view() == kill_arguments(platform, pid),
{
    let mut args: Vec<String> = Vec::new();
    match platform {
        Platform::Windows => {
            let mut number = String::new();
            push_decimal(&mut number, pid as u64);
            args.push("/PID".to_owned());
            args.push(number);
            args.push("/T".to_owned());
            args.push("/F".to_owned());
            assert(args.deep_view() =~= kill_arguments(platform, pid));
            CommandLine { program: "taskkill".to_owned(), args }
        },
        Platform::Unix => {
            let mut group = "-".to_owned();
            push_decimal(&mut group, pid as u64);
            args.push("-TERM".to_owned());
            args.push(group);
            assert(args.deep_view() =~= kill_arguments(platform, pid));
            CommandLine { program: "kill".to_owned(), args }
        },
    }
}

/// How long the console of the service has to appear before it is hidden.
pub const CONSOLE_MILLIS: u64 = 800;

/// Whether a window is the console of the service: it is shown, and it belongs
/// to the process of the service.
pub fn is_console(window_pid: u32, server_pid: u32, visible: bool) -> (r: bool)
    ensures
        r == (window_pid == server_pid && visible),
{
    window_pid == server_pid && visible
}

/// The address of the service.
pub fn page_address(port: u16) -> (r: String)
    ensures
        r@ == "http://127.0.0.1:"@ + crate::text::decimal(port as nat),
{
    let mut out = "http://127.0.0.1:".to_owned();
    push_decimal(&mut out, port as u64);
    out
}

// --- the page --------------------------------------------------------------------------

/// What reloads a page that could not load its plugins.
pub const RELOAD_SCRIPT: &'static str =
    "if (document.body && document.body.innerText && document.body.innerText.indexOf('Failed to load plugins') !== -1) { location.reload() }";

/// How long the update panel rests before it is put into the page again.
pub const PANEL_SECS: u64 = 4;

/// How long the watch rests before it looks at the page.
pub const WATCH_SECS: u64 = 4;

/// How long the watch gives a page to load once it has looked.
pub const RELOAD_SECS: u64 = 20;

/// How often the watch looks at the page.
pub const WATCH_LIMIT: u8 = 3;

/// The next step of the watch over the page.
#[derive(Clone, Copy, PartialEq, Eq, Structural, Debug)]
pub enum Watch {
    /// Run [`RELOAD_SCRIPT`] in the page, rest for [`RELOAD_SECS`] and then for
    /// [`WATCH_SECS`], and go on with this many looks.
    Look(u8),
    /// Leave the page alone.
    Stop,
}

/// The next step of the watch over the page after so many looks, once it has
/// rested for [`WATCH_SECS`].
pub fn watch_boot_failure(looks: u8) -> (r: Watch)
    ensures
        r == (if looks < WATCH_LIMIT {
            Watch::Look((looks + 1) as u8)
        } else {
            Watch::Stop
        }),
{
    if looks < WATCH_LIMIT {
        Watch::Look(looks + 1)
    } else {
        Watch::Stop
    }
}

} // verus!
