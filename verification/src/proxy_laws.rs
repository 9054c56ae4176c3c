//! What the proxy settings of the system come to.
use crate::proxy::{proxy_environment, system_proxy_url};
use crate::text::eq_ignore_ascii_case;
use crate::tools::Platform;
use vstd::prelude::*;

verus! {

/// There is no proxy where nothing is set, where what is set is switched off,
/// and anywhere but on Windows.
pub proof fn there_is_no_proxy(
    platform: Platform,
    enabled: Option<u32>,
    server: Option<String>,
    r: Option<String>,
)
    requires
        call_ensures(system_proxy_url, (platform, enabled, server), r),
        platform == Platform::Unix || enabled is None || enabled == Some(0u32) || server is None
            || server->0@.len() == 0,
    ensures
        r is None,
{
}

/// A plain server is the proxy as it stands.
pub proof fn a_plain_server_is_the_proxy(flag: u32, server: String, r: Option<String>)
    requires
        call_ensures(system_proxy_url, (Platform::Windows, Some(flag), Some(server)), r),
        flag != 0,
        server@.len() > 0,
        !server@.contains('='),
    ensures
        r matches Some(url) && url@ == "http://"@ + server@,
{
}

/// The entries of a list come one by one.
pub proof fn entries_come_one_by_one(entry: Seq<char>, rest: Seq<char>)
    requires
        !entry.contains(';'),
    ensures
        crate::text::split(entry + seq![';'] + rest, ';') == seq![entry] + crate::text::split(
            rest,
            ';',
        ),
        crate::text::split(entry, ';') == seq![entry],
{
    let whole = entry + seq![';'] + rest;
    let n = entry.len() as int;
    assert forall|i: int| 0 <= i < n implies whole[i] != ';' by {
        assert(whole[i] == entry[i]);
        assert(entry.contains(entry[i]));
    }
    crate::text::position_is(whole, ';', n);
    assert(whole.take(n) =~= entry);
    assert(whole.skip(n + 1) =~= rest);
    assert forall|i: int| 0 <= i < n implies entry[i] != ';' by {
        assert(entry.contains(entry[i]));
    }
    crate::text::position_is(entry, ';', n);
}

proof fn entry_parts(scheme: Seq<char>, address: Seq<char>)
    requires
        !scheme.contains('='),
    ensures
        ({
            let entry = scheme + seq!['='] + address;
            &&& crate::text::position(entry, '=') == scheme.len()
            &&& entry.take(scheme.len() as int) == scheme
            &&& entry.skip(scheme.len() as int + 1) == address
            &&& entry.contains('=')
        }),
{
    let entry = scheme + seq!['='] + address;
    let n = scheme.len() as int;
    assert(entry[n] == '=');
    assert forall|i: int| 0 <= i < n implies entry[i] != '=' by {
        assert(entry[i] == scheme[i]);
        assert(scheme.contains(scheme[i]));
    }
    crate::text::position_is(entry, '=', n);
    assert(entry.take(n) =~= scheme);
    assert(entry.skip(n + 1) =~= address);
}

proof fn no_protocol(entry: Seq<char>)
    requires
        !entry.contains('='),
    ensures
        crate::proxy::web_address(entry) is None,
{
    assert forall|i: int| 0 <= i < entry.len() implies entry[i] != '=' by {
        assert(entry.contains(entry[i]));
    }
    crate::text::position_is(entry, '=', entry.len() as int);
}

proof fn none_is_for_the_web(entries: Seq<Seq<char>>)
    requires
        forall|i: int| 0 <= i < entries.len() ==> !(#[trigger] entries[i]).contains('='),
    ensures
        crate::proxy::first_web_address(entries) is None,
    decreases entries.len(),
{
    if entries.len() > 0 {
        no_protocol(entries[0]);
        none_is_for_the_web(entries.drop_first());
    }
}

proof fn parts_are_plain(s: Seq<char>)
    requires
        !s.contains('='),
    ensures
        forall|i: int|
            0 <= i < crate::text::split(s, ';').len() ==> !(#[trigger] crate::text::split(
                s,
                ';',
            )[i]).contains('='),
    decreases s.len(),
{
    crate::text::position_in(s, ';');
    let n = crate::text::position(s, ';') as int;
    let parts = crate::text::split(s, ';');
    if n < s.len() {
        let tail = crate::text::split(s.skip(n + 1), ';');
        assert(!s.skip(n + 1).contains('=')) by {
            let t = s.skip(n + 1);
            if t.contains('=') {
                let i = choose|i: int| 0 <= i < t.len() && t[i] == '=';
                assert(s[n + 1 + i] == '=');
            }
        }
        parts_are_plain(s.skip(n + 1));
        assert(!s.take(n).contains('=')) by {
            let t = s.take(n);
            if t.contains('=') {
                let i = choose|i: int| 0 <= i < t.len() && t[i] == '=';
                assert(s[i] == '=');
            }
        }
        assert forall|i: int| 0 <= i < parts.len() implies !(#[trigger] parts[i]).contains('=') by {
            if i > 0 {
                assert(parts[i] == tail[i - 1]);
            }
        }
    }
}

/// Where the first entry of a list is for web traffic, under either name and in
/// whatever case, its address is the proxy, alone or with more entries behind it.
pub proof fn the_first_web_entry_is_the_proxy(
    flag: u32,
    server: String,
    r: Option<String>,
    scheme: &str,
    http: bool,
    https: bool,
    address: Seq<char>,
    more: Seq<char>,
)
    requires
        call_ensures(system_proxy_url, (Platform::Windows, Some(flag), Some(server)), r),
        call_ensures(eq_ignore_ascii_case, (scheme, "http"), http),
        call_ensures(eq_ignore_ascii_case, (scheme, "https"), https),
        flag != 0,
        http || https,
        !address.contains(';'),
        server@ == scheme@ + seq!['='] + address || server@ == scheme@ + seq!['='] + address
            + seq![';'] + more,
    ensures
        r matches Some(url) && url@ == "http://"@ + address,
{
    let entry = scheme@ + seq!['='] + address;
    web_name(scheme@);
    entry_parts(scheme@, address);
    assert(!entry.contains(';')) by {
        if entry.contains(';') {
            let i = choose|i: int| 0 <= i < entry.len() && entry[i] == ';';
            if i < scheme@.len() {
                assert(scheme@[i] == ';');
            } else if i > scheme@.len() {
                assert(address[i - scheme@.len() - 1] == ';');
            }
        }
    }
    entries_come_one_by_one(entry, more);
    assert(server@[scheme@.len() as int] == '=');
    let parts = crate::text::split(server@, ';');
    assert(parts.first() == entry);
}

proof fn web_name(scheme: Seq<char>)
    requires
        crate::text::same_ignoring_case(scheme, "http"@) || crate::text::same_ignoring_case(
            scheme,
            "https"@,
        ),
    ensures
        !scheme.contains('='),
        !scheme.contains(';'),
{
    reveal_strlit("http");
    reveal_strlit("https");
    assert forall|i: int| 0 <= i < scheme.len() implies scheme[i] != '=' && scheme[i] != ';' by {
        assert(crate::text::lower(scheme[i]) != '=');
        assert(crate::text::lower(scheme[i]) != ';');
    }
}

/// An entry that is not for web traffic counts for nothing: what is behind it in
/// the list decides, and where no entry behind it names a protocol there is no
/// proxy.
pub proof fn other_entries_count_for_nothing(
    flag: u32,
    server: String,
    r: Option<String>,
    scheme: &str,
    http: bool,
    https: bool,
    address: Seq<char>,
    rest: String,
    q: Option<String>,
)
    requires
        call_ensures(system_proxy_url, (Platform::Windows, Some(flag), Some(server)), r),
        call_ensures(system_proxy_url, (Platform::Windows, Some(flag), Some(rest)), q),
        call_ensures(eq_ignore_ascii_case, (scheme, "http"), http),
        call_ensures(eq_ignore_ascii_case, (scheme, "https"), https),
        flag != 0,
        !http,
        !https,
        !scheme@.contains('='),
        !scheme@.contains(';'),
        !address.contains(';'),
        server@ == scheme@ + seq!['='] + address + seq![';'] + rest@,
    ensures
        rest@.contains('=') ==> r.deep_view() == q.deep_view(),
        !rest@.contains('=') ==> r is None,
{
    let entry = scheme@ + seq!['='] + address;
    entry_parts(scheme@, address);
    assert(!entry.contains(';')) by {
        if entry.contains(';') {
            let i = choose|i: int| 0 <= i < entry.len() && entry[i] == ';';
            if i < scheme@.len() {
                assert(scheme@[i] == ';');
            } else if i > scheme@.len() {
                assert(address[i - scheme@.len() - 1] == ';');
            }
        }
    }
    entries_come_one_by_one(entry, rest@);
    assert(server@[scheme@.len() as int] == '=');
    let parts = crate::text::split(server@, ';');
    assert(parts.first() == entry);
    assert(parts.drop_first() =~= crate::text::split(rest@, ';'));
    if !rest@.contains('=') {
        parts_are_plain(rest@);
        none_is_for_the_web(crate::text::split(rest@, ';'));
    }
}

/// An entry without a protocol counts for nothing in a list that names one.
pub proof fn plain_entries_count_for_nothing(
    flag: u32,
    server: String,
    r: Option<String>,
    entry: Seq<char>,
    rest: String,
    q: Option<String>,
)
    requires
        call_ensures(system_proxy_url, (Platform::Windows, Some(flag), Some(server)), r),
        call_ensures(system_proxy_url, (Platform::Windows, Some(flag), Some(rest)), q),
        flag != 0,
        !entry.contains('='),
        !entry.contains(';'),
        server@ == entry + seq![';'] + rest@,
        rest@.contains('='),
    ensures
        r.deep_view() == q.deep_view(),
{
    entries_come_one_by_one(entry, rest@);
    no_protocol(entry);
    let i = choose|i: int| 0 <= i < rest@.len() && rest@[i] == '=';
    assert(server@[entry.len() + 1 + i] == '=');
    let parts = crate::text::split(server@, ';');
    assert(parts.first() == entry);
    assert(parts.drop_first() =~= crate::text::split(rest@, ';'));
}

/// A list of one entry that is not for web traffic gives no proxy.
pub proof fn one_other_entry_is_no_proxy(
    flag: u32,
    server: String,
    r: Option<String>,
    scheme: &str,
    http: bool,
    https: bool,
    address: Seq<char>,
)
    requires
        call_ensures(system_proxy_url, (Platform::Windows, Some(flag), Some(server)), r),
        call_ensures(eq_ignore_ascii_case, (scheme, "http"), http),
        call_ensures(eq_ignore_ascii_case, (scheme, "https"), https),
        !http,
        !https,
        !scheme@.contains('='),
        !scheme@.contains(';'),
        !address.contains(';'),
        server@ == scheme@ + seq!['='] + address,
    ensures
        r is None,
{
    reveal_with_fuel(crate::proxy::first_web_address, 2);
    let entry = server@;
    entry_parts(scheme@, address);
    assert(!entry.contains(';')) by {
        if entry.contains(';') {
            let i = choose|i: int| 0 <= i < entry.len() && entry[i] == ';';
            if i < scheme@.len() {
                assert(scheme@[i] == ';');
            } else if i > scheme@.len() {
                assert(address[i - scheme@.len() - 1] == ';');
            }
        }
    }
    entries_come_one_by_one(entry, Seq::empty());
    let parts = crate::text::split(entry, ';');
    assert(parts.first() == entry);
    assert(parts.drop_first() =~= Seq::empty());
}

/// A proxy is handed to git under its four names and as it stands, and nothing
/// is handed to git where there is none.
pub proof fn git_is_told_of_the_proxy(url: Option<&str>, r: Vec<(String, String)>, i: int)
    requires
        call_ensures(proxy_environment, (url,), r),
    ensures
        url is None ==> r@.len() == 0,
        url matches Some(u) ==> r@.len() == 4 && r@[0].0@ == "HTTPS_PROXY"@ && r@[1].0@
            == "HTTP_PROXY"@ && r@[2].0@ == "https_proxy"@ && r@[3].0@ == "http_proxy"@ && (0 <= i
            < 4 ==> r@[i].1@ == u@),
{
    if let Some(u) = url {
        assert(r.deep_view().len() == 4);
        assert(r.deep_view()[0] == r@[0].deep_view());
        assert(r.deep_view()[1] == r@[1].deep_view());
        assert(r.deep_view()[2] == r@[2].deep_view());
        assert(r.deep_view()[3] == r@[3].deep_view());
        if 0 <= i < 4 {
            assert(r.deep_view()[i] == r@[i].deep_view());
        }
    }
}

} // verus!
