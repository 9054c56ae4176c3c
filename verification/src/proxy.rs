//! The proxy that the system is set to, for the git that the shell runs.
use crate::text::{chars_of, eq_ignore_ascii_case, split_on, text_between};
use crate::tools::Platform;
use vstd::prelude::*;

verus! {

/// The address of a proxy list entry for web traffic: what follows its first
/// `=`, where `http` or `https` stands before it.
pub open spec fn web_address(entry: Seq<char>) -> Option<Seq<char>> {
    let n = crate::text::position(entry, '=');
    if n < entry.len() && (crate::text::same_ignoring_case(entry.take(n as int), "http"@)
        || crate::text::same_ignoring_case(entry.take(n as int), "https"@)) {
        Some(entry.skip(n as int + 1))
    } else {
        None
    }
}

/// The address of the first entry for web traffic.
pub open spec fn first_web_address(entries: Seq<Seq<char>>) -> Option<Seq<char>>
    decreases entries.len(),
{
    if entries.len() == 0 {
        None
    } else {
        match web_address(entries.first()) {
            Some(address) => Some(address),
            None => first_web_address(entries.drop_first()),
        }
    }
}

/// The address in a proxy setting: the setting itself where it is plain, the
/// first entry for web traffic where it lists one proxy per protocol.
pub open spec fn proxy_address(server: Seq<char>) -> Option<Seq<char>> {
    if server.contains('=') {
        first_web_address(crate::text::split(server, ';'))
    } else {
        Some(server)
    }
}

/// The proxy of the system. Only Windows keeps such a setting, and only one
/// that is switched on and not empty counts; what is missing could not be read.
pub open spec fn proxy_url(
    platform: Platform,
    enabled: Option<u32>,
    server: Option<Seq<char>>,
) -> Option<Seq<char>> {
    match (platform, enabled, server) {
        (Platform::Windows, Some(flag), Some(text)) if flag != 0 && text.len() > 0 => match proxy_address(
            text,
        ) {
            Some(address) => Some("http://"@ + address),
            None => None,
        },
        _ => None,
    }
}

fn address_of(entry: &str) -> (r: Option<String>)
    ensures
        r is Some == web_address(entry@) is Some,
        r matches Some(address) ==> address@ == web_address(entry@)->0,
{
    let chars = chars_of(entry);
    let mut at: usize = 0;
    while at < chars.len() && chars[at] != '='
        invariant
            at <= chars.len(),
            forall|i: int| 0 <= i < at ==> chars@[i] != '=',
        decreases chars.len() - at,
    {
        at = at + 1;
    }
    proof {
        crate::text::position_is(entry@, '=', at as int);
    }
    if at == chars.len() {
        return None;
    }
    let protocol = text_between(&chars, 0, at);
    assert(protocol@ == entry@.take(at as int));
    if eq_ignore_ascii_case(protocol.as_str(), "http") || eq_ignore_ascii_case(
        protocol.as_str(),
        "https",
    ) {
        let address = text_between(&chars, at + 1, chars.len());
        assert(address@ == entry@.skip(at + 1));
        Some(address)
    } else {
        None
    }
}

fn has_equals(s: &str) -> (r: bool)
    ensures
        r == s@.contains('='),
{
    let chars = chars_of(s);
    let mut i: usize = 0;
    while i < chars.len()
        invariant
            i <= chars.len(),
            chars@ == s@,
            forall|j: int| 0 <= j < i ==> chars@[j] != '=',
        decreases chars.len() - i,
    {
        if chars[i] == '=' {
            assert(s@[i as int] == '=');
            return true;
        }
        i = i + 1;
    }
    false
}

fn address_in(server: &str) -> (r: Option<String>)
    ensures
        r is Some == proxy_address(server@) is Some,
        r matches Some(address) ==> address@ == proxy_address(server@)->0,
{
    if !has_equals(server) {
        return Some(server.to_owned());
    }
    let entries = split_on(server, ';');
    let mut i: usize = 0;
    let ghost all = entries.deep_view();
    assert(all.skip(0) == all);
    while i < entries.len()
        invariant
            i <= entries.len(),
            all == entries.deep_view(),
            server@.contains('='),
            all == crate::text::split(server@, ';'),
            first_web_address(all) == first_web_address(all.skip(i as int)),
        decreases entries.len() - i,
    {
        let address = address_of(entries[i].as_str());
        assert(all.skip(i as int).first() == entries@[i as int]@);
        assert(all.skip(i as int).drop_first() == all.skip(i + 1));
        if address.is_some() {
            return address;
        }
        i = i + 1;
    }
    assert(all.skip(i as int).len() == 0);
    None
}

/// The proxy of the system, by what its settings hold: the flag that switches
/// it on, and the server. Elsewhere than on Windows a process inherits its
/// proxy, so that there is nothing to look up.
pub fn system_proxy_url(
    platform: Platform,
    enabled: Option<u32>,
    server: Option<String>,
) -> (r: Option<String>)
    ensures
        ({
            let url = proxy_url(
                platform,
                enabled,
                match server {
                    Some(text) => Some(text@),
                    None => None,
                },
            );
            &&& r is Some == url is Some
            &&& r matches Some(text) ==> text@ == url->0
        }),
{
    let on = match (platform, enabled) {
        (Platform::Windows, Some(flag)) => flag != 0,
        _ => false,
    };
    if !on {
        return None;
    }
    match server {
        None => None,
        Some(text) => {
            if text.as_str().is_empty() {
                return None;
            }
            match address_in(text.as_str()) {
                Some(address) => {
                    let mut url = "http://".to_owned();
                    url.append(address.as_str());
                    Some(url)
                },
                None => None,
            }
        },
    }
}

/// What is set in the environment of a git process: its proxy under every name
/// that git knows it by, and nothing where there is none.
pub open spec fn proxy_settings(url: Option<Seq<char>>) -> Seq<(Seq<char>, Seq<char>)> {
    match url {
        Some(u) => seq![
            ("HTTPS_PROXY"@, u),
            ("HTTP_PROXY"@, u),
            ("https_proxy"@, u),
            ("http_proxy"@, u),
        ],
        None => Seq::empty(),
    }
}

/// What is set in the environment of a git process, each name with its value.
pub fn proxy_environment(url: Option<&str>) -> (r: Vec<(String, String)>)
    ensures
        url is None ==> r@.len() == 0,
        url matches Some(u) ==> r.deep_view() == seq![
            ("HTTPS_PROXY"@, u@),
            ("HTTP_PROXY"@, u@),
            ("https_proxy"@, u@),
            ("http_proxy"@, u@),
        ],
        r.deep_view() == proxy_settings(
            match url {
                Some(u) => Some(u@),
                None => None,
            },
        ),
{
    let mut out: Vec<(String, String)> = Vec::new();
    match url {
        Some(u) => {
            out.push(("HTTPS_PROXY".to_owned(), u.to_owned()));
            out.push(("HTTP_PROXY".to_owned(), u.to_owned()));
            out.push(("https_proxy".to_owned(), u.to_owned()));
            out.push(("http_proxy".to_owned(), u.to_owned()));
            assert(out.deep_view() =~= proxy_settings(Some(u@)));
        },
        None => {
            assert(out.deep_view() =~= Seq::empty());
        },
    }
    out
}

/// The environment of a process that inherits `inherited` and has these set, in
/// order.
pub open spec fn environment(
    inherited: Map<Seq<char>, Seq<char>>,
    settings: Seq<(Seq<char>, Seq<char>)>,
) -> Map<Seq<char>, Seq<char>>
    decreases settings.len(),
{
    if settings.len() == 0 {
        inherited
    } else {
        environment(inherited, settings.drop_last()).insert(settings.last().0, settings.last().1)
    }
}

/// Whether this is one of the names that git knows its proxy by.
pub open spec fn is_proxy_name(name: Seq<char>) -> bool {
    name == "HTTPS_PROXY"@ || name == "HTTP_PROXY"@ || name == "https_proxy"@ || name
        == "http_proxy"@
}

/// A git process finds the proxy of the system under every name that it knows
/// it by, and inherits the rest; where there is no proxy, it inherits all.
pub proof fn git_finds_its_proxy(
    inherited: Map<Seq<char>, Seq<char>>,
    url: Option<Seq<char>>,
    name: Seq<char>,
)
    ensures
        url is None ==> environment(inherited, proxy_settings(url)) == inherited,
        url matches Some(u) ==> {
            let child = environment(inherited, proxy_settings(url));
            if is_proxy_name(name) {
                child.contains_key(name) && child[name] == u
            } else {
                child.contains_key(name) == inherited.contains_key(name) && (inherited.contains_key(
                    name,
                ) ==> child[name] == inherited[name])
            }
        },
{
    if let Some(u) = url {
        reveal_with_fuel(environment, 5);
        let all = proxy_settings(url);
        assert(all.drop_last() =~= seq![
            ("HTTPS_PROXY"@, u),
            ("HTTP_PROXY"@, u),
            ("https_proxy"@, u),
        ]);
        assert(all.drop_last().drop_last() =~= seq![("HTTPS_PROXY"@, u), ("HTTP_PROXY"@, u)]);
        assert(all.drop_last().drop_last().drop_last() =~= seq![("HTTPS_PROXY"@, u)]);
        assert(all.drop_last().drop_last().drop_last().drop_last() =~= Seq::empty());
    }
}

} // verus!
