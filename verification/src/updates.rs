//! Looking up the newest versions.
use crate::text::{same_text, trim_start_matches};
use vstd::prelude::*;

verus! {

/// Where the newest commit of the harness is looked up.
pub const LATEST_COMMIT_URL: &'static str =
    "https://api.github.com/repos/deepseek-ai/deepseek-harness/commits/master";

/// Where the newest release of the shell is looked up.
pub const LATEST_RELEASE_URL: &'static str =
    "https://api.github.com/repos/Myoontyee/deepseek-harness-desktop/releases/latest";

/// How the shell names itself in requests.
pub const USER_AGENT: &'static str = "deepseek-harness-desktop/0.1";

/// How long the lookup of a launch may take.
pub const LATEST_SECS: u64 = 20;

/// How long each lookup for the update panel may take.
pub const CHECK_SECS: u64 = 15;

/// The members of a JSON object, in order: each name with the text that it
/// stands for, where that is a text.
pub type Members = Vec<(String, Option<String>)>;

/// What `serde_json::from_slice` reads in these bytes, as the members of an
/// object: nothing where they are not JSON, or JSON but no object.
pub uninterp spec fn json_members(bytes: Seq<u8>) -> Option<
    Seq<(Seq<char>, Option<Seq<char>>)>,
>;

/// The members of the JSON object in `bytes`, by `serde_json::from_slice`.
///
/// Claimed: they depend on the bytes alone. Which bytes are JSON, and what the
/// members of an object are, is left to `serde_json`.
#[verifier::external_body]
fn read_members(bytes: &[u8]) -> (r: Option<Members>)
    ensures
        r.deep_view() == json_members(bytes@),
{
    match serde_json::from_slice::<serde_json::Value>(bytes) {
        Ok(serde_json::Value::Object(object)) => {
            let mut members: Members = Vec::new();
            for (name, value) in object {
                members.push((name, value.as_str().map(str::to_string)));
            }
            Some(members)
        },
        _ => None,
    }
}

/// The text of the member of this name: nothing where there is no such member,
/// or it is not a text.
pub open spec fn text_of(members: Seq<(Seq<char>, Option<Seq<char>>)>, name: Seq<char>) -> Option<
    Seq<char>,
>
    decreases members.len(),
{
    if members.len() == 0 {
        None
    } else if members.first().0 == name {
        members.first().1
    } else {
        text_of(members.drop_first(), name)
    }
}

/// The text of the member of this name.
pub fn member_text(members: &Members, name: &str) -> (r: Option<String>)
    ensures
        r.deep_view() == text_of(members.deep_view(), name@),
{
    let ghost all = members.deep_view();
    let mut i: usize = 0;
    assert(all.skip(0) == all);
    while i < members.len()
        invariant
            i <= members.len(),
            all == members.deep_view(),
            text_of(all, name@) == text_of(all.skip(i as int), name@),
        decreases members.len() - i,
    {
        assert(all.skip(i as int).first() == members@[i as int].deep_view());
        assert(all.skip(i as int).drop_first() == all.skip(i + 1));
        if same_text(members[i].0.as_str(), name) {
            return match &members[i].1 {
                Some(text) => Some(text.clone()),
                None => None,
            };
        }
        i = i + 1;
    }
    assert(all.skip(i as int).len() == 0);
    None
}

/// The text of a member of the JSON object in `bytes`.
pub open spec fn json_text(bytes: Option<Seq<u8>>, name: Seq<char>) -> Option<Seq<char>> {
    match bytes {
        Some(b) => match json_members(b) {
            Some(members) => text_of(members, name),
            None => None,
        },
        None => None,
    }
}

/// The bytes of a reply, where there is one.
pub open spec fn bytes_of(reply: Option<Vec<u8>>) -> Option<Seq<u8>> {
    match reply {
        Some(bytes) => Some(bytes@),
        None => None,
    }
}

/// The newest revision of the harness, by the reply to [`LATEST_COMMIT_URL`],
/// where there is one.
pub fn latest_revision(reply: Option<Vec<u8>>) -> (r: Option<String>)
    ensures
        r.deep_view() == json_text(bytes_of(reply), "sha"@),
{
    match reply {
        Some(bytes) => match read_members(bytes.as_slice()) {
            Some(members) => member_text(&members, "sha"),
            None => None,
        },
        None => None,
    }
}

/// The version that a release tag names: the tag without any leading `v`.
pub open spec fn version_of(tag: Option<Seq<char>>) -> Option<Seq<char>> {
    match tag {
        Some(text) => Some(crate::text::without_leading(text, 'v')),
        None => None,
    }
}

/// The version that the tag of a release names, by the members of the release.
pub fn release_version(members: &Members) -> (r: Option<String>)
    ensures
        r.deep_view() == version_of(text_of(members.deep_view(), "tag_name"@)),
{
    match member_text(members, "tag_name") {
        Some(tag) => Some(trim_start_matches(tag.as_str(), 'v')),
        None => None,
    }
}

/// The newest release of the shell and the newest revision of the harness, by
/// the replies to [`LATEST_RELEASE_URL`] and [`LATEST_COMMIT_URL`]. What could
/// not be looked up is missing.
pub fn check_updates(release: Option<Vec<u8>>, commit: Option<Vec<u8>>) -> (r: (
    Option<String>,
    Option<String>,
))
    ensures
        r.0.deep_view() == version_of(json_text(bytes_of(release), "tag_name"@)),
        r.1.deep_view() == json_text(bytes_of(commit), "sha"@),
{
    let shell = match release {
        Some(bytes) => match read_members(bytes.as_slice()) {
            Some(members) => release_version(&members),
            None => None,
        },
        None => None,
    };
    (shell, latest_revision(commit))
}

/// The version of the harness, by the text of its `package.json`, where it
/// could be read.
pub fn harness_version(package: Option<String>) -> (r: Option<String>)
    ensures
        r.deep_view() == json_text(
            match package {
                Some(text) => Some(vstd::utf8::encode_utf8(text@)),
                None => None,
            },
            "version"@,
        ),
{
    match package {
        Some(text) => match read_members(text.as_str().as_bytes()) {
            Some(members) => member_text(&members, "version"),
            None => None,
        },
        None => None,
    }
}

} // verus!
