//! What the replies about newer versions come to.
use crate::updates::{
    check_updates, harness_version, latest_revision, member_text, release_version, Members,
};
use vstd::prelude::*;

verus! {

/// Whether `text` is what the first member of this name stands for: nothing where
/// there is none, or it is not a text.
pub open spec fn first_named(
    members: Seq<(Seq<char>, Option<Seq<char>>)>,
    name: Seq<char>,
    text: Option<Seq<char>>,
) -> bool {
    ||| (exists|i: int|
        0 <= i < members.len() && #[trigger] members[i] == (name, text) && forall|j: int|
            0 <= j < i ==> (#[trigger] members[j]).0 != name)
    ||| (text is None && forall|j: int| 0 <= j < members.len() ==> (#[trigger] members[j]).0 != name)
}

/// What the first member of a name stands for is one thing.
pub proof fn first_named_is_one(
    members: Seq<(Seq<char>, Option<Seq<char>>)>,
    name: Seq<char>,
    text: Option<Seq<char>>,
    other: Option<Seq<char>>,
)
    requires
        first_named(members, name, text),
        first_named(members, name, other),
    ensures
        text == other,
{
}

proof fn text_is_first_named(members: Seq<(Seq<char>, Option<Seq<char>>)>, name: Seq<char>)
    ensures
        first_named(members, name, crate::updates::text_of(members, name)),
    decreases members.len(),
{
    let text = crate::updates::text_of(members, name);
    if members.len() > 0 {
        if members[0].0 == name {
            assert(members[0] == (name, text));
        } else {
            let rest = members.drop_first();
            text_is_first_named(rest, name);
            if exists|i: int|
                0 <= i < rest.len() && #[trigger] rest[i] == (name, text) && forall|j: int|
                    0 <= j < i ==> (#[trigger] rest[j]).0 != name {
                let i = choose|i: int|
                    0 <= i < rest.len() && #[trigger] rest[i] == (name, text) && forall|j: int|
                        0 <= j < i ==> (#[trigger] rest[j]).0 != name;
                assert(members[i + 1] == (name, text));
                assert forall|j: int| 0 <= j < i + 1 implies (#[trigger] members[j]).0 != name by {
                    if j > 0 {
                        assert(rest[j - 1] == members[j]);
                    }
                }
            } else {
                assert forall|j: int| 0 <= j < members.len() implies (#[trigger] members[j]).0
                    != name by {
                    if j > 0 {
                        assert(rest[j - 1] == members[j]);
                    }
                }
            }
        }
    }
}

/// The text of a member is that of the first one of the name.
pub proof fn the_first_member_counts(members: &Members, name: &str, r: Option<String>)
    requires
        call_ensures(member_text, (members, name), r),
    ensures
        first_named(members.deep_view(), name@, r.deep_view()),
{
    text_is_first_named(members.deep_view(), name@);
}

/// A tag names the version that follows the letters `v` at its start, however
/// many there are.
pub proof fn a_tag_names_its_version(
    members: &Members,
    r: Option<String>,
    vs: nat,
    version: Seq<char>,
)
    requires
        call_ensures(release_version, (members,), r),
        version.len() > 0 ==> version.first() != 'v',
        first_named(
            members.deep_view(),
            "tag_name"@,
            Some(crate::text_laws::run_of('v', vs) + version),
        ),
    ensures
        r matches Some(text) && text@ == version,
{
    let tag = crate::text_laws::run_of('v', vs) + version;
    text_is_first_named(members.deep_view(), "tag_name"@);
    first_named_is_one(
        members.deep_view(),
        "tag_name"@,
        Some(tag),
        crate::updates::text_of(members.deep_view(), "tag_name"@),
    );
    crate::text_laws::without_leading_run(vs, 'v', version);
    assert(r.deep_view() == Some(version));
}

/// A release without a tag names no version.
pub proof fn no_tag_names_no_version(members: &Members, r: Option<String>)
    requires
        call_ensures(release_version, (members,), r),
        first_named(members.deep_view(), "tag_name"@, None),
    ensures
        r is None,
{
    text_is_first_named(members.deep_view(), "tag_name"@);
    first_named_is_one(
        members.deep_view(),
        "tag_name"@,
        None,
        crate::updates::text_of(members.deep_view(), "tag_name"@),
    );
}

/// The newest revision is the `sha` of the reply, as it stands there. Without a
/// reply, or where it is no JSON object, none is known.
pub proof fn the_newest_revision_is_the_sha(reply: Option<Vec<u8>>, r: Option<String>)
    requires
        call_ensures(latest_revision, (reply,), r),
    ensures
        reply is None ==> r is None,
        reply matches Some(bytes) ==> match crate::updates::json_members(bytes@) {
            Some(members) => first_named(members, "sha"@, r.deep_view()),
            None => r is None,
        },
{
    if let Some(bytes) = reply {
        if let Some(members) = crate::updates::json_members(bytes@) {
            text_is_first_named(members, "sha"@);
        }
    }
}

/// The update panel hears of the revision that the reply names, whatever the
/// release says, and of the version that the tag names, whatever the commit says.
pub proof fn each_reply_is_heard_for_itself(
    release: Option<Vec<u8>>,
    commit: Option<Vec<u8>>,
    r: (Option<String>, Option<String>),
    newest: Option<String>,
)
    requires
        call_ensures(check_updates, (release, commit), r),
        call_ensures(latest_revision, (commit,), newest),
    ensures
        r.1.deep_view() == newest.deep_view(),
        release is None ==> r.0 is None,
        release matches Some(bytes) ==> (crate::updates::json_members(bytes@) is None ==> r.0
            is None),
{
}

/// The update panel hears of the version that follows the letters `v` of the tag.
pub proof fn the_newest_version_is_heard_of(
    release: Vec<u8>,
    commit: Option<Vec<u8>>,
    r: (Option<String>, Option<String>),
    members: Seq<(Seq<char>, Option<Seq<char>>)>,
    vs: nat,
    version: Seq<char>,
)
    requires
        call_ensures(check_updates, (Some(release), commit), r),
        crate::updates::json_members(release@) == Some(members),
        version.len() > 0 ==> version.first() != 'v',
    ensures
        first_named(members, "tag_name"@, None) ==> r.0 is None,
        first_named(members, "tag_name"@, Some(crate::text_laws::run_of('v', vs) + version)) ==> (
        r.0 matches Some(text) && text@ == version),
{
    let tag = crate::text_laws::run_of('v', vs) + version;
    let found = crate::updates::text_of(members, "tag_name"@);
    text_is_first_named(members, "tag_name"@);
    crate::text_laws::without_leading_run(vs, 'v', version);
    if first_named(members, "tag_name"@, None) {
        first_named_is_one(members, "tag_name"@, None, found);
    }
    if first_named(members, "tag_name"@, Some(tag)) {
        first_named_is_one(members, "tag_name"@, Some(tag), found);
        assert(r.0.deep_view() == Some(version));
    }
}

/// The version of the harness is the `version` of its package, as it stands
/// there.
pub proof fn the_harness_version_is_that_of_its_package(
    package: Option<String>,
    r: Option<String>,
)
    requires
        call_ensures(harness_version, (package,), r),
    ensures
        package is None ==> r is None,
        package matches Some(text) ==> match crate::updates::json_members(
            vstd::utf8::encode_utf8(text@),
        ) {
            Some(members) => first_named(members, "version"@, r.deep_view()),
            None => r is None,
        },
{
    if let Some(text) = package {
        if let Some(members) = crate::updates::json_members(vstd::utf8::encode_utf8(text@)) {
            text_is_first_named(members, "version"@);
        }
    }
}

} // verus!
