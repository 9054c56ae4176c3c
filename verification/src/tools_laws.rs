//! Where the tools are and where git is looked for.
use crate::tools::{
    find_git, git_name, git_places, prepend_path, GitPlace, GitSearch, PathEntry, Platform,
};
use vstd::prelude::*;

verus! {

/// The bundled tools come first on the search path, and every inherited
/// directory keeps its place behind them.
pub proof fn bundled_tools_come_first(inherited: usize, r: Vec<PathEntry>, i: usize)
    requires
        inherited <= usize::MAX - 2,
        call_ensures(prepend_path, (inherited,), r),
    ensures
        r@.len() == inherited + 2,
        r@[0] == PathEntry::Tools,
        r@[1] == PathEntry::Node,
        i < inherited ==> r@[i + 2] == PathEntry::Inherited(i),
{
}

/// How many places are known beside the search path.
pub open spec fn known_count(platform: Platform) -> nat {
    match platform {
        Platform::Windows => 3,
        Platform::Unix => 4,
    }
}

/// Every known place is one of git: it ends with the file name of git behind the
/// separator of the platform, and there are as many as the search goes through.
pub proof fn known_places_are_of_git(
    platform: Platform,
    places: Vec<String>,
    name: String,
    i: int,
)
    requires
        call_ensures(git_places, (platform,), places),
        call_ensures(git_name, (platform,), name),
        0 <= i < places@.len(),
    ensures
        places@.len() == known_count(platform),
        ({
            let place = places@[i]@;
            let separator = match platform {
                Platform::Windows => '\\',
                Platform::Unix => '/',
            };
            place.len() > name@.len() && place.skip(place.len() - name@.len()) == name@
                && place[place.len() - name@.len() - 1] == separator
        }),
{
    reveal_strlit("git.exe");
    reveal_strlit("git");
    reveal_strlit("C:\\Program Files\\Git\\cmd\\git.exe");
    reveal_strlit("C:\\Program Files (x86)\\Git\\cmd\\git.exe");
    reveal_strlit("C:\\Program Files\\Git\\bin\\git.exe");
    reveal_strlit("/usr/bin/git");
    reveal_strlit("/usr/local/bin/git");
    reveal_strlit("/opt/homebrew/bin/git");
    reveal_strlit("/opt/local/bin/git");
    let all = places.deep_view();
    assert(all.len() == places@.len());
    assert(all[i] == places@[i]@);
    let place = places@[i]@;
    assert(place.skip(place.len() - name@.len()) =~= name@);
}

/// The places are looked at one after the other, with no place twice.
pub proof fn known_places_differ(platform: Platform, places: Vec<String>, i: int, j: int)
    requires
        call_ensures(git_places, (platform,), places),
        0 <= i < j < places@.len(),
    ensures
        places@[i]@ != places@[j]@,
{
    reveal_strlit("C:\\Program Files\\Git\\cmd\\git.exe");
    reveal_strlit("C:\\Program Files (x86)\\Git\\cmd\\git.exe");
    reveal_strlit("C:\\Program Files\\Git\\bin\\git.exe");
    reveal_strlit("/usr/bin/git");
    reveal_strlit("/usr/local/bin/git");
    reveal_strlit("/opt/homebrew/bin/git");
    reveal_strlit("/opt/local/bin/git");
    let all = places.deep_view();
    assert(all.len() == places@.len());
    assert(all[i] == places@[i]@);
    assert(all[j] == places@[j]@);
    let a = "C:\\Program Files\\Git\\cmd\\git.exe"@;
    let b = "C:\\Program Files\\Git\\bin\\git.exe"@;
    assert(a[21] != b[21]);
    let c = "/usr/local/bin/git"@;
    let d = "/opt/local/bin/git"@;
    assert(c[1] != d[1]);
}

/// As long as every look was in vain, the next one goes to the next directory of
/// the search path, and once they are used up to the known places in their order;
/// git is nowhere once those are used up too.
pub proof fn the_next_place_is_looked_at(
    platform: Platform,
    directories: usize,
    answers: &Vec<bool>,
    r: GitSearch,
)
    requires
        directories <= usize::MAX - 4,
        call_ensures(find_git, (platform, directories, answers), r),
        forall|i: int| 0 <= i < answers@.len() ==> !#[trigger] answers@[i],
    ensures
        answers@.len() < directories ==> r == GitSearch::Look(
            GitPlace::OnPath(answers@.len() as usize),
        ),
        directories <= answers@.len() < directories + known_count(platform) ==> r
            == GitSearch::Look(GitPlace::Known((answers@.len() - directories) as usize)),
        answers@.len() >= directories + known_count(platform) ==> r == GitSearch::Nowhere,
{
    crate::search::first_yes_is(answers@, answers@.len() as int);
}

/// The first place that has git is where it is found.
pub proof fn the_first_place_is_found(
    platform: Platform,
    directories: usize,
    answers: &Vec<bool>,
    r: GitSearch,
    first: int,
)
    requires
        directories <= usize::MAX - 4,
        call_ensures(find_git, (platform, directories, answers), r),
        0 <= first < answers@.len(),
        answers@[first],
        forall|i: int| 0 <= i < first ==> !#[trigger] answers@[i],
    ensures
        first < directories ==> r == GitSearch::Found(GitPlace::OnPath(first as usize)),
        first >= directories ==> r == GitSearch::Found(
            GitPlace::Known((first - directories) as usize),
        ),
{
    crate::search::first_yes_is(answers@, first);
}

} // verus!
