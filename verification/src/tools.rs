//! The programs that the shell runs, and where it looks for them.
use crate::search::find_yes;
use vstd::prelude::*;

verus! {

/// The kind of system that the shell runs on.
#[derive(Clone, Copy, PartialEq, Eq, Structural, Debug)]
pub enum Platform {
    Windows,
    Unix,
}

/// A program with its arguments.
#[derive(Debug)]
pub struct CommandLine {
    pub program: String,
    pub args: Vec<String>,
}

/// The path of the bundled pnpm below the tools.
pub open spec fn pnpm_path(platform: Platform) -> Seq<Seq<char>> {
    match platform {
        Platform::Windows => seq!["pnpm.exe"@],
        Platform::Unix => seq!["pnpm"@],
    }
}

/// The path of the bundled pnpm below the tools.
pub fn pnpm_bin(platform: Platform) -> (r: Vec<String>)
    ensures
        r.deep_view() == pnpm_path(platform),
{
    let mut out: Vec<String> = Vec::new();
    match platform {
        Platform::Windows => out.push("pnpm.exe".to_owned()),
        Platform::Unix => out.push("pnpm".to_owned()),
    }
    assert(out.deep_view() =~= pnpm_path(platform));
    out
}

/// The path of the bundled node below the tools.
pub open spec fn node_path(platform: Platform) -> Seq<Seq<char>> {
    match platform {
        Platform::Windows => seq!["node"@, "node.exe"@],
        Platform::Unix => seq!["node"@, "bin"@, "node"@],
    }
}

/// The path of the bundled node below the tools, as the official packages lay
/// it out.
pub fn node_bin(platform: Platform) -> (r: Vec<String>)
    ensures
        r.deep_view() == node_path(platform),
{
    let mut out: Vec<String> = Vec::new();
    match platform {
        Platform::Windows => {
            out.push("node".to_owned());
            out.push("node.exe".to_owned());
        },
        Platform::Unix => {
            out.push("node".to_owned());
            out.push("bin".to_owned());
            out.push("node".to_owned());
        },
    }
    assert(out.deep_view() =~= node_path(platform));
    out
}

/// A directory of the search path that the bundled tools run with.
#[derive(Clone, Copy, PartialEq, Eq, Structural, Debug)]
pub enum PathEntry {
    /// The tools themselves.
    Tools,
    /// The node below the tools.
    Node,
    /// A directory of the inherited search path, by its place there.
    Inherited(usize),
}

/// The search path that the bundled tools run with: their own directories come
/// first, then the inherited ones in their order.
pub fn prepend_path(inherited: usize) -> (r: Vec<PathEntry>)
    requires
        inherited <= usize::MAX - 2,
    ensures
        r@ == seq![PathEntry::Tools, PathEntry::Node] + Seq::new(
            inherited as nat,
            |i: int| PathEntry::Inherited(i as usize),
        ),
{
    let mut out: Vec<PathEntry> = Vec::new();
    out.push(PathEntry::Tools);
    out.push(PathEntry::Node);
    let mut i: usize = 0;
    while i < inherited
        invariant
            i <= inherited,
            out@ == seq![PathEntry::Tools, PathEntry::Node] + Seq::new(
                i as nat,
                |k: int| PathEntry::Inherited(k as usize),
            ),
        decreases inherited - i,
    {
        out.push(PathEntry::Inherited(i));
        i = i + 1;
        assert(out@ =~= seq![PathEntry::Tools, PathEntry::Node] + Seq::new(
            i as nat,
            |k: int| PathEntry::Inherited(k as usize),
        ));
    }
    out
}

// --- looking for git -------------------------------------------------------------

/// The file name of git.
pub open spec fn git_file(platform: Platform) -> Seq<char> {
    match platform {
        Platform::Windows => "git.exe"@,
        Platform::Unix => "git"@,
    }
}

/// The file name of git.
pub fn git_name(platform: Platform) -> (r: String)
    ensures
        r@ == git_file(platform),
{
    match platform {
        Platform::Windows => "git.exe".to_owned(),
        Platform::Unix => "git".to_owned(),
    }
}

/// Where git is looked for once it is not on the search path.
pub open spec fn known_places(platform: Platform) -> Seq<Seq<char>> {
    match platform {
        Platform::Windows => seq![
            "C:\\Program Files\\Git\\cmd\\git.exe"@,
            "C:\\Program Files (x86)\\Git\\cmd\\git.exe"@,
            "C:\\Program Files\\Git\\bin\\git.exe"@,
        ],
        Platform::Unix => seq![
            "/usr/bin/git"@,
            "/usr/local/bin/git"@,
            "/opt/homebrew/bin/git"@,
            "/opt/local/bin/git"@,
        ],
    }
}

/// Where git is looked for once it is not on the search path.
pub fn git_places(platform: Platform) -> (r: Vec<String>)
    ensures
        r.deep_view() == known_places(platform),
{
    let mut out: Vec<String> = Vec::new();
    match platform {
        Platform::Windows => {
            out.push("C:\\Program Files\\Git\\cmd\\git.exe".to_owned());
            out.push("C:\\Program Files (x86)\\Git\\cmd\\git.exe".to_owned());
            out.push("C:\\Program Files\\Git\\bin\\git.exe".to_owned());
        },
        Platform::Unix => {
            out.push("/usr/bin/git".to_owned());
            out.push("/usr/local/bin/git".to_owned());
            out.push("/opt/homebrew/bin/git".to_owned());
            out.push("/opt/local/bin/git".to_owned());
        },
    }
    assert(out.deep_view() =~= known_places(platform));
    out
}

/// A place where git may be.
#[derive(Clone, Copy, PartialEq, Eq, Structural, Debug)]
pub enum GitPlace {
    /// In a directory of the search path, by its place there.
    OnPath(usize),
    /// At one of [`git_places`], by its place there.
    Known(usize),
}

/// The next step of a search.
#[derive(Clone, Copy, PartialEq, Eq, Structural, Debug)]
pub enum GitSearch {
    /// See whether git exists here.
    Look(GitPlace),
    /// Git is here.
    Found(GitPlace),
    /// Git is nowhere.
    Nowhere,
}

/// The `i`th place where git is looked for: the directories of the search path
/// come first, then the known places.
pub open spec fn git_place(directories: nat, i: nat) -> GitPlace {
    if i < directories {
        GitPlace::OnPath(i as usize)
    } else {
        GitPlace::Known((i - directories) as usize)
    }
}

/// The next step of the search for git on a search path of so many
/// directories, given what the places looked at so far answered: the first
/// place that has it, the next place to look at, or that it is nowhere.
pub open spec fn git_search(platform: Platform, directories: nat, answers: Seq<bool>) -> GitSearch {
    let i = crate::search::first_yes(answers);
    if i < answers.len() {
        GitSearch::Found(git_place(directories, i))
    } else if i < directories + known_places(platform).len() {
        GitSearch::Look(git_place(directories, i))
    } else {
        GitSearch::Nowhere
    }
}

/// The next step of the search for git.
pub fn find_git(platform: Platform, directories: usize, answers: &Vec<bool>) -> (r: GitSearch)
    requires
        directories <= usize::MAX - 4,
    ensures
        r == git_search(platform, directories as nat, answers@),
{
    let i = find_yes(answers);
    let known: usize = match platform {
        Platform::Windows => 3,
        Platform::Unix => 4,
    };
    let place = if i < directories {
        GitPlace::OnPath(i)
    } else {
        GitPlace::Known(i - directories)
    };
    if i < answers.len() {
        GitSearch::Found(place)
    } else if i < directories + known {
        GitSearch::Look(place)
    } else {
        GitSearch::Nowhere
    }
}

/// What a search for git settles on where `there` says which places have it and
/// so many looks are still allowed.
pub open spec fn git_found(
    platform: Platform,
    directories: nat,
    there: spec_fn(GitPlace) -> bool,
    answers: Seq<bool>,
    looks: nat,
) -> GitSearch
    decreases looks,
{
    match git_search(platform, directories, answers) {
        GitSearch::Look(place) if looks > 0 => git_found(
            platform,
            directories,
            there,
            answers.push(there(place)),
            (looks - 1) as nat,
        ),
        settled => settled,
    }
}

/// A search for git settles on the first place that has it, in the order of the
/// search path and with the known places behind it, or finds it nowhere.
pub proof fn git_found_is_first(
    platform: Platform,
    directories: nat,
    there: spec_fn(GitPlace) -> bool,
)
    ensures
        ({
            let places = directories + known_places(platform).len();
            match git_found(platform, directories, there, Seq::empty(), places) {
                GitSearch::Found(place) => exists|i: nat|
                    i < places && place == #[trigger] git_place(directories, i) && there(place) && (
                    forall|j: nat| j < i ==> !there(#[trigger] git_place(directories, j))),
                GitSearch::Nowhere => forall|j: nat|
                    j < places ==> !there(#[trigger] git_place(directories, j)),
                GitSearch::Look(_) => false,
            }
        }),
{
    git_found_from(platform, directories, there, Seq::empty());
}

proof fn git_found_from(
    platform: Platform,
    directories: nat,
    there: spec_fn(GitPlace) -> bool,
    answers: Seq<bool>,
)
    requires
        answers.len() <= directories + known_places(platform).len(),
        forall|i: int| 0 <= i < answers.len() ==> !answers[i],
        forall|j: nat| j < answers.len() ==> !there(#[trigger] git_place(directories, j)),
    ensures
        ({
            let places = directories + known_places(platform).len();
            match git_found(
                platform,
                directories,
                there,
                answers,
                (places - answers.len()) as nat,
            ) {
                GitSearch::Found(place) => exists|i: nat|
                    i < places && place == #[trigger] git_place(directories, i) && there(place) && (
                    forall|j: nat| j < i ==> !there(#[trigger] git_place(directories, j))),
                GitSearch::Nowhere => forall|j: nat|
                    j < places ==> !there(#[trigger] git_place(directories, j)),
                GitSearch::Look(_) => false,
            }
        }),
    decreases directories + known_places(platform).len() - answers.len(),
{
    reveal_with_fuel(git_found, 2);
    let n = answers.len();
    crate::search::first_yes_is(answers, n as int);
    if n < directories + known_places(platform).len() {
        let place = git_place(directories, n);
        let more = answers.push(there(place));
        if there(place) {
            crate::search::first_yes_is(more, n as int);
        } else {
            assert forall|i: int| 0 <= i < more.len() implies !more[i] by {
                if i < n {
                    assert(!answers[i]);
                }
            }
            git_found_from(platform, directories, there, more);
        }
    }
}

/// The name of the source snapshot that ships beside the program.
pub const SNAPSHOT_FILE: &'static str = "dsh-runtime-snapshot.zip";

} // verus!
