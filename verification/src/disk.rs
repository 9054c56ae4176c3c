//! A model of directories: what the files below one hold.
use vstd::prelude::*;

verus! {

/// A path below a directory, by its parts.
pub type Path = Seq<Seq<char>>;

/// The files below a directory, each with what it holds.
pub type Files = Map<Path, Seq<u8>>;

/// Whether the directory has an item of this name.
pub open spec fn is_item(files: Files, name: Seq<char>) -> bool {
    exists|p: Path| #[trigger] files.contains_key(p) && p.len() > 0 && p[0] == name
}

/// Whether the directory has a directory of this name.
pub open spec fn is_directory(files: Files, name: Seq<char>) -> bool {
    exists|p: Path| #[trigger] files.contains_key(p) && p.len() > 1 && p[0] == name
}

/// The files below the directory of this name.
pub open spec fn below(files: Files, name: Seq<char>) -> Files {
    Map::new(|p: Path| files.contains_key(seq![name] + p), |p: Path| files[seq![name] + p])
}

/// The files that are not below the directory of this name.
pub open spec fn beside(files: Files, name: Seq<char>) -> Files {
    files.restrict(Set::new(|p: Path| !(p.len() > 0 && p[0] == name)))
}

/// Whether these are the names of the items of the directory, each once.
pub open spec fn is_listing(files: Files, names: Seq<Seq<char>>) -> bool {
    names.no_duplicates() && (forall|name: Seq<char>| #[trigger]
        names.contains(name) == is_item(files, name))
}

/// Whether the directory holds one directory and nothing else.
pub open spec fn is_wrapped(files: Files) -> bool {
    exists|name: Seq<char>| #[trigger]
        is_directory(files, name) && (forall|other: Seq<char>| #[trigger]
            is_item(files, other) ==> other == name)
}

/// Whether `outer` holds what `inner` holds, below a directory of this name, and
/// nothing else.
pub open spec fn wraps(outer: Files, name: Seq<char>, inner: Files) -> bool {
    &&& forall|p: Path|
        #![trigger outer.contains_key(p)]
        outer.contains_key(p) == (p.len() > 0 && p[0] == name && inner.contains_key(p.drop_first()))
    &&& forall|p: Path|
        #![trigger outer[p]]
        outer.contains_key(p) ==> outer[p] == inner[p.drop_first()]
}

/// What is wrapped is found below its directory.
pub proof fn below_unwraps(outer: Files, name: Seq<char>, inner: Files)
    requires
        wraps(outer, name, inner),
    ensures
        below(outer, name) == inner,
{
    assert forall|p: Path|
        #![trigger below(outer, name).contains_key(p)]
        below(outer, name).contains_key(p) == inner.contains_key(p) && (inner.contains_key(p)
            ==> below(outer, name)[p] == inner[p]) by {
        assert((seq![name] + p).drop_first() =~= p);
        assert((seq![name] + p)[0] == name);
        assert(outer.contains_key(seq![name] + p) == inner.contains_key(p));
    }
    assert(below(outer, name) =~= inner);
}

/// What wraps files that have names holds one directory and nothing else.
pub proof fn wrapping_lists_one(
    outer: Files,
    name: Seq<char>,
    inner: Files,
    names: Seq<Seq<char>>,
)
    requires
        wraps(outer, name, inner),
        forall|p: Path| #[trigger] inner.contains_key(p) ==> p.len() > 0,
        is_listing(outer, names),
    ensures
        if inner =~= Map::empty() {
            names.len() == 0 && outer =~= Map::empty()
        } else {
            names == seq![name] && is_directory(outer, name)
        },
{
    assert forall|other: Seq<char>| #[trigger] is_item(outer, other) implies other == name by {}
    if inner =~= Map::empty() {
        assert forall|p: Path| !#[trigger] outer.contains_key(p) by {}
        assert(outer =~= Map::empty());
        if names.len() > 0 {
            assert(names.contains(names[0]));
        }
    } else {
        let p = choose|p: Path| #[trigger] inner.contains_key(p);
        assert(exists|p: Path| #[trigger] inner.contains_key(p)) by {
            if forall|p: Path| !#[trigger] inner.contains_key(p) {
                assert(inner =~= Map::empty());
            }
        }
        let q = seq![name] + p;
        assert(q.drop_first() =~= p);
        assert(outer.contains_key(q) && q.len() > 1 && q[0] == name);
        assert(is_item(outer, name));
        assert(names.contains(name));
        if names.len() > 1 {
            assert(names.contains(names[0]));
            assert(names.contains(names[1]));
            assert(names[0] == names[1]);
        }
        assert(names =~= seq![name]);
    }
}

} // verus!
