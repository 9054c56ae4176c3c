//! What unpacking the snapshot leaves on the disk.
use crate::archive::{EntryAt, ExtractNext, ExtractResult, ExtractWorld, ZipEntry};
use crate::disk::{Files, Path};
use vstd::prelude::*;

verus! {

/// An entry of an archive with its path and what it holds.
pub struct Packed {
    pub entry: ZipEntry,
    pub path: Path,
    pub content: Seq<u8>,
}

/// The files of an archive: what has a path inside and is no directory. Of two
/// entries with one path the later one stands.
pub open spec fn files_of(packed: Seq<Packed>) -> Files
    decreases packed.len(),
{
    if packed.len() == 0 {
        Map::empty()
    } else {
        let last = packed.last();
        let before = files_of(packed.drop_last());
        if !last.entry.is_dir && last.entry.enclosed {
            before.insert(last.path, last.content)
        } else {
            before
        }
    }
}

/// The two directories that unpacking works on, where they exist.
pub struct Disk {
    pub runtime: Option<Files>,
    pub scratch: Option<Files>,
}

impl Disk {
    /// The files in the scratch directory.
    pub open spec fn unpacked(self) -> Files {
        match self.scratch {
            Some(files) => files,
            None => Map::empty(),
        }
    }
}

/// What an archive and a disk answer on which nothing fails. A directory is
/// listed in the order that `order` gives.
pub open spec fn smooth(
    packed: Seq<Packed>,
    order: spec_fn(Files) -> Seq<Seq<char>>,
    disk: Disk,
) -> ExtractWorld {
    let files = disk.unpacked();
    let n = packed.len();
    ExtractWorld {
        open: Ok(()),
        parse: Ok(()),
        scratch: Ok(()),
        sizes: Seq::new(n, |i: int| Some(packed[i].entry.size)),
        entries: Seq::new(n, |i: int| Ok(packed[i].entry)),
        directories: Seq::new(n, |i: int| Ok(())),
        writes: Seq::new(n, |i: int| Ok(())),
        listing: Ok(
            Seq::new(
                order(files).len(),
                |i: int| crate::disk::is_directory(files, order(files)[i]),
            ),
        ),
        rename: Ok(()),
    }
}

/// The path of the file that records the revision.
pub open spec fn version_path() -> Path {
    seq![crate::archive::VERSION_FILE@]
}

/// What is on the disk once a piece of work is done, while `at` is the entry
/// that was read last.
pub open spec fn effect(
    n: ExtractNext,
    at: int,
    packed: Seq<Packed>,
    order: spec_fn(Files) -> Seq<Seq<char>>,
    disk: Disk,
) -> Disk {
    let files = disk.unpacked();
    match n {
        ExtractNext::ClearScratch(_) => Disk { scratch: None, ..disk },
        ExtractNext::CreateScratch(_) => Disk { scratch: Some(files), ..disk },
        ExtractNext::WriteEntry(_) => Disk {
            scratch: Some(files.insert(packed[at].path, packed[at].content)),
            ..disk
        },
        ExtractNext::ClearRuntime(_) => Disk { runtime: None, ..disk },
        ExtractNext::Rename { inner, .. } => if inner {
            Disk {
                runtime: Some(crate::disk::below(files, order(files)[0])),
                scratch: Some(crate::disk::beside(files, order(files)[0])),
            }
        } else {
            Disk { runtime: Some(files), scratch: None }
        },
        ExtractNext::Record(_) => Disk {
            runtime: match disk.runtime {
                Some(old) => Some(recorded(old)),
                None => None,
            },
            ..disk
        },
        _ => disk,
    }
}

/// The files with the revision of the snapshot recorded.
pub open spec fn recorded(files: Files) -> Files {
    files.insert(
        version_path(),
        vstd::utf8::encode_utf8(crate::archive::SNAPSHOT_VERSION@),
    )
}

/// What is on the disk once unpacking is over, from `n` on.
pub open spec fn disk_from(
    n: ExtractNext,
    at: int,
    packed: Seq<Packed>,
    order: spec_fn(Files) -> Seq<Seq<char>>,
    disk: Disk,
) -> Disk
    decreases crate::archive::stage(n).0, crate::archive::stage(n).1, crate::archive::stage(n).2,
{
    match n {
        ExtractNext::Finish(_) => disk,
        _ => {
            let w = smooth(packed, order, disk);
            proof {
                crate::archive::stage_falls(n, at, w);
            }
            disk_from(
                crate::archive::extract_step(n, at, w),
                match n {
                    ExtractNext::ReadEntry(entry) => entry.index as int,
                    _ => at,
                },
                packed,
                order,
                effect(n, at, packed, order, disk),
            )
        },
    }
}

/// What is left of these unpacked files: in the runtime the files of the only
/// directory, where there is nothing else, and all of them otherwise; with the
/// revision recorded.
pub open spec fn settled(files: Files, order: spec_fn(Files) -> Seq<Seq<char>>) -> Disk {
    let names = order(files);
    if names.len() == 1 && crate::disk::is_directory(files, names[0]) {
        Disk {
            runtime: Some(recorded(crate::disk::below(files, names[0]))),
            scratch: Some(crate::disk::beside(files, names[0])),
        }
    } else {
        Disk { runtime: Some(recorded(files)), scratch: None }
    }
}

proof fn listing_settles(
    at: int,
    packed: Seq<Packed>,
    order: spec_fn(Files) -> Seq<Seq<char>>,
    disk: Disk,
)
    requires
        disk.scratch is Some,
    ensures
        disk_from(ExtractNext::ListScratch, at, packed, order, disk) == settled(
            disk.scratch->0,
            order,
        ),
{
    reveal_with_fuel(disk_from, 6);
}

proof fn entries_settle(
    entry: EntryAt,
    at: int,
    packed: Seq<Packed>,
    order: spec_fn(Files) -> Seq<Seq<char>>,
    disk: Disk,
)
    requires
        entry.index < entry.count == packed.len(),
        disk.scratch == Some(files_of(packed.take(entry.index as int))),
    ensures
        disk_from(ExtractNext::ReadEntry(entry), at, packed, order, disk) == settled(
            files_of(packed),
            order,
        ),
    decreases entry.count - entry.index,
{
    reveal_with_fuel(disk_from, 5);
    let i = entry.index as int;
    let one = packed[i];
    let past = entry.past(one.entry.size);
    assert(packed.take(i + 1).drop_last() =~= packed.take(i));
    assert(packed.take(i + 1).last() == one);
    let after = Disk { scratch: Some(files_of(packed.take(i + 1))), ..disk };
    match past.rest {
        Some(next) => {
            entries_settle(next, i, packed, order, after);
        },
        None => {
            assert(packed.take(i + 1) =~= packed);
            listing_settles(i, packed, order, after);
        },
    }
}

/// Where nothing fails, unpacking leaves the files of the archive in the
/// runtime, without the only directory that they lie in where there is one,
/// and with the revision recorded. Nothing is left of an earlier runtime or of
/// an earlier scratch directory.
pub proof fn unpacks_the_archive(
    packed: Seq<Packed>,
    order: spec_fn(Files) -> Seq<Seq<char>>,
    disk: Disk,
)
    requires
        packed.len() <= usize::MAX,
    ensures
        disk_from(ExtractNext::Open(ExtractResult::Opened), 0, packed, order, disk) == settled(
            files_of(packed),
            order,
        ),
{
    reveal_with_fuel(disk_from, 6);
    let fresh = Disk { scratch: Some(Map::empty()), ..disk };
    assert(packed.take(0) =~= Seq::empty());
    if packed.len() == 0 {
        assert(packed =~= Seq::empty());
        listing_settles(0, packed, order, fresh);
    } else {
        let sizes = Seq::new(packed.len(), |i: int| Some(packed[i].entry.size));
        let first = EntryAt {
            index: 0,
            count: packed.len() as usize,
            total: crate::archive::known_sum(sizes) as u64,
            done: 0,
        };
        entries_settle(first, 0, packed, order, fresh);
    }
}

proof fn files_are_finite(packed: Seq<Packed>)
    ensures
        files_of(packed).dom().finite(),
    decreases packed.len(),
{
    if packed.len() > 0 {
        files_are_finite(packed.drop_last());
    }
}

/// It does not matter whether an archive holds its files at its top or below
/// one directory: unpacking leaves the same runtime, in whatever order the
/// directories are listed and whatever was on the disk before.
pub proof fn layouts_agree(
    flat: Seq<Packed>,
    wrapped: Seq<Packed>,
    name: Seq<char>,
    order: spec_fn(Files) -> Seq<Seq<char>>,
    before: Disk,
    before_wrapped: Disk,
)
    requires
        flat.len() <= usize::MAX,
        wrapped.len() <= usize::MAX,
        forall|p: Path| #[trigger] files_of(flat).contains_key(p) ==> p.len() > 0,
        !crate::disk::is_wrapped(files_of(flat)),
        crate::disk::wraps(files_of(wrapped), name, files_of(flat)),
        forall|files: Files| #[trigger]
            files.dom().finite() ==> crate::disk::is_listing(files, order(files)),
    ensures
        ({
            let start = ExtractNext::Open(ExtractResult::Opened);
            let left = recorded(files_of(flat));
            &&& disk_from(start, 0, flat, order, before).runtime == Some(left)
            &&& disk_from(start, 0, wrapped, order, before_wrapped).runtime == Some(left)
        }),
{
    unpacks_the_archive(flat, order, before);
    unpacks_the_archive(wrapped, order, before_wrapped);
    files_are_finite(flat);
    files_are_finite(wrapped);
    let inner = files_of(flat);
    let outer = files_of(wrapped);
    assert(crate::disk::is_listing(inner, order(inner)));
    assert(crate::disk::is_listing(outer, order(outer)));
    let names = order(inner);
    if names.len() == 1 && crate::disk::is_directory(inner, names[0]) {
        assert forall|other: Seq<char>| #[trigger]
            crate::disk::is_item(inner, other) implies other == names[0] by {
            assert(names.contains(other));
        }
        assert(crate::disk::is_wrapped(inner));
    }
    crate::disk::wrapping_lists_one(outer, name, inner, order(outer));
    crate::disk::below_unwraps(outer, name, inner);
}

} // verus!
