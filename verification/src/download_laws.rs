//! What a download leaves on the disk.
use crate::disk::Files;
use crate::download::{
    inner_directory, DownloadBody, DownloadError, DownloadFirst, DownloadNext, DownloadResult,
    DownloadWork, DownloadWorld,
};
use vstd::prelude::*;

verus! {

/// What a download works on: the files beside the runtime, the runtime where it
/// exists, and whether the archive file is there.
pub struct Disk {
    pub parent: Files,
    pub runtime: Option<Files>,
    pub archive: bool,
}

/// The files with this revision recorded.
pub open spec fn recorded(files: Files, revision: Option<String>) -> Files {
    files.insert(
        crate::archive_laws::version_path(),
        vstd::utf8::encode_utf8(crate::text::or_nothing(revision)),
    )
}

/// What is on the disk once a piece of work is done, where the archive holds
/// these files.
pub open spec fn effect(n: DownloadNext, files: Files, disk: Disk) -> Disk {
    match n {
        DownloadNext::Save(_) => Disk { archive: true, ..disk },
        DownloadNext::Unpack(_) => Disk { parent: disk.parent.union_prefer_right(files), ..disk },
        DownloadNext::RemoveArchive(_) => Disk { archive: false, ..disk },
        DownloadNext::ClearRuntime(_) => Disk { runtime: None, ..disk },
        DownloadNext::Rename { first, .. } => Disk {
            runtime: Some(crate::disk::below(disk.parent, crate::download::directory_of(first))),
            parent: crate::disk::beside(disk.parent, crate::download::directory_of(first)),
            ..disk
        },
        DownloadNext::Record(revision, _) => Disk {
            runtime: match disk.runtime {
                Some(old) => Some(recorded(old, revision)),
                None => None,
            },
            ..disk
        },
        _ => disk,
    }
}

/// What is on the disk once the download is over, from `n` on.
pub open spec fn disk_from(n: DownloadNext, w: DownloadWorld, files: Files, disk: Disk) -> Disk
    decreases crate::download::download_rank(n),
{
    if n is Finish {
        disk
    } else {
        proof {
            crate::download::download_ends(n, w);
        }
        disk_from(crate::download::download_step(n, w), w, files, effect(n, files, disk))
    }
}

/// Whether the first entry of an archive names this directory, with so many
/// slashes at its end. An archive without an entry names none.
pub open spec fn names_directory(first: Option<String>, name: Seq<char>, slashes: nat) -> bool {
    &&& name.len() > 0 ==> name.last() != '/'
    &&& match first {
        Some(entry) => entry@ == name + crate::text_laws::run_of('/', slashes),
        None => name.len() == 0,
    }
}

/// The directory of an entry is the name before the slashes at its end, whatever
/// the name and however many they are.
pub proof fn directory_is_the_name(
    first: &Option<String>,
    r: String,
    name: Seq<char>,
    slashes: nat,
)
    requires
        call_ensures(inner_directory, (first,), r),
        names_directory(*first, name, slashes),
    ensures
        r@ == name,
{
    directory_of_name(*first, name, slashes);
}

proof fn directory_of_name(first: Option<String>, name: Seq<char>, slashes: nat)
    requires
        names_directory(first, name, slashes),
    ensures
        crate::download::directory_of(first) == name,
{
    crate::text_laws::without_trailing_run(slashes, '/', name);
    if first is None {
        crate::text_laws::without_trailing_run(0, '/', name);
        assert(name + crate::text_laws::run_of('/', 0) =~= Seq::<char>::empty());
        assert(name =~= Seq::<char>::empty());
    }
}

/// Of every entry the directory is a beginning that does not end in a slash, and
/// all that is cut off is slashes.
pub proof fn only_slashes_are_cut_off(first: &Option<String>, r: String)
    requires
        call_ensures(inner_directory, (first,), r),
    ensures
        r@.len() > 0 ==> r@.last() != '/',
        match first {
            Some(entry) => exists|slashes: nat|
                entry@ == r@ + #[trigger] crate::text_laws::run_of('/', slashes),
            None => r@.len() == 0,
        },
{
    match first {
        Some(entry) => {
            let (name, slashes) = entry_splits(entry@);
            directory_of_name(*first, name, slashes);
        },
        None => {
            directory_of_name(*first, Seq::empty(), 0);
        },
    }
}

proof fn entry_splits(entry: Seq<char>) -> (r: (Seq<char>, nat))
    ensures
        entry == r.0 + crate::text_laws::run_of('/', r.1),
        r.0.len() > 0 ==> r.0.last() != '/',
    decreases entry.len(),
{
    if entry.len() > 0 && entry.last() == '/' {
        let (name, slashes) = entry_splits(entry.drop_last());
        assert(entry =~= entry.drop_last().push('/'));
        assert(entry =~= name + crate::text_laws::run_of('/', slashes + 1));
        (name, slashes + 1)
    } else {
        assert(entry =~= entry + crate::text_laws::run_of('/', 0));
        (entry, 0nat)
    }
}

// --- the work of a download ---------------------------------------------------------

/// The work of a download once the archive is unpacked.
pub open spec fn placing_way(revision: Option<String>, w: DownloadWorld) -> Seq<DownloadNext> {
    let first = w.parse->Ok_0;
    seq![
        DownloadNext::RemoveArchive(DownloadWork::ArchiveRemoved { first, revision }),
        DownloadNext::ClearRuntime(DownloadWork::RuntimeCleared { first, revision }),
        DownloadNext::Rename { first, after: DownloadResult::Renamed { revision } },
    ] + match w.rename {
        Ok(_) => seq![
            DownloadNext::Record(revision, DownloadWork::Recorded),
            DownloadNext::Finish(Ok(())),
        ],
        Err(error) => seq![DownloadNext::Finish(Err(DownloadError::Rename(error)))],
    }
}

/// The work of a download once the archive file is saved.
pub open spec fn unpacking_way(revision: Option<String>, w: DownloadWorld) -> Seq<DownloadNext> {
    seq![DownloadNext::Open(DownloadResult::Opened { revision })] + match w.open {
        Err(error) => seq![DownloadNext::Finish(Err(DownloadError::Open(error)))],
        Ok(_) => seq![DownloadNext::Parse(DownloadFirst { revision })] + match w.parse {
            Err(error) => seq![DownloadNext::Finish(Err(DownloadError::Unpack(error)))],
            Ok(first) => seq![
                DownloadNext::Unpack(DownloadResult::Unpacked { first, revision }),
            ] + match w.unpack {
                Err(error) => seq![DownloadNext::Finish(Err(DownloadError::Unpack(error)))],
                Ok(_) => placing_way(revision, w),
            },
        },
    }
}

/// The work of a download from its request on.
pub open spec fn request_way(revision: Option<String>, w: DownloadWorld) -> Seq<DownloadNext> {
    seq![DownloadNext::Request(DownloadResult::Requested { revision })] + match w.request {
        Err(error) => seq![DownloadNext::Finish(Err(DownloadError::Request(error)))],
        Ok(_) => seq![DownloadNext::ReadBody(DownloadBody { revision })] + match w.body {
            Err(error) => seq![DownloadNext::Finish(Err(DownloadError::Body(error)))],
            Ok(size) => if size == 0 {
                seq![DownloadNext::Finish(Err(DownloadError::Empty))]
            } else {
                seq![DownloadNext::Save(DownloadResult::Saved { revision })] + match w.save {
                    Err(error) => seq![DownloadNext::Finish(Err(DownloadError::Save(error)))],
                    Ok(_) => unpacking_way(revision, w),
                }
            },
        },
    }
}

proof fn one_step(n: DownloadNext, w: DownloadWorld)
    requires
        !(n is Finish),
    ensures
        crate::download::work_from(n, w) == seq![n] + crate::download::work_from(
            crate::download::download_step(n, w),
            w,
        ),
{
}

proof fn placing_goes(revision: Option<String>, w: DownloadWorld)
    ensures
        crate::download::work_from(placing_way(revision, w)[0], w) == placing_way(revision, w),
{
    let way = placing_way(revision, w);
    let n1 = way[0];
    let n2 = way[1];
    let n3 = way[2];
    let n4 = DownloadNext::Record(revision, DownloadWork::Recorded);
    one_step(n1, w);
    one_step(n2, w);
    one_step(n3, w);
    one_step(n4, w);
    assert(crate::download::download_step(n1, w) == n2);
    assert(crate::download::download_step(n2, w) == n3);
    assert(crate::download::download_step(n4, w) == DownloadNext::Finish(Ok(())));
    assert(crate::download::work_from(n1, w) =~= way);
}

proof fn unpacking_goes(revision: Option<String>, w: DownloadWorld)
    ensures
        crate::download::work_from(unpacking_way(revision, w)[0], w) == unpacking_way(revision, w),
{
    let way = unpacking_way(revision, w);
    let n1 = DownloadNext::Open(DownloadResult::Opened { revision });
    let n2 = DownloadNext::Parse(DownloadFirst { revision });
    let first = w.parse->Ok_0;
    let n3 = DownloadNext::Unpack(DownloadResult::Unpacked { first, revision });
    one_step(n1, w);
    one_step(n2, w);
    one_step(n3, w);
    placing_goes(revision, w);
    assert(way[0] == n1);
    assert(crate::download::work_from(n1, w) =~= way);
}

/// A download goes the way that the answers call for, and no other: it asks,
/// saves, unpacks, and only then puts the runtime aside, moves the directory of
/// the first entry into its place and records the revision. It stops at the
/// first failure, with that failure and its reason.
pub proof fn download_goes(parent: bool, revision: Option<String>, w: DownloadWorld)
    ensures
        crate::download::work_from(crate::download::download_start(parent, revision), w) == (
        if parent {
            request_way(revision, w)
        } else {
            seq![DownloadNext::Finish(Err(DownloadError::NoParent))]
        }),
{
    let n1 = DownloadNext::Request(DownloadResult::Requested { revision });
    let n2 = DownloadNext::ReadBody(DownloadBody { revision });
    let n3 = DownloadNext::Save(DownloadResult::Saved { revision });
    one_step(n1, w);
    one_step(n2, w);
    one_step(n3, w);
    unpacking_goes(revision, w);
    assert(crate::download::work_from(n1, w) =~= request_way(revision, w));
}

// --- what is left on the disk -------------------------------------------------------

/// A download that succeeds leaves what lies in the directory of the archive in
/// the runtime, with the revision recorded that it was asked for. Nothing is
/// left of an earlier runtime; the archive file and that directory are gone
/// again, and what else lies beside the runtime stays or was in the archive.
pub proof fn download_moves_the_directory(
    revision: Option<String>,
    w: DownloadWorld,
    files: Files,
    disk: Disk,
)
    requires
        crate::download::failure(true, w) is None,
    ensures
        ({
            let start = crate::download::download_start(true, revision);
            let end = disk_from(start, w, files, disk);
            let merged = disk.parent.union_prefer_right(files);
            let name = crate::download::directory_of(w.parse->Ok_0);
            &&& end.runtime == Some(recorded(crate::disk::below(merged, name), revision))
            &&& end.parent == crate::disk::beside(merged, name)
            &&& !end.archive
        }),
{
    reveal_with_fuel(disk_from, 11);
}

/// Where all files of the archive lie in the directory that its first entry
/// names, and nothing of its name lies beside the runtime, a download that
/// succeeds leaves exactly these files in the runtime, with the revision recorded,
/// and leaves what lies beside the runtime as it was.
pub proof fn download_leaves_the_archive(
    revision: Option<String>,
    w: DownloadWorld,
    name: Seq<char>,
    slashes: nat,
    inner: Files,
    files: Files,
    disk: Disk,
)
    requires
        crate::download::failure(true, w) is None,
        names_directory(w.parse->Ok_0, name, slashes),
        crate::disk::wraps(files, name, inner),
        !crate::disk::is_item(disk.parent, name),
    ensures
        ({
            let start = crate::download::download_start(true, revision);
            let end = disk_from(start, w, files, disk);
            &&& end.runtime == Some(recorded(inner, revision))
            &&& end.parent == disk.parent
            &&& !end.archive
        }),
{
    directory_of_name(w.parse->Ok_0, name, slashes);
    download_moves_the_directory(revision, w, files, disk);
    let merged = disk.parent.union_prefer_right(files);
    assert forall|p: crate::disk::Path| #[trigger] disk.parent.contains_key(p) implies !(p.len() > 0
        && p[0] == name) by {}
    assert(crate::disk::below(merged, name) =~= crate::disk::below(files, name)) by {
        assert forall|p: crate::disk::Path|
            !disk.parent.contains_key(#[trigger] (seq![name] + p)) by {
            assert((seq![name] + p)[0] == name);
        }
    }
    crate::disk::below_unwraps(files, name, inner);
    assert(crate::disk::beside(merged, name) =~= disk.parent);
}

/// Reading the recorded revision gives the one that the download was asked for,
/// without white space around it.
pub proof fn recorded_revision_reads_back(
    files: Files,
    revision: Option<String>,
    contents: String,
    read: String,
)
    requires
        vstd::utf8::encode_utf8(contents@) == recorded(files, revision)[
            crate::archive_laws::version_path()
        ],
        read@ == crate::text::trimmed(contents@),
    ensures
        read@ == crate::text::trimmed(crate::text::or_nothing(revision)),
{
    vstd::utf8::encode_utf8_decode_utf8(contents@);
    vstd::utf8::encode_utf8_decode_utf8(crate::text::or_nothing(revision));
}

} // verus!
