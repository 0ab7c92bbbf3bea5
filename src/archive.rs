//! Fetched archives: their true container format, the file moves that set
//! their extension right, and the member names they hold.
use vstd::prelude::*;

use crate::members::{instrument_tags, music_files, FilesInCompressed};
use crate::text::{
    chars_of, concat, contains_str, ends_with_chars, has_substring, has_suffix, split_chars,
    split_on, string_of, views_of,
};

verus! {

/// The entry names of the zip archive held in `bytes`; `None` where the bytes
/// do not parse as one.
pub uninterp spec fn zip_directory(bytes: Seq<u8>) -> Option<Set<Seq<char>>>;

/// Relies on `zip::ZipArchive::new` over an in-memory reader, which reads the
/// central directory and fails where the bytes hold no zip archive, and on
/// `ZipArchive::file_names`, which yields each entry name once, in an order
/// that the crate leaves open.
#[verifier::external_body]
fn zip_entry_names(bytes: &[u8]) -> (r: Option<Vec<String>>)
    ensures
        r is Some <==> zip_directory(bytes@) is Some,
        r matches Some(v) ==> views_of(v@).no_duplicates() && views_of(v@).to_set() == zip_directory(
            bytes@,
        )->0,
{
    match zip::ZipArchive::new(std::io::Cursor::new(bytes)) {
        Ok(archive) => Some(archive.file_names().map(|n| n.to_string()).collect()),
        Err(_) => None,
    }
}

/// The container format of an archive, as established by parsing it.
#[derive(PartialEq, Eq, Structural, Clone, Copy, Debug)]
pub enum ArchiveFormat {
    Zip,
    Rar,
}

/// An archive whose format is established, and where it lies.
pub struct VerifiedArchive {
    pub root_path: String,
    pub true_format: ArchiveFormat,
}

/// A change to the stored files.
pub enum FileAction {
    /// Delete the file at this path.
    Remove(String),
    /// Create the file at this path with these bytes.
    Write(String, Vec<u8>),
}

/// The result of checking a stored archive: what it is, and the file changes
/// that make its name tell the truth, in the order they are made.
pub struct SniffOutcome {
    pub archive: VerifiedArchive,
    pub actions: Vec<FileAction>,
}

/// The path of the same archive with a `.rar` extension: a trailing `.zip`
/// becomes `.rar`; a path without it gets `.rar` appended.
pub open spec fn rar_path(path: Seq<char>) -> Seq<char> {
    if has_suffix(path, ".zip"@) {
        path.subrange(0, path.len() - 4) + ".rar"@
    } else {
        path + ".rar"@
    }
}

/// The `.rar` path of an archive stored at `path`.
pub fn rar_path_of(path: &str) -> (r: String)
    ensures
        r@ == rar_path(path@),
{
    proof {
        reveal_strlit(".zip");
    }
    let pv = chars_of(path);
    let zv = chars_of(".zip");
    if ends_with_chars(pv.as_slice(), zv.as_slice()) {
        let mut base: Vec<char> = Vec::new();
        let stop = pv.len() - 4;
        let mut i: usize = 0;
        while i < stop
            invariant
                stop <= pv@.len(),
                i <= stop,
                base@ == pv@.take(i as int),
            decreases stop - i,
        {
            base.push(pv[i]);
            i += 1;
            assert(pv@.take(i as int) =~= pv@.take(i - 1).push(pv@[i - 1]));
        }
        assert(base@ =~= path@.subrange(0, path@.len() - 4));
        let b = string_of(base.as_slice());
        concat(b.as_str(), ".rar")
    } else {
        concat(path, ".rar")
    }
}

/// Checks the bytes stored at `saved_path`, provisionally named `.zip`. Bytes
/// that parse as a zip archive stay where they are. Any others are taken for
/// a rar archive: the file is removed and the same bytes are written under
/// the `.rar` path.
pub fn sniff_archive(saved_path: &str, bytes: &Vec<u8>) -> (r: SniffOutcome)
    ensures
        zip_directory(bytes@) is Some ==> {
            &&& r.archive.true_format == ArchiveFormat::Zip
            &&& r.archive.root_path@ == saved_path@
            &&& r.actions@.len() == 0
        },
        zip_directory(bytes@) is None ==> {
            &&& r.archive.true_format == ArchiveFormat::Rar
            &&& r.archive.root_path@ == rar_path(saved_path@)
            &&& r.actions@.len() == 2
            &&& (r.actions@[0] matches FileAction::Remove(p) && p@ == saved_path@)
            &&& (r.actions@[1] matches FileAction::Write(p, b) && p@ == rar_path(saved_path@) && b@
                == bytes@)
        },
        r.actions@.map_values(|a: FileAction| change_of(a)) == sniff_changes(saved_path@, bytes@),
{
    let names = zip_entry_names(bytes.as_slice());
    match names {
        Some(_) => {
            let actions: Vec<FileAction> = Vec::new();
            assert(actions@.map_values(|a: FileAction| change_of(a)) =~= sniff_changes(
                saved_path@,
                bytes@,
            ));
            SniffOutcome {
                archive: VerifiedArchive {
                    root_path: saved_path.to_owned(),
                    true_format: ArchiveFormat::Zip,
                },
                actions,
            }
        },
        None => {
            let target = rar_path_of(saved_path);
            let mut actions: Vec<FileAction> = Vec::new();
            actions.push(FileAction::Remove(saved_path.to_owned()));
            actions.push(FileAction::Write(target.clone(), bytes.clone()));
            assert(actions@.map_values(|a: FileAction| change_of(a)) =~= sniff_changes(
                saved_path@,
                bytes@,
            ));
            SniffOutcome {
                archive: VerifiedArchive { root_path: target, true_format: ArchiveFormat::Rar },
                actions,
            }
        },
    }
}

/// A change to the stored files, as a value: stored files are modelled as a
/// map from path to content.
pub enum StoredChange {
    Remove(Seq<char>),
    Write(Seq<char>, Seq<u8>),
}

/// The change that an action makes.
pub open spec fn change_of(a: FileAction) -> StoredChange {
    match a {
        FileAction::Remove(p) => StoredChange::Remove(p@),
        FileAction::Write(p, b) => StoredChange::Write(p@, b@),
    }
}

/// The stored files after one change.
pub open spec fn apply_change(files: Map<Seq<char>, Seq<u8>>, c: StoredChange) -> Map<Seq<char>, Seq<u8>> {
    match c {
        StoredChange::Remove(p) => files.remove(p),
        StoredChange::Write(p, b) => files.insert(p, b),
    }
}

/// The stored files after a run of changes, made in order.
pub open spec fn apply_changes(files: Map<Seq<char>, Seq<u8>>, cs: Seq<StoredChange>) -> Map<Seq<char>, Seq<u8>>
    decreases cs.len(),
{
    if cs.len() == 0 {
        files
    } else {
        apply_changes(apply_change(files, cs[0]), cs.drop_first())
    }
}

/// The changes that checking the bytes stored at `path` calls for: none for
/// a zip archive; else removing `path` and writing the bytes under the `.rar`
/// path.
pub open spec fn sniff_changes(path: Seq<char>, bytes: Seq<u8>) -> Seq<StoredChange> {
    if zip_directory(bytes) is Some {
        Seq::empty()
    } else {
        seq![StoredChange::Remove(path), StoredChange::Write(rar_path(path), bytes)]
    }
}

/// The `.rar` path of an archive is never its provisional path.
pub proof fn lemma_rar_path_differs(path: Seq<char>)
    ensures
        rar_path(path) != path,
{
    reveal_strlit(".zip");
    reveal_strlit(".rar");
    if has_suffix(path, ".zip"@) {
        let r = rar_path(path);
        assert(r[r.len() - 3] == 'r');
        assert(path[path.len() - 3] == path.subrange(path.len() - 4, path.len() as int)[1]);
        assert(path[path.len() - 3] == 'z');
    } else {
        assert(rar_path(path).len() == path.len() + 4);
    }
}

/// Once the planned changes are made, bytes that do not parse as a zip
/// archive no longer lie under their provisional path, and lie unchanged
/// under the `.rar` path; bytes that do parse stay where they were written.
pub proof fn lemma_sniff_changes_move_non_zip(
    files: Map<Seq<char>, Seq<u8>>,
    path: Seq<char>,
    bytes: Seq<u8>,
)
    ensures
        ({
            let after = apply_changes(files.insert(path, bytes), sniff_changes(path, bytes));
            &&& zip_directory(bytes) is None ==> {
                &&& !after.contains_key(path)
                &&& after.contains_key(rar_path(path))
                &&& after[rar_path(path)] == bytes
            }
            &&& zip_directory(bytes) is Some ==> after == files.insert(path, bytes)
        }),
{
    let start = files.insert(path, bytes);
    let cs = sniff_changes(path, bytes);
    if zip_directory(bytes) is None {
        lemma_rar_path_differs(path);
        let s1 = apply_change(start, cs[0]);
        let s2 = apply_change(s1, cs[1]);
        assert(cs.drop_first().drop_first() =~= Seq::<StoredChange>::empty());
        assert(apply_changes(s1, cs.drop_first()) == apply_changes(s2, cs.drop_first().drop_first()));
        assert(s2 == start.remove(path).insert(rar_path(path), bytes));
    }
}

/// The stored paths that hold zip archives, and those that hold rar
/// archives; a path that mentions `.zip` counts as a zip archive.
pub open spec fn is_zip_path(p: Seq<char>) -> bool {
    has_substring(p, ".zip"@)
}

/// A path that mentions `.rar` and not `.zip` counts as a rar archive.
pub open spec fn is_rar_path(p: Seq<char>) -> bool {
    !has_substring(p, ".zip"@) && has_substring(p, ".rar"@)
}

/// A path that is unpacked: any outside a macOS resource-fork folder.
pub open spec fn is_unpacked_path(p: Seq<char>) -> bool {
    !has_substring(p, "__MACOSX"@)
}

/// The paths among `paths` that hold zip archives, in order.
pub open spec fn zip_paths(paths: Seq<Seq<char>>) -> Seq<Seq<char>> {
    paths.filter(|p: Seq<char>| is_zip_path(p))
}

/// The paths among `paths` that hold rar archives, in order.
pub open spec fn rar_paths(paths: Seq<Seq<char>>) -> Seq<Seq<char>> {
    paths.filter(|p: Seq<char>| is_rar_path(p))
}

/// The paths among `paths` that are unpacked, in order.
pub open spec fn unpacked_paths(paths: Seq<Seq<char>>) -> Seq<Seq<char>> {
    paths.filter(|p: Seq<char>| is_unpacked_path(p))
}

/// Splits stored paths into zip archives and rar archives, each in their
/// order given; other paths are left out.
pub fn partition_archives(paths: &Vec<String>) -> (r: (Vec<String>, Vec<String>))
    ensures
        views_of(r.0@) == zip_paths(views_of(paths@)),
        views_of(r.1@) == rar_paths(views_of(paths@)),
{
    let mut zips: Vec<String> = Vec::new();
    let mut rars: Vec<String> = Vec::new();
    let mut i: usize = 0;
    proof {
        reveal(Seq::filter);
    }
    while i < paths.len()
        invariant
            i <= paths.len(),
            views_of(zips@) == zip_paths(views_of(paths@.take(i as int))),
            views_of(rars@) == rar_paths(views_of(paths@.take(i as int))),
        decreases paths.len() - i,
    {
        let p = &paths[i];
        let ghost prev = views_of(paths@.take(i as int));
        let ghost next = views_of(paths@.take(i + 1));
        assert(next.drop_last() =~= prev);
        assert(next.last() == p@);
        let ghost z0 = zips@;
        let ghost r0 = rars@;
        proof {
            reveal(Seq::filter);
        }
        assert(zip_paths(next) == (if is_zip_path(p@) {
            zip_paths(prev).push(p@)
        } else {
            zip_paths(prev)
        }));
        assert(rar_paths(next) == (if is_rar_path(p@) {
            rar_paths(prev).push(p@)
        } else {
            rar_paths(prev)
        }));
        if contains_str(p.as_str(), ".zip") {
            zips.push(p.clone());
            assert(views_of(zips@) =~= views_of(z0).push(p@));
        } else if contains_str(p.as_str(), ".rar") {
            rars.push(p.clone());
            assert(views_of(rars@) =~= views_of(r0).push(p@));
        }
        i += 1;
    }
    assert(paths@.take(i as int) =~= paths@);
    (zips, rars)
}

/// The stored paths to unpack, in the order given: those outside any
/// macOS resource-fork folder.
pub fn archives_to_unpack(paths: &Vec<String>) -> (r: Vec<String>)
    ensures
        views_of(r@) == unpacked_paths(views_of(paths@)),
{
    let mut kept: Vec<String> = Vec::new();
    let mut i: usize = 0;
    proof {
        reveal(Seq::filter);
    }
    while i < paths.len()
        invariant
            i <= paths.len(),
            views_of(kept@) == unpacked_paths(views_of(paths@.take(i as int))),
        decreases paths.len() - i,
    {
        let p = &paths[i];
        let ghost prev = views_of(paths@.take(i as int));
        let ghost next = views_of(paths@.take(i + 1));
        assert(next.drop_last() =~= prev);
        assert(next.last() == p@);
        let ghost k0 = kept@;
        proof {
            reveal(Seq::filter);
        }
        assert(unpacked_paths(next) == (if is_unpacked_path(p@) {
            unpacked_paths(prev).push(p@)
        } else {
            unpacked_paths(prev)
        }));
        if !contains_str(p.as_str(), "__MACOSX") {
            kept.push(p.clone());
            assert(views_of(kept@) =~= views_of(k0).push(p@));
        }
        i += 1;
    }
    assert(paths@.take(i as int) =~= paths@);
    kept
}

/// The cloud-storage address of a bucket: `gs://<bucket>`.
pub fn bucket_url(bucket: &str) -> (r: String)
    ensures
        r@ == "gs://"@ + bucket@,
{
    concat("gs://", bucket)
}

impl FilesInCompressed {
    /// The audio members of the zip archive held in `bytes`, tagged; `None`
    /// where the bytes do not parse as a zip archive.
    pub fn from_zip(compressed_file_root: String, bytes: &Vec<u8>) -> (r: Option<FilesInCompressed>)
        ensures
            r is Some <==> zip_directory(bytes@) is Some,
            r matches Some(f) ==> {
                &&& f.wf()
                &&& f.compressed_file_root == compressed_file_root
                &&& exists|names: Seq<Seq<char>>|
                    {
                        &&& names.no_duplicates()
                        &&& names.to_set() == zip_directory(bytes@)->0
                        &&& views_of(f.file_name_list@) == music_files(names)
                        &&& views_of(f.instrument@) == instrument_tags(music_files(names))
                    }
            },
    {
        match zip_entry_names(bytes.as_slice()) {
            Some(names) => {
                let ghost listed = views_of(names@);
                let f = FilesInCompressed::new(compressed_file_root, names);
                assert(listed.no_duplicates() && listed.to_set() == zip_directory(bytes@)->0
                    && views_of(f.file_name_list@) == music_files(listed));
                Some(f)
            },
            None => None,
        }
    }

    /// The audio members named in a rar listing, one name per line, tagged.
    pub fn from_rar_listing(compressed_file_root: String, listing: &str) -> (r: FilesInCompressed)
        ensures
            r.wf(),
            r.compressed_file_root == compressed_file_root,
            views_of(r.file_name_list@) == music_files(split_on(listing@, '\n')),
            views_of(r.instrument@) == instrument_tags(music_files(split_on(listing@, '\n'))),
    {
        let names = split_chars(listing, '\n');
        FilesInCompressed::new(compressed_file_root, names)
    }
}

} // verus!
