//! Google Drive links: which of them name a folder or a file, and the
//! identifier that each one carries.
use vstd::prelude::*;

use crate::models::NewFileSource;
use crate::text::{concat, contains_str, has_substring};

verus! {

/// What searching `text` with the regular expression `pattern` yields: `None`
/// where the pattern does not compile or finds no match; else, for the first
/// match, the text of capture group 1, or `None` where that group took no
/// part in it.
pub uninterp spec fn regex_group_one(pattern: Seq<char>, text: Seq<char>) -> Option<Option<Seq<char>>>;

/// Relies on `regex::Regex::new`, `Regex::captures`, `Captures::get` and
/// `Match::as_str`: compiles `pattern`, searches `text` for its first match and
/// reads capture group 1 of it.
#[verifier::external_body]
fn capture_group_one(pattern: &str, text: &str) -> (r: Option<Option<String>>)
    ensures
        match (r, regex_group_one(pattern@, text@)) {
            (None, None) => true,
            (Some(g), Some(h)) => opt_view(g) == h,
            _ => false,
        },
{
    match regex::Regex::new(pattern) {
        Ok(re) => re.captures(text).map(|c| c.get(1).map(|m| m.as_str().to_string())),
        Err(_) => None,
    }
}

/// What a pattern of the cascade yields for a link: its group-1 text where it
/// matches, empty where that group took no part; `None` where it does not
/// match.
pub open spec fn pattern_capture(pattern: Seq<char>, url: Seq<char>) -> Option<Seq<char>> {
    match regex_group_one(pattern, url) {
        Some(Some(g)) => Some(g),
        Some(None) => Some(Seq::empty()),
        None => None,
    }
}

/// The view of an optional string.
pub open spec fn opt_view(o: Option<String>) -> Option<Seq<char>> {
    match o {
        Some(s) => Some(s@),
        None => None,
    }
}

/// The Drive link patterns, in the order in which they are tried: folder with
/// a query, folder, folder under a numbered user path, file view, file with a
/// query. Each one captures the identifier in group 1.
pub open spec fn drive_patterns() -> Seq<Seq<char>> {
    seq![
        "https://drive.google.com/drive/folders/([a-zA-z0-9-]+).?usp=[a-zA-Z]*"@,
        "https://drive.google.com/drive[/a-zA-z/]+?folders/([a-zA-z0-9-]+)"@,
        "https://drive.google.com/drive/u/[0-9]/folders/([a-zA-z0-9-]+)"@,
        "https://drive.google.com/file/d/([a-zA-z0-9-]+)/view"@,
        "https://drive.google.com/file/d/([a-zA-z0-9-]+)([/view]+)?.?usp=[a-zA-Z]*"@,
    ]
}

/// Number of Drive link patterns.
pub const DRIVE_PATTERN_COUNT: usize = 5;

/// What each Drive link pattern captures from `url`, in pattern order.
pub open spec fn drive_captures(url: Seq<char>) -> Seq<Option<Seq<char>>> {
    Seq::new(drive_patterns().len(), |i: int| pattern_capture(drive_patterns()[i], url))
}

/// The last present value of `s`, if any.
pub open spec fn last_present(s: Seq<Option<Seq<char>>>) -> Option<Seq<char>>
    decreases s.len(),
{
    if s.len() == 0 {
        None
    } else if s.last() is Some {
        s.last()
    } else {
        last_present(s.drop_last())
    }
}

/// The identifier of a Drive link: the capture of the last pattern that
/// matches it, or nothing where none does.
pub open spec fn drive_id(url: Seq<char>) -> Option<Seq<char>> {
    last_present(drive_captures(url))
}

/// What a Drive link points at, read from its text.
#[derive(PartialEq, Eq, Structural, Clone, Copy, Debug)]
pub enum DriveKind {
    Folder,
    File,
    Other,
}

/// A link that mentions `folder` is a folder; else one that mentions `file`
/// is a file; anything else is neither.
pub open spec fn drive_kind(url: Seq<char>) -> DriveKind {
    if has_substring(url, "folder"@) {
        DriveKind::Folder
    } else if has_substring(url, "file"@) {
        DriveKind::File
    } else {
        DriveKind::Other
    }
}

/// The word that names a kind of Drive link.
pub open spec fn kind_label(k: DriveKind) -> Seq<char> {
    match k {
        DriveKind::Folder => "folder"@,
        DriveKind::File => "file"@,
        DriveKind::Other => "other"@,
    }
}

/// The pattern at position `i` of the cascade.
fn drive_pattern(i: usize) -> (r: &'static str)
    requires
        i < DRIVE_PATTERN_COUNT,
    ensures
        r@ == drive_patterns()[i as int],
{
    match i {
        0 => "https://drive.google.com/drive/folders/([a-zA-z0-9-]+).?usp=[a-zA-Z]*",
        1 => "https://drive.google.com/drive[/a-zA-z/]+?folders/([a-zA-z0-9-]+)",
        2 => "https://drive.google.com/drive/u/[0-9]/folders/([a-zA-z0-9-]+)",
        3 => "https://drive.google.com/file/d/([a-zA-z0-9-]+)/view",
        _ => "https://drive.google.com/file/d/([a-zA-z0-9-]+)([/view]+)?.?usp=[a-zA-Z]*",
    }
}

/// The last present value among `captures`: the capture of the last pattern
/// that matched, where each entry is what one pattern of the cascade gave.
pub fn last_capture(captures: &Vec<Option<String>>) -> (r: Option<String>)
    ensures
        opt_view(r) == last_present(captures@.map_values(|c: Option<String>| opt_view(c))),
{
    let ghost views = captures@.map_values(|c: Option<String>| opt_view(c));
    let mut i: usize = captures.len();
    assert(views.take(i as int) =~= views);
    while i > 0
        invariant
            i <= captures.len(),
            views == captures@.map_values(|c: Option<String>| opt_view(c)),
            last_present(views) == last_present(views.take(i as int)),
        decreases i,
    {
        let ghost prefix = views.take(i as int);
        assert(prefix.drop_last() =~= views.take(i - 1));
        match &captures[i - 1] {
            Some(s) => {
                return Some(s.clone());
            },
            None => {},
        }
        i -= 1;
    }
    assert(views.take(0) =~= Seq::<Option<Seq<char>>>::empty());
    None
}

/// Google Drive link data: the folder or the file it names.
pub struct GoogleFolder {
    pub file_id: String,
    pub file_name: String,
}

/// A file on Google Drive.
pub struct GoogleFile {
    pub file_id: String,
    pub file_name: String,
}

/// What a Drive link names.
pub enum GoogleFileType {
    GoogleFolder(GoogleFolder),
    GoogleFile(GoogleFile),
}

/// A Drive link, what it names, and where its archive goes once fetched.
pub struct GoogleDriveMetadata {
    id: String,
    url: String,
    pub file_metadata: Option<GoogleFileType>,
    file_path: String,
    out_path: Option<String>,
}

impl GoogleDriveMetadata {
    /// What the link points at.
    pub fn drive_kind_of(url: &str) -> (r: DriveKind)
        ensures
            r == drive_kind(url@),
    {
        if contains_str(url, "folder") {
            DriveKind::Folder
        } else if contains_str(url, "file") {
            DriveKind::File
        } else {
            DriveKind::Other
        }
    }

    /// `"folder"`, `"file"` or `"other"`, as the link's kind is.
    pub fn file_or_folder(url: &str) -> (r: &'static str)
        ensures
            r@ == kind_label(drive_kind(url@)),
    {
        match GoogleDriveMetadata::drive_kind_of(url) {
            DriveKind::Folder => "folder",
            DriveKind::File => "file",
            DriveKind::Other => "other",
        }
    }

    /// The identifier that a Drive link carries: the capture of the last
    /// pattern of the cascade that matches it; `None` where none matches.
    pub fn get_id(url: &str) -> (r: Option<String>)
        ensures
            opt_view(r) == drive_id(url@),
    {
        let mut captures: Vec<Option<String>> = Vec::new();
        let mut i: usize = 0;
        while i < DRIVE_PATTERN_COUNT
            invariant
                i <= DRIVE_PATTERN_COUNT,
                drive_patterns().len() == DRIVE_PATTERN_COUNT,
                captures@.len() == i,
                forall|k: int|
                    0 <= k < i ==> opt_view(#[trigger] captures@[k]) == pattern_capture(
                        drive_patterns()[k],
                        url@,
                    ),
            decreases DRIVE_PATTERN_COUNT - i,
        {
            let found = match capture_group_one(drive_pattern(i), url) {
                Some(Some(g)) => Some(g),
                Some(None) => Some(String::new()),
                None => None,
            };
            captures.push(found);
            i += 1;
        }
        let r = last_capture(&captures);
        assert(captures@.map_values(|c: Option<String>| opt_view(c)) =~= drive_captures(url@));
        r
    }

    /// The identifier read from the link; empty where it carries none.
    pub closed spec fn spec_id(&self) -> Seq<char> {
        self.id@
    }

    /// The link itself.
    pub closed spec fn spec_url(&self) -> Seq<char> {
        self.url@
    }

    /// The directory that the archive is written to.
    pub closed spec fn spec_file_path(&self) -> Seq<char> {
        self.file_path@
    }

    /// What the link names.
    pub closed spec fn spec_file_metadata(&self) -> Option<GoogleFileType> {
        self.file_metadata
    }

    /// The name under which the archive was stored, once it was.
    pub closed spec fn spec_out_path(&self) -> Option<Seq<char>> {
        opt_view(self.out_path)
    }

    /// Reads a Drive link: its identifier, and whether it names a folder or
    /// a file. A link with no identifier, or that names neither, names
    /// nothing that can be fetched.
    pub fn new(url: &str, title: String, file_path: String) -> (r: GoogleDriveMetadata)
        ensures
            r.spec_id() == (match drive_id(url@) {
                Some(id) => id,
                None => Seq::<char>::empty(),
            }),
            r.spec_url() == url@,
            r.spec_file_path() == file_path@,
            r.spec_out_path() is None,
            (drive_id(url@) is None || drive_kind(url@) == DriveKind::Other) ==> r.spec_file_metadata() is None,
            drive_id(url@) is Some && drive_kind(url@) == DriveKind::Folder ==> (match r.spec_file_metadata() {
                Some(GoogleFileType::GoogleFolder(f)) => f.file_id@ == r.spec_id() && f.file_name == title,
                _ => false,
            }),
            drive_id(url@) is Some && drive_kind(url@) == DriveKind::File ==> (match r.spec_file_metadata() {
                Some(GoogleFileType::GoogleFile(f)) => f.file_id@ == r.spec_id() && f.file_name == title,
                _ => false,
            }),
    {
        let file_type = GoogleDriveMetadata::drive_kind_of(url);
        let found = GoogleDriveMetadata::get_id(url);
        let (file_id, file_metadata) = match found {
            Some(file_id) => {
                let file_metadata = match file_type {
                    DriveKind::File => Some(
                        GoogleFileType::GoogleFile(
                            GoogleFile { file_id: file_id.clone(), file_name: title },
                        ),
                    ),
                    DriveKind::Folder => Some(
                        GoogleFileType::GoogleFolder(
                            GoogleFolder { file_id: file_id.clone(), file_name: title },
                        ),
                    ),
                    DriveKind::Other => None,
                };
                (file_id, file_metadata)
            },
            None => (String::new(), None),
        };
        GoogleDriveMetadata {
            id: file_id,
            url: url.to_owned(),
            file_metadata,
            file_path,
            out_path: None,
        }
    }

    /// The identifier read from the link; empty where it carries none.
    pub fn id(&self) -> (r: &str)
        ensures
            r@ == self.spec_id(),
    {
        self.id.as_str()
    }

    /// The link itself.
    pub fn url(&self) -> (r: &str)
        ensures
            r@ == self.spec_url(),
    {
        self.url.as_str()
    }

    /// The name under which the archive was stored, once it was.
    pub fn out_path(&self) -> (r: Option<String>)
        ensures
            opt_view(r) == self.spec_out_path(),
    {
        match &self.out_path {
            Some(p) => Some(p.clone()),
            None => None,
        }
    }

    /// Whether the link names a single file, the one kind that is fetched
    /// directly.
    pub fn is_file(&self) -> (r: bool)
        ensures
            r == (self.spec_file_metadata() matches Some(GoogleFileType::GoogleFile(_))),
    {
        match &self.file_metadata {
            Some(GoogleFileType::GoogleFile(_)) => true,
            _ => false,
        }
    }

    /// Where the fetched bytes are first written: `<file_path>/<id>.zip`.
    pub fn archive_path(&self) -> (r: String)
        ensures
            r@ == self.spec_file_path() + "/"@ + self.spec_id() + ".zip"@,
    {
        let dir = concat(self.file_path.as_str(), "/");
        let base = concat(dir.as_str(), self.id.as_str());
        concat(base.as_str(), ".zip")
    }

    /// The listing query for the items of a folder link:
    /// `'<id>' in parents`.
    pub fn parents_query(&self) -> (r: String)
        ensures
            r@ == "'"@ + self.spec_id() + "' in parents"@,
    {
        let open = concat("'", self.id.as_str());
        concat(open.as_str(), "' in parents")
    }

    /// Records that the archive was stored, under the link's identifier.
    pub fn mark_saved(&mut self)
        ensures
            final(self).spec_out_path() == Some(old(self).spec_id()),
            final(self).spec_id() == old(self).spec_id(),
            final(self).spec_url() == old(self).spec_url(),
            final(self).spec_file_path() == old(self).spec_file_path(),
    {
        self.out_path = Some(self.id.clone());
    }

    /// The record of the stored archive: the link and the stored name;
    /// `None` while nothing was stored.
    pub fn file_source_row(&self) -> (r: Option<NewFileSource>)
        ensures
            self.spec_out_path() is None ==> r is None,
            self.spec_out_path() matches Some(p) ==> (r matches Some(row) && row.url@ == self.spec_url()
                && row.compressed_file_name@ == p),
    {
        match &self.out_path {
            Some(p) => Some(NewFileSource { url: self.url.clone(), compressed_file_name: p.clone() }),
            None => None,
        }
    }
}

proof fn lemma_last_present_after(s: Seq<Option<Seq<char>>>, j: int, n: int)
    requires
        0 <= j < n <= s.len(),
        s[j] is Some,
        forall|k: int| j < k < s.len() ==> s[k] is None,
    ensures
        last_present(s.take(n)) == s[j],
    decreases n,
{
    let t = s.take(n);
    assert(t.drop_last() =~= s.take(n - 1));
    if n - 1 > j {
        lemma_last_present_after(s, j, n - 1);
    }
}

/// Where a link matches several patterns of the cascade, the identifier is
/// what the last of them captures: a later match always overrides an earlier
/// one, whatever the earlier one captured.
pub proof fn lemma_last_matching_pattern_wins(url: Seq<char>, i: int, j: int)
    requires
        0 <= i < j < drive_patterns().len(),
        pattern_capture(drive_patterns()[i], url) is Some,
        pattern_capture(drive_patterns()[j], url) is Some,
        forall|k: int|
            j < k < drive_patterns().len() ==> #[trigger] pattern_capture(drive_patterns()[k], url) is None,
    ensures
        drive_id(url) == pattern_capture(drive_patterns()[j], url),
{
    let s = drive_captures(url);
    assert(s.take(s.len() as int) =~= s);
    lemma_last_present_after(s, j, s.len() as int);
}

} // verus!
