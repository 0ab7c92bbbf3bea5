//! Member files of an archive: which of them are audio, and which instrument
//! each one holds, read from its name.
use vstd::prelude::*;

use crate::text::{contains_str, has_substring, views_of};

verus! {

/// What `str::to_lowercase` makes of a name.
pub uninterp spec fn lower_of(s: Seq<char>) -> Seq<char>;

/// Relies on `str::to_lowercase`: the result depends on the characters alone.
#[verifier::external_body]
fn lowercase(s: &str) -> (r: String)
    ensures
        r@ == lower_of(s@),
{
    s.to_lowercase()
}

/// A member is kept when its name mentions an audio extension and it does not
/// come from a macOS resource-fork folder.
pub open spec fn is_music_file(name: Seq<char>) -> bool {
    &&& !has_substring(name, "__MACOSX"@)
    &&& !has_substring(name, "__macosx"@)
    &&& (has_substring(name, ".wav"@) || has_substring(name, ".mp3"@) || has_substring(
        name,
        ".flac"@,
    ))
}

/// The audio members of `names`, in the order given.
pub open spec fn music_files(names: Seq<Seq<char>>) -> Seq<Seq<char>> {
    names.filter(|n: Seq<char>| is_music_file(n))
}

/// The instrument keywords, in the order in which they are tried.
pub open spec fn instrument_keywords() -> Seq<Seq<char>> {
    seq![
        "kick"@,
        "snare"@,
        "hat"@,
        "perc"@,
        "rim"@,
        "clap"@,
        "shaker"@,
        "ride"@,
        "808"@,
        "foley"@,
        "tom"@,
        "fx"@,
        "snap"@,
        "lead"@,
        "pad"@,
        "guitar"@,
        "piano"@,
        "flute"@,
        "loop"@,
    ]
}

/// The tag given to a member that names no instrument.
pub open spec fn unspecified_tag() -> Seq<char> {
    "unspecified"@
}

/// The first keyword, from position `i` of the list on, that occurs in `name`.
pub open spec fn first_keyword_from(name: Seq<char>, i: int) -> Seq<char>
    decreases instrument_keywords().len() - i,
{
    if i < 0 || i >= instrument_keywords().len() {
        unspecified_tag()
    } else if has_substring(name, instrument_keywords()[i]) {
        instrument_keywords()[i]
    } else {
        first_keyword_from(name, i + 1)
    }
}

/// The instrument tag of an already lower-cased member name: the first keyword
/// of the list that it contains, or the unspecified tag.
pub open spec fn instrument_label(lowered: Seq<char>) -> Seq<char> {
    first_keyword_from(lowered, 0)
}

/// The instrument tag of each name, in order.
pub open spec fn instrument_tags(names: Seq<Seq<char>>) -> Seq<Seq<char>> {
    names.map_values(|n: Seq<char>| instrument_label(lower_of(n)))
}

/// Number of instrument keywords.
pub const INSTRUMENT_COUNT: usize = 19;

/// The keyword at position `i` of the list.
fn instrument_keyword(i: usize) -> (r: &'static str)
    requires
        i < INSTRUMENT_COUNT,
    ensures
        r@ == instrument_keywords()[i as int],
{
    match i {
        0 => "kick",
        1 => "snare",
        2 => "hat",
        3 => "perc",
        4 => "rim",
        5 => "clap",
        6 => "shaker",
        7 => "ride",
        8 => "808",
        9 => "foley",
        10 => "tom",
        11 => "fx",
        12 => "snap",
        13 => "lead",
        14 => "pad",
        15 => "guitar",
        16 => "piano",
        17 => "flute",
        _ => "loop",
    }
}

/// The instrument tag of a member name that is already lower-cased.
pub fn instrument_from_lowercase(lowered: &str) -> (r: String)
    ensures
        r@ == instrument_label(lowered@),
{
    let mut i: usize = 0;
    while i < INSTRUMENT_COUNT
        invariant
            i <= INSTRUMENT_COUNT,
            instrument_keywords().len() == INSTRUMENT_COUNT,
            first_keyword_from(lowered@, 0) == first_keyword_from(lowered@, i as int),
        decreases INSTRUMENT_COUNT - i,
    {
        let kw = instrument_keyword(i);
        if contains_str(lowered, kw) {
            return kw.to_owned();
        }
        i += 1;
    }
    "unspecified".to_owned()
}

/// Whether a member name is that of an audio file outside any macOS
/// resource-fork folder.
pub fn is_music_name(name: &str) -> (r: bool)
    ensures
        r == is_music_file(name@),
{
    if contains_str(name, "__MACOSX") || contains_str(name, "__macosx") {
        false
    } else {
        contains_str(name, ".wav") || contains_str(name, ".mp3") || contains_str(name, ".flac")
    }
}

/// The member names of an archive, with their audio files, extension and
/// origin checked, and what each one contains.
pub struct FilesInCompressed {
    pub compressed_file_root: String,
    pub file_name_list: Vec<String>,
    pub instrument: Vec<String>,
}

impl FilesInCompressed {
    /// Each kept member has exactly one instrument tag.
    pub open spec fn wf(&self) -> bool {
        self.file_name_list@.len() == self.instrument@.len()
    }

    /// Keeps the audio members of `file_name_list`, in order, and tags each
    /// of them with its instrument.
    pub fn new(compressed_file_root: String, file_name_list: Vec<String>) -> (r: FilesInCompressed)
        ensures
            r.wf(),
            r.compressed_file_root == compressed_file_root,
            views_of(r.file_name_list@) == music_files(views_of(file_name_list@)),
            views_of(r.instrument@) == instrument_tags(music_files(views_of(file_name_list@))),
    {
        let filter_vec_list = FilesInCompressed::filter_files(file_name_list);
        let instrument_list = FilesInCompressed::get_instrument(&filter_vec_list);
        FilesInCompressed {
            compressed_file_root,
            file_name_list: filter_vec_list,
            instrument: instrument_list,
        }
    }

    /// The instrument tag of each name, in order: the first keyword of the
    /// list that the lower-cased name contains, or the unspecified tag.
    pub fn get_instrument(file_list: &Vec<String>) -> (r: Vec<String>)
        ensures
            r@.len() == file_list@.len(),
            views_of(r@) == instrument_tags(views_of(file_list@)),
    {
        let mut instrument_list: Vec<String> = Vec::new();
        let mut i: usize = 0;
        while i < file_list.len()
            invariant
                i <= file_list.len(),
                views_of(instrument_list@) == instrument_tags(views_of(file_list@.take(i as int))),
            decreases file_list.len() - i,
        {
            let lowered = lowercase(file_list[i].as_str());
            let tag = instrument_from_lowercase(lowered.as_str());
            let ghost before = instrument_list@;
            instrument_list.push(tag);
            assert(views_of(instrument_list@) =~= views_of(before).push(
                instrument_label(lower_of(file_list@[i as int]@)),
            ));
            i += 1;
            assert(views_of(file_list@.take(i as int)) =~= views_of(file_list@.take(i - 1)).push(
                file_list@[i - 1]@,
            ));
            assert(views_of(instrument_list@) =~= instrument_tags(
                views_of(file_list@.take(i as int)),
            ));
        }
        assert(file_list@.take(i as int) =~= file_list@);
        instrument_list
    }

    /// The audio members among `file_vec_list`, in the order given.
    pub fn filter_files(file_vec_list: Vec<String>) -> (r: Vec<String>)
        ensures
            views_of(r@) == music_files(views_of(file_vec_list@)),
    {
        let mut final_list: Vec<String> = Vec::new();
        let mut i: usize = 0;
        proof {
            reveal(Seq::filter);
        }
        while i < file_vec_list.len()
            invariant
                i <= file_vec_list.len(),
                views_of(final_list@) == music_files(views_of(file_vec_list@.take(i as int))),
            decreases file_vec_list.len() - i,
        {
            let name = &file_vec_list[i];
            let keep = is_music_name(name.as_str());
            let ghost prev = views_of(file_vec_list@.take(i as int));
            let ghost next = views_of(file_vec_list@.take(i + 1));
            assert(next.drop_last() =~= prev);
            assert(next.last() == name@);
            proof {
                reveal(Seq::filter);
            }
            assert(music_files(next) == (if is_music_file(name@) {
                music_files(prev).push(name@)
            } else {
                music_files(prev)
            }));
            if keep {
                let ghost before = final_list@;
                final_list.push(name.clone());
                assert(views_of(final_list@) =~= views_of(before).push(name@));
            }
            i += 1;
        }
        assert(file_vec_list@.take(i as int) =~= file_vec_list@);
        final_list
    }
}

/// Tagging keeps one tag per kept member: whatever the member list, the
/// classified output is exactly as long as the filtered input, and the tag at
/// each position belongs to the member at the same position.
pub proof fn lemma_tags_follow_members(names: Seq<Seq<char>>)
    ensures
        instrument_tags(music_files(names)).len() == music_files(names).len(),
        forall|i: int|
            0 <= i < music_files(names).len() ==> #[trigger] instrument_tags(music_files(names))[i]
                == instrument_label(lower_of(music_files(names)[i])),
{
}

} // verus!
