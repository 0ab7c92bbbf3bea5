//! The records handed to the relational store: one per fetched archive, one
//! per tagged member file.
use vstd::prelude::*;

use crate::members::FilesInCompressed;

verus! {

/// A fetched archive, about to be recorded: the link it came from and the
/// name under which it was stored. The store adds the time of insertion.
pub struct NewFileSource {
    pub url: String,
    pub compressed_file_name: String,
}

/// A recorded archive, as the store returns it; `time_inserted` counts
/// seconds since the Unix epoch.
pub struct FileSource {
    pub id: i32,
    pub url: String,
    pub compressed_file_name: String,
    pub time_inserted: u64,
}

/// A tagged member file, about to be recorded.
pub struct NewMusicFiles {
    pub compressed_file_name: String,
    pub individual_file_name: String,
    pub instrument: String,
}

/// A recorded member file, as the store returns it.
pub struct MusicFiles {
    pub id: i32,
    pub compressed_file_name: String,
    pub individual_file_name: String,
    pub instrument: String,
}

/// One record per kept member of `files`, in member order, each with the
/// archive's root, the member's name and the member's tag; names and tags are
/// paired by position, as far as the shorter list goes.
pub fn music_file_rows(files: &FilesInCompressed) -> (r: Vec<NewMusicFiles>)
    ensures
        r@.len() == (if files.file_name_list@.len() <= files.instrument@.len() {
            files.file_name_list@.len()
        } else {
            files.instrument@.len()
        }),
        forall|i: int|
            0 <= i < r@.len() ==> {
                &&& (#[trigger] r@[i]).compressed_file_name@ == files.compressed_file_root@
                &&& r@[i].individual_file_name@ == files.file_name_list@[i]@
                &&& r@[i].instrument@ == files.instrument@[i]@
            },
{
    let mut rows: Vec<NewMusicFiles> = Vec::new();
    let n = if files.file_name_list.len() <= files.instrument.len() {
        files.file_name_list.len()
    } else {
        files.instrument.len()
    };
    let mut i: usize = 0;
    while i < n
        invariant
            n <= files.file_name_list@.len(),
            n <= files.instrument@.len(),
            i <= n,
            rows@.len() == i,
            forall|k: int|
                0 <= k < i ==> {
                    &&& (#[trigger] rows@[k]).compressed_file_name@ == files.compressed_file_root@
                    &&& rows@[k].individual_file_name@ == files.file_name_list@[k]@
                    &&& rows@[k].instrument@ == files.instrument@[k]@
                },
        decreases n - i,
    {
        rows.push(
            NewMusicFiles {
                compressed_file_name: files.compressed_file_root.clone(),
                individual_file_name: files.file_name_list[i].clone(),
                instrument: files.instrument[i].clone(),
            },
        );
        i += 1;
    }
    rows
}

} // verus!
