use std::io::Write;

use drumkit_fetch::archive::{
    archives_to_unpack, bucket_url, partition_archives, rar_path_of, sniff_archive, ArchiveFormat,
    FileAction,
};
use drumkit_fetch::members::FilesInCompressed;
use drumkit_fetch::text::split_chars;

fn zip_bytes(names: &[&str]) -> Vec<u8> {
    let mut buf = std::io::Cursor::new(Vec::new());
    {
        let mut w = zip::ZipWriter::new(&mut buf);
        for n in names {
            w.start_file(*n, zip::write::FileOptions::default()).unwrap();
            w.write_all(b"RIFF").unwrap();
        }
        w.finish().unwrap();
    }
    buf.into_inner()
}

fn strings(v: &[&str]) -> Vec<String> {
    v.iter().map(|s| s.to_string()).collect()
}

#[test]
fn non_zip_bytes_move_to_rar() {
    let bytes = b"Rar!\x1a\x07\x00 not really a zip".to_vec();
    let out = sniff_archive("dir/foo.zip", &bytes);
    assert_eq!(out.archive.true_format, ArchiveFormat::Rar);
    assert_eq!(out.archive.root_path, "dir/foo.rar");
    assert_eq!(out.actions.len(), 2);
    match &out.actions[0] {
        FileAction::Remove(p) => assert_eq!(p, "dir/foo.zip"),
        _ => panic!("expected the zip file to be removed first"),
    }
    match &out.actions[1] {
        FileAction::Write(p, b) => {
            assert_eq!(p, "dir/foo.rar");
            assert_eq!(b, &bytes);
        }
        _ => panic!("expected the rar file to be written"),
    }
}

#[test]
fn zip_bytes_stay_in_place() {
    let bytes = zip_bytes(&["kit/Kick.wav"]);
    let out = sniff_archive("dir/foo.zip", &bytes);
    assert_eq!(out.archive.true_format, ArchiveFormat::Zip);
    assert_eq!(out.archive.root_path, "dir/foo.zip");
    assert!(out.actions.is_empty());
}

#[test]
fn empty_payload_is_not_zip() {
    let out = sniff_archive("foo.zip", &Vec::new());
    assert_eq!(out.archive.true_format, ArchiveFormat::Rar);
    assert_eq!(out.archive.root_path, "foo.rar");
}

#[test]
fn rar_paths() {
    assert_eq!(rar_path_of("foo.zip"), "foo.rar");
    assert_eq!(rar_path_of("a.zip.d/foo.zip"), "a.zip.d/foo.rar");
    assert_eq!(rar_path_of("foo"), "foo.rar");
    assert_eq!(rar_path_of(""), ".rar");
}

#[test]
fn zip_members_are_listed_and_tagged() {
    let bytes = zip_bytes(&[
        "test/Nav_Champion (Kick).wav",
        "test/Gunna_Idk That Bitch (808).wav",
        "__MACOSX/test/._Nav_Champion (Kick).wav",
        "test/readme.txt",
    ]);
    let f = FilesInCompressed::from_zip("samples/kit.zip".to_string(), &bytes).unwrap();
    assert_eq!(f.compressed_file_root, "samples/kit.zip");
    let mut pairs: Vec<(String, String)> = f
        .file_name_list
        .iter()
        .cloned()
        .zip(f.instrument.iter().cloned())
        .collect();
    pairs.sort();
    assert_eq!(
        pairs,
        vec![
            // "That" holds "hat", which the keyword list tries before "808"
            ("test/Gunna_Idk That Bitch (808).wav".to_string(), "hat".to_string()),
            ("test/Nav_Champion (Kick).wav".to_string(), "kick".to_string()),
        ]
    );
}

#[test]
fn unreadable_zip_lists_nothing() {
    assert!(FilesInCompressed::from_zip("x.zip".to_string(), &b"junk".to_vec()).is_none());
}

#[test]
fn rar_listing_is_split_by_line() {
    let listing = "kit/Kick.wav\nkit/Snare.wav\n__MACOSX/._x.wav\nkit/notes.txt\n";
    let f = FilesInCompressed::from_rar_listing("kit.rar".to_string(), listing);
    assert_eq!(f.file_name_list, strings(&["kit/Kick.wav", "kit/Snare.wav"]));
    assert_eq!(f.instrument, strings(&["kick", "snare"]));
}

#[test]
fn split_keeps_empty_pieces() {
    assert_eq!(split_chars("a\nb\n", '\n'), strings(&["a", "b", ""]));
    assert_eq!(split_chars("", '\n'), strings(&[""]));
    assert_eq!(split_chars("\n\n", '\n'), strings(&["", "", ""]));
    assert_eq!(split_chars("abc", '\n'), strings(&["abc"]));
}

#[test]
fn archives_are_partitioned_by_extension() {
    let paths = strings(&[
        "./data/a.zip",
        "./data/b.rar",
        "./data/c.txt",
        "./data/d.zip.rar",
        "./data/e.rar",
    ]);
    let (zips, rars) = partition_archives(&paths);
    assert_eq!(zips, strings(&["./data/a.zip", "./data/d.zip.rar"]));
    assert_eq!(rars, strings(&["./data/b.rar", "./data/e.rar"]));
}

#[test]
fn unpacking_skips_macosx() {
    let paths = strings(&["./data/__MACOSX", "./data/a.zip", "./data/b.rar"]);
    assert_eq!(archives_to_unpack(&paths), strings(&["./data/a.zip", "./data/b.rar"]));
}

#[test]
fn bucket_address() {
    assert_eq!(bucket_url("samples"), "gs://samples");
}

#[test]
fn test_get_files() {
    let vec_list = vec![
        "test/Billie Eilish_Bad Guy (Snap).wav".to_string(),
        "test/Gunna_Idk That Bitch (808).wav".to_string(),
        "test/Kanye West_Broken Road (Snare).wav".to_string(),
        "test/Kanye West_Off The Grid (Hi Hat).wav".to_string(),
        "test/Metro Boomin_Blue Pill (Perc).wav".to_string(),
        "test/Nav_Champion (Kick).wav".to_string(),
        "test/Travis Scott_5% Tint (Rim).wav".to_string(),
        "test/temmmm/Nav_Champion (Kick).wav".to_string(),
    ];
    let mut names: Vec<&str> = vec_list.iter().map(|s| s.as_str()).collect();
    names.push("__MACOSX/test/._Nav_Champion (Kick).wav");
    let bytes = zip_bytes(&names);
    let comp_files = vec![FilesInCompressed::from_zip("./test_samples/test.zip".to_string(), &bytes).unwrap()];
    let all_files: Vec<String> = comp_files
        .into_iter()
        .map(|val| val.file_name_list)
        .flatten()
        .collect();

    assert!(vec_list.iter().all(|item| all_files.contains(item)));
}
