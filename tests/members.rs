use drumkit_fetch::members::{instrument_from_lowercase, is_music_name, FilesInCompressed};
use drumkit_fetch::models::music_file_rows;

fn strings(v: &[&str]) -> Vec<String> {
    v.iter().map(|s| s.to_string()).collect()
}

#[test]
fn kick_precedes_808() {
    let tags = FilesInCompressed::get_instrument(&strings(&["Kick_808_Drum.wav"]));
    assert_eq!(tags, strings(&["kick"]));
}

#[test]
fn snare_precedes_fx_in_keyword_order() {
    // the keyword list tries "snare" (second) long before "fx" (twelfth)
    let tags = FilesInCompressed::get_instrument(&strings(&["FX_Snare_Tail.wav"]));
    assert_eq!(tags, strings(&["snare"]));
}

#[test]
fn instrument_of_lowered_names() {
    assert_eq!(instrument_from_lowercase("kick_808_drum.wav"), "kick");
    assert_eq!(instrument_from_lowercase("hi hat open.wav"), "hat");
    assert_eq!(instrument_from_lowercase("big 808.wav"), "808");
    assert_eq!(instrument_from_lowercase("flute loop.wav"), "flute");
    assert_eq!(instrument_from_lowercase("melody loop.mp3"), "loop");
    assert_eq!(instrument_from_lowercase("vocal chop.wav"), "unspecified");
    assert_eq!(instrument_from_lowercase(""), "unspecified");
    // matching is on the name as given: upper case is not a keyword
    assert_eq!(instrument_from_lowercase("KICK.wav"), "unspecified");
}

#[test]
fn instrument_lowercases_first() {
    let tags = FilesInCompressed::get_instrument(&strings(&[
        "KICK.wav",
        "Travis Scott_5% Tint (Rim).wav",
        "Vox.wav",
    ]));
    assert_eq!(tags, strings(&["kick", "rim", "unspecified"]));
}

#[test]
fn filter_drops_macosx_and_keeps_audio() {
    let kept = FilesInCompressed::filter_files(strings(&[
        "__MACOSX/._track.wav",
        "kit/Kick (1).wav",
        "kit/readme.txt",
        "kit/__macosx/snare.wav",
        "kit/Lead.mp3",
        "kit/Pad.flac",
        "kit/",
    ]));
    assert_eq!(kept, strings(&["kit/Kick (1).wav", "kit/Lead.mp3", "kit/Pad.flac"]));
}

#[test]
fn music_name_checks() {
    assert!(is_music_name("a.wav"));
    assert!(!is_music_name("__MACOSX/a.wav"));
    assert!(!is_music_name("a.aiff"));
    assert!(!is_music_name(""));
}

#[test]
fn classified_output_as_long_as_filtered_input() {
    let names = strings(&[
        "__MACOSX/._track.wav",
        "kit/Kick (1).wav",
        "kit/Snare.wav",
        "notes.txt",
        "kit/Perc.flac",
    ]);
    let filtered = FilesInCompressed::filter_files(names.clone());
    let f = FilesInCompressed::new("kit.zip".to_string(), names);
    assert_eq!(f.file_name_list, filtered);
    assert_eq!(f.instrument.len(), filtered.len());
    assert_eq!(f.instrument, strings(&["kick", "snare", "perc"]));
    assert_eq!(f.compressed_file_root, "kit.zip");
}

#[test]
fn empty_member_list() {
    let f = FilesInCompressed::new("empty.zip".to_string(), Vec::new());
    assert!(f.file_name_list.is_empty());
    assert!(f.instrument.is_empty());
}

#[test]
fn rows_pair_members_with_root() {
    let f = FilesInCompressed::new(
        "kit.rar".to_string(),
        strings(&["a/Clap.wav", "a/Ride.wav"]),
    );
    let rows = music_file_rows(&f);
    assert_eq!(rows.len(), 2);
    assert_eq!(rows[0].compressed_file_name, "kit.rar");
    assert_eq!(rows[0].individual_file_name, "a/Clap.wav");
    assert_eq!(rows[0].instrument, "clap");
    assert_eq!(rows[1].individual_file_name, "a/Ride.wav");
    assert_eq!(rows[1].instrument, "ride");
}
