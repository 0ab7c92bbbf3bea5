use drumkit_fetch::dropbox::DropboxMetadata;
use drumkit_fetch::mediafire::MediaFireMetadata;
use drumkit_fetch::reddit::{posts_query_url, stepped_indices};
use drumkit_fetch::routing::{backend, host, resolve, Backend};
use drumkit_fetch::text::{contains_str, replace_str};

#[test]
fn box_link_is_normalized() {
    let m = DropboxMetadata::new(
        "https://www.dropbox.com/.../x?dl=0&amp;y=%5C".to_string(),
        "My Kit".to_string(),
        "out".to_string(),
    );
    let url = m.url();
    assert!(!url.contains("amp;"));
    assert!(!url.contains("%5C"));
    assert!(url.contains("dl=1"));
    assert!(!url.contains("dl=0"));
    assert_eq!(url, "https://www.dropbox.com/.../x?dl=1&y=");
    assert_eq!(m.file_name(), "My_Kit");
}

#[test]
fn box_link_ending_in_dl_param() {
    let m = DropboxMetadata::new(
        "https://www.dropbox.com/s/abc/kit.zip?amp;dl=0".to_string(),
        "kit".to_string(),
        "out".to_string(),
    );
    assert_eq!(m.url(), "https://www.dropbox.com/s/abc/kit.zip?dl=1");
    assert!(m.url().ends_with("dl=1"));
}

#[test]
fn box_archive_path_and_record() {
    let mut m = DropboxMetadata::new(
        "https://www.dropbox.com/s/abc/kit.zip?dl=0".to_string(),
        "Drums / Vol 1".to_string(),
        "out".to_string(),
    );
    assert_eq!(m.file_name(), "Drums_/_Vol_1");
    assert_eq!(m.stored_name(), "Drums___Vol_1");
    assert_eq!(m.archive_path(), "out/Drums___Vol_1.zip");
    assert!(m.file_source_row().is_none());
    m.mark_saved();
    let row = m.file_source_row().unwrap();
    assert_eq!(row.url, "https://www.dropbox.com/s/abc/kit.zip?dl=1");
    assert_eq!(row.compressed_file_name, "Drums___Vol_1");
}

const PAGE: &str = r#"<html><body>
<div class="filename">Trap Kit.zip</div>
<div class="filename">Other.zip</div>
<a class="popsok" href="https://download.mediafire.com/abc/Trap%20Kit.zip">Download</a>
</body></html>"#;

#[test]
fn scrape_page_lookups() {
    let m = MediaFireMetadata::new(
        "https://www.mediafire.com/file/abc/Trap_Kit.zip/file".to_string(),
        PAGE.to_string(),
        "out".to_string(),
    );
    assert_eq!(m.get_file_name(), Some("Trap Kit.zip".to_string()));
    assert_eq!(
        m.get_download_url(),
        Some("https://download.mediafire.com/abc/Trap%20Kit.zip".to_string())
    );
    let plan = m.plan_download().unwrap();
    assert_eq!(plan.file_name, "Trap Kit.zip");
    assert_eq!(plan.archive_path, "out/Trap Kit.zip");
}

#[test]
fn scrape_page_without_link_is_skipped() {
    let m = MediaFireMetadata::new(
        "https://www.mediafire.com/file/abc".to_string(),
        "<html><div class=\"filename\">a.zip</div></html>".to_string(),
        "out".to_string(),
    );
    assert_eq!(m.get_file_name(), Some("a.zip".to_string()));
    assert_eq!(m.get_download_url(), None);
    assert!(m.plan_download().is_none());
    let m = MediaFireMetadata::new(
        "https://www.mediafire.com/file/abc".to_string(),
        "<html><a class=\"popsok\" href=\"x\">y</a></html>".to_string(),
        "out".to_string(),
    );
    assert_eq!(m.get_file_name(), None);
    assert!(m.plan_download().is_none());
}

#[test]
fn scrape_stored_name_and_record() {
    assert_eq!(MediaFireMetadata::stored_name_of("Kit.rar"), "Kit");
    assert_eq!(MediaFireMetadata::stored_name_of("Kit.zip"), "Kit");
    assert_eq!(MediaFireMetadata::stored_name_of("Kit"), "Kit");
    let mut m = MediaFireMetadata::new("u".to_string(), String::new(), "out".to_string());
    assert!(m.file_source_row().is_none());
    m.mark_saved("Kit.rar");
    let row = m.file_source_row().unwrap();
    assert_eq!(row.url, "u");
    assert_eq!(row.compressed_file_name, "Kit");
}

#[test]
fn hosts_and_backends() {
    assert_eq!(host("https://drive.google.com/file/d/x/view"), "drive.google.com");
    assert_eq!(host("dropbox.com/s/x"), "dropbox.com");
    assert_eq!(host(""), "");
    assert_eq!(
        backend("https://www.mediafire.com/file/abc"),
        Some(Backend::Mediafire)
    );
    assert_eq!(backend("https://www.dropbox.com/s/abc?dl=0"), Some(Backend::Dropbox));
    assert_eq!(backend("https://example.com/?u=dropbox.com"), None);
    assert_eq!(backend("https://imgur.com/a"), None);
}

#[test]
fn resolve_other_backends() {
    let t = resolve("https://www.dropbox.com/s/abc?dl=0&amp;x=1", "My Kit", "out").unwrap();
    assert_eq!(t.backend, Backend::Dropbox);
    assert_eq!(t.resource_id, "https://www.dropbox.com/s/abc?dl=1&x=1");
    assert_eq!(t.display_name, "My_Kit");
    let t = resolve("https://www.mediafire.com/file/abc", "My Kit", "out").unwrap();
    assert_eq!(t.backend, Backend::Mediafire);
    assert_eq!(t.resource_id, "https://www.mediafire.com/file/abc");
    assert_eq!(t.display_name, "My Kit");
    assert!(resolve("https://soundcloud.com/a", "x", "out").is_none());
}

#[test]
fn string_helpers() {
    assert!(contains_str("abcdef", "cde"));
    assert!(contains_str("abc", ""));
    assert!(!contains_str("ab", "abc"));
    assert_eq!(replace_str("aaa", "aa", "b"), "ba");
    assert_eq!(replace_str("x-y-z", "-", "+-"), "x+-y+-z");
}

#[test]
fn posts_query() {
    let base = "https://api.pushshift.io/reddit/search/submission/?subreddit=drumkits&sort=desc&sort_type=created_utc&size=1000";
    assert_eq!(posts_query_url(None, None), base);
    assert_eq!(
        posts_query_url(Some("q=808"), Some("after=7d")),
        format!("{}&after=7d&q=808", base)
    );
    assert_eq!(posts_query_url(Some("q=808"), None), format!("{}&q=808", base));
}

#[test]
fn stepping_over_posts() {
    assert_eq!(stepped_indices(5, 1), vec![0, 1, 2, 3, 4]);
    assert_eq!(stepped_indices(5, 2), vec![0, 2, 4]);
    assert_eq!(stepped_indices(6, 3), vec![0, 3]);
    assert_eq!(stepped_indices(0, 3), Vec::<usize>::new());
    assert_eq!(stepped_indices(3, 10), vec![0]);
}
