//! Mediafire share pages: the file name and the true download link, read from
//! the page's HTML, and the name the archive is stored under.
use soup::{NodeExt, QueryBuilderExt, Soup};
use vstd::prelude::*;

use crate::google_drive::opt_view;
use crate::models::NewFileSource;
use crate::text::{concat, replace_str, replaced};

verus! {

/// The text of the first `tag` element whose attribute `key` matches `value`
/// in the document parsed from `html`; `None` where there is no such element.
pub uninterp spec fn html_element_text(
    html: Seq<char>,
    tag: Seq<char>,
    key: Seq<char>,
    value: Seq<char>,
) -> Option<Seq<char>>;

/// The attribute `attr` of the first `tag` element whose attribute `key`
/// matches `value` in the document parsed from `html`; `None` where there is
/// no such element or it lacks that attribute.
pub uninterp spec fn html_element_attr(
    html: Seq<char>,
    tag: Seq<char>,
    key: Seq<char>,
    value: Seq<char>,
    attr: Seq<char>,
) -> Option<Seq<char>>;

/// Relies on `soup::Soup::new`, the query builder's `tag`, `attr` and `find`,
/// and `NodeExt::text`: parses `html` and returns the text of the first
/// matching element.
#[verifier::external_body]
fn first_element_text(html: &str, tag: &str, key: &str, value: &str) -> (r: Option<String>)
    ensures
        opt_view(r) == html_element_text(html@, tag@, key@, value@),
{
    Soup::new(html).tag(tag).attr(key, value).find().map(|node| node.text())
}

/// Relies on `soup::Soup::new`, the query builder's `tag`, `attr` and `find`,
/// and `NodeExt::get`: parses `html` and returns the attribute `attr` of the
/// first matching element.
#[verifier::external_body]
fn first_element_attr(html: &str, tag: &str, key: &str, value: &str, attr: &str) -> (r: Option<String>)
    ensures
        opt_view(r) == html_element_attr(html@, tag@, key@, value@, attr@),
{
    Soup::new(html).tag(tag).attr(key, value).find().and_then(|node| node.get(attr))
}

/// The stored name of a file name: `.zip`, then `.rar`, removed.
pub open spec fn stored_name(name: Seq<char>) -> Seq<char> {
    replaced(replaced(name, ".zip"@, ""@), ".rar"@, ""@)
}

/// The file name on a share page: the text of the first `div` of class
/// `filename`.
pub open spec fn page_file_name(html: Seq<char>) -> Option<Seq<char>> {
    html_element_text(html, "div"@, "class"@, "filename"@)
}

/// The download link on a share page: the `href` of the first `a` of class
/// `popsok`.
pub open spec fn page_download_url(html: Seq<char>) -> Option<Seq<char>> {
    html_element_attr(html, "a"@, "class"@, "popsok"@, "href"@)
}

/// What it takes to fetch the file of a share page.
pub struct MediafireDownload {
    /// The link that serves the file itself.
    pub download_url: String,
    /// The file name shown on the page.
    pub file_name: String,
    /// Where the fetched bytes are first written.
    pub archive_path: String,
}

/// A Mediafire share link, the HTML of its page, and where its archive goes.
pub struct MediaFireMetadata {
    url: String,
    raw_html: String,
    file_path: String,
    out_path: Option<String>,
}

impl MediaFireMetadata {
    /// The share link.
    pub closed spec fn spec_url(&self) -> Seq<char> {
        self.url@
    }

    /// The HTML of the share page.
    pub closed spec fn spec_html(&self) -> Seq<char> {
        self.raw_html@
    }

    /// The directory that the archive is written to.
    pub closed spec fn spec_file_path(&self) -> Seq<char> {
        self.file_path@
    }

    /// The name under which the archive was stored, once it was.
    pub closed spec fn spec_out_path(&self) -> Option<Seq<char>> {
        opt_view(self.out_path)
    }

    /// A share link with the HTML that its page served.
    pub fn new(url: String, raw_html: String, file_path: String) -> (r: MediaFireMetadata)
        ensures
            r.spec_url() == url@,
            r.spec_html() == raw_html@,
            r.spec_file_path() == file_path@,
            r.spec_out_path() is None,
    {
        MediaFireMetadata { url, raw_html, file_path, out_path: None }
    }

    /// The share link.
    pub fn url(&self) -> (r: &str)
        ensures
            r@ == self.spec_url(),
    {
        self.url.as_str()
    }

    /// The file name shown on the page, if the page has one.
    pub fn get_file_name(&self) -> (r: Option<String>)
        ensures
            opt_view(r) == page_file_name(self.spec_html()),
    {
        first_element_text(self.raw_html.as_str(), "div", "class", "filename")
    }

    /// The link that serves the file itself, if the page has one.
    pub fn get_download_url(&self) -> (r: Option<String>)
        ensures
            opt_view(r) == page_download_url(self.spec_html()),
    {
        first_element_attr(self.raw_html.as_str(), "a", "class", "popsok", "href")
    }

    /// The name an archive is stored under: its file name without `.zip`
    /// or `.rar`.
    pub fn stored_name_of(file_name: &str) -> (r: String)
        ensures
            r@ == stored_name(file_name@),
    {
        proof {
            reveal_strlit(".zip");
            reveal_strlit(".rar");
        }
        let name = replace_str(file_name, ".zip", "");
        replace_str(name.as_str(), ".rar", "")
    }

    /// What to fetch and where to write it, where the page shows both a file
    /// name and a download link; `None` where it lacks either.
    pub fn plan_download(&self) -> (r: Option<MediafireDownload>)
        ensures
            r is Some <==> page_file_name(self.spec_html()) is Some && page_download_url(
                self.spec_html(),
            ) is Some,
            r matches Some(d) ==> {
                &&& Some(d.download_url@) == page_download_url(self.spec_html())
                &&& Some(d.file_name@) == page_file_name(self.spec_html())
                &&& d.archive_path@ == self.spec_file_path() + "/"@ + stored_name(d.file_name@)
                    + ".zip"@
            },
    {
        let download_url = self.get_download_url();
        let file_name = self.get_file_name();
        match (download_url, file_name) {
            (Some(download_url), Some(file_name)) => {
                let name = MediaFireMetadata::stored_name_of(file_name.as_str());
                let dir = concat(self.file_path.as_str(), "/");
                let base = concat(dir.as_str(), name.as_str());
                let archive_path = concat(base.as_str(), ".zip");
                Some(MediafireDownload { download_url, file_name, archive_path })
            },
            _ => None,
        }
    }

    /// Records that the archive of `file_name` was stored, under its stored
    /// name.
    pub fn mark_saved(&mut self, file_name: &str)
        ensures
            final(self).spec_out_path() == Some(stored_name(file_name@)),
            final(self).spec_url() == old(self).spec_url(),
            final(self).spec_html() == old(self).spec_html(),
            final(self).spec_file_path() == old(self).spec_file_path(),
    {
        self.out_path = Some(MediaFireMetadata::stored_name_of(file_name));
    }

    /// The record of the stored archive: the link and the stored name;
    /// `None` while nothing was stored.
    pub fn file_source_row(&self) -> (r: Option<NewFileSource>)
        ensures
            self.spec_out_path() is None ==> r is None,
            self.spec_out_path() matches Some(p) ==> (r matches Some(row) && row.url@
                == self.spec_url() && row.compressed_file_name@ == p),
    {
        match &self.out_path {
            Some(p) => Some(NewFileSource { url: self.url.clone(), compressed_file_name: p.clone() }),
            None => None,
        }
    }
}

} // verus!
