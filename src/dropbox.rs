//! Dropbox shared links: the rewrite that turns a shared page link into a
//! direct download, and the name the archive is stored under.
use std::collections::HashMap;

use vstd::prelude::*;

use crate::google_drive::opt_view;
use crate::models::NewFileSource;
use crate::text::{concat, replace_str, replaced};

verus! {

/// Who a shared link is open to.
pub struct DropboxAudienceOptions {
    pub allowed: bool,
    pub audience: HashMap<String, String>,
}

/// A policy that a shared link may take.
pub struct DropboxPolicyOptions {
    pub allowed: bool,
    pub policy: HashMap<String, String>,
    pub resolved_policy: HashMap<String, String>,
}

/// What the holder of a shared link may do with it.
pub struct DropboxLinkPermissions {
    pub all_comments: bool,
    pub allow_download: bool,
    pub audience_options: Vec<DropboxAudienceOptions>,
    pub can_allow_download: bool,
    pub can_disallow_download: bool,
    pub can_remove_expiry: bool,
    pub can_remove_password: bool,
    pub can_revoke: bool,
    pub can_set_expiry: bool,
    pub can_set_password: bool,
    pub can_use_extended_sharing_controls: bool,
    pub require_password: bool,
    pub resolved_visibility: HashMap<String, String>,
    pub revoke_failure_reason: HashMap<String, String>,
    pub team_restrics_comments: bool,
    pub visibility_policies: Vec<DropboxAudienceOptions>,
}

/// The team member who shared a link.
pub struct DropboxTeamMemberInfo {
    pub display_name: String,
    pub member_id: String,
    pub team_info: HashMap<String, String>,
}

/// A shared link as it is found: `amp;` and `%5C` removed, in that order,
/// then `dl=0` made `dl=1`, so that the link serves the file itself.
pub open spec fn direct_link(url: Seq<char>) -> Seq<char> {
    replaced(replaced(replaced(url, "amp;"@, ""@), "%5C"@, ""@), "dl=0"@, "dl=1"@)
}

/// The stored name of a title: spaces become underscores.
pub open spec fn display_name(title: Seq<char>) -> Seq<char> {
    replaced(title, " "@, "_"@)
}

/// The file name of a stored name: slashes become underscores.
pub open spec fn flat_name(name: Seq<char>) -> Seq<char> {
    replaced(name, "/"@, "_"@)
}

/// A Dropbox shared link, normalised, and where its archive goes.
pub struct DropboxMetadata {
    file_name: String,
    url: String,
    file_path: String,
    out_path: Option<String>,
}

impl DropboxMetadata {
    /// The direct-download link.
    pub closed spec fn spec_url(&self) -> Seq<char> {
        self.url@
    }

    /// The title, with spaces made underscores.
    pub closed spec fn spec_file_name(&self) -> Seq<char> {
        self.file_name@
    }

    /// The directory that the archive is written to.
    pub closed spec fn spec_file_path(&self) -> Seq<char> {
        self.file_path@
    }

    /// The name under which the archive was stored, once it was.
    pub closed spec fn spec_out_path(&self) -> Option<Seq<char>> {
        opt_view(self.out_path)
    }

    /// Normalises a shared link into a direct-download link, and the title
    /// into a name without spaces.
    pub fn new(url: String, file_name: String, file_path: String) -> (r: DropboxMetadata)
        ensures
            r.spec_url() == direct_link(url@),
            r.spec_file_name() == display_name(file_name@),
            r.spec_file_path() == file_path@,
            r.spec_out_path() is None,
    {
        proof {
            reveal_strlit("amp;");
            reveal_strlit("%5C");
            reveal_strlit("dl=0");
            reveal_strlit(" ");
        }
        let new_url = replace_str(url.as_str(), "amp;", "");
        let new_url = replace_str(new_url.as_str(), "%5C", "");
        let new_url = replace_str(new_url.as_str(), "dl=0", "dl=1");
        let new_file_name = replace_str(file_name.as_str(), " ", "_");
        DropboxMetadata { url: new_url, file_name: new_file_name, file_path, out_path: None }
    }

    /// The direct-download link.
    pub fn url(&self) -> (r: &str)
        ensures
            r@ == self.spec_url(),
    {
        self.url.as_str()
    }

    /// The title, with spaces made underscores.
    pub fn file_name(&self) -> (r: &str)
        ensures
            r@ == self.spec_file_name(),
    {
        self.file_name.as_str()
    }

    /// The name the archive is stored under: the title with slashes made
    /// underscores.
    pub fn stored_name(&self) -> (r: String)
        ensures
            r@ == flat_name(self.spec_file_name()),
    {
        proof {
            reveal_strlit("/");
        }
        replace_str(self.file_name.as_str(), "/", "_")
    }

    /// Where the fetched bytes are first written: `<file_path>/<stored name>.zip`.
    pub fn archive_path(&self) -> (r: String)
        ensures
            r@ == self.spec_file_path() + "/"@ + flat_name(self.spec_file_name()) + ".zip"@,
    {
        let name = self.stored_name();
        let dir = concat(self.file_path.as_str(), "/");
        let base = concat(dir.as_str(), name.as_str());
        concat(base.as_str(), ".zip")
    }

    /// Records that the archive was stored, under its stored name.
    pub fn mark_saved(&mut self)
        ensures
            final(self).spec_out_path() == Some(flat_name(old(self).spec_file_name())),
            final(self).spec_url() == old(self).spec_url(),
            final(self).spec_file_name() == old(self).spec_file_name(),
            final(self).spec_file_path() == old(self).spec_file_path(),
    {
        self.out_path = Some(self.stored_name());
    }

    /// The record of the stored archive: the link and the stored name;
    /// `None` while nothing was stored.
    pub fn file_source_row(&self) -> (r: Option<NewFileSource>)
        ensures
            self.spec_out_path() is None ==> r is None,
            self.spec_out_path() matches Some(p) ==> (r matches Some(row) && row.url@
                == self.spec_url() && row.compressed_file_name@ == p),
    {
        match &self.out_path {
            Some(p) => Some(NewFileSource { url: self.url.clone(), compressed_file_name: p.clone() }),
            None => None,
        }
    }
}

} // verus!
