//! Routing a link to the hosting service that serves it, and the identifier
//! under which that service knows the resource.
use vstd::prelude::*;

use crate::dropbox::{direct_link, DropboxMetadata};
use crate::google_drive::{drive_id, drive_kind, DriveKind, GoogleDriveMetadata};
use crate::mediafire::MediaFireMetadata;
use crate::text::{contains_str, has_substring, lemma_split_nonempty, split_chars, split_on, views_of};

verus! {

/// The host part of a link: what stands between `//` and the next `/` in
/// `scheme://host/...`; for a link without `//`, what precedes the first `/`.
pub open spec fn host_of(url: Seq<char>) -> Seq<char> {
    let parts = split_on(url, '/');
    if parts.len() >= 3 && parts[1].len() == 0 {
        parts[2]
    } else {
        parts[0]
    }
}

/// A hosting service, and for Google Drive what the link names.
#[derive(PartialEq, Eq, Structural, Clone, Copy, Debug)]
pub enum Backend {
    GoogleDrive(DriveKind),
    Dropbox,
    Mediafire,
}

/// The service that serves a link, by the domain its host mentions:
/// `drive.google.com`, then `mediafire.com`, then `dropbox.com`.
pub open spec fn backend_of(url: Seq<char>) -> Option<Backend> {
    let host = host_of(url);
    if has_substring(host, "drive.google.com"@) {
        Some(Backend::GoogleDrive(drive_kind(url)))
    } else if has_substring(host, "mediafire.com"@) {
        Some(Backend::Mediafire)
    } else if has_substring(host, "dropbox.com"@) {
        Some(Backend::Dropbox)
    } else {
        None
    }
}

/// A resource to fetch: the service, the identifier that service knows it
/// by, the name to show for it and the directory its archive goes to.
pub struct AcquisitionTarget {
    pub backend: Backend,
    pub resource_id: String,
    pub display_name: String,
    pub destination_dir: String,
}

/// The identifier of a routed link: the Drive identifier, the direct-download
/// form of a Dropbox link, or the Mediafire link itself.
pub open spec fn resource_id_of(url: Seq<char>, b: Backend) -> Option<Seq<char>> {
    match b {
        Backend::GoogleDrive(_) => drive_id(url),
        Backend::Dropbox => Some(direct_link(url)),
        Backend::Mediafire => Some(url),
    }
}

/// The host part of a link.
pub fn host(url: &str) -> (r: String)
    ensures
        r@ == host_of(url@),
{
    let mut parts = split_chars(url, '/');
    proof {
        lemma_split_nonempty(url@, '/');
        assert(views_of(parts@)[0] == parts@[0]@);
    }
    if parts.len() >= 3 && parts[1].as_str().is_empty() {
        assert(views_of(parts@)[2] == parts@[2]@);
        assert(views_of(parts@)[1] == parts@[1]@);
        parts.swap_remove(2)
    } else {
        parts.swap_remove(0)
    }
}

/// The service that serves a link, if any of the three does.
pub fn backend(url: &str) -> (r: Option<Backend>)
    ensures
        r == backend_of(url@),
{
    let h = host(url);
    if contains_str(h.as_str(), "drive.google.com") {
        Some(Backend::GoogleDrive(GoogleDriveMetadata::drive_kind_of(url)))
    } else if contains_str(h.as_str(), "mediafire.com") {
        Some(Backend::Mediafire)
    } else if contains_str(h.as_str(), "dropbox.com") {
        Some(Backend::Dropbox)
    } else {
        None
    }
}

/// Routes a link to its service and reads the identifier of the resource.
/// `None` where no service serves the link, or a Drive link carries no
/// identifier. The name is the title, with spaces made underscores for
/// Dropbox.
pub fn resolve(url: &str, title: &str, destination_dir: &str) -> (r: Option<AcquisitionTarget>)
    ensures
        r is Some <==> (backend_of(url@) matches Some(b) && resource_id_of(url@, b) is Some),
        r matches Some(t) ==> {
            &&& Some(t.backend) == backend_of(url@)
            &&& Some(t.resource_id@) == resource_id_of(url@, t.backend)
            &&& t.display_name@ == (match t.backend {
                Backend::Dropbox => crate::dropbox::display_name(title@),
                _ => title@,
            })
            &&& t.destination_dir@ == destination_dir@
        },
{
    match backend(url) {
        Some(Backend::GoogleDrive(kind)) => match GoogleDriveMetadata::get_id(url) {
            Some(id) => Some(
                AcquisitionTarget {
                    backend: Backend::GoogleDrive(kind),
                    resource_id: id,
                    display_name: title.to_owned(),
                    destination_dir: destination_dir.to_owned(),
                },
            ),
            None => None,
        },
        Some(Backend::Dropbox) => {
            let meta = DropboxMetadata::new(url.to_owned(), title.to_owned(), destination_dir.to_owned());
            Some(
                AcquisitionTarget {
                    backend: Backend::Dropbox,
                    resource_id: meta.url().to_owned(),
                    display_name: meta.file_name().to_owned(),
                    destination_dir: destination_dir.to_owned(),
                },
            )
        },
        Some(Backend::Mediafire) => Some(
            AcquisitionTarget {
                backend: Backend::Mediafire,
                resource_id: url.to_owned(),
                display_name: title.to_owned(),
                destination_dir: destination_dir.to_owned(),
            },
        ),
        None => None,
    }
}

/// A link read for one of the three services, ready to be fetched.
pub enum DownloadOptions {
    GoogleDrive(GoogleDriveMetadata),
    Dropbox(DropboxMetadata),
    Mediafire(MediaFireMetadata),
}

/// What is fetched, together with the post it was found in.
pub struct AssocDataForDownload<D, V> {
    pub download: D,
    pub website_metadata: V,
}

} // verus!
