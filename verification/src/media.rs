//! Media references and their resolution to a URL.
//!
//! A media reference is either a hosted file (opaque, time-limited URL) or an
//! externally linked file (stable URL). Resolution is a pure projection keyed
//! on the reference's tag; no network call and no validation of the URL.

use vstd::prelude::*;

verus! {

/// A hosted-or-external file pointer attached to image, video, file and pdf
/// blocks.
#[derive(Debug, Clone, PartialEq, Eq)]
pub enum FileObject {
    /// A file hosted by the remote service, reachable through a time-limited
    /// URL.
    File { url: String },
    /// An externally linked file with a stable URL.
    External { url: String },
}

/// The URL a media reference resolves to, regardless of its tag.
pub open spec fn file_url(f: FileObject) -> Seq<char> {
    match f {
        FileObject::File { url } => url@,
        FileObject::External { url } => url@,
    }
}

/// Resolves a media reference to its URL.
pub fn render_file_object(file_object: &FileObject) -> (r: String)
    ensures
        r@ == file_url(*file_object),
{
    match file_object {
        FileObject::File { url } => url.clone(),
        FileObject::External { url } => url.clone(),
    }
}

} // verus!
