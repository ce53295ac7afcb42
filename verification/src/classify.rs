//! Media classification: a URL is mapped to a media kind by suffix and
//! prefix pattern tables, video patterns taking precedence over image ones.

use vstd::prelude::*;

verus! {

use crate::text::{has_prefix, has_suffix, str_has_prefix, str_has_suffix};

/// Pattern table for one media kind: URL prefixes and URL suffixes.
#[derive(Debug)]
pub struct StartEnd {
    pub starts: Vec<String>,
    pub endings: Vec<String>,
}

/// The two pattern tables the classifier works from.
#[derive(Debug)]
pub struct UrlMatches {
    pub image: StartEnd,
    pub video: StartEnd,
}

/// The URL ends with one of the table's suffixes or begins with one of its
/// prefixes.
pub open spec fn matches_start_end(url: Seq<char>, se: &StartEnd) -> bool {
    (exists|i: int| 0 <= i < se.endings@.len() && has_suffix(url, se.endings@[i]@)) || (exists|
        i: int,
    |
        0 <= i < se.starts@.len() && has_prefix(url, se.starts@[i]@))
}

pub open spec fn video_match(url: Seq<char>, m: &UrlMatches) -> bool {
    matches_start_end(url, &m.video)
}

pub open spec fn image_match(url: Seq<char>, m: &UrlMatches) -> bool {
    matches_start_end(url, &m.image)
}

/// What kind of media a URL carries, if any.
#[derive(Clone, Copy, Debug, PartialEq, Eq, Structural)]
pub enum MediaKind {
    Video,
    Image,
    NoMedia,
}

/// The classification of a URL: video if any video pattern matches (video
/// takes precedence), else image if any image pattern matches, else none.
pub open spec fn spec_classify(url: Seq<char>, m: &UrlMatches) -> MediaKind {
    if video_match(url, m) {
        MediaKind::Video
    } else if image_match(url, m) {
        MediaKind::Image
    } else {
        MediaKind::NoMedia
    }
}

/// Law: video patterns take precedence. A URL that matches a video pattern
/// is classified as video, whether or not an image pattern also matches.
pub proof fn lemma_video_precedence(url: Seq<char>, m: &UrlMatches)
    requires
        video_match(url, m),
    ensures
        spec_classify(url, m) == MediaKind::Video,
{
}

/// A media file on local storage (or about to be): the variant is the media
/// kind, the field the file's path.
#[derive(Debug)]
pub enum FSFile {
    Image { f: String },
    Video { f: String },
}

impl FSFile {
    /// The file path carried by either variant.
    pub open spec fn spec_f(&self) -> Seq<char> {
        match self {
            FSFile::Image { f } => f@,
            FSFile::Video { f } => f@,
        }
    }

    /// The media kind of this file.
    pub open spec fn spec_kind(&self) -> MediaKind {
        match self {
            FSFile::Image { .. } => MediaKind::Image,
            FSFile::Video { .. } => MediaKind::Video,
        }
    }

    pub fn get_f(&self) -> (r: String)
        ensures
            r@ == self.spec_f(),
    {
        match self {
            FSFile::Image { f } => f.clone(),
            FSFile::Video { f } => f.clone(),
        }
    }
}

fn match_start_end(url: &str, se: &StartEnd) -> (r: bool)
    ensures
        r == matches_start_end(url@, se),
{
    let mut found = false;
    let mut i: usize = 0;
    while i < se.endings.len()
        invariant
            0 <= i <= se.endings@.len(),
            !found ==> forall|j: int| 0 <= j < i ==> !has_suffix(url@, se.endings@[j]@),
            found ==> exists|j: int|
                0 <= j < se.endings@.len() && has_suffix(url@, se.endings@[j]@),
        decreases se.endings@.len() - i,
    {
        let hit = str_has_suffix(url, se.endings[i].as_str());
        if hit {
            found = true;
        }
        i += 1;
    }
    let mut k: usize = 0;
    while k < se.starts.len()
        invariant
            0 <= k <= se.starts@.len(),
            !found ==> forall|j: int| 0 <= j < se.endings@.len() ==> !has_suffix(
                url@,
                se.endings@[j]@,
            ),
            !found ==> forall|j: int| 0 <= j < k ==> !has_prefix(url@, se.starts@[j]@),
            found ==> matches_start_end(url@, se),
        decreases se.starts@.len() - k,
    {
        let hit = str_has_prefix(url, se.starts[k].as_str());
        if hit {
            found = true;
        }
        k += 1;
    }
    found
}

/// Classifies a URL against the pattern tables, video first; the returned
/// file handle carries the matched kind and an empty path.
pub fn get_type(url: &str, url_matches: &UrlMatches) -> (r: Option<FSFile>)
    ensures
        spec_classify(url@, url_matches) == MediaKind::Video ==> (r matches Some(f) && f
            is Video && f.spec_f() == Seq::<char>::empty()),
        spec_classify(url@, url_matches) == MediaKind::Image ==> (r matches Some(f) && f
            is Image && f.spec_f() == Seq::<char>::empty()),
        spec_classify(url@, url_matches) == MediaKind::NoMedia ==> r is None,
{
    let is_video = match_start_end(url, &url_matches.video);
    if is_video {
        return Some(FSFile::Video { f: String::new() });
    }
    let is_image = match_start_end(url, &url_matches.image);
    if is_image {
        return Some(FSFile::Image { f: String::new() });
    }
    None
}

} // verus!
