//! The delivery engine's decision side. For one feed entry it decides the
//! first move (plain text, text with link, or a media fetch), gates a
//! produced file against the size ceiling, and lays out the tiered send with
//! its text fallback. Performing the sends, and deleting the scratch file on
//! every exit path, is the caller's business; the verdict names the file to
//! delete.

use vstd::prelude::*;

verus! {

use vstd::string::StringExecFns;
use crate::classify::{FSFile, MediaKind, UrlMatches, spec_classify};
use crate::download::{DownloadCmd, download_request, is_https, spec_cmd_for};
use crate::feed::Post;

/// The size ceiling for fetched media, in mebibytes.
pub const MAX_MB: u64 = 50;

/// The size ceiling in bytes: 50 MiB exactly (50 x 1,048,576). This is the
/// one definition of the ceiling; the mebibyte count above is what the
/// video fetch utility is told.
pub const MAX_BYTES: u64 = 50 * 1048576;

/// The text-with-link fallback message: the title, a line break, the URL.
pub open spec fn spec_alt_msg(title: Seq<char>, url: Seq<char>) -> Seq<char> {
    title + "\n"@ + url
}

pub fn alt_msg(title: &String, url: &String) -> (r: String)
    ensures
        r@ == spec_alt_msg(title@, url@),
{
    title.clone().concat("\n").concat(url.as_str())
}

/// The first delivery move for one entry.
#[derive(Debug)]
pub enum PostAction {
    /// No URL: one plain text message holding the title, nothing else.
    TextOnly { text: String },
    /// A URL, but no media can be fetched from it: one text message holding
    /// title and link.
    TextWithLink { text: String },
    /// Media to fetch: run the command, then gate and send; on any fetch
    /// failure send `alt` as text instead.
    Fetch { cmd: DownloadCmd, title: String, alt: String },
}

/// Decides the first delivery move for one entry. An entry without a URL is
/// delivered as exactly one text message holding the title -- no fetch
/// command is produced for it, so no external process is ever invoked on its
/// behalf. An entry whose URL is not a well-formed secure-scheme URL, or
/// matches no media pattern, is one text message holding title and link.
/// Only a URL classified as media yields a fetch command, built per
/// [`download_request`] with the given scratch-name token.
pub fn post_action(post: &Post, url_matches: &UrlMatches, token: &str) -> (r: PostAction)
    ensures
        (post.url is None || post.url->0@.len() == 0) ==> (r matches PostAction::TextOnly { text }
            && text@ == post.title@),
        (post.url is Some && post.url->0@.len() > 0 && !(is_https(post.url->0@) && spec_classify(
            post.url->0@,
            url_matches,
        ) != MediaKind::NoMedia)) ==> (r matches PostAction::TextWithLink { text } && text@
            == spec_alt_msg(post.title@, post.url->0@)),
        (post.url is Some && post.url->0@.len() > 0 && is_https(post.url->0@) && spec_classify(
            post.url->0@,
            url_matches,
        ) != MediaKind::NoMedia) ==> (r matches PostAction::Fetch { cmd, title, alt } && ({
            &&& cmd.wf()
            &&& spec_cmd_for(post.url->0@, MAX_MB, url_matches, token@, cmd)
            &&& title@ == post.title@
            &&& alt@ == spec_alt_msg(post.title@, post.url->0@)
        })),
{
    match &post.url {
        None => PostAction::TextOnly { text: post.title.clone() },
        Some(u) => {
            if u.as_str().is_empty() {
                return PostAction::TextOnly { text: post.title.clone() };
            }
            match download_request(u.as_str(), MAX_MB, url_matches, token) {
                None => PostAction::TextWithLink { text: alt_msg(&post.title, u) },
                Some(cmd) => PostAction::Fetch {
                    cmd,
                    title: post.title.clone(),
                    alt: alt_msg(&post.title, u),
                },
            }
        },
    }
}

/// One attempt in the tiered send: rich photo, generic document, or video.
#[derive(Clone, Copy, Debug, PartialEq, Eq, Structural)]
pub enum SendTier {
    Photo,
    Document,
    Video,
}

/// What to do with a fetched file once its size is known.
#[derive(Debug)]
pub enum MediaVerdict {
    /// Over the ceiling: delete the file at `delete`, send `text` as plain
    /// text, attempt no media send.
    TooBig { delete: String, text: String },
    /// Within the ceiling: try the tiers in order with `caption`; if every
    /// tier fails send `fallback` as plain text; in every case delete the
    /// file at `delete` before moving on.
    Send { file: FSFile, tiers: Vec<SendTier>, caption: String, fallback: String, delete: String },
}

/// Gates a fetched file against the size ceiling and lays out the send.
/// A file exactly at the ceiling is within it; one byte over is too big.
/// Images are tried as a rich photo first, then as a generic document;
/// video has the one tier.
pub fn media_verdict(file: FSFile, size: u64, max_bytes: u64, title: &String, alt: &String) -> (r:
    MediaVerdict)
    ensures
        (size > max_bytes) <==> r is TooBig,
        r matches MediaVerdict::TooBig { delete, text } ==> (delete@ == file.spec_f() && text@
            == alt@),
        r matches MediaVerdict::Send { file: f, tiers, caption, fallback, delete } ==> ({
            &&& f == file
            &&& caption@ == title@
            &&& fallback@ == alt@
            &&& delete@ == file.spec_f()
            &&& (file is Image ==> tiers@ == seq![SendTier::Photo, SendTier::Document])
            &&& (file is Video ==> tiers@ == seq![SendTier::Video])
        }),
{
    if size > max_bytes {
        MediaVerdict::TooBig { delete: file.get_f(), text: alt.clone() }
    } else {
        let delete = file.get_f();
        let mut tiers: Vec<SendTier> = Vec::new();
        match &file {
            FSFile::Image { .. } => {
                tiers.push(SendTier::Photo);
                tiers.push(SendTier::Document);
                proof {
                    assert(tiers@ =~= seq![SendTier::Photo, SendTier::Document]);
                }
            },
            FSFile::Video { .. } => {
                tiers.push(SendTier::Video);
                proof {
                    assert(tiers@ =~= seq![SendTier::Video]);
                }
            },
        }
        MediaVerdict::Send { file, tiers, caption: title.clone(), fallback: alt.clone(), delete }
    }
}

} // verus!
