//! The constrained downloader's decision side: URL scheme vetting, and the
//! exact external fetch command (program, arguments, scratch path) for a
//! classified URL. Running the command is the caller's business; feeding its
//! outcome back through [`download_outcome`] yields the file handle.

use vstd::prelude::*;

verus! {

use vstd::string::StringExecFns;
use crate::classify::{FSFile, MediaKind, UrlMatches, spec_classify, get_type};
use crate::text::{dec_str, str_eq, u64_to_string};

/// Named result of `url::Url::parse`: the scheme of the URL the string
/// parses to, or nothing where it does not parse. A function of the string
/// alone.
pub uninterp spec fn parsed_scheme(s: Seq<char>) -> Option<Seq<char>>;

/// Relies on `url::Url::parse` and `url::Url::scheme`: parsing either fails
/// or yields a URL whose scheme `scheme()` returns, both determined by the
/// input string alone.
#[verifier::external_body]
fn url_scheme(u: &str) -> (r: Option<String>)
    ensures
        r is Some <==> parsed_scheme(u@) is Some,
        r matches Some(s) ==> parsed_scheme(u@) matches Some(ps) && s@ == ps,
{
    match url::Url::parse(u) {
        Ok(p) => Some(p.scheme().to_string()),
        Err(_) => None,
    }
}

/// The string parses as a URL with the secure transport scheme.
pub open spec fn is_https(u: Seq<char>) -> bool {
    parsed_scheme(u) matches Some(s) && s == "https"@
}

pub fn check_https(u: &str) -> (r: bool)
    ensures
        r == is_https(u@),
{
    match url_scheme(u) {
        None => false,
        Some(s) => str_eq(s.as_str(), "https"),
    }
}

/// Relies on `uuid::Uuid::new_v4` and uuid's `Display` impl: the hyphenated
/// rendering of a UUID is exactly 36 characters. Nothing more is assumed of
/// the freshly drawn random value.
#[verifier::external_body]
fn fresh_token() -> (r: String)
    ensures
        r@.len() == 36,
{
    uuid::Uuid::new_v4().to_string()
}

/// The shared scratch directory downloads land in.
pub open spec fn download_dir() -> Seq<char> {
    "/tmp/red_fetch/"@
}

/// The file extension given to a download of this kind.
pub open spec fn spec_ext(k: MediaKind) -> Seq<char> {
    if k is Image {
        ".jpg"@
    } else {
        ".mp4"@
    }
}

/// One invocation of an external fetch utility: which program, with which
/// arguments, writing which scratch path, for which media kind.
#[derive(Debug)]
pub struct DownloadCmd {
    pub program: String,
    pub args: Vec<String>,
    pub path: String,
    pub kind: MediaKind,
}

impl DownloadCmd {
    pub open spec fn wf(&self) -> bool {
        self.kind != MediaKind::NoMedia
    }
}

/// The command `download_request` owes for this URL, pattern tables and
/// scratch-name token: `wget` quietly writing the path for images; `yt-dlp`
/// with an explicit maximum file size, quietly writing the path, for video.
pub open spec fn spec_cmd_for(
    url: Seq<char>,
    max_mb: u64,
    m: &UrlMatches,
    tok: Seq<char>,
    c: DownloadCmd,
) -> bool {
    &&& c.kind == spec_classify(url, m)
    &&& c.path@ == download_dir() + tok + spec_ext(c.kind)
    &&& (c.kind == MediaKind::Image ==> {
        &&& c.program@ == "wget"@
        &&& c.args@.len() == 4
        &&& c.args@[0]@ == "-q"@
        &&& c.args@[1]@ == "-O"@
        &&& c.args@[2]@ == c.path@
        &&& c.args@[3]@ == url
    })
    &&& (c.kind == MediaKind::Video ==> {
        &&& c.program@ == "yt-dlp"@
        &&& c.args@.len() == 6
        &&& c.args@[0]@ == "--max-filesize"@
        &&& c.args@[1]@ == dec_str(max_mb as nat) + "M"@
        &&& c.args@[2]@ == "-q"@
        &&& c.args@[3]@ == "-o"@
        &&& c.args@[4]@ == c.path@
        &&& c.args@[5]@ == url
    })
}

/// Builds the fetch command for a URL, or nothing where the URL is not a
/// well-formed secure-scheme URL or matches no media pattern (the caller
/// falls back to a text message). The scratch file name is the given token
/// plus the kind's extension, under the scratch directory.
pub fn download_request(url: &str, max_mb: u64, url_matches: &UrlMatches, token: &str) -> (r:
    Option<DownloadCmd>)
    ensures
        r is Some <==> (is_https(url@) && spec_classify(url@, url_matches) != MediaKind::NoMedia),
        r matches Some(c) ==> c.wf() && spec_cmd_for(url@, max_mb, url_matches, token@, c),
{
    if !check_https(url) {
        return None;
    }
    let typ = match get_type(url, url_matches) {
        None => {
            return None;
        },
        Some(t) => t,
    };
    let dir = String::from_str("/tmp/red_fetch/");
    match typ {
        FSFile::Image { .. } => {
            let path = dir.concat(token).concat(".jpg");
            let mut args: Vec<String> = Vec::new();
            args.push(String::from_str("-q"));
            args.push(String::from_str("-O"));
            args.push(path.clone());
            args.push(String::from_str(url));
            Some(
                DownloadCmd {
                    program: String::from_str("wget"),
                    args,
                    path,
                    kind: MediaKind::Image,
                },
            )
        },
        FSFile::Video { .. } => {
            let path = dir.concat(token).concat(".mp4");
            let max_sz = u64_to_string(max_mb).concat("M");
            let mut args: Vec<String> = Vec::new();
            args.push(String::from_str("--max-filesize"));
            args.push(max_sz);
            args.push(String::from_str("-q"));
            args.push(String::from_str("-o"));
            args.push(path.clone());
            args.push(String::from_str(url));
            Some(
                DownloadCmd {
                    program: String::from_str("yt-dlp"),
                    args,
                    path,
                    kind: MediaKind::Video,
                },
            )
        },
    }
}

/// Like [`download_request`], with a fresh random token for a
/// collision-avoiding scratch file name.
pub fn new_download_request(url: &str, max_mb: u64, url_matches: &UrlMatches) -> (r: Option<
    DownloadCmd,
>)
    ensures
        r is Some <==> (is_https(url@) && spec_classify(url@, url_matches) != MediaKind::NoMedia),
        r matches Some(c) ==> c.wf() && (exists|tok: Seq<char>|
            tok.len() == 36 && #[trigger] spec_cmd_for(url@, max_mb, url_matches, tok, c)),
{
    let token = fresh_token();
    let r = download_request(url, max_mb, url_matches, token.as_str());
    proof {
        if r is Some {
            assert(spec_cmd_for(url@, max_mb, url_matches, token@, r->0));
        }
    }
    r
}

/// Turns the run of a fetch command (did the process succeed, does the
/// output file exist) into the file handle, or nothing on any failure.
pub fn download_outcome(cmd: &DownloadCmd, success: bool, file_found: bool) -> (r: Option<FSFile>)
    requires
        cmd.wf(),
    ensures
        r is Some <==> (success && file_found),
        r matches Some(f) ==> f.spec_kind() == cmd.kind && f.spec_f() == cmd.path@,
{
    if success && file_found {
        match cmd.kind {
            MediaKind::Image => Some(FSFile::Image { f: cmd.path.clone() }),
            MediaKind::Video => Some(FSFile::Video { f: cmd.path.clone() }),
            MediaKind::NoMedia => None,
        }
    } else {
        None
    }
}

} // verus!
