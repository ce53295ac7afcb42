//! The listing fetcher's decision side: view modes, the feed query built
//! from a listing request (source name normalized, top modes given their
//! time period, the pagination cursor threaded through opaquely), and the
//! handling of the service's answer (pinned entries dropped, cursor
//! captured; on failure an empty page with the cursor left unchanged).

use vstd::prelude::*;

verus! {

use vstd::string::StringExecFns;
use crate::text::{strip_ws, strip_whitespace};

/// A feed view mode: rising, hot, or top within a period.
#[derive(Clone, Copy, Debug, PartialEq, Eq, Structural)]
pub enum RedReq {
    Rise,
    Hot,
    TopD,
    TopW,
    TopM,
    TopY,
    TopA,
}

/// All view modes, in menu order.
pub open spec fn all_views() -> Seq<RedReq> {
    seq![
        RedReq::Rise,
        RedReq::Hot,
        RedReq::TopD,
        RedReq::TopW,
        RedReq::TopM,
        RedReq::TopY,
        RedReq::TopA,
    ]
}

/// The mode a string names, if any.
pub open spec fn spec_parse_req(s: Seq<char>) -> Option<RedReq> {
    if s == "Rise"@ {
        Some(RedReq::Rise)
    } else if s == "Hot"@ {
        Some(RedReq::Hot)
    } else if s == "TopD"@ {
        Some(RedReq::TopD)
    } else if s == "TopW"@ {
        Some(RedReq::TopW)
    } else if s == "TopM"@ {
        Some(RedReq::TopM)
    } else if s == "TopY"@ {
        Some(RedReq::TopY)
    } else if s == "TopA"@ {
        Some(RedReq::TopA)
    } else {
        None
    }
}

impl RedReq {
    /// The display name of the mode, which is also its button label and its
    /// parse form.
    pub open spec fn spec_name(&self) -> Seq<char> {
        match self {
            RedReq::Rise => "Rise"@,
            RedReq::Hot => "Hot"@,
            RedReq::TopD => "TopD"@,
            RedReq::TopW => "TopW"@,
            RedReq::TopM => "TopM"@,
            RedReq::TopY => "TopY"@,
            RedReq::TopA => "TopA"@,
        }
    }

    pub fn name(&self) -> (r: String)
        ensures
            r@ == self.spec_name(),
    {
        match self {
            RedReq::Rise => String::from_str("Rise"),
            RedReq::Hot => String::from_str("Hot"),
            RedReq::TopD => String::from_str("TopD"),
            RedReq::TopW => String::from_str("TopW"),
            RedReq::TopM => String::from_str("TopM"),
            RedReq::TopY => String::from_str("TopY"),
            RedReq::TopA => String::from_str("TopA"),
        }
    }

    /// All modes, in menu order.
    pub fn all() -> (r: Vec<RedReq>)
        ensures
            r@ == all_views(),
    {
        let mut v: Vec<RedReq> = Vec::new();
        v.push(RedReq::Rise);
        v.push(RedReq::Hot);
        v.push(RedReq::TopD);
        v.push(RedReq::TopW);
        v.push(RedReq::TopM);
        v.push(RedReq::TopY);
        v.push(RedReq::TopA);
        proof {
            assert(v@ =~= all_views());
        }
        v
    }

    /// Parses a mode from its display name; any other string is no mode.
    pub fn parse(s: &str) -> (r: Option<RedReq>)
        ensures
            r == spec_parse_req(s@),
    {
        if crate::text::str_eq(s, "Rise") {
            Some(RedReq::Rise)
        } else if crate::text::str_eq(s, "Hot") {
            Some(RedReq::Hot)
        } else if crate::text::str_eq(s, "TopD") {
            Some(RedReq::TopD)
        } else if crate::text::str_eq(s, "TopW") {
            Some(RedReq::TopW)
        } else if crate::text::str_eq(s, "TopM") {
            Some(RedReq::TopM)
        } else if crate::text::str_eq(s, "TopY") {
            Some(RedReq::TopY)
        } else if crate::text::str_eq(s, "TopA") {
            Some(RedReq::TopA)
        } else {
            None
        }
    }
}

/// Parameters of one feed query sequence: the view, the source, the page
/// size, the display-only category label, and the cursor of the last page
/// seen (opaque, absent on the first page).
#[derive(Clone, Debug)]
pub struct RedditCmd {
    pub view: RedReq,
    pub subreddit: String,
    pub tot: u32,
    pub category: String,
    pub last_seen: Option<String>,
}

/// The time period of a top view.
#[derive(Clone, Copy, Debug, PartialEq, Eq, Structural)]
pub enum TimeRange {
    Today,
    ThisWeek,
    ThisMonth,
    ThisYear,
    AllTime,
}

/// The sort a feed query asks the service for.
#[derive(Clone, Copy, Debug, PartialEq, Eq, Structural)]
pub enum FeedSort {
    Rising,
    Hot,
    Top { range: TimeRange },
}

/// One ready-to-issue feed query.
#[derive(Debug)]
pub struct FeedQuery {
    pub subreddit: String,
    pub sort: FeedSort,
    pub limit: u32,
    pub after: Option<String>,
}

/// The sort each view mode stands for.
pub open spec fn spec_sort_of(v: RedReq) -> FeedSort {
    match v {
        RedReq::Rise => FeedSort::Rising,
        RedReq::Hot => FeedSort::Hot,
        RedReq::TopD => FeedSort::Top { range: TimeRange::Today },
        RedReq::TopW => FeedSort::Top { range: TimeRange::ThisWeek },
        RedReq::TopM => FeedSort::Top { range: TimeRange::ThisMonth },
        RedReq::TopY => FeedSort::Top { range: TimeRange::ThisYear },
        RedReq::TopA => FeedSort::Top { range: TimeRange::AllTime },
    }
}

/// Builds the feed query for a request: the source name with all whitespace
/// stripped, the sort of the view mode, the requested count, and exactly the
/// cursor the previous page returned.
pub fn build_query(rcmd: &RedditCmd) -> (q: FeedQuery)
    ensures
        q.subreddit@ == strip_ws(rcmd.subreddit@),
        q.sort == spec_sort_of(rcmd.view),
        q.limit == rcmd.tot,
        q.after == rcmd.last_seen,
{
    let subreddit = strip_whitespace(rcmd.subreddit.as_str());
    let sort = match rcmd.view {
        RedReq::Rise => FeedSort::Rising,
        RedReq::Hot => FeedSort::Hot,
        RedReq::TopD => FeedSort::Top { range: TimeRange::Today },
        RedReq::TopW => FeedSort::Top { range: TimeRange::ThisWeek },
        RedReq::TopM => FeedSort::Top { range: TimeRange::ThisMonth },
        RedReq::TopY => FeedSort::Top { range: TimeRange::ThisYear },
        RedReq::TopA => FeedSort::Top { range: TimeRange::AllTime },
    };
    let after = match &rcmd.last_seen {
        None => None,
        Some(s) => Some(s.clone()),
    };
    FeedQuery { subreddit, sort, limit: rcmd.tot, after }
}

/// One feed entry as the service returned it.
#[derive(Debug)]
pub struct Post {
    pub title: String,
    pub url: Option<String>,
    pub stickied: bool,
}

/// One page as the service returned it: entries in feed order, and the
/// cursor for the page after (absent at the end of the listing).
#[derive(Debug)]
pub struct FeedPage {
    pub entries: Vec<Post>,
    pub after: Option<String>,
}

/// The page's entries with the pinned ones dropped, order kept.
pub open spec fn drop_stickied(s: Seq<Post>) -> Seq<Post> {
    s.filter(|p: Post| !p.stickied)
}

fn clone_post(p: &Post) -> (r: Post)
    ensures
        r == *p,
{
    Post {
        title: p.title.clone(),
        url: match &p.url {
            None => None,
            Some(u) => Some(u.clone()),
        },
        stickied: p.stickied,
    }
}

/// Applies the service's answer to the request. On success the returned
/// cursor replaces the stored one, exactly as returned (it is opaque and is
/// never inspected), and the non-pinned entries come back in feed order. On
/// failure the request is left untouched -- the cursor keeps its old value,
/// so the same page can be asked for again -- and the page is empty.
pub fn apply_feed(rcmd: &mut RedditCmd, result: Option<FeedPage>) -> (posts: Vec<Post>)
    ensures
        result is None ==> (*final(rcmd) == *old(rcmd) && posts@.len() == 0),
        result matches Some(page) ==> ({
            &&& final(rcmd).view == old(rcmd).view
            &&& final(rcmd).subreddit == old(rcmd).subreddit
            &&& final(rcmd).tot == old(rcmd).tot
            &&& final(rcmd).category == old(rcmd).category
            &&& final(rcmd).last_seen == page.after
            &&& posts@ == drop_stickied(page.entries@)
        }),
{
    match result {
        None => Vec::new(),
        Some(page) => {
            let FeedPage { entries, after } = page;
            rcmd.last_seen = after;
            let mut out: Vec<Post> = Vec::new();
            let mut i: usize = 0;
            proof {
                reveal(Seq::filter);
                assert(entries@.subrange(0, 0) =~= Seq::<Post>::empty());
            }
            while i < entries.len()
                invariant
                    0 <= i <= entries@.len(),
                    out@ == drop_stickied(entries@.subrange(0, i as int)),
                decreases entries@.len() - i,
            {
                let p = &entries[i];
                if !p.stickied {
                    out.push(clone_post(p));
                }
                proof {
                    reveal(Seq::filter);
                    assert(entries@.subrange(0, i + 1).drop_last() =~= entries@.subrange(
                        0,
                        i as int,
                    ));
                    assert(entries@.subrange(0, i + 1).last() == entries@[i as int]);
                }
                i += 1;
            }
            proof {
                assert(entries@.subrange(0, entries@.len() as int) =~= entries@);
            }
            out
        },
    }
}

/// The entries that carry no URL (text-only entries), dropped; order
/// kept. Whether a listing drops these is a policy choice of the caller,
/// not a rule of the fetcher: [`apply_feed`] always keeps them.
pub open spec fn drop_no_url(s: Seq<Post>) -> Seq<Post> {
    s.filter(|p: Post| p.url is Some && p.url->0@.len() > 0)
}

/// The optional policy filter: drops entries without a URL.
pub fn filter_text_only(posts: Vec<Post>) -> (r: Vec<Post>)
    ensures
        r@ == drop_no_url(posts@),
{
    let mut out: Vec<Post> = Vec::new();
    let mut i: usize = 0;
    proof {
        reveal(Seq::filter);
        assert(posts@.subrange(0, 0) =~= Seq::<Post>::empty());
    }
    while i < posts.len()
        invariant
            0 <= i <= posts@.len(),
            out@ == drop_no_url(posts@.subrange(0, i as int)),
        decreases posts@.len() - i,
    {
        let p = &posts[i];
        let keep = match &p.url {
            None => false,
            Some(u) => !u.as_str().is_empty(),
        };
        if keep {
            out.push(clone_post(p));
        }
        proof {
            reveal(Seq::filter);
            assert(posts@.subrange(0, i + 1).drop_last() =~= posts@.subrange(0, i as int));
            assert(posts@.subrange(0, i + 1).last() == posts@[i as int]);
        }
        i += 1;
    }
    proof {
        assert(posts@.subrange(0, posts@.len() as int) =~= posts@);
    }
    out
}

} // verus!
