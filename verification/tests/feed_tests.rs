use redbot::classify::{StartEnd, UrlMatches};
use redbot::deliver::PostAction;
use redbot::feed::{
    FeedPage, FeedSort, Post, RedReq, RedditCmd, TimeRange, apply_feed, build_query,
    filter_text_only,
};
use redbot::text::{parse_u32, u32_to_string, u64_to_string};

fn rcmd(view: RedReq, sub: &str, tot: u32) -> RedditCmd {
    RedditCmd {
        view,
        subreddit: sub.to_string(),
        tot,
        category: "News".to_string(),
        last_seen: None,
    }
}

#[test]
fn query_strips_whitespace_from_source() {
    let q = build_query(&rcmd(RedReq::Hot, "  ru st \t", 5));
    assert_eq!(q.subreddit, "rust");
}

#[test]
fn query_maps_view_modes() {
    assert_eq!(build_query(&rcmd(RedReq::Rise, "a", 1)).sort, FeedSort::Rising);
    assert_eq!(build_query(&rcmd(RedReq::Hot, "a", 1)).sort, FeedSort::Hot);
    assert_eq!(
        build_query(&rcmd(RedReq::TopD, "a", 1)).sort,
        FeedSort::Top { range: TimeRange::Today }
    );
    assert_eq!(
        build_query(&rcmd(RedReq::TopW, "a", 1)).sort,
        FeedSort::Top { range: TimeRange::ThisWeek }
    );
    assert_eq!(
        build_query(&rcmd(RedReq::TopM, "a", 1)).sort,
        FeedSort::Top { range: TimeRange::ThisMonth }
    );
    assert_eq!(
        build_query(&rcmd(RedReq::TopY, "a", 1)).sort,
        FeedSort::Top { range: TimeRange::ThisYear }
    );
    assert_eq!(
        build_query(&rcmd(RedReq::TopA, "a", 1)).sort,
        FeedSort::Top { range: TimeRange::AllTime }
    );
}

#[test]
fn query_carries_count_and_cursor() {
    let mut r = rcmd(RedReq::Hot, "a", 7);
    r.last_seen = Some("t3_abc".to_string());
    let q = build_query(&r);
    assert_eq!(q.limit, 7);
    assert_eq!(q.after, Some("t3_abc".to_string()));
}

fn post(title: &str, stickied: bool) -> Post {
    Post { title: title.to_string(), url: None, stickied }
}

#[test]
fn feed_page_drops_pinned_keeps_order() {
    let mut r = rcmd(RedReq::Hot, "test", 3);
    let page = FeedPage {
        entries: vec![post("pin", true), post("a", false), post("b", false)],
        after: Some("t3_next".to_string()),
    };
    let posts = apply_feed(&mut r, Some(page));
    let titles: Vec<&str> = posts.iter().map(|p| p.title.as_str()).collect();
    assert_eq!(titles, vec!["a", "b"]);
    assert_eq!(r.last_seen, Some("t3_next".to_string()));
}

#[test]
fn feed_failure_keeps_cursor_and_is_empty() {
    let mut r = rcmd(RedReq::Hot, "test", 3);
    r.last_seen = Some("t3_keep".to_string());
    let posts = apply_feed(&mut r, None);
    assert!(posts.is_empty());
    assert_eq!(r.last_seen, Some("t3_keep".to_string()));
    assert_eq!(r.subreddit, "test");
    assert_eq!(r.tot, 3);
}

#[test]
fn returned_cursor_feeds_next_query_unchanged() {
    // the cursor of one page is threaded, untouched, into the next query
    let mut r = rcmd(RedReq::Hot, "test", 2);
    let page = FeedPage { entries: vec![post("a", false)], after: Some("t3_page2".to_string()) };
    let _ = apply_feed(&mut r, Some(page));
    let q = build_query(&r);
    assert_eq!(q.after, Some("t3_page2".to_string()));
}

#[test]
fn end_of_listing_clears_cursor() {
    let mut r = rcmd(RedReq::Hot, "test", 2);
    r.last_seen = Some("t3_old".to_string());
    let page = FeedPage { entries: vec![], after: None };
    let _ = apply_feed(&mut r, Some(page));
    assert_eq!(r.last_seen, None);
}

#[test]
fn view_mode_names_round_trip() {
    let all = RedReq::all();
    assert_eq!(all.len(), 7);
    for v in &all {
        let name = v.name();
        assert_eq!(RedReq::parse(&name), Some(*v));
    }
    assert_eq!(RedReq::parse("TopW"), Some(RedReq::TopW));
    assert_eq!(RedReq::parse("nonsense"), None);
    assert_eq!(RedReq::parse(""), None);
}

#[test]
fn decimal_formatting_exact() {
    assert_eq!(u32_to_string(0), "0");
    assert_eq!(u32_to_string(7), "7");
    assert_eq!(u32_to_string(1234), "1234");
    assert_eq!(u64_to_string(50), "50");
    assert_eq!(u32_to_string(u32::MAX), "4294967295");
}

#[test]
fn decimal_parsing_exact() {
    assert_eq!(parse_u32("0"), Some(0));
    assert_eq!(parse_u32("40"), Some(40));
    assert_eq!(parse_u32("4294967295"), Some(u32::MAX));
    assert_eq!(parse_u32("4294967296"), None);
    assert_eq!(parse_u32("99999999999999999999"), None);
    assert_eq!(parse_u32(""), None);
    assert_eq!(parse_u32("12a"), None);
    assert_eq!(parse_u32("-1"), None);
}

#[test]
fn two_text_entries_give_two_text_messages() {
    // source "test", hot view, count 2; the feed answers with two
    // non-pinned text-only entries: both are delivered as plain text and
    // no fetch is ever planned
    let m = UrlMatches {
        image: StartEnd { starts: vec![], endings: vec![".jpg".to_string()] },
        video: StartEnd { starts: vec![], endings: vec![".mp4".to_string()] },
    };
    let mut r = rcmd(RedReq::Hot, "test", 2);
    let q = build_query(&r);
    assert_eq!(q.subreddit, "test");
    assert_eq!(q.limit, 2);
    let page = FeedPage {
        entries: vec![
            Post { title: "first".to_string(), url: None, stickied: false },
            Post { title: "second".to_string(), url: Some(String::new()), stickied: false },
        ],
        after: None,
    };
    let posts = redbot::feed::apply_feed(&mut r, Some(page));
    assert_eq!(posts.len(), 2);
    let mut texts = Vec::new();
    for p in &posts {
        match redbot::deliver::post_action(p, &m, "tok") {
            PostAction::TextOnly { text } => texts.push(text),
            other => panic!("expected plain text only, got {:?}", other),
        }
    }
    assert_eq!(texts, vec!["first".to_string(), "second".to_string()]);
}

#[test]
fn text_only_filter_is_a_policy() {
    let posts = vec![
        Post { title: "a".to_string(), url: None, stickied: false },
        Post { title: "b".to_string(), url: Some("https://x.y/z".to_string()), stickied: false },
        Post { title: "c".to_string(), url: Some(String::new()), stickied: false },
    ];
    let kept = filter_text_only(posts);
    let titles: Vec<&str> = kept.iter().map(|p| p.title.as_str()).collect();
    assert_eq!(titles, vec!["b"]);
}
