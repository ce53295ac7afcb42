use redbot::classify::{StartEnd, UrlMatches};
use redbot::config::{MyBotConfig, SubredditsCats, allowed, get_categories, get_subreddits};
use redbot::feed::{RedReq, RedditCmd};
use redbot::session::{
    Command, Effect, Event, State, attach_menu_id, chunk_buttons, clean_buttons, handle_event,
};

fn cats(pairs: &[(&str, &[&str])]) -> SubredditsCats {
    SubredditsCats {
        entries: pairs
            .iter()
            .map(|(k, subs)| (k.to_string(), subs.iter().map(|s| s.to_string()).collect()))
            .collect(),
    }
}

fn config(whitelist: &[i64]) -> MyBotConfig {
    MyBotConfig {
        cat_subreddits: cats(&[
            ("Fun", &["funny", "jokes"]),
            ("News", &["worldnews"]),
            ("Pics", &["pics", "earthporn", "itookapicture", "analog"]),
        ]),
        id_whitelist: whitelist.to_vec(),
        url_matches: UrlMatches {
            image: StartEnd { starts: vec![], endings: vec![".jpg".to_string()] },
            video: StartEnd { starts: vec![], endings: vec![".mp4".to_string()] },
        },
    }
}

fn rcmd() -> RedditCmd {
    RedditCmd {
        view: RedReq::Hot,
        subreddit: "test".to_string(),
        tot: 2,
        category: "News".to_string(),
        last_seen: None,
    }
}

#[test]
fn empty_whitelist_allows_everyone() {
    assert!(allowed(5, &vec![]));
    assert!(allowed(5, &vec![5, 6]));
    assert!(!allowed(7, &vec![5, 6]));
}

#[test]
fn start_denied_off_the_whitelist() {
    let cfg = config(&[10]);
    let step = handle_event(&cfg, None, 99, &State::Bouncer, Event::Command { cmd: Command::Start });
    assert_eq!(step.effects.len(), 2);
    assert!(matches!(step.effects[0], Effect::SetCommands));
    match &step.effects[1] {
        Effect::SendText { text } => assert_eq!(text, "Sorry dude, you're not in the whitelist."),
        other => panic!("expected denial, got {:?}", other),
    }
    assert!(step.next.is_none());
}

#[test]
fn start_presents_category_menu() {
    let cfg = config(&[]);
    let step = handle_event(&cfg, None, 99, &State::Bouncer, Event::Command { cmd: Command::Start });
    assert_eq!(step.effects.len(), 2);
    match &step.effects[1] {
        Effect::SendMenu { menu } => {
            assert_eq!(menu.text, "Select a category (or type in a subreddit):");
            assert_eq!(menu.rows.len(), 1);
            let labels: Vec<&str> = menu.rows[0].iter().map(|b| b.0.as_str()).collect();
            assert_eq!(labels, vec!["Fun", "News", "Pics"]);
        }
        other => panic!("expected the category menu, got {:?}", other),
    }
    assert!(matches!(step.next, Some(State::SelectSubreddit { prev: None })));
}

#[test]
fn chunking_three_per_row_with_remainder() {
    let items: Vec<String> = ["a", "b", "c", "d"].iter().map(|s| s.to_string()).collect();
    let rows = chunk_buttons(&items);
    assert_eq!(rows.len(), 2);
    assert_eq!(rows[0].len(), 3);
    assert_eq!(rows[1].len(), 1);
    assert_eq!(rows[1][0], ("d".to_string(), "d".to_string()));
    let nothing: Vec<String> = vec![];
    assert!(chunk_buttons(&nothing).is_empty());
}

#[test]
fn message_in_wrong_state_is_invalid() {
    let cfg = config(&[]);
    let ev = Event::Message { text: Some("hi".to_string()), doc_size: None };
    let step = handle_event(&cfg, None, 1, &State::Bouncer, ev);
    match &step.effects[0] {
        Effect::SendText { text } => {
            assert_eq!(text, "Unable to handle the message. Type /help to see the usage.")
        }
        other => panic!("expected the invalid-state text, got {:?}", other),
    }
    assert!(step.next.is_none());
}

#[test]
fn callback_in_wrong_state_is_invalid() {
    let cfg = config(&[]);
    let ev = Event::Callback { data: Some("News".to_string()) };
    let step = handle_event(&cfg, None, 1, &State::AcceptJSON, ev);
    assert_eq!(step.effects.len(), 1);
    assert!(matches!(&step.effects[0], Effect::SendText { .. }));
    assert!(step.next.is_none());
}

#[test]
fn category_button_presents_sources() {
    let cfg = config(&[]);
    let ev = Event::Callback { data: Some("Pics".to_string()) };
    let state = State::SelectSubreddit { prev: Some(41) };
    let step = handle_event(&cfg, None, 1, &state, ev);
    assert_eq!(step.effects.len(), 2);
    assert!(matches!(step.effects[0], Effect::RemoveMenu { msg: 41 }));
    match &step.effects[1] {
        Effect::SendMenu { menu } => {
            assert_eq!(menu.text, "Select a subreddit from Pics:");
            assert_eq!(menu.rows.len(), 2);
            assert_eq!(menu.rows[0].len(), 3);
            assert_eq!(menu.rows[1].len(), 1);
        }
        other => panic!("expected the source menu, got {:?}", other),
    }
    match step.next {
        Some(State::SelectView { rcmd, prev }) => {
            assert_eq!(rcmd.category, "Pics");
            assert_eq!(rcmd.subreddit, "");
            assert!(prev.is_none());
        }
        other => panic!("expected source selection, got {:?}", other),
    }
}

#[test]
fn unknown_category_offers_default_source() {
    let cfg = config(&[]);
    let ev = Event::Callback { data: Some("Nowhere".to_string()) };
    let step = handle_event(&cfg, None, 1, &State::SelectSubreddit { prev: None }, ev);
    match &step.effects[0] {
        Effect::SendMenu { menu } => {
            assert_eq!(menu.rows.len(), 1);
            assert_eq!(menu.rows[0], vec![("All".to_string(), "All".to_string())]);
        }
        other => panic!("expected the default source, got {:?}", other),
    }
}

#[test]
fn typed_source_skips_category_menu() {
    let cfg = config(&[]);
    let ev = Event::Message { text: Some("rust".to_string()), doc_size: None };
    let state = State::SelectSubreddit { prev: Some(7) };
    let step = handle_event(&cfg, None, 1, &state, ev);
    assert_eq!(step.effects.len(), 2);
    assert!(matches!(step.effects[0], Effect::RemoveMenu { msg: 7 }));
    match &step.effects[1] {
        Effect::SendMenu { menu } => {
            assert_eq!(menu.text, "Choose what to view from rust:");
            assert_eq!(menu.rows.len(), 1);
            let labels: Vec<&str> = menu.rows[0].iter().map(|b| b.0.as_str()).collect();
            assert_eq!(labels, vec!["Rise", "Hot", "TopD", "TopW", "TopM", "TopY", "TopA"]);
        }
        other => panic!("expected the view menu, got {:?}", other),
    }
    match step.next {
        Some(State::SelectTot { rcmd, .. }) => {
            assert_eq!(rcmd.subreddit, "rust");
            assert_eq!(rcmd.category, "Custom");
        }
        other => panic!("expected view selection, got {:?}", other),
    }
}

#[test]
fn view_button_presents_counts() {
    let cfg = config(&[]);
    let ev = Event::Callback { data: Some("TopW".to_string()) };
    let state = State::SelectTot { rcmd: rcmd(), prev: Some(3) };
    let step = handle_event(&cfg, None, 1, &state, ev);
    match &step.effects[1] {
        Effect::SendMenu { menu } => {
            assert_eq!(menu.text, "How many TopW posts?:");
            let labels: Vec<&str> = menu.rows[0].iter().map(|b| b.0.as_str()).collect();
            assert_eq!(labels, vec!["1", "2", "3", "5", "7", "10", "20", "40"]);
        }
        other => panic!("expected the count menu, got {:?}", other),
    }
    match step.next {
        Some(State::IssueCmd { rcmd, .. }) => assert_eq!(rcmd.view, RedReq::TopW),
        other => panic!("expected the issue state, got {:?}", other),
    }
}

#[test]
fn unknown_view_falls_back_to_hot() {
    let cfg = config(&[]);
    let ev = Event::Callback { data: Some("garbage".to_string()) };
    let state = State::SelectTot { rcmd: rcmd(), prev: None };
    let step = handle_event(&cfg, None, 1, &state, ev);
    match step.next {
        Some(State::IssueCmd { rcmd, .. }) => assert_eq!(rcmd.view, RedReq::Hot),
        other => panic!("expected the issue state, got {:?}", other),
    }
}

#[test]
fn count_button_asks_for_the_page() {
    let cfg = config(&[]);
    let ev = Event::Callback { data: Some("2".to_string()) };
    let state = State::IssueCmd { rcmd: rcmd(), prev: Some(9) };
    let step = handle_event(&cfg, None, 1, &state, ev);
    assert_eq!(step.effects.len(), 2);
    assert!(matches!(step.effects[0], Effect::RemoveMenu { msg: 9 }));
    match &step.effects[1] {
        Effect::FetchPage { rcmd } => {
            assert_eq!(rcmd.tot, 2);
            assert_eq!(rcmd.subreddit, "test");
        }
        other => panic!("expected a page fetch, got {:?}", other),
    }
    assert!(step.next.is_none());
}

#[test]
fn malformed_count_falls_back_to_one() {
    let cfg = config(&[]);
    let ev = Event::Callback { data: Some("lots".to_string()) };
    let step = handle_event(&cfg, None, 1, &State::IssueCmd { rcmd: rcmd(), prev: None }, ev);
    match &step.effects[0] {
        Effect::FetchPage { rcmd } => assert_eq!(rcmd.tot, 1),
        other => panic!("expected a page fetch, got {:?}", other),
    }
}

#[test]
fn fetched_page_shows_summary_and_menu() {
    let cfg = config(&[]);
    let state = State::IssueCmd { rcmd: rcmd(), prev: None };
    let step = handle_event(&cfg, None, 1, &state, Event::PageFetched { rcmd: rcmd() });
    assert_eq!(step.effects.len(), 2);
    match &step.effects[0] {
        Effect::SendMarkdown { text } => {
            assert_eq!(text, "*Shown 2 Hot posts from News / test*")
        }
        other => panic!("expected the summary, got {:?}", other),
    }
    match &step.effects[1] {
        Effect::SendMenu { menu } => {
            assert_eq!(menu.text, "What now?");
            assert_eq!(
                menu.rows[0],
                vec![
                    ("Done".to_string(), "Done".to_string()),
                    ("Show another page".to_string(), "Next".to_string())
                ]
            );
        }
        other => panic!("expected the after-page menu, got {:?}", other),
    }
    match step.next {
        Some(State::NextPage { rcmd, prev }) => {
            assert_eq!(rcmd.subreddit, "test");
            assert!(prev.is_none());
        }
        other => panic!("expected the next-page state, got {:?}", other),
    }
}

#[test]
fn failed_fetch_still_reaches_the_menu() {
    // the feed query failed: the page is empty, the cursor unchanged, and
    // the after-page menu still goes out
    let cfg = config(&[]);
    let mut r = rcmd();
    r.last_seen = Some("t3_keep".to_string());
    let posts = redbot::feed::apply_feed(&mut r, None);
    assert!(posts.is_empty());
    assert_eq!(r.last_seen, Some("t3_keep".to_string()));
    let state = State::NextPage { rcmd: rcmd(), prev: None };
    let step = handle_event(&cfg, None, 1, &state, Event::PageFetched { rcmd: r });
    assert!(matches!(&step.effects[1], Effect::SendMenu { .. }));
    assert!(matches!(step.next, Some(State::NextPage { .. })));
}

#[test]
fn next_fetches_another_page() {
    let cfg = config(&[]);
    let mut r = rcmd();
    r.last_seen = Some("t3_p2".to_string());
    let state = State::NextPage { rcmd: r, prev: Some(12) };
    let ev = Event::Callback { data: Some("Next".to_string()) };
    let step = handle_event(&cfg, None, 1, &state, ev);
    assert!(matches!(step.effects[0], Effect::RemoveMenu { msg: 12 }));
    match &step.effects[1] {
        Effect::FetchPage { rcmd } => assert_eq!(rcmd.last_seen, Some("t3_p2".to_string())),
        other => panic!("expected a page fetch, got {:?}", other),
    }
    assert!(step.next.is_none());
}

#[test]
fn done_returns_to_categories() {
    let cfg = config(&[]);
    let state = State::NextPage { rcmd: rcmd(), prev: Some(12) };
    let ev = Event::Callback { data: Some("Done".to_string()) };
    let step = handle_event(&cfg, None, 1, &state, ev);
    assert!(matches!(step.effects[0], Effect::RemoveMenu { msg: 12 }));
    assert!(matches!(&step.effects[1], Effect::SendMenu { .. }));
    assert!(matches!(step.next, Some(State::SelectSubreddit { prev: None })));
}

#[test]
fn menu_cleanup_is_idempotent() {
    // no previous menu: nothing to remove, no error, no effect
    assert!(clean_buttons(None).is_empty());
    let once = clean_buttons(Some(5));
    assert_eq!(once.len(), 1);
    assert!(matches!(once[0], Effect::RemoveMenu { msg: 5 }));
    // a step that removed the menu leaves prev empty, so the cleanup of the
    // following step removes nothing again
    let cfg = config(&[]);
    let state = State::NextPage { rcmd: rcmd(), prev: None };
    let ev = Event::Callback { data: Some("Done".to_string()) };
    let step = handle_event(&cfg, None, 1, &state, ev);
    assert!(matches!(&step.effects[0], Effect::SendMenu { .. }));
    assert_eq!(step.effects.len(), 1);
}

#[test]
fn upload_command_awaits_document() {
    let cfg = config(&[]);
    let ev = Event::Command { cmd: Command::SendSubs };
    let step = handle_event(&cfg, None, 1, &State::Bouncer, ev);
    match &step.effects[0] {
        Effect::SendText { text } => {
            assert_eq!(text, "Ok, please send the customized JSON file (as an attachment).")
        }
        other => panic!("expected the upload prompt, got {:?}", other),
    }
    assert!(matches!(step.next, Some(State::AcceptJSON)));
}

#[test]
fn upload_without_document_reprompts() {
    let cfg = config(&[]);
    let ev = Event::Message { text: None, doc_size: None };
    let step = handle_event(&cfg, None, 1, &State::AcceptJSON, ev);
    match &step.effects[0] {
        Effect::SendText { text } => {
            assert_eq!(text, "JSON file is missing, please send it as an attachment.")
        }
        other => panic!("expected the missing-file text, got {:?}", other),
    }
    assert!(step.next.is_none());
}

#[test]
fn upload_size_gate() {
    let cfg = config(&[]);
    let ev = Event::Message { text: None, doc_size: Some(19999) };
    let step = handle_event(&cfg, None, 1, &State::AcceptJSON, ev);
    assert!(matches!(step.effects[0], Effect::FetchUpload));
    let ev = Event::Message { text: None, doc_size: Some(20000) };
    let step = handle_event(&cfg, None, 1, &State::AcceptJSON, ev);
    match &step.effects[0] {
        Effect::SendText { text } => assert_eq!(
            text,
            "JSON file is too big, must be smaller than 20000 bytes. Please send it again."
        ),
        other => panic!("expected the too-big text, got {:?}", other),
    }
}

#[test]
fn malformed_upload_reports_and_stays() {
    let cfg = config(&[]);
    let ev = Event::UploadParsed { result: Err("key must be a string".to_string()) };
    let step = handle_event(&cfg, None, 1, &State::AcceptJSON, ev);
    assert_eq!(step.effects.len(), 1);
    match &step.effects[0] {
        Effect::SendText { text } => {
            assert_eq!(text, "Error while parsing your JSON file: key must be a string.")
        }
        other => panic!("expected the parse-error text, got {:?}", other),
    }
    // the state does not move: the conversation still awaits a document
    assert!(step.next.is_none());
}

#[test]
fn wellformed_upload_stored_and_menu_restarts() {
    let cfg = config(&[]);
    let uploaded = cats(&[("Mine", &["custom"])]);
    let ev = Event::UploadParsed { result: Ok(uploaded) };
    let step = handle_event(&cfg, None, 1, &State::AcceptJSON, ev);
    assert_eq!(step.effects.len(), 3);
    match &step.effects[0] {
        Effect::StorePrefs { subs } => assert_eq!(subs.entries[0].0, "Mine"),
        other => panic!("expected the store, got {:?}", other),
    }
    match &step.effects[1] {
        Effect::SendText { text } => {
            assert_eq!(text, "Your subreddits have been succesfully updated.")
        }
        other => panic!("expected the acknowledgement, got {:?}", other),
    }
    match &step.effects[2] {
        Effect::SendMenu { menu } => {
            let labels: Vec<&str> = menu.rows[0].iter().map(|b| b.0.as_str()).collect();
            assert_eq!(labels, vec!["Mine"]);
        }
        other => panic!("expected the new category menu, got {:?}", other),
    }
    assert!(matches!(step.next, Some(State::SelectSubreddit { prev: None })));
}

#[test]
fn stored_prefs_override_default() {
    let cfg = config(&[]);
    let stored = cats(&[("Mine", &["custom", "other"])]);
    let ev = Event::Command { cmd: Command::Start };
    let step = handle_event(&cfg, Some(stored), 1, &State::Bouncer, ev);
    match &step.effects[1] {
        Effect::SendMenu { menu } => {
            let labels: Vec<&str> = menu.rows[0].iter().map(|b| b.0.as_str()).collect();
            assert_eq!(labels, vec!["Mine"]);
        }
        other => panic!("expected the stored categories, got {:?}", other),
    }
}

#[test]
fn delete_command_round_trip() {
    let cfg = config(&[]);
    let step = handle_event(&cfg, None, 1, &State::Bouncer, Event::Command { cmd: Command::DelSubs });
    assert!(matches!(step.effects[0], Effect::DeletePrefs));
    assert!(step.next.is_none());
    // nothing was stored
    let step = handle_event(&cfg, None, 1, &State::Bouncer, Event::PrefsDeleted { removed: 0 });
    match &step.effects[0] {
        Effect::SendText { text } => assert_eq!(text, "There's no saved list to delete."),
        other => panic!("expected the nothing-deleted text, got {:?}", other),
    }
    assert!(matches!(step.effects[1], Effect::SetCommands));
    assert!(matches!(&step.effects[2], Effect::SendMenu { .. }));
    // something was stored
    let step = handle_event(&cfg, None, 1, &State::Bouncer, Event::PrefsDeleted { removed: 1 });
    match &step.effects[0] {
        Effect::SendText { text } => {
            assert_eq!(text, "Your customized list of subreddits has been deleted.")
        }
        other => panic!("expected the deleted text, got {:?}", other),
    }
}

#[test]
fn getsubs_sends_the_mapping() {
    let cfg = config(&[]);
    let step = handle_event(&cfg, None, 1, &State::Bouncer, Event::Command { cmd: Command::GetSubs });
    match &step.effects[0] {
        Effect::SendPrefsDoc { subs, file_name } => {
            assert_eq!(file_name, "my_subreddits.json");
            assert_eq!(subs.entries.len(), 3);
        }
        other => panic!("expected the mapping document, got {:?}", other),
    }
}

#[test]
fn help_lists_the_commands() {
    let cfg = config(&[]);
    let step = handle_event(&cfg, None, 1, &State::Bouncer, Event::Command { cmd: Command::Help });
    match &step.effects[0] {
        Effect::SendText { text } => {
            assert!(text.starts_with("These commands are supported:"));
            assert!(text.contains("/delsubs"));
        }
        other => panic!("expected the help text, got {:?}", other),
    }
}

#[test]
fn default_state_is_the_gate() {
    assert!(matches!(State::default(), State::Bouncer));
}

#[test]
fn menu_id_is_attached_to_the_new_state() {
    let s = attach_menu_id(State::SelectSubreddit { prev: None }, 33);
    assert!(matches!(s, State::SelectSubreddit { prev: Some(33) }));
    let s = attach_menu_id(State::NextPage { rcmd: rcmd(), prev: None }, 44);
    match s {
        State::NextPage { rcmd, prev } => {
            assert_eq!(prev, Some(44));
            assert_eq!(rcmd.subreddit, "test");
        }
        other => panic!("expected the id attached, got {:?}", other),
    }
    assert!(matches!(attach_menu_id(State::AcceptJSON, 9), State::AcceptJSON));
}

#[test]
fn category_lookup_helpers() {
    let c = cats(&[("A", &["x"]), ("B", &["y", "z"])]);
    let names = get_categories(&c);
    assert_eq!(names, vec!["A".to_string(), "B".to_string()]);
    assert_eq!(get_subreddits(&c, &"B".to_string()), vec!["y".to_string(), "z".to_string()]);
    assert_eq!(get_subreddits(&c, &"C".to_string()), vec!["All".to_string()]);
}

#[test]
fn duplicate_category_first_entry_wins() {
    let c = cats(&[("A", &["first"]), ("A", &["second"])]);
    assert_eq!(get_subreddits(&c, &"A".to_string()), vec!["first".to_string()]);
}
