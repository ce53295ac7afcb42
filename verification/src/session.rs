//! The session state machine. Each inbound chat event, together with the
//! session's current state, the shared configuration and the chat's stored
//! preference mapping, is mapped to a [`Step`]: the effects to perform, in
//! order, and the state to move to. Long-latency work (the feed query, the
//! preference store, the upload fetch) is an effect; its result comes back
//! as a follow-up event. An inbound event that no branch of the current
//! state handles gets the generic invalid-state response and leaves the
//! state unchanged.

use vstd::prelude::*;

verus! {

use vstd::string::StringExecFns;
use crate::config::{
    MyBotConfig,
    SubredditsCats,
    allowed,
    spec_allowed,
    spec_catsubs,
    same_cats,
    first_key_index,
    get_catsubs,
    get_categories,
    get_subreddits,
    clone_catsubs,
};
use crate::feed::{RedReq, RedditCmd};
use crate::text::{dec_str, dec_val, is_dec_string, parse_u32, str_eq, u32_to_string};

/// The commands the bot accepts.
#[derive(Clone, Copy, Debug, PartialEq, Eq, Structural)]
pub enum Command {
    Help,
    Start,
    GetSubs,
    SendSubs,
    DelSubs,
}

/// The conversation states. `prev` is the message id of the most recently
/// sent menu, kept so its buttons can be removed when the next menu goes
/// out.
#[derive(Debug)]
pub enum State {
    Bouncer,
    Start,
    SelectSubreddit { prev: Option<i32> },
    SelectView { rcmd: RedditCmd, prev: Option<i32> },
    SelectTot { rcmd: RedditCmd, prev: Option<i32> },
    IssueCmd { rcmd: RedditCmd, prev: Option<i32> },
    NextPage { rcmd: RedditCmd, prev: Option<i32> },
    AcceptJSON,
}

impl Default for State {
    /// A conversation starts at the entry gate.
    fn default() -> (r: Self)
        ensures
            r is Bouncer,
    {
        State::Bouncer
    }
}

/// An inline-keyboard message: its text and its rows of
/// (label, callback data) buttons.
#[derive(Debug)]
pub struct Menu {
    pub text: String,
    pub rows: Vec<Vec<(String, String)>>,
}

/// One thing the surrounding runtime is asked to do, in order.
#[derive(Debug)]
pub enum Effect {
    /// Publish the command list with the chat platform.
    SetCommands,
    /// Remove the inline keyboard of a previously sent menu message.
    RemoveMenu { msg: i32 },
    /// Send a plain text message.
    SendText { text: String },
    /// Send a markdown-formatted message; where the platform rejects the
    /// markdown, send the same text plain.
    SendMarkdown { text: String },
    /// Send a menu message; its message id becomes the new state's `prev`
    /// via [`attach_menu_id`].
    SendMenu { menu: Menu },
    /// Send the mapping to the chat as an attached document.
    SendPrefsDoc { subs: SubredditsCats, file_name: String },
    /// Fetch and parse the uploaded preference document; answer with
    /// [`Event::UploadParsed`].
    FetchUpload,
    /// Store the mapping as the chat's preferences.
    StorePrefs { subs: SubredditsCats },
    /// Delete the chat's stored preferences; answer with
    /// [`Event::PrefsDeleted`].
    DeletePrefs,
    /// Query the feed service per the request and deliver the page's
    /// entries; answer with [`Event::PageFetched`] carrying the request
    /// with its cursor moved on.
    FetchPage { rcmd: RedditCmd },
}

/// One inbound event: a chat event, or the answer to an asked-for effect.
#[derive(Debug)]
pub enum Event {
    Command { cmd: Command },
    Message { text: Option<String>, doc_size: Option<u64> },
    Callback { data: Option<String> },
    UploadParsed { result: Result<SubredditsCats, String> },
    PrefsDeleted { removed: u64 },
    PageFetched { rcmd: RedditCmd },
}

/// What one event amounts to: effects to perform in order, and the state to
/// move to (`None`: stay where the conversation is).
#[derive(Debug)]
pub struct Step {
    pub effects: Vec<Effect>,
    pub next: Option<State>,
}

/// An uploaded preference document may not be larger than this, in bytes.
pub const MAX_UPLOAD_BYTES: u64 = 20000;

// The fixed message texts.
pub open spec fn denial_text() -> Seq<char> {
    "Sorry dude, you're not in the whitelist."@
}

pub open spec fn help_text() -> Seq<char> {
    "These commands are supported:\n/help - Show available commands.\n/start - (Re)start the menu.\n/getsubs - Download JSON list of subreddits, to be edited.\n/sendsubs - Upload your customized JSON list of subreddits.\n/delsubs - Delete your customized JSON list of subreddits."@
}

pub open spec fn invalid_text() -> Seq<char> {
    "Unable to handle the message. Type /help to see the usage."@
}

pub open spec fn send_json_prompt() -> Seq<char> {
    "Ok, please send the customized JSON file (as an attachment)."@
}

pub open spec fn upload_missing_text() -> Seq<char> {
    "JSON file is missing, please send it as an attachment."@
}

pub open spec fn upload_too_big_text() -> Seq<char> {
    "JSON file is too big, must be smaller than 20000 bytes. Please send it again."@
}

pub open spec fn upload_ok_text() -> Seq<char> {
    "Your subreddits have been succesfully updated."@
}

pub open spec fn parse_error_text(e: Seq<char>) -> Seq<char> {
    "Error while parsing your JSON file: "@ + e + "."@
}

pub open spec fn del_none_text() -> Seq<char> {
    "There's no saved list to delete."@
}

pub open spec fn del_done_text() -> Seq<char> {
    "Your customized list of subreddits has been deleted."@
}

pub open spec fn category_menu_text() -> Seq<char> {
    "Select a category (or type in a subreddit):"@
}

// --- menu layout ---

/// The views of a list of strings.
pub open spec fn str_views(s: Seq<String>) -> Seq<Seq<char>> {
    s.map_values(|x: String| x@)
}

/// The category names of a mapping, in its order.
pub open spec fn cats_keys(c: SubredditsCats) -> Seq<Seq<char>> {
    Seq::new(c.spec_len(), |i: int| c.key_at(i))
}

/// `rows` lays the items out as buttons (label and data both the item),
/// three per row, the last row holding the remainder.
pub open spec fn chunked_rows(rows: Seq<Vec<(String, String)>>, items: Seq<Seq<char>>) -> bool {
    &&& rows.len() == (items.len() + 2) / 3
    &&& (forall|i: int|
        0 <= i < rows.len() ==> (#[trigger] rows[i])@.len() == (if (i + 1) * 3 <= items.len() {
            3int
        } else {
            items.len() - i * 3
        }))
    &&& (forall|i: int, j: int|
        0 <= i < rows.len() && 0 <= j < rows[i]@.len() ==> (0 <= i * 3 + j < items.len() && (
        #[trigger] rows[i]@[j]).0@ == items[i * 3 + j] && rows[i]@[j].1@ == items[i * 3 + j]))
}

/// Lays items out as button rows, label and data both the item, three per
/// row.
pub fn chunk_buttons(items: &Vec<String>) -> (r: Vec<Vec<(String, String)>>)
    ensures
        chunked_rows(r@, str_views(items@)),
{
    let n = items.len();
    let mut rows: Vec<Vec<(String, String)>> = Vec::new();
    let mut i: usize = 0;
    while i < n
        invariant
            n == items@.len(),
            i <= n,
            i < n ==> i == rows@.len() * 3,
            i == n ==> rows@.len() == (n + 2) as int / 3,
            forall|t: int|
                0 <= t < rows@.len() ==> (#[trigger] rows@[t])@.len() == (if (t + 1) * 3 <= n {
                    3int
                } else {
                    n - t * 3
                }),
            forall|t: int, j: int|
                0 <= t < rows@.len() && 0 <= j < rows@[t]@.len() ==> (0 <= t * 3 + j < n && (
                #[trigger] rows@[t]@[j]).0@ == items@[t * 3 + j]@ && rows@[t]@[j].1@ == items@[t * 3
                    + j]@),
        decreases n - i,
    {
        let ghost rlen0 = rows@.len() as int;
        let ghost i0 = i as int;
        let mut row: Vec<(String, String)> = Vec::new();
        let mut j: usize = 0;
        while j < 3 && i + j < n
            invariant
                n == items@.len(),
                i + j <= n,
                j <= 3,
                i == i0,
                row@.len() == j,
                forall|t: int|
                    0 <= t < j ==> (#[trigger] row@[t]).0@ == items@[i0 + t]@ && row@[t].1@
                        == items@[i0 + t]@,
            decreases 3 - j,
        {
            let s1 = items[i + j].clone();
            let s2 = items[i + j].clone();
            row.push((s1, s2));
            j += 1;
        }
        rows.push(row);
        i += j;
        proof {
            assert(rlen0 * 3 == i0);
            assert(j == 3 || i as int == n);
            assert forall|t: int, j2: int|
                0 <= t < rows@.len() && 0 <= j2 < rows@[t]@.len() implies (0 <= t * 3 + j2 < n && (
            #[trigger] rows@[t]@[j2]).0@ == items@[t * 3 + j2]@ && rows@[t]@[j2].1@ == items@[t * 3
                + j2]@) by {
                if t < rlen0 {
                    assert(rows@[t] == rows@.subrange(0, rlen0)[t]);
                } else {
                    assert(t == rlen0);
                    assert(t * 3 + j2 == i0 + j2);
                }
            }
        }
    }
    rows
}

/// The removal effects for a previous menu: one removal where one exists,
/// none where none does.
pub open spec fn remove_menu_effects(prev: Option<i32>) -> Seq<Effect> {
    match prev {
        None => Seq::empty(),
        Some(m) => seq![Effect::RemoveMenu { msg: m }],
    }
}

/// Law: removing a menu's controls is idempotent at this level. With no
/// previous menu there is nothing to remove and no effect is emitted, so
/// removing twice -- or removing where nothing was ever sent -- cannot
/// error. Every step below consumes `prev` and leaves `None` (or the id of
/// the menu it newly sent) in its place, so no removal is ever asked for
/// twice.
pub proof fn lemma_remove_menu_idempotent()
    ensures
        remove_menu_effects(None) =~= Seq::<Effect>::empty(),
        forall|m: i32| (#[trigger] remove_menu_effects(Some(m))).len() == 1,
{
}

/// The effects that remove the previous menu, if any.
pub fn clean_buttons(prev: Option<i32>) -> (r: Vec<Effect>)
    ensures
        r@ == remove_menu_effects(prev),
{
    match prev {
        None => {
            let r: Vec<Effect> = Vec::new();
            proof {
                assert(r@ =~= remove_menu_effects(None));
            }
            r
        },
        Some(m) => {
            let mut r: Vec<Effect> = Vec::new();
            r.push(Effect::RemoveMenu { msg: m });
            proof {
                assert(r@ =~= remove_menu_effects(Some(m)));
            }
            r
        },
    }
}

/// How many effects the previous-menu removal contributes.
pub open spec fn clean_len(prev: Option<i32>) -> int {
    if prev is Some {
        1
    } else {
        0
    }
}

/// The step's effects begin with the removal of the previous menu.
pub open spec fn cleans_prev(es: Seq<Effect>, prev: Option<i32>) -> bool {
    prev matches Some(m) ==> es.len() >= 1 && es[0] == (Effect::RemoveMenu { msg: m })
}

/// An exact copy of a request.
pub fn clone_rcmd(r: &RedditCmd) -> (c: RedditCmd)
    ensures
        c == *r,
{
    RedditCmd {
        view: r.view,
        subreddit: r.subreddit.clone(),
        tot: r.tot,
        category: r.category.clone(),
        last_seen: match &r.last_seen {
            None => None,
            Some(s) => Some(s.clone()),
        },
    }
}

/// Fills in the `prev` field of a freshly entered state with the id of the
/// menu message that was just sent; states without a menu are returned
/// unchanged.
pub fn attach_menu_id(state: State, msg: i32) -> (r: State)
    ensures
        state is Bouncer ==> r is Bouncer,
        state is Start ==> r is Start,
        state is AcceptJSON ==> r is AcceptJSON,
        state matches State::SelectSubreddit { .. } ==> r == (State::SelectSubreddit {
            prev: Some(msg),
        }),
        state matches State::SelectView { rcmd, .. } ==> r == (State::SelectView {
            rcmd,
            prev: Some(msg),
        }),
        state matches State::SelectTot { rcmd, .. } ==> r == (State::SelectTot {
            rcmd,
            prev: Some(msg),
        }),
        state matches State::IssueCmd { rcmd, .. } ==> r == (State::IssueCmd {
            rcmd,
            prev: Some(msg),
        }),
        state matches State::NextPage { rcmd, .. } ==> r == (State::NextPage {
            rcmd,
            prev: Some(msg),
        }),
{
    match state {
        State::Bouncer => State::Bouncer,
        State::Start => State::Start,
        State::AcceptJSON => State::AcceptJSON,
        State::SelectSubreddit { .. } => State::SelectSubreddit { prev: Some(msg) },
        State::SelectView { rcmd, .. } => State::SelectView { rcmd, prev: Some(msg) },
        State::SelectTot { rcmd, .. } => State::SelectTot { rcmd, prev: Some(msg) },
        State::IssueCmd { rcmd, .. } => State::IssueCmd { rcmd, prev: Some(msg) },
        State::NextPage { rcmd, .. } => State::NextPage { rcmd, prev: Some(msg) },
    }
}

// --- the handlers ---

/// A step that sends one fixed text and stays put.
pub open spec fn text_only_step(r: Step, t: Seq<char>) -> bool {
    &&& r.effects@.len() == 1
    &&& r.effects@[0] matches Effect::SendText { text } && text@ == t
    &&& r.next is None
}

fn text_step(t: &str) -> (r: Step)
    ensures
        text_only_step(r, t@),
{
    let mut effects: Vec<Effect> = Vec::new();
    effects.push(Effect::SendText { text: String::from_str(t) });
    Step { effects, next: None }
}

pub fn help() -> (r: Step)
    ensures
        text_only_step(r, help_text()),
{
    text_step(
        "These commands are supported:\n/help - Show available commands.\n/start - (Re)start the menu.\n/getsubs - Download JSON list of subreddits, to be edited.\n/sendsubs - Upload your customized JSON list of subreddits.\n/delsubs - Delete your customized JSON list of subreddits.",
    )
}

/// The generic answer to an event the current state has no branch for; the
/// state does not change.
pub fn invalid_state() -> (r: Step)
    ensures
        text_only_step(r, invalid_text()),
{
    text_step("Unable to handle the message. Type /help to see the usage.")
}

/// A step that does nothing: for answers to asked-for work arriving in a
/// state that no longer expects them.
pub fn ignore_event() -> (r: Step)
    ensures
        r.effects@.len() == 0,
        r.next is None,
{
    Step { effects: Vec::new(), next: None }
}

/// The category menu for a mapping.
pub open spec fn category_menu(menu: Menu, cats: SubredditsCats) -> bool {
    &&& menu.text@ == category_menu_text()
    &&& chunked_rows(menu.rows@, cats_keys(cats))
}

/// Builds the category menu: one button per category of the mapping, three
/// per row.
pub fn select_category(cats: &SubredditsCats) -> (m: Menu)
    ensures
        category_menu(m, *cats),
{
    let items = get_categories(cats);
    let rows = chunk_buttons(&items);
    proof {
        assert(str_views(items@) =~= cats_keys(*cats));
    }
    Menu { text: String::from_str("Select a category (or type in a subreddit):"), rows }
}

/// The entry gate: publish the commands; an allow-listed chat gets the
/// category menu and enters the source-selection state, any other chat gets
/// the denial and the state does not move.
pub open spec fn bouncer_post(
    cfg: &MyBotConfig,
    prefs: Option<SubredditsCats>,
    chat_id: i64,
    r: Step,
) -> bool {
    &&& r.effects@.len() == 2
    &&& r.effects@[0] is SetCommands
    &&& (!spec_allowed(chat_id, cfg.id_whitelist@) ==> ({
        &&& r.effects@[1] matches Effect::SendText { text } && text@ == denial_text()
        &&& r.next is None
    }))
    &&& (spec_allowed(chat_id, cfg.id_whitelist@) ==> ({
        &&& r.effects@[1] matches Effect::SendMenu { menu } && category_menu(
            menu,
            spec_catsubs(cfg, prefs),
        )
        &&& r.next matches Some(s) && s == (State::SelectSubreddit { prev: None })
    }))
}

pub fn bouncer(cfg: &MyBotConfig, prefs: Option<SubredditsCats>, chat_id: i64) -> (r: Step)
    ensures
        bouncer_post(cfg, prefs, chat_id, r),
{
    let mut effects: Vec<Effect> = Vec::new();
    effects.push(Effect::SetCommands);
    if !allowed(chat_id, &cfg.id_whitelist) {
        effects.push(
            Effect::SendText { text: String::from_str("Sorry dude, you're not in the whitelist.") },
        );
        return Step { effects, next: None };
    }
    let cats = get_catsubs(cfg, prefs);
    let menu = select_category(&cats);
    proof {
        assert(cats_keys(cats) =~= cats_keys(spec_catsubs(cfg, prefs)));
    }
    effects.push(Effect::SendMenu { menu });
    Step { effects, next: Some(State::SelectSubreddit { prev: None }) }
}

/// The preference-download command: denial off the allow-list; otherwise
/// the chat's mapping goes out as an attached document and the state does
/// not move.
pub open spec fn get_json_post(
    cfg: &MyBotConfig,
    prefs: Option<SubredditsCats>,
    chat_id: i64,
    r: Step,
) -> bool {
    &&& (!spec_allowed(chat_id, cfg.id_whitelist@) ==> text_only_step(r, denial_text()))
    &&& (spec_allowed(chat_id, cfg.id_whitelist@) ==> ({
        &&& r.effects@.len() == 1
        &&& r.effects@[0] matches Effect::SendPrefsDoc { subs, file_name } && same_cats(
            subs,
            spec_catsubs(cfg, prefs),
        ) && file_name@ == "my_subreddits.json"@
        &&& r.next is None
    }))
}

pub fn get_json(cfg: &MyBotConfig, prefs: Option<SubredditsCats>, chat_id: i64) -> (r: Step)
    ensures
        get_json_post(cfg, prefs, chat_id, r),
{
    if !allowed(chat_id, &cfg.id_whitelist) {
        return text_step("Sorry dude, you're not in the whitelist.");
    }
    let subs = get_catsubs(cfg, prefs);
    let mut effects: Vec<Effect> = Vec::new();
    effects.push(
        Effect::SendPrefsDoc { subs, file_name: String::from_str("my_subreddits.json") },
    );
    Step { effects, next: None }
}

/// The preference-upload command: denial off the allow-list; otherwise the
/// prompt, and the conversation awaits the document.
pub open spec fn send_json_post(cfg: &MyBotConfig, chat_id: i64, r: Step) -> bool {
    &&& (!spec_allowed(chat_id, cfg.id_whitelist@) ==> text_only_step(r, denial_text()))
    &&& (spec_allowed(chat_id, cfg.id_whitelist@) ==> ({
        &&& r.effects@.len() == 1
        &&& r.effects@[0] matches Effect::SendText { text } && text@ == send_json_prompt()
        &&& r.next matches Some(s) && s is AcceptJSON
    }))
}

pub fn send_json(cfg: &MyBotConfig, chat_id: i64) -> (r: Step)
    ensures
        send_json_post(cfg, chat_id, r),
{
    if !allowed(chat_id, &cfg.id_whitelist) {
        return text_step("Sorry dude, you're not in the whitelist.");
    }
    let mut effects: Vec<Effect> = Vec::new();
    effects.push(
        Effect::SendText {
            text: String::from_str("Ok, please send the customized JSON file (as an attachment)."),
        },
    );
    Step { effects, next: Some(State::AcceptJSON) }
}

/// The preference-delete command asks the store for the deletion; the
/// answer comes back as [`Event::PrefsDeleted`].
pub open spec fn del_json_post(r: Step) -> bool {
    &&& r.effects@.len() == 1
    &&& r.effects@[0] is DeletePrefs
    &&& r.next is None
}

pub fn del_json() -> (r: Step)
    ensures
        del_json_post(r),
{
    let mut effects: Vec<Effect> = Vec::new();
    effects.push(Effect::DeletePrefs);
    Step { effects, next: None }
}

/// After the deletion: report whether anything was deleted, then run the
/// entry gate again (the stored mapping is gone, so the menu comes from
/// the passed-in mapping, normally the configured default).
pub open spec fn prefs_deleted_post(
    cfg: &MyBotConfig,
    prefs: Option<SubredditsCats>,
    chat_id: i64,
    removed: u64,
    r: Step,
) -> bool {
    &&& r.effects@.len() == 3
    &&& r.effects@[0] matches Effect::SendText { text } && text@ == (if removed == 0 {
        del_none_text()
    } else {
        del_done_text()
    })
    &&& r.effects@[1] is SetCommands
    &&& (!spec_allowed(chat_id, cfg.id_whitelist@) ==> ({
        &&& r.effects@[2] matches Effect::SendText { text } && text@ == denial_text()
        &&& r.next is None
    }))
    &&& (spec_allowed(chat_id, cfg.id_whitelist@) ==> ({
        &&& r.effects@[2] matches Effect::SendMenu { menu } && category_menu(
            menu,
            spec_catsubs(cfg, prefs),
        )
        &&& r.next matches Some(s) && s == (State::SelectSubreddit { prev: None })
    }))
}

pub fn prefs_deleted(
    cfg: &MyBotConfig,
    prefs: Option<SubredditsCats>,
    chat_id: i64,
    removed: u64,
) -> (r: Step)
    ensures
        prefs_deleted_post(cfg, prefs, chat_id, removed, r),
{
    let text = if removed == 0 {
        String::from_str("There's no saved list to delete.")
    } else {
        String::from_str("Your customized list of subreddits has been deleted.")
    };
    let mut effects: Vec<Effect> = Vec::new();
    effects.push(Effect::SendText { text });
    let tail = bouncer(cfg, prefs, chat_id);
    let Step { effects: tail_effects, next } = tail;
    // the entry gate's two effects follow the report, in their order
    let mut tail_effects = tail_effects;
    let e2 = tail_effects.pop().unwrap();
    let e1 = tail_effects.pop().unwrap();
    effects.push(e1);
    effects.push(e2);
    Step { effects, next }
}

/// The upload state's answer to a message: no attachment asks for one
/// again; a small enough attachment is fetched and parsed; an oversized one
/// is refused with the limit named. The conversation stays in the upload
/// state throughout.
pub open spec fn accept_json_post(doc_size: Option<u64>, r: Step) -> bool {
    &&& (doc_size is None ==> text_only_step(r, upload_missing_text()))
    &&& (doc_size matches Some(sz) && sz < MAX_UPLOAD_BYTES ==> ({
        &&& r.effects@.len() == 1
        &&& r.effects@[0] is FetchUpload
        &&& r.next is None
    }))
    &&& (doc_size matches Some(sz) && sz >= MAX_UPLOAD_BYTES ==> text_only_step(
        r,
        upload_too_big_text(),
    ))
}

pub fn accept_json(doc_size: Option<u64>) -> (r: Step)
    ensures
        accept_json_post(doc_size, r),
{
    match doc_size {
        None => text_step("JSON file is missing, please send it as an attachment."),
        Some(sz) => {
            if sz < MAX_UPLOAD_BYTES {
                let mut effects: Vec<Effect> = Vec::new();
                effects.push(Effect::FetchUpload);
                Step { effects, next: None }
            } else {
                text_step(
                    "JSON file is too big, must be smaller than 20000 bytes. Please send it again.",
                )
            }
        },
    }
}

/// The parsed upload: a malformed document gets the parse error echoed and
/// the conversation stays awaiting a document; a well-formed one is stored,
/// acknowledged, and the menu starts over from its categories.
pub open spec fn accept_json_parsed_post(result: Result<SubredditsCats, String>, r: Step) -> bool {
    &&& (result matches Err(e) ==> text_only_step(r, parse_error_text(e@)))
    &&& (result matches Ok(subs) ==> ({
        &&& r.effects@.len() == 3
        &&& r.effects@[0] matches Effect::StorePrefs { subs: stored } && same_cats(stored, subs)
        &&& r.effects@[1] matches Effect::SendText { text } && text@ == upload_ok_text()
        &&& r.effects@[2] matches Effect::SendMenu { menu } && category_menu(menu, subs)
        &&& r.next matches Some(s) && s == (State::SelectSubreddit { prev: None })
    }))
}

pub fn accept_json_parsed(result: Result<SubredditsCats, String>) -> (r: Step)
    ensures
        accept_json_parsed_post(result, r),
{
    match result {
        Err(e) => {
            let text = String::from_str("Error while parsing your JSON file: ").concat(
                e.as_str(),
            ).concat(".");
            let mut effects: Vec<Effect> = Vec::new();
            effects.push(Effect::SendText { text });
            Step { effects, next: None }
        },
        Ok(subs) => {
            let menu = select_category(&subs);
            let stored = clone_catsubs(&subs);
            let mut effects: Vec<Effect> = Vec::new();
            effects.push(Effect::StorePrefs { subs: stored });
            effects.push(
                Effect::SendText {
                    text: String::from_str("Your subreddits have been succesfully updated."),
                },
            );
            effects.push(Effect::SendMenu { menu });
            Step { effects, next: Some(State::SelectSubreddit { prev: None }) }
        },
    }
}


// --- the menu flow ---

/// The callback data, or the default where the event carried none.
pub open spec fn cb_or(data: Option<String>, dflt: Seq<char>) -> Seq<char> {
    if data is Some {
        data->0@
    } else {
        dflt
    }
}

/// One row holding every view mode as a button, in menu order.
pub open spec fn views_row(rows: Seq<Vec<(String, String)>>) -> bool {
    &&& rows.len() == 1
    &&& rows[0]@.len() == 7
    &&& (forall|j: int|
        0 <= j < 7 ==> (#[trigger] rows[0]@[j]).0@ == crate::feed::all_views()[j].spec_name()
            && rows[0]@[j].1@ == crate::feed::all_views()[j].spec_name())
}

/// The view-mode menu for a chosen source.
pub open spec fn view_menu_post(menu: Menu, sub: Seq<char>) -> bool {
    &&& menu.text@ == "Choose what to view from "@ + sub + ":"@
    &&& views_row(menu.rows@)
}

/// Choosing the source: the previous menu's buttons go away, the view-mode
/// menu goes out, and the conversation moves to choosing the view with the
/// source recorded (the other request fields are carried over).
pub open spec fn select_view_core_post(
    rcmd: RedditCmd,
    sub: Seq<char>,
    prev: Option<i32>,
    r: Step,
) -> bool {
    &&& r.effects@.len() == clean_len(prev) + 1
    &&& cleans_prev(r.effects@, prev)
    &&& r.effects@[clean_len(prev)] matches Effect::SendMenu { menu } && view_menu_post(menu, sub)
    &&& r.next matches Some(s) && s matches State::SelectTot { rcmd: r2, prev: p2 } && ({
        &&& r2.view == rcmd.view
        &&& r2.subreddit@ == sub
        &&& r2.tot == rcmd.tot
        &&& r2.category == rcmd.category
        &&& r2.last_seen == rcmd.last_seen
        &&& p2 is None
    })
}

/// Records the chosen source and presents the view-mode menu.
pub fn select_view_core(subreddit: String, rcmd: &RedditCmd, prev: Option<i32>) -> (r: Step)
    ensures
        select_view_core_post(*rcmd, subreddit@, prev, r),
{
    let mut effects = clean_buttons(prev);
    let text = String::from_str("Choose what to view from ").concat(subreddit.as_str()).concat(
        ":",
    );
    let views = RedReq::all();
    let mut row: Vec<(String, String)> = Vec::new();
    let mut i: usize = 0;
    while i < views.len()
        invariant
            views@ == crate::feed::all_views(),
            0 <= i <= 7,
            row@.len() == i,
            forall|t: int|
                0 <= t < i ==> (#[trigger] row@[t]).0@ == crate::feed::all_views()[t].spec_name()
                    && row@[t].1@ == crate::feed::all_views()[t].spec_name(),
        decreases views@.len() - i,
    {
        let n1 = views[i].name();
        let n2 = views[i].name();
        row.push((n1, n2));
        i += 1;
    }
    let mut rows: Vec<Vec<(String, String)>> = Vec::new();
    rows.push(row);
    let menu = Menu { text, rows };
    effects.push(Effect::SendMenu { menu });
    let rcmd2 = RedditCmd { subreddit, ..clone_rcmd(rcmd) };
    Step { effects, next: Some(State::SelectTot { rcmd: rcmd2, prev: None }) }
}

/// A free-typed source name (bypassing the category menu): a fresh request
/// is built around it and the flow continues at the view-mode menu.
pub open spec fn sub_from_msg_post(text: Option<String>, prev: Option<i32>, r: Step) -> bool {
    &&& r.effects@.len() == clean_len(prev) + 1
    &&& cleans_prev(r.effects@, prev)
    &&& r.effects@[clean_len(prev)] matches Effect::SendMenu { menu } && view_menu_post(
        menu,
        cb_or(text, "All"@),
    )
    &&& r.next matches Some(s) && s matches State::SelectTot { rcmd: r2, prev: p2 } && ({
        &&& r2.view is Hot
        &&& r2.subreddit@ == cb_or(text, "All"@)
        &&& r2.tot == 0
        &&& r2.category@ == "Custom"@
        &&& r2.last_seen is None
        &&& p2 is None
    })
}

pub fn sub_from_msg(text: Option<String>, prev: Option<i32>) -> (r: Step)
    ensures
        sub_from_msg_post(text, prev, r),
{
    let sub = match text {
        None => String::from_str("All"),
        Some(s) => s,
    };
    let rcmd = RedditCmd {
        view: RedReq::Hot,
        subreddit: String::new(),
        tot: 0,
        category: String::from_str("Custom"),
        last_seen: None,
    };
    select_view_core(sub, &rcmd, prev)
}

/// The source menu for a category: the sources the mapping holds for it,
/// or the one-element default list where it holds none.
pub open spec fn sub_menu_post(menu: Menu, model: SubredditsCats, cat: Seq<char>) -> bool {
    &&& menu.text@ == "Select a subreddit from "@ + cat + ":"@
    &&& ({
        let idx = first_key_index(model, cat);
        if idx >= 0 {
            chunked_rows(menu.rows@, str_views(model.subs_at(idx)))
        } else {
            chunked_rows(menu.rows@, seq!["All"@])
        }
    })
}

/// A category was picked: its source menu goes out and the conversation
/// moves to source selection with a fresh request carrying the category.
pub open spec fn select_subreddit_post(
    cfg: &MyBotConfig,
    prefs: Option<SubredditsCats>,
    data: Option<String>,
    prev: Option<i32>,
    r: Step,
) -> bool {
    &&& r.effects@.len() == clean_len(prev) + 1
    &&& cleans_prev(r.effects@, prev)
    &&& r.effects@[clean_len(prev)] matches Effect::SendMenu { menu } && sub_menu_post(
        menu,
        spec_catsubs(cfg, prefs),
        cb_or(data, "News"@),
    )
    &&& r.next matches Some(s) && s matches State::SelectView { rcmd: r2, prev: p2 } && ({
        &&& r2.view is Hot
        &&& r2.subreddit@.len() == 0
        &&& r2.tot == 0
        &&& r2.category@ == cb_or(data, "News"@)
        &&& r2.last_seen is None
        &&& p2 is None
    })
}

pub fn select_subreddit(
    cfg: &MyBotConfig,
    prefs: Option<SubredditsCats>,
    data: Option<String>,
    prev: Option<i32>,
) -> (r: Step)
    ensures
        select_subreddit_post(cfg, prefs, data, prev, r),
{
    let mut effects = clean_buttons(prev);
    let category = match data {
        None => String::from_str("News"),
        Some(s) => s,
    };
    let model = get_catsubs(cfg, prefs);
    let subs = get_subreddits(&model, &category);
    proof {
        crate::config::lemma_same_cats_first_key(
            model,
            spec_catsubs(cfg, prefs),
            category@,
            0,
        );
    }
    let rows = chunk_buttons(&subs);
    proof {
        let ghost spec_model = spec_catsubs(cfg, prefs);
        let idx = first_key_index(spec_model, category@);
        crate::config::lemma_first_key_from_range(spec_model, category@, 0);
        if idx >= 0 {
            assert(model.subs_at(idx) == spec_model.subs_at(idx));
            assert(str_views(subs@) =~= str_views(spec_model.subs_at(idx)));
        } else {
            assert(str_views(subs@) =~= seq!["All"@]);
        }
    }
    let text = String::from_str("Select a subreddit from ").concat(category.as_str()).concat(
        ":",
    );
    let menu = Menu { text, rows };
    effects.push(Effect::SendMenu { menu });
    let rcmd = RedditCmd {
        view: RedReq::Hot,
        subreddit: String::new(),
        tot: 0,
        category,
        last_seen: None,
    };
    Step { effects, next: Some(State::SelectView { rcmd, prev: None }) }
}

/// A source was picked by button: continue at the view-mode menu.
pub fn select_view(rcmd: &RedditCmd, data: Option<String>, prev: Option<i32>) -> (r: Step)
    ensures
        select_view_core_post(*rcmd, cb_or(data, "all"@), prev, r),
{
    let sub = match data {
        None => String::from_str("all"),
        Some(s) => s,
    };
    select_view_core(sub, rcmd, prev)
}

/// The page sizes on offer.
pub open spec fn tot_options() -> Seq<u32> {
    seq![1u32, 2u32, 3u32, 5u32, 7u32, 10u32, 20u32, 40u32]
}

/// One row holding every page-size choice as a button.
pub open spec fn tots_row(rows: Seq<Vec<(String, String)>>) -> bool {
    &&& rows.len() == 1
    &&& rows[0]@.len() == 8
    &&& (forall|j: int|
        0 <= j < 8 ==> (#[trigger] rows[0]@[j]).0@ == dec_str(tot_options()[j] as nat)
            && rows[0]@[j].1@ == dec_str(tot_options()[j] as nat))
}

/// The view mode a callback chose: the named mode, or the hot view where
/// the data is absent or names none.
pub open spec fn chosen_view(data: Option<String>) -> RedReq {
    match crate::feed::spec_parse_req(cb_or(data, "Hot"@)) {
        Some(v) => v,
        None => RedReq::Hot,
    }
}

/// A view mode was picked: it is recorded, and the page-size menu goes out.
pub open spec fn select_tot_post(
    rcmd: RedditCmd,
    data: Option<String>,
    prev: Option<i32>,
    r: Step,
) -> bool {
    &&& r.effects@.len() == clean_len(prev) + 1
    &&& cleans_prev(r.effects@, prev)
    &&& r.effects@[clean_len(prev)] matches Effect::SendMenu { menu } && ({
        &&& menu.text@ == "How many "@ + chosen_view(data).spec_name() + " posts?:"@
        &&& tots_row(menu.rows@)
    })
    &&& r.next matches Some(s) && s matches State::IssueCmd { rcmd: r2, prev: p2 } && ({
        &&& r2.view == chosen_view(data)
        &&& r2.subreddit == rcmd.subreddit
        &&& r2.tot == rcmd.tot
        &&& r2.category == rcmd.category
        &&& r2.last_seen == rcmd.last_seen
        &&& p2 is None
    })
}

pub fn select_tot(rcmd: &RedditCmd, data: Option<String>, prev: Option<i32>) -> (r: Step)
    ensures
        select_tot_post(*rcmd, data, prev, r),
{
    let mut effects = clean_buttons(prev);
    let vstr = match data {
        None => String::from_str("Hot"),
        Some(s) => s,
    };
    let view = match RedReq::parse(vstr.as_str()) {
        Some(v) => v,
        None => RedReq::Hot,
    };
    let mut opts: Vec<u32> = Vec::new();
    opts.push(1);
    opts.push(2);
    opts.push(3);
    opts.push(5);
    opts.push(7);
    opts.push(10);
    opts.push(20);
    opts.push(40);
    proof {
        assert(opts@ =~= tot_options());
    }
    let mut row: Vec<(String, String)> = Vec::new();
    let mut i: usize = 0;
    while i < opts.len()
        invariant
            opts@ == tot_options(),
            0 <= i <= 8,
            row@.len() == i,
            forall|t: int|
                0 <= t < i ==> (#[trigger] row@[t]).0@ == dec_str(tot_options()[t] as nat)
                    && row@[t].1@ == dec_str(tot_options()[t] as nat),
        decreases opts@.len() - i,
    {
        let n1 = u32_to_string(opts[i]);
        let n2 = u32_to_string(opts[i]);
        row.push((n1, n2));
        i += 1;
    }
    let mut rows: Vec<Vec<(String, String)>> = Vec::new();
    rows.push(row);
    let text = String::from_str("How many ").concat(view.name().as_str()).concat(" posts?:");
    let menu = Menu { text, rows };
    effects.push(Effect::SendMenu { menu });
    let rcmd2 = RedditCmd { view, ..clone_rcmd(rcmd) };
    Step { effects, next: Some(State::IssueCmd { rcmd: rcmd2, prev: None }) }
}

/// The page size a callback chose: its decimal value, or one where the
/// data is absent, malformed or out of range.
pub open spec fn chosen_tot(data: Option<String>) -> u32 {
    if data matches Some(s) && is_dec_string(s@) && dec_val(s@) <= u32::MAX {
        dec_val(data->0@) as u32
    } else {
        1u32
    }
}

/// A page size was picked: the first page is asked for; the answer comes
/// back as [`Event::PageFetched`] and shows the after-page menu.
pub open spec fn issue_cmd_post(
    rcmd: RedditCmd,
    data: Option<String>,
    prev: Option<i32>,
    r: Step,
) -> bool {
    &&& r.effects@.len() == clean_len(prev) + 1
    &&& cleans_prev(r.effects@, prev)
    &&& r.effects@[clean_len(prev)] matches Effect::FetchPage { rcmd: rq } && ({
        &&& rq.view == rcmd.view
        &&& rq.subreddit == rcmd.subreddit
        &&& rq.tot == chosen_tot(data)
        &&& rq.category == rcmd.category
        &&& rq.last_seen == rcmd.last_seen
    })
    &&& r.next is None
}

pub fn issue_cmd(rcmd: &RedditCmd, data: Option<String>, prev: Option<i32>) -> (r: Step)
    ensures
        issue_cmd_post(*rcmd, data, prev, r),
{
    let mut effects = clean_buttons(prev);
    let tot: u32 = match &data {
        None => 1,
        Some(s) => match parse_u32(s.as_str()) {
            Some(v) => v,
            None => 1,
        },
    };
    let rq = RedditCmd { tot, ..clone_rcmd(rcmd) };
    effects.push(Effect::FetchPage { rcmd: rq });
    Step { effects, next: None }
}

/// The callback data asks for the next page.
pub open spec fn wants_next(data: Option<String>) -> bool {
    data matches Some(s) && s@ == "Next"@
}

/// The after-page menu was answered: another page is fetched with the
/// stored cursor, or the flow is done and starts over at the category
/// menu.
pub open spec fn next_page_post(
    cfg: &MyBotConfig,
    prefs: Option<SubredditsCats>,
    rcmd: RedditCmd,
    data: Option<String>,
    prev: Option<i32>,
    r: Step,
) -> bool {
    &&& (wants_next(data) ==> ({
        &&& r.effects@.len() == clean_len(prev) + 1
        &&& cleans_prev(r.effects@, prev)
        &&& r.effects@[clean_len(prev)] matches Effect::FetchPage { rcmd: rq } && rq == rcmd
        &&& r.next is None
    }))
    &&& (!wants_next(data) ==> ({
        &&& r.effects@.len() == clean_len(prev) + 1
        &&& cleans_prev(r.effects@, prev)
        &&& r.effects@[clean_len(prev)] matches Effect::SendMenu { menu } && category_menu(
            menu,
            spec_catsubs(cfg, prefs),
        )
        &&& r.next matches Some(s) && s == (State::SelectSubreddit { prev: None })
    }))
}

pub fn next_page(
    cfg: &MyBotConfig,
    prefs: Option<SubredditsCats>,
    rcmd: &RedditCmd,
    data: Option<String>,
    prev: Option<i32>,
) -> (r: Step)
    ensures
        next_page_post(cfg, prefs, *rcmd, data, prev, r),
{
    let mut effects = clean_buttons(prev);
    let is_next = match &data {
        None => false,
        Some(s) => str_eq(s.as_str(), "Next"),
    };
    if is_next {
        effects.push(Effect::FetchPage { rcmd: clone_rcmd(rcmd) });
        Step { effects, next: None }
    } else {
        let cats = get_catsubs(cfg, prefs);
        let menu = select_category(&cats);
        proof {
            assert(cats_keys(cats) =~= cats_keys(spec_catsubs(cfg, prefs)));
        }
        effects.push(Effect::SendMenu { menu });
        Step { effects, next: Some(State::SelectSubreddit { prev: None }) }
    }
}

/// The page summary line, markdown-formatted.
pub open spec fn summary_text(rcmd: RedditCmd) -> Seq<char> {
    "*Shown "@ + dec_str(rcmd.tot as nat) + " "@ + rcmd.view.spec_name() + " posts from "@
        + rcmd.category@ + " / "@ + rcmd.subreddit@ + "*"@
}

/// The after-page menu: done, or another page.
pub open spec fn what_now_menu(menu: Menu) -> bool {
    &&& menu.text@ == "What now?"@
    &&& menu.rows@.len() == 1
    &&& menu.rows@[0]@.len() == 2
    &&& menu.rows@[0]@[0].0@ == "Done"@
    &&& menu.rows@[0]@[0].1@ == "Done"@
    &&& menu.rows@[0]@[1].0@ == "Show another page"@
    &&& menu.rows@[0]@[1].1@ == "Next"@
}

/// A page went out: the summary goes to the chat (markdown, falling back
/// to plain text), then the after-page menu, and the conversation holds
/// the request -- its cursor already moved on -- for the next page.
pub open spec fn send_page_post(rcmd: RedditCmd, r: Step) -> bool {
    &&& r.effects@.len() == 2
    &&& r.effects@[0] matches Effect::SendMarkdown { text } && text@ == summary_text(rcmd)
    &&& r.effects@[1] matches Effect::SendMenu { menu } && what_now_menu(menu)
    &&& r.next matches Some(s) && s matches State::NextPage { rcmd: r2, prev: p2 } && r2 == rcmd
        && p2 is None
}

pub fn send_page(rcmd: &RedditCmd) -> (r: Step)
    ensures
        send_page_post(*rcmd, r),
{
    let text = String::from_str("*Shown ").concat(u32_to_string(rcmd.tot).as_str()).concat(
        " ",
    ).concat(rcmd.view.name().as_str()).concat(" posts from ").concat(
        rcmd.category.as_str(),
    ).concat(" / ").concat(rcmd.subreddit.as_str()).concat("*");
    let mut effects: Vec<Effect> = Vec::new();
    effects.push(Effect::SendMarkdown { text });
    let mut row: Vec<(String, String)> = Vec::new();
    row.push((String::from_str("Done"), String::from_str("Done")));
    row.push((String::from_str("Show another page"), String::from_str("Next")));
    let mut rows: Vec<Vec<(String, String)>> = Vec::new();
    rows.push(row);
    let menu = Menu { text: String::from_str("What now?"), rows };
    effects.push(Effect::SendMenu { menu });
    Step { effects, next: Some(State::NextPage { rcmd: clone_rcmd(rcmd), prev: None }) }
}

// --- the dispatcher ---

/// Routes one event through the current state, as the conversation's
/// update dispatch does: commands are handled in any state; messages are
/// handled by the upload state and the source-selection state and are
/// otherwise invalid; callbacks are handled by the five menu states and
/// are otherwise invalid; answers to asked-for work are handled by the
/// state that asked and are otherwise dropped.
pub fn handle_event(
    cfg: &MyBotConfig,
    prefs: Option<SubredditsCats>,
    chat_id: i64,
    state: &State,
    event: Event,
) -> (r: Step)
    ensures
        event matches Event::Command { cmd } ==> ({
            &&& cmd is Help ==> text_only_step(r, help_text())
            &&& cmd is Start ==> bouncer_post(cfg, prefs, chat_id, r)
            &&& cmd is GetSubs ==> get_json_post(cfg, prefs, chat_id, r)
            &&& cmd is SendSubs ==> send_json_post(cfg, chat_id, r)
            &&& cmd is DelSubs ==> del_json_post(r)
        }),
        event matches Event::Message { text, doc_size } ==> ({
            &&& state is AcceptJSON ==> accept_json_post(doc_size, r)
            &&& state matches State::SelectSubreddit { prev } ==> sub_from_msg_post(text, *prev, r)
            &&& !(state is AcceptJSON || state is SelectSubreddit) ==> text_only_step(
                r,
                invalid_text(),
            )
        }),
        event matches Event::Callback { data } ==> ({
            &&& state matches State::SelectSubreddit { prev } ==> select_subreddit_post(
                cfg,
                prefs,
                data,
                *prev,
                r,
            )
            &&& state matches State::SelectView { rcmd, prev } ==> select_view_core_post(
                *rcmd,
                cb_or(data, "all"@),
                *prev,
                r,
            )
            &&& state matches State::SelectTot { rcmd, prev } ==> select_tot_post(
                *rcmd,
                data,
                *prev,
                r,
            )
            &&& state matches State::IssueCmd { rcmd, prev } ==> issue_cmd_post(
                *rcmd,
                data,
                *prev,
                r,
            )
            &&& state matches State::NextPage { rcmd, prev } ==> next_page_post(
                cfg,
                prefs,
                *rcmd,
                data,
                *prev,
                r,
            )
            &&& (state is Bouncer || state is Start || state is AcceptJSON) ==> text_only_step(
                r,
                invalid_text(),
            )
        }),
        event matches Event::UploadParsed { result } ==> ({
            &&& state is AcceptJSON ==> accept_json_parsed_post(result, r)
            &&& !(state is AcceptJSON) ==> (r.effects@.len() == 0 && r.next is None)
        }),
        event matches Event::PrefsDeleted { removed } ==> prefs_deleted_post(
            cfg,
            prefs,
            chat_id,
            removed,
            r,
        ),
        event matches Event::PageFetched { rcmd } ==> ({
            &&& (state is IssueCmd || state is NextPage) ==> send_page_post(rcmd, r)
            &&& !(state is IssueCmd || state is NextPage) ==> (r.effects@.len() == 0 && r.next
                is None)
        }),
{
    match event {
        Event::Command { cmd } => match cmd {
            Command::Help => help(),
            Command::Start => bouncer(cfg, prefs, chat_id),
            Command::GetSubs => get_json(cfg, prefs, chat_id),
            Command::SendSubs => send_json(cfg, chat_id),
            Command::DelSubs => del_json(),
        },
        Event::Message { text, doc_size } => match state {
            State::AcceptJSON => accept_json(doc_size),
            State::SelectSubreddit { prev } => sub_from_msg(text, *prev),
            _ => invalid_state(),
        },
        Event::Callback { data } => match state {
            State::SelectSubreddit { prev } => select_subreddit(cfg, prefs, data, *prev),
            State::SelectView { rcmd, prev } => select_view(rcmd, data, *prev),
            State::SelectTot { rcmd, prev } => select_tot(rcmd, data, *prev),
            State::IssueCmd { rcmd, prev } => issue_cmd(rcmd, data, *prev),
            State::NextPage { rcmd, prev } => next_page(cfg, prefs, rcmd, data, *prev),
            _ => invalid_state(),
        },
        Event::UploadParsed { result } => match state {
            State::AcceptJSON => accept_json_parsed(result),
            _ => ignore_event(),
        },
        Event::PrefsDeleted { removed } => prefs_deleted(cfg, prefs, chat_id, removed),
        Event::PageFetched { rcmd } => match state {
            State::IssueCmd { .. } => send_page(&rcmd),
            State::NextPage { .. } => send_page(&rcmd),
            _ => ignore_event(),
        },
    }
}

} // verus!
