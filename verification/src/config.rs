//! Shared configuration: the category-to-sources mapping, the session
//! allow-list, and the URL pattern tables, plus the lookups the session
//! machine makes in them. A per-chat stored mapping, where one exists,
//! overrides the configured default.

use vstd::prelude::*;

verus! {

use vstd::string::StringExecFns;
use crate::classify::UrlMatches;
use crate::text::str_eq;

/// The category-to-sources mapping, as an ordered list of
/// (category, sources) entries.
#[derive(Debug)]
pub struct SubredditsCats {
    pub entries: Vec<(String, Vec<String>)>,
}

impl SubredditsCats {
    pub open spec fn spec_len(&self) -> nat {
        self.entries@.len()
    }

    /// The category name at an entry.
    pub open spec fn key_at(&self, i: int) -> Seq<char> {
        self.entries@[i].0@
    }

    /// The source list at an entry.
    pub open spec fn subs_at(&self, i: int) -> Seq<String> {
        self.entries@[i].1@
    }
}

/// The first entry at or after `i` whose category is `k`, or -1 where
/// there is none.
pub open spec fn first_key_from(c: SubredditsCats, k: Seq<char>, i: int) -> int
    decreases c.spec_len() - i,
{
    if i < 0 || i >= c.spec_len() {
        -1
    } else if c.key_at(i) == k {
        i
    } else {
        first_key_from(c, k, i + 1)
    }
}

/// The first entry whose category is `k`, or -1 where there is none.
pub open spec fn first_key_index(c: SubredditsCats, k: Seq<char>) -> int {
    first_key_from(c, k, 0)
}

/// Two mappings hold the same entries.
pub open spec fn same_cats(a: SubredditsCats, b: SubredditsCats) -> bool {
    &&& a.spec_len() == b.spec_len()
    &&& (forall|i: int|
        #![trigger a.key_at(i)]
        #![trigger a.subs_at(i)]
        0 <= i < a.spec_len() ==> a.key_at(i) == b.key_at(i) && a.subs_at(i) == b.subs_at(i))
}

/// Equal mappings agree on where a category first occurs.
pub proof fn lemma_same_cats_first_key(a: SubredditsCats, b: SubredditsCats, k: Seq<char>, i: int)
    requires
        same_cats(a, b),
    ensures
        first_key_from(a, k, i) == first_key_from(b, k, i),
    decreases a.spec_len() - i,
{
    if i >= 0 && i < a.spec_len() {
        assert(a.key_at(i) == b.key_at(i));
        if a.key_at(i) != k {
            lemma_same_cats_first_key(a, b, k, i + 1);
        }
    }
}

/// Where a category is found, the found entry is in range, carries the
/// category, and is at or after the start of the search.
pub proof fn lemma_first_key_from_range(c: SubredditsCats, k: Seq<char>, i: int)
    ensures
        first_key_from(c, k, i) == -1 || (i <= first_key_from(c, k, i) < c.spec_len() && c.key_at(
            first_key_from(c, k, i),
        ) == k),
    decreases c.spec_len() - i,
{
    if i >= 0 && i < c.spec_len() && c.key_at(i) != k {
        lemma_first_key_from_range(c, k, i + 1);
    }
}

/// The whole shared configuration.
#[derive(Debug)]
pub struct MyBotConfig {
    pub cat_subreddits: SubredditsCats,
    pub id_whitelist: Vec<i64>,
    pub url_matches: UrlMatches,
}

/// A chat is allowed when the allow-list is empty or holds it.
pub open spec fn spec_allowed(chat_id: i64, whitelist: Seq<i64>) -> bool {
    whitelist.len() == 0 || whitelist.contains(chat_id)
}

pub fn allowed(chat_id: i64, whitelist: &Vec<i64>) -> (r: bool)
    ensures
        r == spec_allowed(chat_id, whitelist@),
{
    let mut i: usize = 0;
    if whitelist.len() == 0 {
        return true;
    }
    while i < whitelist.len()
        invariant
            0 <= i <= whitelist@.len(),
            forall|j: int| 0 <= j < i ==> whitelist@[j] != chat_id,
        decreases whitelist@.len() - i,
    {
        if whitelist[i] == chat_id {
            return true;
        }
        i += 1;
    }
    false
}

fn clone_string_vec(v: &Vec<String>) -> (r: Vec<String>)
    ensures
        r@ == v@,
{
    let mut r: Vec<String> = Vec::new();
    let mut i: usize = 0;
    while i < v.len()
        invariant
            0 <= i <= v@.len(),
            r@ == v@.subrange(0, i as int),
        decreases v@.len() - i,
    {
        r.push(v[i].clone());
        proof {
            assert(r@ =~= v@.subrange(0, i + 1));
        }
        i += 1;
    }
    proof {
        assert(v@.subrange(0, v@.len() as int) =~= v@);
    }
    r
}

/// An exact copy of a mapping.
pub fn clone_catsubs(c: &SubredditsCats) -> (r: SubredditsCats)
    ensures
        same_cats(r, *c),
        r.spec_len() == c.spec_len(),
{
    let mut entries: Vec<(String, Vec<String>)> = Vec::new();
    let mut i: usize = 0;
    while i < c.entries.len()
        invariant
            0 <= i <= c.entries@.len(),
            entries@.len() == i,
            forall|j: int|
                0 <= j < i ==> ((#[trigger] entries@[j]).0@ == c.key_at(j) && entries@[j].1@
                    == c.subs_at(j)),
        decreases c.entries@.len() - i,
    {
        let e = &c.entries[i];
        entries.push((e.0.clone(), clone_string_vec(&e.1)));
        proof {
            assert(entries@[i as int].0@ == c.key_at(i as int));
            assert(entries@[i as int].1@ == c.subs_at(i as int));
        }
        i += 1;
    }
    let r = SubredditsCats { entries };
    proof {
        assert forall|i: int| 0 <= i < r.spec_len() implies r.key_at(i) == c.key_at(i)
            && #[trigger] r.subs_at(i) == c.subs_at(i) by {
            assert(entries@[i].0@ == c.key_at(i));
            assert(entries@[i].1@ == c.subs_at(i));
        }
    }
    r
}

/// The mapping in force for a chat: its stored one where it has one, else
/// the configured default.
pub open spec fn spec_catsubs(cfg: &MyBotConfig, prefs: Option<SubredditsCats>) -> SubredditsCats {
    match prefs {
        Some(p) => p,
        None => cfg.cat_subreddits,
    }
}

pub fn get_catsubs(cfg: &MyBotConfig, prefs: Option<SubredditsCats>) -> (r: SubredditsCats)
    ensures
        same_cats(r, spec_catsubs(cfg, prefs)),
{
    match prefs {
        Some(p) => p,
        None => clone_catsubs(&cfg.cat_subreddits),
    }
}

/// The category names of a mapping, in its order.
pub fn get_categories(cats: &SubredditsCats) -> (r: Vec<String>)
    ensures
        r@.len() == cats.spec_len(),
        forall|i: int| 0 <= i < r@.len() ==> #[trigger] r@[i]@ == cats.key_at(i),
{
    let mut r: Vec<String> = Vec::new();
    let mut i: usize = 0;
    while i < cats.entries.len()
        invariant
            0 <= i <= cats.entries@.len(),
            r@.len() == i,
            forall|j: int| 0 <= j < i ==> #[trigger] r@[j]@ == cats.key_at(j),
        decreases cats.entries@.len() - i,
    {
        r.push(cats.entries[i].0.clone());
        i += 1;
    }
    r
}

/// The sources of the first entry for the category, or the one-element
/// default list where the mapping has no such entry.
pub fn get_subreddits(cats: &SubredditsCats, category: &String) -> (r: Vec<String>)
    ensures
        first_key_index(*cats, category@) >= 0 ==> r@ == cats.subs_at(
            first_key_index(*cats, category@),
        ),
        first_key_index(*cats, category@) < 0 ==> (r@.len() == 1 && r@[0]@ == "All"@),
{
    let mut i: usize = 0;
    while i < cats.entries.len()
        invariant
            0 <= i <= cats.entries@.len(),
            first_key_index(*cats, category@) == first_key_from(*cats, category@, i as int),
        decreases cats.entries@.len() - i,
    {
        if str_eq(cats.entries[i].0.as_str(), category.as_str()) {
            return clone_string_vec(&cats.entries[i].1);
        }
        i += 1;
    }
    let mut r: Vec<String> = Vec::new();
    r.push(String::from_str("All"));
    r
}

} // verus!
