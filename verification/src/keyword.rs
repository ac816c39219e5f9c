use vstd::prelude::*;
use crate::text::{
    chars_of, contains_chars, contains_text, lowercase, spec_lowercase, split_whitespace, split_words,
    string_views,
};

verus! {

// ----------------------------------------------------------------------------
// Model
// ----------------------------------------------------------------------------

/// The string values that keyword filtering reads from one search hit: the
/// payload fields `text`, `content`, `body` and `description`. A field is
/// `None` when the payload lacks it or holds something other than a string.
pub struct PayloadTexts {
    pub text: Option<String>,
    pub content: Option<String>,
    pub body: Option<String>,
    pub description: Option<String>,
}

/// Every keyword occurs in `text`.
pub open spec fn contains_all(text: Seq<char>, keywords: Seq<Seq<char>>) -> bool {
    forall|j: int| 0 <= j < keywords.len() ==> contains_text(text, #[trigger] keywords[j])
}

/// A payload field is a string whose lowercase form contains every keyword.
pub open spec fn field_matches(field: Option<String>, keywords: Seq<Seq<char>>) -> bool {
    match field {
        Some(t) => contains_all(spec_lowercase(t@), keywords),
        None => false,
    }
}

/// A payload field, already lowercased, is a string that contains every
/// keyword.
pub open spec fn lowered_field_matches(field: Option<String>, keywords: Seq<Seq<char>>) -> bool {
    match field {
        Some(t) => contains_all(t@, keywords),
        None => false,
    }
}

/// A hit whose text fields are already lowercased passes keyword filtering
/// when one of those fields contains every keyword.
pub open spec fn lowered_hit_matches(p: PayloadTexts, keywords: Seq<Seq<char>>) -> bool {
    ||| lowered_field_matches(p.text, keywords)
    ||| lowered_field_matches(p.content, keywords)
    ||| lowered_field_matches(p.body, keywords)
    ||| lowered_field_matches(p.description, keywords)
}

/// `lowered` holds the lowercase form of the optional field `field`.
pub open spec fn is_lowered_field(lowered: Option<String>, field: Option<String>) -> bool {
    match (field, lowered) {
        (None, None) => true,
        (Some(t), Some(u)) => u@ == spec_lowercase(t@),
        _ => false,
    }
}

/// `lowered` is `hit` with every text field lowercased.
pub open spec fn is_lowered_hit(lowered: PayloadTexts, hit: PayloadTexts) -> bool {
    &&& is_lowered_field(lowered.text, hit.text)
    &&& is_lowered_field(lowered.content, hit.content)
    &&& is_lowered_field(lowered.body, hit.body)
    &&& is_lowered_field(lowered.description, hit.description)
}

/// A hit passes keyword filtering when one of its text fields matches.
pub open spec fn hit_matches(p: PayloadTexts, keywords: Seq<Seq<char>>) -> bool {
    ||| field_matches(p.text, keywords)
    ||| field_matches(p.content, keywords)
    ||| field_matches(p.body, keywords)
    ||| field_matches(p.description, keywords)
}

/// The positions of the hits that pass keyword filtering, in order.
pub open spec fn matching_positions(hits: Seq<PayloadTexts>, keywords: Seq<Seq<char>>) -> Seq<
    usize,
>
    decreases hits.len(),
{
    if hits.len() == 0 {
        seq![]
    } else {
        let prev = matching_positions(hits.drop_last(), keywords);
        if hit_matches(hits.last(), keywords) {
            prev.push((hits.len() - 1) as usize)
        } else {
            prev
        }
    }
}

/// The first `limit` positions of the hits that pass keyword filtering.
pub open spec fn selected_positions(
    hits: Seq<PayloadTexts>,
    keywords: Seq<Seq<char>>,
    limit: u64,
) -> Seq<usize> {
    let m = matching_positions(hits, keywords);
    if m.len() <= limit {
        m
    } else {
        m.take(limit as int)
    }
}

/// `words` without the empty ones, in order.
pub open spec fn nonempty_only(words: Seq<Seq<char>>) -> Seq<Seq<char>>
    decreases words.len(),
{
    if words.len() == 0 {
        seq![]
    } else {
        let prev = nonempty_only(words.drop_last());
        if words.last().len() > 0 {
            prev.push(words.last())
        } else {
            prev
        }
    }
}

/// The lowercase forms of `words`, in order.
pub open spec fn lowered_words(words: Seq<Seq<char>>) -> Seq<Seq<char>> {
    words.map_values(|w: Seq<char>| spec_lowercase(w))
}

/// The keywords of a `must_contain_keywords` argument: its white-space
/// separated words, lowercased, without empty ones.
pub open spec fn keywords_of(s: Seq<char>) -> Seq<Seq<char>> {
    nonempty_only(lowered_words(split_whitespace(s)))
}

// ----------------------------------------------------------------------------
// Operations
// ----------------------------------------------------------------------------

/// The keywords among lowercased words: the words that are not empty, in
/// order.
pub fn keep_nonempty(words: &Vec<String>) -> (keywords: Vec<String>)
    ensures
        string_views(keywords@) == nonempty_only(string_views(words@)),
{
    let mut keywords: Vec<String> = Vec::new();
    let ghost ws = string_views(words@);
    assert(ws.take(0) =~= Seq::<Seq<char>>::empty());
    assert(string_views(keywords@) =~= Seq::<Seq<char>>::empty());
    for i in 0..words.len()
        invariant
            ws == string_views(words@),
            ws.len() == words@.len(),
            string_views(keywords@) == nonempty_only(ws.take(i as int)),
    {
        assert(ws.take(i + 1).drop_last() =~= ws.take(i as int));
        assert(ws.take(i + 1).last() == words@[i as int]@);
        let ghost before = string_views(keywords@);
        if !words[i].as_str().is_empty() {
            keywords.push(words[i].clone());
            assert(string_views(keywords@) =~= before.push(words@[i as int]@));
        }
    }
    assert(ws.take(words.len() as int) =~= ws);
    keywords
}

/// The keywords that `keyword_search` requires of a hit: the words of the
/// argument, each lowercased, without empty ones.
pub fn parse_keywords(must_contain_keywords: &str) -> (keywords: Vec<String>)
    ensures
        string_views(keywords@) == keywords_of(must_contain_keywords@),
{
    let words = split_words(must_contain_keywords);
    let mut lowered: Vec<String> = Vec::new();
    for i in 0..words.len()
        invariant
            lowered@.len() == i,
            forall|k: int|
                0 <= k < i ==> (#[trigger] lowered@[k])@ == spec_lowercase(words@[k]@),
    {
        lowered.push(lowercase(words[i].as_str()));
    }
    assert(string_views(lowered@) =~= lowered_words(string_views(words@)));
    keep_nonempty(&lowered)
}

/// The number of hits to ask the search engine for: five times the requested
/// number when keyword filtering will discard some of them.
pub fn initial_search_limit(limit: u64, keyword_count: usize) -> (r: u64)
    requires
        keyword_count > 0 ==> limit * 5 <= u64::MAX,
    ensures
        r == if keyword_count == 0 {
            limit as int
        } else {
            limit * 5
        },
{
    if keyword_count == 0 {
        limit
    } else {
        limit * 5
    }
}

/// The characters of each keyword.
fn keyword_chars(keywords: &Vec<String>) -> (kc: Vec<Vec<char>>)
    ensures
        kc@.map_values(|k: Vec<char>| k@) == string_views(keywords@),
{
    let mut kc: Vec<Vec<char>> = Vec::new();
    for j in 0..keywords.len()
        invariant
            kc@.len() == j,
            forall|i: int| 0 <= i < j ==> (#[trigger] kc@[i])@ == keywords@[i]@,
    {
        kc.push(chars_of(keywords[j].as_str()));
    }
    assert(kc@.map_values(|k: Vec<char>| k@) =~= string_views(keywords@));
    kc
}

/// Whether `text` contains every keyword (the text is taken as it is, so a
/// caller that filters case-insensitively passes it lowercased).
pub fn text_contains_keywords(text: &str, keywords: &Vec<String>) -> (r: bool)
    ensures
        r == contains_all(text@, string_views(keywords@)),
{
    let kc = keyword_chars(keywords);
    let ghost kws = string_views(keywords@);
    let hay = chars_of(text);
    for j in 0..kc.len()
        invariant
            kc@.map_values(|k: Vec<char>| k@) == kws,
            kws == string_views(keywords@),
            hay@ == text@,
            forall|i: int| 0 <= i < j ==> contains_text(hay@, #[trigger] kws[i]),
    {
        assert(kc@.map_values(|k: Vec<char>| k@)[j as int] == kc@[j as int]@);
        if !contains_chars(&hay, &kc[j]) {
            assert(!contains_text(hay@, kws[j as int]));
            return false;
        }
    }
    true
}

/// Whether an optional lowercased field contains every keyword.
fn lowered_field_passes(field: &Option<String>, keywords: &Vec<String>) -> (r: bool)
    ensures
        r == lowered_field_matches(*field, string_views(keywords@)),
{
    match field {
        Some(t) => text_contains_keywords(t.as_str(), keywords),
        None => false,
    }
}

/// Whether a hit whose text fields are already lowercased passes keyword
/// filtering: one of its fields contains every keyword.
pub fn lowered_hit_passes(hit: &PayloadTexts, keywords: &Vec<String>) -> (r: bool)
    ensures
        r == lowered_hit_matches(*hit, string_views(keywords@)),
{
    lowered_field_passes(&hit.text, keywords) || lowered_field_passes(&hit.content, keywords)
        || lowered_field_passes(&hit.body, keywords) || lowered_field_passes(
        &hit.description,
        keywords,
    )
}

/// The lowercase form of an optional field.
fn lowercase_field(field: &Option<String>) -> (r: Option<String>)
    ensures
        is_lowered_field(r, *field),
{
    match field {
        Some(t) => Some(lowercase(t.as_str())),
        None => None,
    }
}

/// `hit` with every text field lowercased.
fn lowercase_hit(hit: &PayloadTexts) -> (r: PayloadTexts)
    ensures
        is_lowered_hit(r, *hit),
{
    PayloadTexts {
        text: lowercase_field(&hit.text),
        content: lowercase_field(&hit.content),
        body: lowercase_field(&hit.body),
        description: lowercase_field(&hit.description),
    }
}

/// The positions, in `hits`, of the first `limit` hits that pass keyword
/// filtering, in the order of `hits`.
pub fn select_keyword_hits(hits: &Vec<PayloadTexts>, keywords: &Vec<String>, limit: u64) -> (sel:
    Vec<usize>)
    ensures
        sel@ == selected_positions(hits@, string_views(keywords@), limit),
{
    let ghost kws = string_views(keywords@);
    let mut sel: Vec<usize> = Vec::new();
    assert(hits@.take(0) =~= Seq::<PayloadTexts>::empty());
    for i in 0..hits.len()
        invariant
            kws == string_views(keywords@),
            sel@ == selected_positions(hits@.take(i as int), kws, limit),
    {
        let ghost prefix = hits@.take(i as int);
        let ghost next = hits@.take(i + 1);
        assert(next.drop_last() =~= prefix);
        assert(next.last() == hits@[i as int]);
        let ghost m = matching_positions(prefix, kws);
        if (sel.len() as u64) < limit && lowered_hit_passes(&lowercase_hit(&hits[i]), keywords) {
            sel.push(i);
            assert(sel@ =~= matching_positions(next, kws));
        } else {
            if (sel.len() as u64) < limit {
                assert(matching_positions(next, kws) == m);
            } else {
                let ghost m2 = matching_positions(next, kws);
                assert(m.len() >= limit);
                assert(m2.take(limit as int) =~= m.take(limit as int));
            }
        }
    }
    assert(hits@.take(hits.len() as int) =~= hits@);
    sel
}

// ----------------------------------------------------------------------------
// Laws
// ----------------------------------------------------------------------------

/// The positions of the matching hits are valid, strictly increasing, name
/// matching hits, and name every matching hit.
proof fn lemma_matching_positions(hits: Seq<PayloadTexts>, keywords: Seq<Seq<char>>)
    requires
        hits.len() <= usize::MAX,
    ensures
        ({
            let m = matching_positions(hits, keywords);
            &&& forall|k: int|
                0 <= k < m.len() ==> (#[trigger] m[k]) < hits.len() && hit_matches(
                    hits[m[k] as int],
                    keywords,
                )
            &&& forall|a: int, b: int| 0 <= a < b < m.len() ==> m[a] < m[b]
            &&& forall|i: int|
                0 <= i < hits.len() && hit_matches(#[trigger] hits[i], keywords) ==> m.contains(
                    i as usize,
                )
        }),
    decreases hits.len(),
{
    if hits.len() > 0 {
        let prev = hits.drop_last();
        lemma_matching_positions(prev, keywords);
        let pm = matching_positions(prev, keywords);
        let m = matching_positions(hits, keywords);
        let last = (hits.len() - 1) as usize;
        assert forall|k: int| 0 <= k < m.len() implies (#[trigger] m[k]) < hits.len()
            && hit_matches(hits[m[k] as int], keywords) by {
            if k < pm.len() {
                assert(m[k] == pm[k]);
                assert(prev[pm[k] as int] == hits[pm[k] as int]);
            } else {
                assert(m[k] == last);
            }
        }
        assert forall|a: int, b: int| 0 <= a < b < m.len() implies m[a] < m[b] by {
            assert(m[a] == pm[a]);
            if b < pm.len() {
                assert(m[b] == pm[b]);
            } else {
                assert(m[b] == last);
            }
        }
        assert forall|i: int|
            0 <= i < hits.len() && hit_matches(#[trigger] hits[i], keywords) implies m.contains(
            i as usize,
        ) by {
            if i < hits.len() - 1 {
                assert(prev[i] == hits[i]);
                assert(pm.contains(i as usize));
                let k = choose|k: int| 0 <= k < pm.len() && pm[k] == i as usize;
                assert(m[k] == pm[k]);
            } else {
                assert(m[m.len() - 1] == i as usize);
            }
        }
    }
}

/// Every hit that keyword filtering keeps is one of the hits and passes the
/// filter: one of its text fields, lowercased, contains every keyword.
pub proof fn law_kept_hits_match(hits: Seq<PayloadTexts>, keywords: Seq<Seq<char>>, limit: u64)
    requires
        hits.len() <= usize::MAX,
    ensures
        ({
            let s = selected_positions(hits, keywords, limit);
            forall|k: int|
                0 <= k < s.len() ==> (#[trigger] s[k]) < hits.len() && hit_matches(
                    hits[s[k] as int],
                    keywords,
                )
        }),
{
    lemma_matching_positions(hits, keywords);
    let m = matching_positions(hits, keywords);
    let s = selected_positions(hits, keywords, limit);
    assert forall|k: int| 0 <= k < s.len() implies (#[trigger] s[k]) < hits.len() && hit_matches(
        hits[s[k] as int],
        keywords,
    ) by {
        assert(s[k] == m[k]);
    }
}

/// Keyword filtering keeps at most `limit` hits, and keeps them in the order
/// in which the search engine ranked them.
pub proof fn law_kept_hits_bounded_and_ordered(
    hits: Seq<PayloadTexts>,
    keywords: Seq<Seq<char>>,
    limit: u64,
)
    requires
        hits.len() <= usize::MAX,
    ensures
        ({
            let s = selected_positions(hits, keywords, limit);
            &&& s.len() <= limit
            &&& forall|a: int, b: int| 0 <= a < b < s.len() ==> s[a] < s[b]
        }),
{
    lemma_matching_positions(hits, keywords);
    let m = matching_positions(hits, keywords);
    let s = selected_positions(hits, keywords, limit);
    assert forall|a: int, b: int| 0 <= a < b < s.len() implies s[a] < s[b] by {
        assert(s[a] == m[a] && s[b] == m[b]);
    }
}

/// When fewer than `limit` hits are kept, no matching hit was left out.
pub proof fn law_kept_hits_complete(hits: Seq<PayloadTexts>, keywords: Seq<Seq<char>>, limit: u64)
    requires
        hits.len() <= usize::MAX,
    ensures
        selected_positions(hits, keywords, limit).len() < limit ==> forall|i: int|
            0 <= i < hits.len() && hit_matches(#[trigger] hits[i], keywords)
                ==> selected_positions(hits, keywords, limit).contains(i as usize),
{
    lemma_matching_positions(hits, keywords);
}

proof fn lemma_contains_all_subset(text: Seq<char>, more: Seq<Seq<char>>, fewer: Seq<Seq<char>>)
    requires
        forall|j: int| 0 <= j < fewer.len() ==> more.contains(#[trigger] fewer[j]),
    ensures
        contains_all(text, more) ==> contains_all(text, fewer),
{
    if contains_all(text, more) {
        assert forall|j: int| 0 <= j < fewer.len() implies contains_text(
            text,
            #[trigger] fewer[j],
        ) by {
            assert(more.contains(fewer[j]));
            let k = choose|k: int| 0 <= k < more.len() && more[k] == fewer[j];
            assert(contains_text(text, more[k]));
        }
    }
}

proof fn lemma_field_subset(field: Option<String>, more: Seq<Seq<char>>, fewer: Seq<Seq<char>>)
    requires
        forall|j: int| 0 <= j < fewer.len() ==> more.contains(#[trigger] fewer[j]),
    ensures
        field_matches(field, more) ==> field_matches(field, fewer),
{
    if let Some(t) = field {
        lemma_contains_all_subset(spec_lowercase(t@), more, fewer);
    }
}

proof fn lemma_hit_subset(hit: PayloadTexts, more: Seq<Seq<char>>, fewer: Seq<Seq<char>>)
    requires
        forall|j: int| 0 <= j < fewer.len() ==> more.contains(#[trigger] fewer[j]),
    ensures
        hit_matches(hit, more) ==> hit_matches(hit, fewer),
{
    lemma_field_subset(hit.text, more, fewer);
    lemma_field_subset(hit.content, more, fewer);
    lemma_field_subset(hit.body, more, fewer);
    lemma_field_subset(hit.description, more, fewer);
}

/// Adding keywords never adds a hit: every hit that passes the filter for a
/// list of keywords also passes it for any list whose keywords all occur in
/// the first, and keeps its position among the matching hits.
pub proof fn law_added_keywords_never_add_hits(
    hits: Seq<PayloadTexts>,
    more: Seq<Seq<char>>,
    fewer: Seq<Seq<char>>,
)
    requires
        hits.len() <= usize::MAX,
        forall|j: int| 0 <= j < fewer.len() ==> more.contains(#[trigger] fewer[j]),
    ensures
        forall|i: int|
            0 <= i < hits.len() && hit_matches(#[trigger] hits[i], more) ==> hit_matches(
                hits[i],
                fewer,
            ),
        forall|k: int|
            0 <= k < matching_positions(hits, more).len() ==> matching_positions(
                hits,
                fewer,
            ).contains(#[trigger] matching_positions(hits, more)[k]),
{
    lemma_matching_positions(hits, more);
    lemma_matching_positions(hits, fewer);
    assert forall|i: int|
        0 <= i < hits.len() && hit_matches(#[trigger] hits[i], more) implies hit_matches(
        hits[i],
        fewer,
    ) by {
        lemma_hit_subset(hits[i], more, fewer);
    }
    let m = matching_positions(hits, more);
    assert forall|k: int| 0 <= k < m.len() implies matching_positions(hits, fewer).contains(
        #[trigger] m[k],
    ) by {
        let i = m[k] as int;
        lemma_hit_subset(hits[i], more, fewer);
        assert(hit_matches(hits[i], fewer));
        assert(i as usize == m[k]);
    }
}

/// Keyword filtering depends only on which keywords are given: two lists with
/// the same keywords (in any order, with any repetition) keep the same hits.
pub proof fn law_same_keywords_same_hits(hit: PayloadTexts, k1: Seq<Seq<char>>, k2: Seq<Seq<char>>)
    requires
        forall|j: int| 0 <= j < k1.len() ==> k2.contains(#[trigger] k1[j]),
        forall|j: int| 0 <= j < k2.len() ==> k1.contains(#[trigger] k2[j]),
    ensures
        hit_matches(hit, k1) == hit_matches(hit, k2),
{
    lemma_hit_subset(hit, k1, k2);
    lemma_hit_subset(hit, k2, k1);
}

/// `t` is one of the hit's text fields (`text`, `content`, `body` or
/// `description`).
pub open spec fn is_text_field_of(t: String, p: PayloadTexts) -> bool {
    ||| p.text == Some(t)
    ||| p.content == Some(t)
    ||| p.body == Some(t)
    ||| p.description == Some(t)
}

/// The lowercase form of `t` contains every keyword.
pub open spec fn lowercase_contains_every(t: String, keywords: Seq<Seq<char>>) -> bool {
    forall|j: int| 0 <= j < keywords.len() ==> contains_text(spec_lowercase(t@), #[trigger] keywords[j])
}

proof fn lemma_hit_matches_iff(p: PayloadTexts, keywords: Seq<Seq<char>>)
    ensures
        hit_matches(p, keywords) <==> exists|t: String|
            is_text_field_of(t, p) && lowercase_contains_every(t, keywords),
{
    if hit_matches(p, keywords) {
        if field_matches(p.text, keywords) {
            assert(is_text_field_of(p.text->0, p) && lowercase_contains_every(p.text->0, keywords));
        } else if field_matches(p.content, keywords) {
            assert(is_text_field_of(p.content->0, p) && lowercase_contains_every(p.content->0, keywords));
        } else if field_matches(p.body, keywords) {
            assert(is_text_field_of(p.body->0, p) && lowercase_contains_every(p.body->0, keywords));
        } else {
            assert(is_text_field_of(p.description->0, p) && lowercase_contains_every(
                p.description->0,
                keywords,
            ));
        }
    }
    if exists|t: String| is_text_field_of(t, p) && lowercase_contains_every(t, keywords) {
        let t = choose|t: String| is_text_field_of(t, p) && lowercase_contains_every(t, keywords);
        assert(contains_all(spec_lowercase(t@), keywords));
    }
}

/// Keyword filtering compares case-insensitively and keeps hits in rank
/// order: a kept hit has a text field whose lowercase form contains every
/// keyword, and a hit with such a field is left out only when `limit` hits,
/// all ranked before it, were already kept.
pub proof fn law_kept_hits_are_those_with_a_lowercase_match(
    hits: Seq<PayloadTexts>,
    keywords: Seq<Seq<char>>,
    limit: u64,
)
    requires
        hits.len() <= usize::MAX,
    ensures
        forall|k: int|
            0 <= k < selected_positions(hits, keywords, limit).len() ==> {
                let i = #[trigger] selected_positions(hits, keywords, limit)[k];
                &&& i < hits.len()
                &&& exists|t: String|
                    is_text_field_of(t, hits[i as int]) && lowercase_contains_every(t, keywords)
            },
        forall|i: int, t: String|
            0 <= i < hits.len() && is_text_field_of(t, #[trigger] hits[i])
                && #[trigger] lowercase_contains_every(t, keywords)
                && !selected_positions(hits, keywords, limit).contains(i as usize) ==> {
                let s = selected_positions(hits, keywords, limit);
                &&& s.len() == limit
                &&& forall|k: int| 0 <= k < s.len() ==> s[k] < i
            },
{
    lemma_matching_positions(hits, keywords);
    let m = matching_positions(hits, keywords);
    let s = selected_positions(hits, keywords, limit);
    assert forall|k: int| 0 <= k < s.len() implies {
        let i = #[trigger] s[k];
        &&& i < hits.len()
        &&& exists|t: String|
            is_text_field_of(t, hits[i as int]) && lowercase_contains_every(t, keywords)
    } by {
        assert(s[k] == m[k]);
        lemma_hit_matches_iff(hits[m[k] as int], keywords);
    }
    assert forall|i: int, t: String|
        0 <= i < hits.len() && is_text_field_of(t, #[trigger] hits[i])
            && #[trigger] lowercase_contains_every(t, keywords) && !s.contains(i as usize) implies {
        &&& s.len() == limit
        &&& forall|k: int| 0 <= k < s.len() ==> s[k] < i
    } by {
        lemma_hit_matches_iff(hits[i], keywords);
        assert(m.contains(i as usize));
        let q = choose|q: int| 0 <= q < m.len() && m[q] == i as usize;
        if m.len() <= limit {
            assert(s.contains(i as usize));
        } else if q < limit {
            assert(s[q] == m[q]);
            assert(s.contains(i as usize));
        } else {
            assert forall|k: int| 0 <= k < s.len() implies s[k] < i by {
                assert(s[k] == m[k]);
            }
        }
    }
}

/// `nonempty_only` keeps exactly the non-empty words, in order.
proof fn lemma_nonempty_only_is_filter(words: Seq<Seq<char>>)
    ensures
        nonempty_only(words) == words.filter(|w: Seq<char>| w.len() > 0),
    decreases words.len(),
{
    reveal_with_fuel(Seq::filter, 1);
    if words.len() > 0 {
        lemma_nonempty_only_is_filter(words.drop_last());
    }
}

/// No word is lost or invented among the keywords: the keywords of an
/// argument are its white-space separated words, each lowercased, with the
/// empty ones (and only those) dropped, in their order. So every non-empty
/// lowercased word is a keyword, every keyword is such a word, and there are
/// as many keywords as non-empty lowercased words.
pub proof fn law_keywords_are_the_lowered_words(s: Seq<char>)
    ensures
        keywords_of(s) == split_whitespace(s).map_values(|w: Seq<char>| spec_lowercase(w)).filter(
            |w: Seq<char>| w.len() > 0,
        ),
        forall|i: int|
            0 <= i < split_whitespace(s).len() && spec_lowercase(
                #[trigger] split_whitespace(s)[i],
            ).len() > 0 ==> keywords_of(s).contains(spec_lowercase(split_whitespace(s)[i])),
        forall|k: int|
            0 <= k < keywords_of(s).len() ==> exists|i: int|
                0 <= i < split_whitespace(s).len() && #[trigger] keywords_of(s)[k] == spec_lowercase(
                    split_whitespace(s)[i],
                ),
{
    let ws = split_whitespace(s);
    let lw = ws.map_values(|w: Seq<char>| spec_lowercase(w));
    let pred = |w: Seq<char>| w.len() > 0;
    assert(lowered_words(ws) =~= lw);
    lemma_nonempty_only_is_filter(lw);
    let kw = keywords_of(s);
    assert(kw == lw.filter(pred));
    assert forall|i: int|
        0 <= i < ws.len() && spec_lowercase(#[trigger] ws[i]).len() > 0 implies kw.contains(
        spec_lowercase(ws[i]),
    ) by {
        assert(lw[i] == spec_lowercase(ws[i]));
        lw.lemma_filter_contains(pred, i);
    }
    assert forall|k: int| 0 <= k < kw.len() implies exists|i: int|
        0 <= i < ws.len() && #[trigger] kw[k] == spec_lowercase(ws[i]) by {
        lw.lemma_filter_pred(pred, k);
        lw.lemma_filter_contains_rev(pred, kw[k]);
        let i = choose|i: int| 0 <= i < lw.len() && lw[i] == kw[k];
        assert(lw[i] == spec_lowercase(ws[i]));
    }
}

/// Keeping the keywords among words drops exactly the empty words and keeps
/// the others in order.
pub proof fn law_keep_nonempty_drops_only_empty_words(words: Seq<Seq<char>>)
    ensures
        nonempty_only(words) == words.filter(|w: Seq<char>| w.len() > 0),
        nonempty_only(words).len() + words.filter(|w: Seq<char>| w.len() == 0).len()
            == words.len(),
    decreases words.len(),
{
    lemma_nonempty_only_is_filter(words);
    reveal_with_fuel(Seq::filter, 1);
    if words.len() > 0 {
        law_keep_nonempty_drops_only_empty_words(words.drop_last());
    }
}

/// Every keyword is non-empty.
pub proof fn law_keywords_nonempty(s: Seq<char>)
    ensures
        forall|j: int| 0 <= j < keywords_of(s).len() ==> (#[trigger] keywords_of(s)[j]).len() > 0,
{
    lemma_nonempty_only(lowered_words(split_whitespace(s)));
}

proof fn lemma_nonempty_only(words: Seq<Seq<char>>)
    ensures
        forall|j: int|
            0 <= j < nonempty_only(words).len() ==> (#[trigger] nonempty_only(words)[j]).len() > 0,
    decreases words.len(),
{
    if words.len() > 0 {
        let prev = words.drop_last();
        lemma_nonempty_only(prev);
        let p = nonempty_only(prev);
        let r = nonempty_only(words);
        assert forall|j: int| 0 <= j < r.len() implies (#[trigger] r[j]).len() > 0 by {
            if j < p.len() {
                assert(r[j] == p[j]);
            }
        }
    }
}

} // verus!
