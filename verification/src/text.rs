use vstd::prelude::*;

verus! {

broadcast use vstd::string::group_string_axioms;

// ----------------------------------------------------------------------------
// Specifications
// ----------------------------------------------------------------------------

/// A character with the Unicode `White_Space` property (PropList.txt), the
/// property that `char::is_whitespace` tests.
pub open spec fn is_white_space(c: char) -> bool {
    let u = c as u32;
    ||| 0x09 <= u <= 0x0D
    ||| u == 0x20
    ||| u == 0x85
    ||| u == 0xA0
    ||| u == 0x1680
    ||| 0x2000 <= u <= 0x200A
    ||| u == 0x2028
    ||| u == 0x2029
    ||| u == 0x202F
    ||| u == 0x205F
    ||| u == 0x3000
}

/// The word that is being accumulated, as a list of at most one word.
pub open spec fn pending_word(cur: Seq<char>) -> Seq<Seq<char>> {
    if cur.len() == 0 {
        seq![]
    } else {
        seq![cur]
    }
}

/// The maximal runs of non-white-space characters of `s`, in order, where
/// `cur` is a run that already started before `s`.
pub open spec fn words_from(s: Seq<char>, cur: Seq<char>) -> Seq<Seq<char>>
    decreases s.len(),
{
    if s.len() == 0 {
        pending_word(cur)
    } else if is_white_space(s[0]) {
        pending_word(cur) + words_from(s.drop_first(), seq![])
    } else {
        words_from(s.drop_first(), cur.push(s[0]))
    }
}

/// The words of `s` as `str::split_whitespace` yields them.
pub open spec fn split_whitespace(s: Seq<char>) -> Seq<Seq<char>> {
    words_from(s, seq![])
}

/// `needle` occurs in `hay` starting at position `i`.
pub open spec fn occurs_at(hay: Seq<char>, needle: Seq<char>, i: int) -> bool {
    &&& 0 <= i
    &&& i + needle.len() <= hay.len()
    &&& hay.subrange(i, i + needle.len()) == needle
}

/// `hay` contains `needle` as a contiguous piece (the empty text occurs in
/// every text).
pub open spec fn contains_text(hay: Seq<char>, needle: Seq<char>) -> bool {
    exists|i: int| occurs_at(hay, needle, i)
}

/// `s` begins with `prefix`.
pub open spec fn has_prefix(s: Seq<char>, prefix: Seq<char>) -> bool {
    occurs_at(s, prefix, 0)
}

/// The text views of a list of strings.
pub open spec fn string_views(v: Seq<String>) -> Seq<Seq<char>> {
    v.map_values(|w: String| w@)
}

/// What `str::to_lowercase` returns for a text: the lowercase mapping of the
/// Unicode character database, with its context rule for final sigma.
pub uninterp spec fn spec_lowercase(s: Seq<char>) -> Seq<char>;

// ----------------------------------------------------------------------------
// Trusted calls into std
// ----------------------------------------------------------------------------

/// Calls `str::to_lowercase`. Claimed: the result is the text named
/// `spec_lowercase` of the argument, and depends on nothing else. What the
/// mapping does to each character is left unsaid.
#[verifier::external_body]
pub(crate) fn lowercase(s: &str) -> (r: String)
    ensures
        r@ == spec_lowercase(s@),
{
    s.to_lowercase()
}

/// Calls `String::push`. Claimed: the character is appended at the end.
#[verifier::external_body]
pub(crate) fn push_char(s: &mut String, c: char)
    ensures
        final(s)@ == old(s)@.push(c),
{
    s.push(c)
}

// ----------------------------------------------------------------------------
// Verified text operations
// ----------------------------------------------------------------------------

/// The characters of `s`, in order.
pub fn chars_of(s: &str) -> (v: Vec<char>)
    ensures
        v@ == s@,
{
    let mut v: Vec<char> = Vec::new();
    for c in it: s.chars()
        invariant
            it.seq() == s@,
            v@ == it.seq().take(it.index() as int),
    {
        v.push(c);
    }
    v
}

/// Whether `c` is white space in the sense of `char::is_whitespace`.
pub fn is_whitespace_char(c: char) -> (r: bool)
    ensures
        r == is_white_space(c),
{
    let u = c as u32;
    (0x09 <= u && u <= 0x0D) || u == 0x20 || u == 0x85 || u == 0xA0 || u == 0x1680 || (0x2000
        <= u && u <= 0x200A) || u == 0x2028 || u == 0x2029 || u == 0x202F || u == 0x205F || u
        == 0x3000
}

/// Whether two texts are equal.
pub fn same_text(a: &str, b: &str) -> (r: bool)
    ensures
        r == (a@ == b@),
{
    let x = a.to_owned();
    let y = b.to_owned();
    x == y
}

/// Whether `needle` occurs in `hay` at position `i`.
fn matches_at(hay: &Vec<char>, needle: &Vec<char>, i: usize) -> (r: bool)
    requires
        i + needle@.len() <= hay@.len(),
    ensures
        r == occurs_at(hay@, needle@, i as int),
{
    let n = needle.len();
    let hl = hay.len();
    let mut j: usize = 0;
    while j < n
        invariant
            n == needle@.len(),
            hl == hay@.len(),
            i + n <= hl,
            j <= n,
            forall|k: int| 0 <= k < j ==> hay@[i + k] == needle@[k],
        decreases n - j,
    {
        if hay[i + j] != needle[j] {
            assert(hay@.subrange(i as int, i + n)[j as int] != needle@[j as int]);
            return false;
        }
        j += 1;
    }
    assert(hay@.subrange(i as int, i + n) =~= needle@);
    true
}

/// Whether `needle` occurs somewhere in `hay` (`str::contains`).
pub fn contains_chars(hay: &Vec<char>, needle: &Vec<char>) -> (r: bool)
    ensures
        r == contains_text(hay@, needle@),
{
    if needle.len() > hay.len() {
        assert forall|i: int| !occurs_at(hay@, needle@, i) by {}
        return false;
    }
    let last = hay.len() - needle.len();
    for i in 0..last
        invariant
            last == hay@.len() - needle@.len(),
            needle@.len() <= hay@.len(),
            forall|k: int| 0 <= k < i ==> !occurs_at(hay@, needle@, k),
    {
        if matches_at(hay, needle, i) {
            return true;
        }
    }
    if matches_at(hay, needle, last) {
        return true;
    }
    assert forall|k: int| !occurs_at(hay@, needle@, k) by {
        if 0 <= k && k < last {
        }
    }
    false
}

/// Whether `s` begins with `prefix` (`str::starts_with`).
pub fn starts_with_chars(s: &Vec<char>, prefix: &Vec<char>) -> (r: bool)
    ensures
        r == has_prefix(s@, prefix@),
{
    if prefix.len() > s.len() {
        false
    } else {
        matches_at(s, prefix, 0)
    }
}

/// The white-space separated words of `s`, in order (`str::split_whitespace`).
pub fn split_words(s: &str) -> (words: Vec<String>)
    ensures
        string_views(words@) == split_whitespace(s@),
{
    let chars = chars_of(s);
    let mut words: Vec<String> = Vec::new();
    let mut cur = String::new();
    assert(chars@.skip(0) =~= chars@);
    assert(string_views(words@) =~= Seq::<Seq<char>>::empty());
    assert(string_views(words@) + words_from(chars@.skip(0), cur@) =~= split_whitespace(s@));
    for i in 0..chars.len()
        invariant
            chars@ == s@,
            string_views(words@) + words_from(chars@.skip(i as int), cur@) == split_whitespace(
                s@,
            ),
    {
        let c = chars[i];
        let ghost rest = chars@.skip(i as int);
        assert(rest[0] == c);
        assert(rest.drop_first() =~= chars@.skip(i + 1));
        if is_whitespace_char(c) {
            let ghost old_words = string_views(words@);
            let ghost old_cur = cur@;
            if !cur.as_str().is_empty() {
                let w = cur;
                words.push(w);
                assert(string_views(words@) =~= old_words + seq![w@]);
            } else {
                assert(string_views(words@) =~= old_words + pending_word(cur@));
            }
            cur = String::new();
            assert(string_views(words@) + words_from(chars@.skip(i + 1), cur@) =~= old_words
                + pending_word(old_cur) + words_from(chars@.skip(i + 1), seq![]));
        } else {
            push_char(&mut cur, c);
        }
    }
    assert(chars@.skip(chars@.len() as int) =~= Seq::<char>::empty());
    if !cur.as_str().is_empty() {
        let ghost old_words = string_views(words@);
        let w = cur;
        words.push(w);
        assert(string_views(words@) =~= old_words + seq![w@]);
    } else {
        assert(string_views(words@) =~= string_views(words@) + pending_word(cur@));
    }
    words
}

// ----------------------------------------------------------------------------
// Laws
// ----------------------------------------------------------------------------

/// A piece of text without white space.
pub open spec fn unspaced(w: Seq<char>) -> bool {
    forall|k: int| 0 <= k < w.len() ==> !is_white_space(#[trigger] w[k])
}

proof fn lemma_words_from(s: Seq<char>, cur: Seq<char>)
    requires
        unspaced(cur),
    ensures
        forall|j: int|
            0 <= j < words_from(s, cur).len() ==> (#[trigger] words_from(s, cur)[j]).len() > 0
                && unspaced(words_from(s, cur)[j]),
    decreases s.len(),
{
    if s.len() == 0 {
        let p = pending_word(cur);
        assert forall|j: int| 0 <= j < p.len() implies (#[trigger] p[j]).len() > 0 && unspaced(
            p[j],
        ) by {
            assert(p[j] == cur);
        }
        assert(words_from(s, cur) == p);
    } else {
        if is_white_space(s[0]) {
            lemma_words_from(s.drop_first(), seq![]);
            let p = pending_word(cur);
            let r = words_from(s.drop_first(), seq![]);
            assert forall|j: int| 0 <= j < (p + r).len() implies (#[trigger] (p + r)[j]).len() > 0
                && unspaced((p + r)[j]) by {
                if j >= p.len() {
                    assert((p + r)[j] == r[j - p.len()]);
                } else {
                    assert((p + r)[j] == cur);
                }
            }
            assert(words_from(s, cur) == p + r);
        } else {
            let next = cur.push(s[0]);
            assert forall|k: int| 0 <= k < next.len() implies !is_white_space(#[trigger] next[k]) by {
                if k < cur.len() {
                    assert(next[k] == cur[k]);
                }
            }
            lemma_words_from(s.drop_first(), next);
            assert(words_from(s, cur) == words_from(s.drop_first(), next));
        }
    }
}

/// Every word that splitting at white space yields is non-empty and holds no
/// white space.
pub proof fn law_words_are_nonempty_and_unspaced(s: Seq<char>)
    ensures
        forall|j: int|
            0 <= j < split_whitespace(s).len() ==> (#[trigger] split_whitespace(s)[j]).len() > 0
                && unspaced(split_whitespace(s)[j]),
{
    lemma_words_from(s, seq![]);
}

proof fn lemma_words_from_flatten(s: Seq<char>, cur: Seq<char>)
    ensures
        words_from(s, cur).flatten() == cur + s.filter(|c: char| !is_white_space(c)),
    decreases s.len(),
{
    let keep = |c: char| !is_white_space(c);
    let p = pending_word(cur);
    if p.len() == 1 {
        p.lemma_flatten_one_element();
    } else {
        assert(p.flatten() =~= Seq::<char>::empty());
    }
    if s.len() == 0 {
        assert(s.filter(keep) =~= Seq::<char>::empty()) by {
            reveal_with_fuel(Seq::filter, 1);
        }
        assert(cur + s.filter(keep) =~= cur);
    } else {
        let rest = s.drop_first();
        assert(s =~= seq![s[0]] + rest);
        rest.lemma_filter_prepend(s[0], keep);
        if is_white_space(s[0]) {
            lemma_words_from_flatten(rest, seq![]);
            let r = words_from(rest, seq![]);
            if p.len() == 1 {
                assert((p + r).first() == cur);
                assert((p + r).drop_first() =~= r);
            } else {
                assert(p + r =~= r);
            }
            assert(seq![] + rest.filter(keep) =~= rest.filter(keep));
            assert(s.filter(keep) =~= rest.filter(keep));
        } else {
            lemma_words_from_flatten(rest, cur.push(s[0]));
            assert(cur.push(s[0]) + rest.filter(keep) =~= cur + s.filter(keep));
        }
    }
}

/// Splitting at white space loses and adds no other character: the words,
/// joined together, are the characters of the text that are not white space,
/// in their order.
pub proof fn law_words_join_to_the_unspaced_characters(s: Seq<char>)
    ensures
        split_whitespace(s).flatten() == s.filter(|c: char| !is_white_space(c)),
{
    lemma_words_from_flatten(s, seq![]);
    assert(Seq::<char>::empty() + s.filter(|c: char| !is_white_space(c)) =~= s.filter(
        |c: char| !is_white_space(c),
    ));
}

} // verus!
