//! Characters and words: the text primitives the rest of the library builds on.

use vstd::prelude::*;

verus! {

/// The characters that separate words: the code points with the Unicode
/// `White_Space` property.
pub open spec fn is_whitespace(c: char) -> bool {
    ||| '\u{9}' <= c <= '\u{D}'
    ||| c == ' '
    ||| c == '\u{85}'
    ||| c == '\u{A0}'
    ||| c == '\u{1680}'
    ||| '\u{2000}' <= c <= '\u{200A}'
    ||| c == '\u{2028}'
    ||| c == '\u{2029}'
    ||| c == '\u{202F}'
    ||| c == '\u{205F}'
    ||| c == '\u{3000}'
}

/// Decides whether `c` separates words.
pub fn char_is_whitespace(c: char) -> (r: bool)
    ensures
        r == is_whitespace(c),
{
    ('\u{9}' <= c && c <= '\u{D}') || c == ' ' || c == '\u{85}' || c == '\u{A0}' || c
        == '\u{1680}' || ('\u{2000}' <= c && c <= '\u{200A}') || c == '\u{2028}' || c
        == '\u{2029}' || c == '\u{202F}' || c == '\u{205F}' || c == '\u{3000}'
}

/// The characters of `s`, in order.
pub fn chars_of(s: &str) -> (v: Vec<char>)
    ensures
        v@ == s@,
{
    let mut v: Vec<char> = Vec::new();
    for c in it: s.chars()
        invariant
            v@ == s@.take(it.index()),
            it.seq() == s@,
    {
        v.push(c);
    }
    v
}

/// Decides whether `a` and `b` hold the same characters.
pub fn same_text(a: &str, b: &str) -> (r: bool)
    ensures
        r == (a@ == b@),
{
    let x = chars_of(a);
    let y = chars_of(b);
    if x.len() != y.len() {
        return false;
    }
    let mut i: usize = 0;
    while i < x.len()
        invariant
            x@ == a@,
            y@ == b@,
            x.len() == y.len(),
            i <= x.len(),
            forall|k: int| 0 <= k < i ==> x@[k] == y@[k],
        decreases x.len() - i,
    {
        if x[i] != y[i] {
            return false;
        }
        i += 1;
    }
    assert(a@ =~= b@);
    true
}

/// Decides whether `text` begins with `prefix`.
pub fn starts_with(text: &str, prefix: &str) -> (r: bool)
    ensures
        r == prefix@.is_prefix_of(text@),
{
    let x = chars_of(text);
    let y = chars_of(prefix);
    if y.len() > x.len() {
        return false;
    }
    let mut i: usize = 0;
    while i < y.len()
        invariant
            x@ == text@,
            y@ == prefix@,
            y.len() <= x.len(),
            i <= y.len(),
            forall|k: int| 0 <= k < i ==> x@[k] == y@[k],
        decreases y.len() - i,
    {
        if x[i] != y[i] {
            return false;
        }
        i += 1;
    }
    true
}

/// The number of characters before the first whitespace of `s`: the length of
/// the word that `s` starts with.
pub open spec fn word_len(s: Seq<char>) -> nat
    decreases s.len(),
{
    if s.len() == 0 || is_whitespace(s[0]) {
        0
    } else {
        1 + word_len(s.drop_first())
    }
}

/// The words of `s`: its maximal runs of characters that are not whitespace,
/// from left to right.
pub open spec fn words(s: Seq<char>) -> Seq<Seq<char>>
    decreases s.len(),
    via words_terminates
{
    if s.len() == 0 {
        Seq::empty()
    } else if is_whitespace(s[0]) {
        words(s.drop_first())
    } else {
        seq![s.take(word_len(s) as int)] + words(s.skip(word_len(s) as int))
    }
}

#[via_fn]
proof fn words_terminates(s: Seq<char>) {
    lemma_word_len_bounds(s);
}

/// A word is no longer than the text it starts, and is non-empty exactly when
/// the text starts with a character that is not whitespace.
pub proof fn lemma_word_len_bounds(s: Seq<char>)
    ensures
        word_len(s) <= s.len(),
        word_len(s) > 0 <==> s.len() > 0 && !is_whitespace(s[0]),
    decreases s.len(),
{
    if s.len() > 0 && !is_whitespace(s[0]) {
        lemma_word_len_bounds(s.drop_first());
    }
}

/// The word at the start of `s` holds no whitespace and ends either at the end
/// of `s` or just before a whitespace character.
pub proof fn lemma_word_len_maximal(s: Seq<char>)
    ensures
        forall|i: int| 0 <= i < word_len(s) ==> !is_whitespace(#[trigger] s[i]),
        word_len(s) < s.len() ==> is_whitespace(s[word_len(s) as int]),
    decreases s.len(),
{
    lemma_word_len_bounds(s);
    if s.len() > 0 && !is_whitespace(s[0]) {
        let t = s.drop_first();
        lemma_word_len_maximal(t);
        lemma_word_len_bounds(t);
        assert forall|i: int| 0 <= i < word_len(s) implies !is_whitespace(#[trigger] s[i]) by {
            if i > 0 {
                assert(s[i] == t[i - 1]);
            }
        }
    }
}

/// A run of `k` characters without whitespace that is followed by whitespace,
/// or by the end of `s`, is the word that `s` starts with.
pub proof fn lemma_word_len_unique(s: Seq<char>, k: int)
    requires
        0 <= k <= s.len(),
        forall|i: int| 0 <= i < k ==> !is_whitespace(#[trigger] s[i]),
        k < s.len() ==> is_whitespace(s[k]),
    ensures
        word_len(s) == k,
    decreases s.len(),
{
    if k > 0 {
        let t = s.drop_first();
        assert forall|i: int| 0 <= i < k - 1 implies !is_whitespace(#[trigger] t[i]) by {}
        lemma_word_len_unique(t, k - 1);
    }
}

/// Whitespace inside a text ends the word before it: the word that `a`
/// starts with is the word that `a`, a whitespace character and `b` start
/// with.
pub proof fn lemma_word_len_before_whitespace(a: Seq<char>, c: char, b: Seq<char>)
    requires
        is_whitespace(c),
    ensures
        word_len(a.push(c) + b) == word_len(a),
{
    let whole = a.push(c) + b;
    let k = word_len(a) as int;
    lemma_word_len_bounds(a);
    lemma_word_len_maximal(a);
    assert forall|i: int| 0 <= i < k implies !is_whitespace(#[trigger] whole[i]) by {}
    lemma_word_len_unique(whole, k);
}

/// A text without whitespace that is not empty is one word.
pub proof fn lemma_words_of_word(w: Seq<char>)
    requires
        w.len() > 0,
        forall|i: int| 0 <= i < w.len() ==> !is_whitespace(#[trigger] w[i]),
    ensures
        words(w) == seq![w],
{
    lemma_word_len_unique(w, w.len() as int);
    assert(w.take(w.len() as int) == w);
    assert(words(w.skip(w.len() as int)) == Seq::<Seq<char>>::empty());
}

/// Whitespace separates: the words of `a`, a whitespace character and `b` are
/// the words of `a` followed by the words of `b`.
pub proof fn lemma_words_split_at_whitespace(a: Seq<char>, c: char, b: Seq<char>)
    requires
        is_whitespace(c),
    ensures
        words(a.push(c) + b) == words(a) + words(b),
    decreases a.len(),
{
    let whole = a.push(c) + b;
    if a.len() == 0 {
        assert(whole.drop_first() == b);
    } else if is_whitespace(a[0]) {
        let rest = a.drop_first();
        assert(whole.drop_first() == rest.push(c) + b);
        lemma_words_split_at_whitespace(rest, c, b);
    } else {
        let k = word_len(a) as int;
        let rest = a.skip(k);
        lemma_word_len_bounds(a);
        lemma_word_len_before_whitespace(a, c, b);
        assert(whole.take(k) == a.take(k));
        assert(whole.skip(k) == rest.push(c) + b);
        lemma_words_split_at_whitespace(rest, c, b);
    }
}

/// No word is empty and no word holds whitespace.
pub proof fn lemma_words_hold_no_whitespace(s: Seq<char>, n: int)
    requires
        0 <= n < words(s).len(),
    ensures
        words(s)[n].len() > 0,
        forall|i: int| 0 <= i < words(s)[n].len() ==> !is_whitespace(#[trigger] words(s)[n][i]),
    decreases s.len(),
{
    if s.len() > 0 {
        if is_whitespace(s[0]) {
            lemma_words_hold_no_whitespace(s.drop_first(), n);
        } else {
            let k = word_len(s) as int;
            lemma_word_len_bounds(s);
            lemma_word_len_maximal(s);
            if n > 0 {
                lemma_words_hold_no_whitespace(s.skip(k), n - 1);
            }
        }
    }
}

/// Every character of a word is a character of the text.
pub proof fn lemma_words_come_from_text(s: Seq<char>, n: int)
    requires
        0 <= n < words(s).len(),
    ensures
        forall|i: int| 0 <= i < words(s)[n].len() ==> s.contains(#[trigger] words(s)[n][i]),
    decreases s.len(),
{
    if s.len() > 0 {
        if is_whitespace(s[0]) {
            let rest = s.drop_first();
            lemma_words_come_from_text(rest, n);
            assert forall|i: int| 0 <= i < words(s)[n].len() implies s.contains(
                #[trigger] words(s)[n][i],
            ) by {
                let j = choose|j: int| 0 <= j < rest.len() && rest[j] == words(rest)[n][i];
                assert(s[j + 1] == rest[j]);
            }
        } else {
            let k = word_len(s) as int;
            let rest = s.skip(k);
            lemma_word_len_bounds(s);
            if n > 0 {
                lemma_words_come_from_text(rest, n - 1);
                assert forall|i: int| 0 <= i < words(s)[n].len() implies s.contains(
                    #[trigger] words(s)[n][i],
                ) by {
                    let j = choose|j: int| 0 <= j < rest.len() && rest[j] == words(rest)[n - 1][i];
                    assert(s[j + k] == rest[j]);
                }
            } else {
                assert forall|i: int| 0 <= i < words(s)[n].len() implies s.contains(
                    #[trigger] words(s)[n][i],
                ) by {
                    assert(s[i] == words(s)[n][i]);
                }
            }
        }
    }
}

/// Splits `s` into its words.
pub fn split_words(s: &str) -> (out: Vec<String>)
    ensures
        out.deep_view() == words(s@),
{
    let chars = chars_of(s);
    let n: usize = chars.len();
    let mut out: Vec<String> = Vec::new();
    let mut i: usize = 0;
    assert(s@.skip(0) == s@);
    while i < n
        invariant
            chars@ == s@,
            n == chars.len(),
            i <= n,
            words(s@) == out.deep_view() + words(s@.skip(i as int)),
        decreases n - i,
    {
        let ghost rest = s@.skip(i as int);
        if char_is_whitespace(chars[i]) {
            assert(rest.drop_first() == s@.skip(i + 1));
            i += 1;
        } else {
            let start: usize = i;
            let mut end: usize = i + 1;
            while end < n && !char_is_whitespace(chars[end])
                invariant
                    chars@ == s@,
                    n == chars.len(),
                    start < end <= n,
                    forall|k: int| start <= k < end ==> !is_whitespace(#[trigger] s@[k]),
                decreases n - end,
            {
                end += 1;
            }
            proof {
                lemma_word_len_unique(rest, end - start);
                assert(rest.take(end - start) == s@.subrange(start as int, end as int));
                assert(rest.skip(end - start) == s@.skip(end as int));
            }
            let word = String::from_str(s.substring_char(start, end));
            out.push(word);
            i = end;
        }
    }
    out
}

} // verus!
