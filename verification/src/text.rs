//! Tokenizing and small text utilities: splitting an input line into
//! whitespace-separated words, trimming, and single-hop path-argument parsing.

use vstd::prelude::*;

verus! {

/// The whitespace characters recognized when splitting an input line.
pub open spec fn is_space(c: char) -> bool {
    c == ' ' || c == '\t' || c == '\n' || c == '\r'
}

/// The longest prefix of `s` that contains no whitespace character.
pub open spec fn word_prefix(s: Seq<char>) -> Seq<char>
    decreases s.len(),
{
    if s.len() == 0 {
        s
    } else if is_space(s[0]) {
        Seq::empty()
    } else {
        seq![s[0]] + word_prefix(s.drop_first())
    }
}

pub proof fn lemma_word_prefix_len(s: Seq<char>)
    ensures
        word_prefix(s).len() <= s.len(),
        s.len() > 0 && !is_space(s[0]) ==> word_prefix(s).len() >= 1,
    decreases s.len(),
{
    if s.len() > 0 && !is_space(s[0]) {
        lemma_word_prefix_len(s.drop_first());
    }
}

/// If the first `k` characters of `s` are non-space and `s` either ends or
/// has a space at position `k`, then the word prefix of `s` is exactly
/// the first `k` characters.
pub proof fn lemma_word_prefix_chars(s: Seq<char>, k: int)
    requires
        0 <= k <= s.len(),
        forall|j: int| 0 <= j < k ==> !is_space(s[j]),
        k == s.len() || is_space(s[k]),
    ensures
        word_prefix(s) == s.take(k),
    decreases s.len(),
{
    if s.len() == 0 {
        assert(word_prefix(s) =~= s.take(k));
    } else if k == 0 {
        assert(word_prefix(s) =~= s.take(0));
    } else {
        lemma_word_prefix_chars(s.drop_first(), k - 1);
        assert(s.drop_first().take(k - 1) =~= s.take(k).drop_first());
        assert(word_prefix(s) =~= seq![s[0]] + s.drop_first().take(k - 1));
        assert(word_prefix(s) =~= s.take(k));
    }
}

/// The words of `s`: maximal runs of non-whitespace characters, in order.
pub open spec fn spec_tokenize(s: Seq<char>) -> Seq<Seq<char>>
    decreases s.len(),
    via spec_tokenize_decreases
{
    if s.len() == 0 {
        Seq::empty()
    } else if is_space(s[0]) {
        spec_tokenize(s.drop_first())
    } else {
        seq![word_prefix(s)] + spec_tokenize(s.skip(word_prefix(s).len() as int))
    }
}

#[via_fn]
proof fn spec_tokenize_decreases(s: Seq<char>) {
    if s.len() > 0 && !is_space(s[0]) {
        lemma_word_prefix_len(s);
    }
}

/// Splits a raw input line into its whitespace-separated words.
/// Leading and trailing whitespace is dropped; every word is non-empty.
pub fn tokenize(s: &str) -> (r: Vec<String>)
    ensures
        r.deep_view() == spec_tokenize(s@),
    decreases s@.len(),
{
    let n = s.unicode_len();
    if n == 0 {
        let r: Vec<String> = Vec::new();
        assert(r.deep_view() =~= spec_tokenize(s@));
        r
    } else if char_is_space(s.get_char(0)) {
        let rest = s.substring_char(1, n);
        assert(rest@ =~= s@.drop_first());
        tokenize(rest)
    } else {
        let mut k: usize = 0;
        while k < n && !char_is_space(s.get_char(k))
            invariant
                0 <= k <= n,
                n == s@.len(),
                forall|j: int| 0 <= j < k ==> !is_space(s@[j]),
            decreases n - k,
        {
            k = k + 1;
        }
        proof {
            lemma_word_prefix_chars(s@, k as int);
            lemma_word_prefix_len(s@);
        }
        let word = s.substring_char(0, k).to_owned();
        let rest = s.substring_char(k, n);
        assert(rest@ =~= s@.skip(word_prefix(s@).len() as int));
        let ghost tail_view = spec_tokenize(s@.skip(word_prefix(s@).len() as int));
        let mut r = tokenize(rest);
        r.insert(0, word);
        assert(r.deep_view() =~= seq![word_prefix(s@)] + tail_view);
        r
    }
}

/// Executable counterpart of `is_space`.
pub fn char_is_space(c: char) -> (r: bool)
    ensures
        r == is_space(c),
{
    c == ' ' || c == '\t' || c == '\n' || c == '\r'
}

/// `s` with leading and trailing whitespace removed.
pub open spec fn spec_trim(s: Seq<char>) -> Seq<char>
    decreases s.len(),
{
    if s.len() == 0 {
        s
    } else if is_space(s[0]) {
        spec_trim(s.drop_first())
    } else if is_space(s.last()) {
        spec_trim(s.drop_last())
    } else {
        s
    }
}

proof fn lemma_trim_all_space(s: Seq<char>)
    requires
        forall|j: int| 0 <= j < s.len() ==> is_space(s[j]),
    ensures
        spec_trim(s) == Seq::<char>::empty(),
    decreases s.len(),
{
    if s.len() > 0 {
        lemma_trim_all_space(s.drop_first());
        assert(spec_trim(s) =~= Seq::<char>::empty());
    } else {
        assert(spec_trim(s) =~= Seq::<char>::empty());
    }
}

proof fn lemma_trim_bounds(s: Seq<char>, lo: int, hi: int)
    requires
        0 <= lo < hi <= s.len(),
        forall|j: int| 0 <= j < lo ==> is_space(s[j]),
        forall|j: int| hi <= j < s.len() ==> is_space(s[j]),
        !is_space(s[lo]),
        !is_space(s[hi - 1]),
    ensures
        spec_trim(s) == s.subrange(lo, hi),
    decreases s.len(),
{
    if lo > 0 {
        lemma_trim_bounds(s.drop_first(), lo - 1, hi - 1);
        assert(s.drop_first().subrange(lo - 1, hi - 1) =~= s.subrange(lo, hi));
    } else if hi < s.len() {
        lemma_trim_bounds(s.drop_last(), lo, hi);
        assert(s.drop_last().subrange(lo, hi) =~= s.subrange(lo, hi));
    } else {
        assert(s.subrange(0, s.len() as int) =~= s);
    }
}

/// Removes leading and trailing whitespace from `s`.
pub fn trim(s: &str) -> (r: String)
    ensures
        r@ == spec_trim(s@),
{
    let n = s.unicode_len();
    let mut lo: usize = 0;
    while lo < n && char_is_space(s.get_char(lo))
        invariant
            0 <= lo <= n,
            n == s@.len(),
            forall|j: int| 0 <= j < lo ==> is_space(s@[j]),
        decreases n - lo,
    {
        lo = lo + 1;
    }
    if lo == n {
        proof {
            lemma_trim_all_space(s@);
        }
        let r = String::new();
        assert(r@ =~= spec_trim(s@));
        return r;
    }
    let mut hi: usize = n;
    while hi > lo + 1 && char_is_space(s.get_char(hi - 1))
        invariant
            lo < hi <= n,
            n == s@.len(),
            forall|j: int| hi <= j < n ==> is_space(s@[j]),
        decreases hi,
    {
        hi = hi - 1;
    }
    proof {
        lemma_trim_bounds(s@, lo as int, hi as int);
    }
    s.substring_char(lo, hi).to_owned()
}

/// The number of `/` characters in `s`.
pub open spec fn slash_count(s: Seq<char>) -> nat
    decreases s.len(),
{
    if s.len() == 0 {
        0
    } else {
        slash_count(s.drop_last()) + if s.last() == '/' { 1nat } else { 0nat }
    }
}

/// The prefix of `s` before its first `/` (all of `s` if it has none).
pub open spec fn before_slash(s: Seq<char>) -> Seq<char>
    decreases s.len(),
{
    if s.len() == 0 {
        s
    } else if s[0] == '/' {
        Seq::empty()
    } else {
        seq![s[0]] + before_slash(s.drop_first())
    }
}

proof fn lemma_before_slash_chars(s: Seq<char>, k: int)
    requires
        0 <= k <= s.len(),
        forall|j: int| 0 <= j < k ==> s[j] != '/',
        k == s.len() || s[k] == '/',
    ensures
        before_slash(s) == s.take(k),
    decreases s.len(),
{
    if s.len() == 0 {
        assert(before_slash(s) =~= s.take(k));
    } else if k == 0 {
        assert(before_slash(s) =~= s.take(0));
    } else {
        lemma_before_slash_chars(s.drop_first(), k - 1);
        assert(s.drop_first().take(k - 1) =~= s.take(k).drop_first());
        assert(before_slash(s) =~= seq![s[0]] + s.drop_first().take(k - 1));
        assert(before_slash(s) =~= s.take(k));
    }
}

/// A string without `/` is its own part before the first slash.
pub proof fn lemma_before_slash_no_slash(s: Seq<char>)
    requires
        forall|i: int| 0 <= i < s.len() ==> s[i] != '/',
    ensures
        before_slash(s) == s,
{
    lemma_before_slash_chars(s, s.len() as int);
    assert(s.take(s.len() as int) =~= s);
}

/// Counts the `/` characters of `s`.
pub fn count_slashes(s: &str) -> (r: usize)
    ensures
        r == slash_count(s@),
{
    let n = s.unicode_len();
    let mut count: usize = 0;
    let mut i: usize = 0;
    while i < n
        invariant
            0 <= i <= n,
            n == s@.len(),
            count == slash_count(s@.take(i as int)),
            count <= i,
        decreases n - i,
    {
        assert(s@.take(i as int + 1).drop_last() =~= s@.take(i as int));
        if s.get_char(i) == '/' {
            count = count + 1;
        }
        i = i + 1;
    }
    assert(s@.take(n as int) =~= s@);
    count
}

/// The part of `s` before its first `/`, as an owned string.
pub fn take_before_slash(s: &str) -> (r: String)
    ensures
        r@ == before_slash(s@),
{
    let n = s.unicode_len();
    let mut k: usize = 0;
    while k < n && s.get_char(k) != '/'
        invariant
            0 <= k <= n,
            n == s@.len(),
            forall|j: int| 0 <= j < k ==> s@[j] != '/',
        decreases n - k,
    {
        k = k + 1;
    }
    proof {
        lemma_before_slash_chars(s@, k as int);
    }
    s.substring_char(0, k).to_owned()
}

} // verus!
