//! Character-level scanning over `&str`, stated over the string's view as a
//! sequence of characters.
use vstd::prelude::*;

verus! {

/// A character that ends a token of the request line: a space or a carriage return.
pub open spec fn is_delimiter(c: char) -> bool {
    c == ' ' || c == '\r'
}

/// Position `i` holds the first delimiter of `s`.
pub open spec fn is_first_delimiter(s: Seq<char>, i: int) -> bool {
    &&& 0 <= i < s.len()
    &&& is_delimiter(s[i])
    &&& forall|j: int| 0 <= j < i ==> !is_delimiter(#[trigger] s[j])
}

/// The text before the first delimiter of `s` and the text after it (the
/// delimiter itself in neither), or `None` when `s` holds no delimiter.
pub open spec fn next_word(s: Seq<char>) -> Option<(Seq<char>, Seq<char>)> {
    if exists|i: int| is_first_delimiter(s, i) {
        let i = choose|i: int| is_first_delimiter(s, i);
        Some((s.take(i), s.skip(i + 1)))
    } else {
        None
    }
}

/// Position `i` holds the first `?` of `s`.
pub open spec fn is_first_question_mark(s: Seq<char>, i: int) -> bool {
    &&& 0 <= i < s.len()
    &&& s[i] == '?'
    &&& forall|j: int| 0 <= j < i ==> #[trigger] s[j] != '?'
}

/// A request target split at its first `?` into the path and the query
/// string; the whole target and no query string when it holds no `?`.
pub open spec fn split_target(s: Seq<char>) -> (Seq<char>, Option<Seq<char>>) {
    if exists|i: int| is_first_question_mark(s, i) {
        let i = choose|i: int| is_first_question_mark(s, i);
        (s.take(i), Some(s.skip(i + 1)))
    } else {
        (s, None)
    }
}

/// `next_word` splits at the first delimiter.
pub proof fn lemma_next_word_at(s: Seq<char>, i: int)
    requires
        is_first_delimiter(s, i),
    ensures
        next_word(s) == Some((s.take(i), s.skip(i + 1))),
{
    let k = choose|k: int| is_first_delimiter(s, k);
    assert(is_first_delimiter(s, k));
    if k < i {
        assert(!is_delimiter(s[k]));
    } else if i < k {
        assert(!is_delimiter(s[i]));
    }
}

/// `next_word` finds nothing in a text without delimiters.
pub proof fn lemma_next_word_none(s: Seq<char>)
    requires
        forall|j: int| 0 <= j < s.len() ==> !is_delimiter(#[trigger] s[j]),
    ensures
        next_word(s) is None,
{
    if exists|i: int| is_first_delimiter(s, i) {
        let i = choose|i: int| is_first_delimiter(s, i);
        assert(is_delimiter(s[i]));
    }
}

/// `split_target` splits at the first `?`.
pub proof fn lemma_split_target_at(s: Seq<char>, i: int)
    requires
        is_first_question_mark(s, i),
    ensures
        split_target(s) == (s.take(i), Some(s.skip(i + 1))),
{
    let k = choose|k: int| is_first_question_mark(s, k);
    assert(is_first_question_mark(s, k));
    if k < i {
        assert(s[k] != '?');
    } else if i < k {
        assert(s[i] != '?');
    }
}

/// `split_target` leaves a target without `?` whole.
pub proof fn lemma_split_target_none(s: Seq<char>)
    requires
        forall|j: int| 0 <= j < s.len() ==> #[trigger] s[j] != '?',
    ensures
        split_target(s) == (s, None::<Seq<char>>),
{
    if exists|i: int| is_first_question_mark(s, i) {
        let i = choose|i: int| is_first_question_mark(s, i);
        assert(s[i] == '?');
    }
}

/// Whether `s` and `t` hold the same characters.
pub fn same_text(s: &str, t: &str) -> (r: bool)
    ensures
        r == (s@ == t@),
{
    let n = s.unicode_len();
    if n != t.unicode_len() {
        return false;
    }
    let mut i: usize = 0;
    while i < n
        invariant
            n == s@.len(),
            n == t@.len(),
            i <= n,
            s@.take(i as int) == t@.take(i as int),
        decreases n - i,
    {
        if s.get_char(i) != t.get_char(i) {
            return false;
        }
        assert(s@.take(i + 1) == s@.take(i as int).push(s@[i as int]));
        assert(t@.take(i + 1) == t@.take(i as int).push(t@[i as int]));
        i = i + 1;
    }
    assert(s@ == s@.take(n as int));
    assert(t@ == t@.take(n as int));
    true
}

} // verus!
