//! Tokenizer for request lines.
//!
//! A token is the run of characters strictly before the first delimiter,
//! where the delimiter set is exactly a space or a carriage return. The
//! tokenizer is non-greedy: it consumes one delimiter and hands back the
//! remainder, so repeated calls walk the line left to right.

use vstd::prelude::*;

verus! {

/// A delimiter of the request line: a space or a carriage return, nothing
/// else. Tabs, newlines and other whitespace are not delimiters.
pub open spec fn is_delim(c: char) -> bool {
    c == ' ' || c == '\r'
}

/// Index of the first character of `s` satisfying `p`, or `None` when no
/// character does.
pub open spec fn find_index(s: Seq<char>, p: spec_fn(char) -> bool) -> Option<int>
    decreases s.len(),
{
    if s.len() == 0 {
        None
    } else if p(s[0]) {
        Some(0int)
    } else {
        match find_index(s.subrange(1, s.len() as int), p) {
            None => None,
            Some(i) => Some(i + 1),
        }
    }
}

/// `find_index` returns the index of a matching character and nothing
/// matches before it; when it returns `None`, nothing matches at all.
pub proof fn lemma_find_index(s: Seq<char>, p: spec_fn(char) -> bool)
    ensures
        match find_index(s, p) {
            Some(i) => 0 <= i < s.len() && p(s[i]) && (forall|j: int|
                0 <= j < i ==> !p(#[trigger] s[j])),
            None => forall|j: int| 0 <= j < s.len() ==> !p(#[trigger] s[j]),
        },
    decreases s.len(),
{
    if s.len() == 0 {
    } else if p(s[0]) {
    } else {
        let t = s.subrange(1, s.len() as int);
        lemma_find_index(t, p);
        match find_index(t, p) {
            None => {
                assert forall|j: int| 0 <= j < s.len() implies !p(#[trigger] s[j]) by {
                    if j >= 1 {
                        assert(t[j - 1] == s[j]);
                    }
                }
            },
            Some(i) => {
                assert(find_index(s, p) == Some(i + 1));
                assert(t[i] == s[i + 1]);
                assert forall|j: int| 0 <= j < i + 1 implies !p(#[trigger] s[j]) by {
                    if j >= 1 {
                        assert(t[j - 1] == s[j]);
                    }
                }
            },
        }
    }
}

/// The converse direction: an index that matches, with nothing matching
/// before it, is exactly what `find_index` returns.
pub proof fn lemma_find_index_at(s: Seq<char>, p: spec_fn(char) -> bool, i: int)
    requires
        0 <= i < s.len(),
        p(s[i]),
        forall|j: int| 0 <= j < i ==> !p(#[trigger] s[j]),
    ensures
        find_index(s, p) == Some(i),
{
    lemma_find_index(s, p);
    match find_index(s, p) {
        None => {
            assert(!p(s[i]));
        },
        Some(k) => {
            if k < i {
                assert(!p(s[k]));
            } else if i < k {
                assert(!p(s[i]));
            }
        },
    }
}

/// Index of the first delimiter of `s`, if any.
pub open spec fn find_delim(s: Seq<char>) -> Option<int> {
    find_index(s, |c: char| is_delim(c))
}

/// `find_delim` characterized: it returns the index of the first delimiter,
/// and `None` exactly when `s` holds no delimiter.
pub proof fn lemma_find_delim(s: Seq<char>)
    ensures
        match find_delim(s) {
            Some(i) => 0 <= i < s.len() && is_delim(s[i]) && (forall|j: int|
                0 <= j < i ==> !is_delim(#[trigger] s[j])),
            None => forall|j: int| 0 <= j < s.len() ==> !is_delim(#[trigger] s[j]),
        },
{
    lemma_find_index(s, |c: char| is_delim(c));
}

/// The converse direction for `find_delim`: a delimiter with no delimiter
/// before it is exactly the one found.
pub proof fn lemma_find_delim_at(s: Seq<char>, i: int)
    requires
        0 <= i < s.len(),
        is_delim(s[i]),
        forall|j: int| 0 <= j < i ==> !is_delim(#[trigger] s[j]),
    ensures
        find_delim(s) == Some(i),
{
    lemma_find_index_at(s, |c: char| is_delim(c), i);
}

/// The token before the first delimiter of `s` and the remainder after it,
/// with the delimiter itself consumed; `None` when `s` holds no delimiter.
pub open spec fn spec_next_word(s: Seq<char>) -> Option<(Seq<char>, Seq<char>)> {
    match find_delim(s) {
        None => None,
        Some(i) => Some((s.subrange(0, i), s.subrange(i + 1, s.len() as int))),
    }
}

/// Splits `s` at its first delimiter into the token strictly before it and
/// the rest strictly after it. Returns `None` when `s` holds no delimiter:
/// the terminal signal of tokenization, distinct from an empty token.
pub fn get_next_word<'a>(s: &'a str) -> (r: Option<(&'a str, &'a str)>)
    ensures
        r is Some <==> spec_next_word(s@) is Some,
        r matches Some(w) ==> spec_next_word(s@) matches Some(v) && w.0@ == v.0 && w.1@ == v.1,
{
    let len: usize = s.unicode_len();
    let mut i: usize = 0;
    while i < len
        invariant
            len == s@.len(),
            i <= len,
            forall|j: int| 0 <= j < i ==> !is_delim(#[trigger] s@[j]),
        decreases len - i,
    {
        let c = s.get_char(i);
        if c == ' ' || c == '\r' {
            proof {
                lemma_find_delim_at(s@, i as int);
            }
            let token = s.substring_char(0, i);
            let rest = s.substring_char(i + 1, len);
            return Some((token, rest));
        }
        i = i + 1;
    }
    proof {
        lemma_find_delim(s@);
    }
    None
}

/// Character-by-character string equality, proved to agree with equality of
/// the views.
pub fn str_eq(a: &str, b: &str) -> (r: bool)
    ensures
        r == (a@ == b@),
{
    let a_len: usize = a.unicode_len();
    let b_len: usize = b.unicode_len();
    if a_len != b_len {
        return false;
    }
    let mut i: usize = 0;
    while i < a_len
        invariant
            a_len == a@.len(),
            b_len == b@.len(),
            a_len == b_len,
            i <= a_len,
            forall|j: int| 0 <= j < i ==> a@[j] == b@[j],
        decreases a_len - i,
    {
        if a.get_char(i) != b.get_char(i) {
            return false;
        }
        i = i + 1;
    }
    proof {
        assert(a@ =~= b@);
    }
    true
}

} // verus!
