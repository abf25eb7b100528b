//! Laws of the parser, proved once for all inputs.
//!
//! Each public proof function here states a guarantee of the parser over
//! the spec functions that the executable contracts use: how a well-formed
//! line of the wire format parses, how the first question mark splits the
//! target, and that the parse is a pure function of its input.

use crate::method::{spec_method_of, Method};
use crate::request::{
    lemma_find_qmark, lemma_find_qmark_at, spec_parse_bytes, spec_parse_line, spec_parse_target,
    ParseError, RequestView,
};
use crate::tokenizer::{is_delim, lemma_find_delim_at, spec_next_word};
use vstd::prelude::*;

verus! {

/// `s` holds no tokenizer delimiter (no space, no carriage return).
pub open spec fn no_delim(s: Seq<char>) -> bool {
    forall|j: int| 0 <= j < s.len() ==> !is_delim(#[trigger] s[j])
}

/// `s` holds no question mark.
pub open spec fn no_qmark(s: Seq<char>) -> bool {
    forall|j: int| 0 <= j < s.len() ==> #[trigger] s[j] != '?'
}

/// Tokenizing `token ++ [d] ++ rest`, where `token` is delimiter-free and
/// `d` is a delimiter, yields exactly `token` and `rest`.
pub proof fn lemma_next_word_of_concat(token: Seq<char>, d: char, rest: Seq<char>)
    requires
        is_delim(d),
        no_delim(token),
    ensures
        spec_next_word(token.push(d) + rest) == Some((token, rest)),
{
    let s = token.push(d) + rest;
    assert(s[token.len() as int] == d);
    assert forall|j: int| 0 <= j < token.len() implies !is_delim(#[trigger] s[j]) by {
        assert(s[j] == token[j]);
    }
    lemma_find_delim_at(s, token.len() as int);
    assert(s.subrange(0, token.len() as int) =~= token);
    assert(s.subrange(token.len() as int + 1, s.len() as int) =~= rest);
}

/// Splitting `pre ++ ['?'] ++ suf`, where `pre` holds no question mark,
/// yields exactly the path `pre` and the query string `suf`; any further
/// question marks stay inside `suf`.
pub proof fn lemma_parse_target_split(pre: Seq<char>, suf: Seq<char>)
    requires
        no_qmark(pre),
    ensures
        spec_parse_target(pre.push('?') + suf) == (pre, Some(suf)),
{
    let s = pre.push('?') + suf;
    assert(s[pre.len() as int] == '?');
    assert forall|j: int| 0 <= j < pre.len() implies #[trigger] s[j] != '?' by {
        assert(s[j] == pre[j]);
    }
    lemma_find_qmark_at(s, pre.len() as int);
    assert(s.subrange(0, pre.len() as int) =~= pre);
    assert(s.subrange(pre.len() as int + 1, s.len() as int) =~= suf);
}

/// Every verb of the vocabulary is free of delimiters: a method token that
/// parses can always be recovered by tokenization.
pub proof fn lemma_vocab_no_delim(s: Seq<char>)
    requires
        spec_method_of(s) is Some,
    ensures
        no_delim(s),
{
    reveal_strlit("GET");
    reveal_strlit("POST");
    reveal_strlit("PUT");
    reveal_strlit("DELETE");
    reveal_strlit("HEAD");
    reveal_strlit("CONNECT");
    reveal_strlit("OPTIONS");
    reveal_strlit("TRACE");
    reveal_strlit("PATCH");
    assert(no_delim("GET"@));
    assert(no_delim("POST"@));
    assert(no_delim("PUT"@));
    assert(no_delim("DELETE"@));
    assert(no_delim("HEAD"@));
    assert(no_delim("CONNECT"@));
    assert(no_delim("OPTIONS"@));
    assert(no_delim("TRACE"@));
    assert(no_delim("PATCH"@));
}

/// The one accepted protocol token, its terminating carriage return, and
/// the trailing newline are exactly how the wire format ends a line.
proof fn lemma_line_ending()
    ensures
        "HTTP/1.1\r\n"@ == "HTTP/1.1"@.push('\r') + "\n"@,
        no_delim("HTTP/1.1"@),
{
    reveal_strlit("HTTP/1.1\r\n");
    reveal_strlit("HTTP/1.1");
    reveal_strlit("\n");
    assert("HTTP/1.1\r\n"@ =~= "HTTP/1.1"@.push('\r') + "\n"@);
    assert(no_delim("HTTP/1.1"@));
}

/// A line `METHOD TARGET HTTP/1.1\r\n`, with a vocabulary method and a
/// delimiter-free target, parses successfully to that method and to the
/// target split at its first question mark.
pub proof fn lemma_parse_wire_line(mtok: Seq<char>, m: Method, target: Seq<char>)
    requires
        spec_method_of(mtok) == Some(m),
        no_delim(target),
    ensures
        spec_parse_line(mtok + seq![' '] + target + seq![' '] + "HTTP/1.1\r\n"@)
            == Ok::<RequestView, ParseError>(
            RequestView {
                path: spec_parse_target(target).0,
                query_string: spec_parse_target(target).1,
                method: m,
            },
        ),
{
    let line = mtok + seq![' '] + target + seq![' '] + "HTTP/1.1\r\n"@;
    let rest1 = target + seq![' '] + "HTTP/1.1\r\n"@;
    let rest2 = "HTTP/1.1\r\n"@;
    lemma_vocab_no_delim(mtok);
    assert(line =~= mtok.push(' ') + rest1);
    lemma_next_word_of_concat(mtok, ' ', rest1);
    assert(rest1 =~= target.push(' ') + rest2);
    lemma_next_word_of_concat(target, ' ', rest2);
    lemma_line_ending();
    lemma_next_word_of_concat("HTTP/1.1"@, '\r', "\n"@);
}

/// For every vocabulary method and every path without a question mark, the
/// line `METHOD PATH HTTP/1.1\r\n` parses to exactly that path, with no
/// query string.
pub proof fn lemma_parse_plain_path(mtok: Seq<char>, m: Method, path: Seq<char>)
    requires
        spec_method_of(mtok) == Some(m),
        no_delim(path),
        no_qmark(path),
    ensures
        spec_parse_line(mtok + seq![' '] + path + seq![' '] + "HTTP/1.1\r\n"@)
            == Ok::<RequestView, ParseError>(
            RequestView { path: path, query_string: None, method: m },
        ),
{
    lemma_parse_wire_line(mtok, m, path);
    lemma_find_qmark(path);
    match crate::request::find_qmark(path) {
        None => {},
        Some(i) => {
            assert(path[i] != '?');
        },
    }
}

/// For every vocabulary method and every target `PRE ++ '?' ++ SUF` whose
/// prefix holds no question mark, the line `METHOD PRE?SUF HTTP/1.1\r\n`
/// parses to the path `PRE` and the query string `SUF`: only the first
/// question mark separates, and any further ones stay inside the query
/// string.
pub proof fn lemma_parse_first_query_split(mtok: Seq<char>, m: Method, pre: Seq<char>, suf: Seq<char>)
    requires
        spec_method_of(mtok) == Some(m),
        no_delim(pre),
        no_delim(suf),
        no_qmark(pre),
    ensures
        spec_parse_line(mtok + seq![' '] + (pre.push('?') + suf) + seq![' '] + "HTTP/1.1\r\n"@)
            == Ok::<RequestView, ParseError>(
            RequestView { path: pre, query_string: Some(suf), method: m },
        ),
{
    let target = pre.push('?') + suf;
    assert forall|j: int| 0 <= j < target.len() implies !is_delim(#[trigger] target[j]) by {
        if j < pre.len() {
            assert(target[j] == pre[j]);
        } else if j == pre.len() {
            assert(target[j] == '?');
        } else {
            assert(target[j] == suf[j - pre.len() - 1]);
        }
    }
    lemma_parse_wire_line(mtok, m, target);
    lemma_parse_target_split(pre, suf);
}

/// For a target with exactly one question mark, the path is the part before
/// it and the query string the (possibly empty) part after it.
pub proof fn lemma_parse_single_query(mtok: Seq<char>, m: Method, pre: Seq<char>, suf: Seq<char>)
    requires
        spec_method_of(mtok) == Some(m),
        no_delim(pre),
        no_delim(suf),
        no_qmark(pre),
        no_qmark(suf),
    ensures
        spec_parse_line(mtok + seq![' '] + (pre.push('?') + suf) + seq![' '] + "HTTP/1.1\r\n"@)
            == Ok::<RequestView, ParseError>(
            RequestView { path: pre, query_string: Some(suf), method: m },
        ),
{
    lemma_parse_first_query_split(mtok, m, pre, suf);
}

/// Re-parsing the same byte sequence always yields an equal result: the
/// parse is a pure function of its input, with no hidden state. Together
/// with the contract of `Request::try_from`, whose result is pinned to
/// `spec_parse_bytes` of the input, two parses of equal buffers agree.
pub proof fn lemma_parse_deterministic(b1: Seq<u8>, b2: Seq<u8>)
    requires
        b1 == b2,
    ensures
        spec_parse_bytes(b1) == spec_parse_bytes(b2),
{
}

/// Every successful parse satisfies the data-model invariant: the path of
/// the returned request holds no question mark.
pub proof fn lemma_parsed_path_wf(bytes: Seq<u8>)
    ensures
        spec_parse_bytes(bytes) matches Ok(v) ==> v.wf(),
{
    if spec_parse_bytes(bytes) is Ok {
        let v = spec_parse_bytes(bytes)->Ok_0;
        let line = vstd::utf8::decode_utf8(bytes);
        let (_, rest1) = spec_next_word(line)->Some_0;
        let (target, _) = spec_next_word(rest1)->Some_0;
        lemma_find_qmark(target);
        match crate::request::find_qmark(target) {
            None => {
                assert(v.path == target);
            },
            Some(i) => {
                assert(v.path == target.subrange(0, i));
                assert forall|j: int| 0 <= j < v.path.len() implies #[trigger] v.path[j] != '?' by {
                    assert(v.path[j] == target[j]);
                }
            },
        }
    }
}

} // verus!
