use request_line::method::Method;
use request_line::tokenizer::{get_next_word, str_eq};

#[test]
fn splits_at_first_space() {
    let (token, rest) = get_next_word("ab cd ef").expect("a delimiter is present");
    assert_eq!(token, "ab");
    assert_eq!(rest, "cd ef");
}

#[test]
fn splits_at_carriage_return() {
    let (token, rest) = get_next_word("ab\rcd").expect("a delimiter is present");
    assert_eq!(token, "ab");
    assert_eq!(rest, "cd");
}

#[test]
fn no_delimiter_means_none() {
    assert!(get_next_word("abcd").is_none());
    assert!(get_next_word("").is_none());
}

#[test]
fn tab_and_newline_are_not_delimiters() {
    let (token, rest) = get_next_word("a\tb\nc d").expect("a delimiter is present");
    assert_eq!(token, "a\tb\nc");
    assert_eq!(rest, "d");
}

#[test]
fn leading_delimiter_gives_empty_token() {
    let (token, rest) = get_next_word(" abc").expect("a delimiter is present");
    assert_eq!(token, "");
    assert_eq!(rest, "abc");
}

#[test]
fn delimiter_is_consumed() {
    let (token, rest) = get_next_word("x ").expect("a delimiter is present");
    assert_eq!(token, "x");
    assert_eq!(rest, "");
}

#[test]
fn str_eq_agrees_with_equality() {
    assert!(str_eq("HTTP/1.1", "HTTP/1.1"));
    assert!(!str_eq("HTTP/1.1", "HTTP/1.0"));
    assert!(!str_eq("GET", "GE"));
    assert!(str_eq("", ""));
    assert!(str_eq("caf\u{e9}", "caf\u{e9}"));
    assert!(!str_eq("caf\u{e9}", "cafe"));
}

#[test]
fn every_vocabulary_verb_parses() {
    assert_eq!(Method::parse("GET"), Ok(Method::GET));
    assert_eq!(Method::parse("POST"), Ok(Method::POST));
    assert_eq!(Method::parse("PUT"), Ok(Method::PUT));
    assert_eq!(Method::parse("DELETE"), Ok(Method::DELETE));
    assert_eq!(Method::parse("HEAD"), Ok(Method::HEAD));
    assert_eq!(Method::parse("CONNECT"), Ok(Method::CONNECT));
    assert_eq!(Method::parse("OPTIONS"), Ok(Method::OPTIONS));
    assert_eq!(Method::parse("TRACE"), Ok(Method::TRACE));
    assert_eq!(Method::parse("PATCH"), Ok(Method::PATCH));
}

#[test]
fn partial_and_padded_verbs_are_rejected() {
    assert!(Method::parse("GE").is_err());
    assert!(Method::parse("GETS").is_err());
    assert!(Method::parse("").is_err());
    assert!(Method::parse("Get").is_err());
}
