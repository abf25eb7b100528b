//! Parsing an HTTP/1.1 request line into a structured request.
//!
//! The parser decodes the raw bytes as UTF-8, tokenizes the line three
//! times (method, target, protocol), checks the protocol against the one
//! accepted literal, parses the method, and splits the target at its first
//! question mark into the path and the optional query string. Every failure
//! is terminal and reported as a typed [`ParseError`]; the whole parse is a
//! pure function of the input bytes, stated by [`spec_parse_bytes`].

use crate::method::{spec_method_of, Method, MethodError};
use crate::tokenizer::{
    find_index, lemma_find_index, lemma_find_index_at, spec_next_word, get_next_word, str_eq,
};
use vstd::prelude::*;
use vstd::utf8::{decode_utf8, encode_utf8, encode_utf8_decode_utf8, valid_utf8};

verus! {

/// Why a parse failed. Constructed once at the failure point and returned
/// immediately; no partial request is ever exposed.
#[derive(Clone, Copy, Debug, PartialEq, Eq, Structural)]
pub enum ParseError {
    /// Malformed structure: the line ran out before three delimited tokens
    /// were found.
    InvalidRequest,
    /// The bytes are not valid UTF-8, or the method token names no known
    /// verb (the two causes share this one reported kind).
    InvalidEncoding,
    /// The protocol token is present but is not the accepted literal.
    InvalidProtocol,
    /// Unused on the parse path: method failures are reported as
    /// `InvalidEncoding`.
    InvalidMethod,
}

/// The message a given error displays.
pub open spec fn spec_message(e: ParseError) -> Seq<char> {
    match e {
        ParseError::InvalidRequest => "InvalidRequest"@,
        ParseError::InvalidEncoding => "InvalidEncoding "@,
        ParseError::InvalidProtocol => "InvalidEncoding "@,
        ParseError::InvalidMethod => "InvalidEncoding "@,
    }
}

impl ParseError {
    /// A human-readable message for logging by the caller.
    pub fn message(&self) -> (r: &str)
        ensures
            r@ == spec_message(*self),
    {
        match self {
            Self::InvalidRequest => "InvalidRequest",
            Self::InvalidEncoding => "InvalidEncoding ",
            Self::InvalidProtocol => "InvalidEncoding ",
            Self::InvalidMethod => "InvalidEncoding ",
        }
    }
}

impl From<MethodError> for ParseError {
    /// An unrecognized method token is reported as an encoding failure.
    fn from(_e: MethodError) -> (r: Self) {
        ParseError::InvalidEncoding
    }
}

impl vstd::std_specs::convert::FromSpecImpl<MethodError> for ParseError {
    open spec fn obeys_from_spec() -> bool {
        true
    }

    open spec fn from_spec(_e: MethodError) -> Self {
        ParseError::InvalidEncoding
    }
}

/// The mathematical content of a [`Request`]: its fields as sequences of
/// characters.
#[verifier::ext_equal]
pub struct RequestView {
    pub path: Seq<char>,
    pub query_string: Option<Seq<char>>,
    pub method: Method,
}

impl RequestView {
    /// The invariant of the data model: the path never contains a question
    /// mark, since everything from the first one on is stripped into the
    /// query string.
    pub open spec fn wf(self) -> bool {
        forall|j: int| 0 <= j < self.path.len() ==> self.path[j] != '?'
    }
}

/// A parsed request line: the method, the path, and the query string when
/// the target carried one. Immutable: constructed atomically by a single
/// successful parse.
pub struct Request {
    path: String,
    query_string: Option<String>,
    method: Method,
}

impl View for Request {
    type V = RequestView;

    closed spec fn view(&self) -> RequestView {
        RequestView {
            path: self.path@,
            query_string: match self.query_string {
                None => None,
                Some(q) => Some(q@),
            },
            method: self.method,
        }
    }
}

/// Index of the first question mark of `s`, if any.
pub open spec fn find_qmark(s: Seq<char>) -> Option<int> {
    find_index(s, |c: char| c == '?')
}

/// `find_qmark` characterized: it returns the index of the first question
/// mark, and `None` exactly when `s` holds none.
pub proof fn lemma_find_qmark(s: Seq<char>)
    ensures
        match find_qmark(s) {
            Some(i) => 0 <= i < s.len() && s[i] == '?' && (forall|j: int|
                0 <= j < i ==> #[trigger] s[j] != '?'),
            None => forall|j: int| 0 <= j < s.len() ==> #[trigger] s[j] != '?',
        },
{
    lemma_find_index(s, |c: char| c == '?');
}

/// The converse direction for `find_qmark`: a question mark with none
/// before it is exactly the one found.
pub proof fn lemma_find_qmark_at(s: Seq<char>, i: int)
    requires
        0 <= i < s.len(),
        s[i] == '?',
        forall|j: int| 0 <= j < i ==> #[trigger] s[j] != '?',
    ensures
        find_qmark(s) == Some(i),
{
    lemma_find_index_at(s, |c: char| c == '?', i);
}

/// Splits a request target at its first question mark: everything strictly
/// before it is the path, everything strictly after it the query string
/// (possibly empty). A target without a question mark is all path, with no
/// query string.
pub open spec fn spec_parse_target(s: Seq<char>) -> (Seq<char>, Option<Seq<char>>) {
    match find_qmark(s) {
        None => (s, None),
        Some(i) => (s.subrange(0, i), Some(s.subrange(i + 1, s.len() as int))),
    }
}

/// The one protocol token the parser accepts.
pub open spec fn spec_protocol() -> Seq<char> {
    "HTTP/1.1"@
}

/// What parsing a decoded request line yields, in strict order and
/// short-circuiting on the first failure: three tokenizations (any missing
/// delimiter is `InvalidRequest`), the protocol check (`InvalidProtocol`),
/// the method check (`InvalidEncoding`), and the target split.
pub open spec fn spec_parse_line(line: Seq<char>) -> Result<RequestView, ParseError> {
    match spec_next_word(line) {
        None => Err(ParseError::InvalidRequest),
        Some((method_token, rest)) => match spec_next_word(rest) {
            None => Err(ParseError::InvalidRequest),
            Some((target, rest2)) => match spec_next_word(rest2) {
                None => Err(ParseError::InvalidRequest),
                Some((protocol, _)) => if protocol != spec_protocol() {
                    Err(ParseError::InvalidProtocol)
                } else {
                    match spec_method_of(method_token) {
                        None => Err(ParseError::InvalidEncoding),
                        Some(method) => Ok(
                            RequestView {
                                path: spec_parse_target(target).0,
                                query_string: spec_parse_target(target).1,
                                method,
                            },
                        ),
                    }
                },
            },
        },
    }
}

/// What parsing a raw byte buffer yields: bytes that are not valid UTF-8
/// fail with `InvalidEncoding`; valid bytes are decoded and the line is
/// parsed.
pub open spec fn spec_parse_bytes(bytes: Seq<u8>) -> Result<RequestView, ParseError> {
    if !valid_utf8(bytes) {
        Err(ParseError::InvalidEncoding)
    } else {
        spec_parse_line(decode_utf8(bytes))
    }
}

/// Relies on std's `str::from_utf8`: it returns `Ok` exactly when the bytes
/// are valid UTF-8, and the returned string slice views those same bytes.
#[verifier::external_body]
fn bytes_as_str(buf: &[u8]) -> (r: Option<&str>)
    ensures
        r is Some <==> valid_utf8(buf@),
        r matches Some(s) ==> encode_utf8(s@) == buf@,
{
    std::str::from_utf8(buf).ok()
}

/// Splits an already-tokenized request target at its first question mark,
/// materializing the two halves as owned strings.
fn split_target(target: &str) -> (r: (String, Option<String>))
    ensures
        r.0@ == spec_parse_target(target@).0,
        r.1 is Some <==> spec_parse_target(target@).1 is Some,
        r.1 matches Some(q) ==> spec_parse_target(target@).1 matches Some(v) && q@ == v,
{
    let len: usize = target.unicode_len();
    let mut i: usize = 0;
    while i < len
        invariant
            len == target@.len(),
            i <= len,
            forall|j: int| 0 <= j < i ==> #[trigger] target@[j] != '?',
        decreases len - i,
    {
        let c = target.get_char(i);
        if c == '?' {
            proof {
                lemma_find_qmark_at(target@, i as int);
            }
            let path = target.substring_char(0, i).to_owned();
            let query = target.substring_char(i + 1, len).to_owned();
            return (path, Some(query));
        }
        i = i + 1;
    }
    proof {
        lemma_find_qmark(target@);
    }
    (target.to_owned(), None)
}

impl Request {
    /// Parses the raw bytes of one request line. The result is a pure
    /// function of the bytes, stated exactly by [`spec_parse_bytes`]: the
    /// structured request on success, and the first applicable failure
    /// otherwise.
    pub fn try_from(buf: &[u8]) -> (r: Result<Request, ParseError>)
        ensures
            match spec_parse_bytes(buf@) {
                Ok(v) => r matches Ok(req) && req@ == v,
                Err(e) => r matches Err(err) && err == e,
            },
    {
        let s = match bytes_as_str(buf) {
            None => {
                return Err(ParseError::InvalidEncoding);
            },
            Some(s) => s,
        };
        proof {
            encode_utf8_decode_utf8(s@);
            assert(decode_utf8(buf@) == s@);
        }
        let (method_token, after_method) = match get_next_word(s) {
            None => {
                return Err(ParseError::InvalidRequest);
            },
            Some(w) => w,
        };
        let (target_token, after_target) = match get_next_word(after_method) {
            None => {
                return Err(ParseError::InvalidRequest);
            },
            Some(w) => w,
        };
        let (protocol_token, _tail) = match get_next_word(after_target) {
            None => {
                return Err(ParseError::InvalidRequest);
            },
            Some(w) => w,
        };
        if !str_eq(protocol_token, "HTTP/1.1") {
            return Err(ParseError::InvalidProtocol);
        }
        let method = match Method::parse(method_token) {
            Err(e) => {
                return Err(ParseError::from(e));
            },
            Ok(m) => m,
        };
        let (path, query_string) = split_target(target_token);
        let req = Request { path, query_string, method };
        proof {
            let v = spec_parse_line(s@)->Ok_0;
            assert(req@.query_string == v.query_string);
            assert(req@ =~= v);
        }
        Ok(req)
    }

    /// The request path: the target up to (and excluding) its first
    /// question mark.
    pub fn path(&self) -> (r: &str)
        ensures
            r@ == self@.path,
    {
        self.path.as_str()
    }

    /// The query string: the target strictly after its first question mark,
    /// or `None` when the target had none.
    pub fn query_string(&self) -> (r: Option<&str>)
        ensures
            r is Some <==> self@.query_string is Some,
            r matches Some(q) ==> self@.query_string matches Some(v) && q@ == v,
    {
        match &self.query_string {
            None => None,
            Some(q) => Some(q.as_str()),
        }
    }

    /// The parsed method.
    pub fn method(&self) -> (r: Method)
        ensures
            r == self@.method,
    {
        self.method
    }
}

} // verus!
