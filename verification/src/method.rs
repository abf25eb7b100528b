//! The closed vocabulary of HTTP methods.
//!
//! A method is recognized by exact, case-sensitive matching of a single
//! whitespace-free token against the known verbs; anything else is rejected
//! with the marker error [`MethodError`].

use crate::tokenizer::str_eq;
use vstd::prelude::*;

verus! {

/// The recognized HTTP verbs. The vocabulary is closed: parsing never
/// produces a value outside this enumeration.
#[derive(Clone, Copy, Debug, PartialEq, Eq, Structural)]
pub enum Method {
    GET,
    POST,
    PUT,
    DELETE,
    HEAD,
    CONNECT,
    OPTIONS,
    TRACE,
    PATCH,
}

/// A token did not match any verb of the vocabulary. A marker: it carries
/// no payload.
#[derive(Clone, Copy, Debug, PartialEq, Eq, Structural)]
pub struct MethodError;

/// The verb whose name is exactly `s`, or `None` when `s` names no verb.
pub open spec fn spec_method_of(s: Seq<char>) -> Option<Method> {
    if s == "GET"@ {
        Some(Method::GET)
    } else if s == "POST"@ {
        Some(Method::POST)
    } else if s == "PUT"@ {
        Some(Method::PUT)
    } else if s == "DELETE"@ {
        Some(Method::DELETE)
    } else if s == "HEAD"@ {
        Some(Method::HEAD)
    } else if s == "CONNECT"@ {
        Some(Method::CONNECT)
    } else if s == "OPTIONS"@ {
        Some(Method::OPTIONS)
    } else if s == "TRACE"@ {
        Some(Method::TRACE)
    } else if s == "PATCH"@ {
        Some(Method::PATCH)
    } else {
        None
    }
}

impl Method {
    /// Parses a single whitespace-free token by exact, case-sensitive
    /// matching against the vocabulary. No partial matches, no case
    /// folding.
    pub fn parse(token: &str) -> (r: Result<Method, MethodError>)
        ensures
            match spec_method_of(token@) {
                Some(m) => r == Ok::<Method, MethodError>(m),
                None => r == Err::<Method, MethodError>(MethodError),
            },
    {
        if str_eq(token, "GET") {
            Ok(Method::GET)
        } else if str_eq(token, "POST") {
            Ok(Method::POST)
        } else if str_eq(token, "PUT") {
            Ok(Method::PUT)
        } else if str_eq(token, "DELETE") {
            Ok(Method::DELETE)
        } else if str_eq(token, "HEAD") {
            Ok(Method::HEAD)
        } else if str_eq(token, "CONNECT") {
            Ok(Method::CONNECT)
        } else if str_eq(token, "OPTIONS") {
            Ok(Method::OPTIONS)
        } else if str_eq(token, "TRACE") {
            Ok(Method::TRACE)
        } else if str_eq(token, "PATCH") {
            Ok(Method::PATCH)
        } else {
            Err(MethodError)
        }
    }
}

} // verus!
