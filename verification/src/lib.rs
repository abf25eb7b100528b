//! Verified parser for HTTP/1.1 request lines.
//!
//! The crate turns the raw bytes of a single request line, such as
//! `GET /search?name=abc HTTP/1.1\r\n`, into a structured [`request::Request`]
//! holding the method, the path and the optional query string, or into a
//! typed [`request::ParseError`]. Every function is specified and proved
//! against a mathematical model of the line: the bytes are decoded as UTF-8,
//! split into tokens at spaces and carriage returns, and the request target
//! is split at the first question mark.

pub mod laws;
pub mod method;
pub mod request;
pub mod tokenizer;
