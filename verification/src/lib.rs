//! A verified core for a minimal HTTP/1.1 request/response cycle: parsing a
//! CRLF-delimited request line and header block, routing on the path, and
//! serializing the response into the exact bytes the wire format requires.
//!
//! All socket handling lives outside this crate; the functions here work on
//! plain lines of text and return plain response strings.

pub mod error;
pub mod handler;
pub mod headers;
pub mod laws;
pub mod parse;
pub mod response;
pub mod text;
