use vstd::prelude::*;

verus! {

/// Outcome kinds for the line-level parsers.
///
/// The parsers are written for a streaming source: a line may be handed over
/// before the peer has sent all of it, so "the input ran out mid-token" is
/// reported as `Incomplete`, distinct from a definite mismatch.
#[derive(Debug, Clone, Copy, PartialEq, Eq, Structural)]
pub enum ParseError {
    /// More input could still turn this into a successful parse.
    Incomplete,
    /// None of the recognized literals matches at the current position.
    NoMatch,
    /// The request line has no valid method or no space-delimited path token.
    MalformedRequestLine,
}

/// Connection-scoped failures of one request/response exchange.
///
/// Either aborts the current connection without writing a response; neither
/// is fatal to the process that accepts connections.
#[derive(Debug, Clone, Copy, PartialEq, Eq, Structural)]
pub enum RequestError {
    /// The first line of the request could not be parsed.
    MalformedRequestLine,
    /// The `/user-agent` route was requested but no `User-Agent` header came.
    MissingRequiredHeader,
}

} // verus!
