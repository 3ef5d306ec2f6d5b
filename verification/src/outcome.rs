//! The three subcommands and the outcome of one backend call.
//!
//! Every backend call is a single POST; its result is classified into a
//! closed tagged union so that the handlers match exhaustively: HTTP 200 is
//! success (the body is the issued key for `add`/`get`), 422 is a semantic
//! conflict (already / not enrolled), anything else is unexpected, and a
//! transport failure never produces a status at all.
use vstd::prelude::*;

verus! {

/// The subcommand of the `beta` slash command being handled.
#[derive(Clone, Copy, PartialEq, Eq, Structural, Debug)]
pub enum Subcommand {
    Add,
    Remove,
    Get,
}

/// Outcome of one backend call. Exactly one variant is produced per call.
#[derive(Clone, PartialEq, Eq, Debug)]
pub enum BackendOutcome {
    /// HTTP 200; the payload is the raw response body.
    Success(String),
    /// HTTP 422: the target is already (for `add`) or not (for `remove`,
    /// `get`) enrolled.
    Conflict,
    /// Any other HTTP status, with the raw body kept for diagnostics.
    UnexpectedStatus(u16, String),
    /// The request never yielded a status: DNS, connection, timeout, or a
    /// malformed response. The payload is the transport error's description.
    TransportError(String),
}

/// Classify the status code and body of a backend response that did arrive.
/// A transport failure has no status; the caller builds `TransportError`
/// from the error it observed instead of calling this.
pub fn classify_response(status: u16, body: String) -> (r: BackendOutcome)
    ensures
        status == 200 ==> r == BackendOutcome::Success(body),
        status == 422 ==> r == BackendOutcome::Conflict,
        status != 200 && status != 422 ==> r == BackendOutcome::UnexpectedStatus(status, body),
{
    if status == 200 {
        BackendOutcome::Success(body)
    } else if status == 422 {
        BackendOutcome::Conflict
    } else {
        BackendOutcome::UnexpectedStatus(status, body)
    }
}

} // verus!
