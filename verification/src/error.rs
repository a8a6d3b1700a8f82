//! The error type shared by the backend services.

use vstd::prelude::*;

verus! {

/// Errors raised by the backend services, each with a human-readable message.
#[derive(Debug, Clone)]
pub enum CntrlError {
    /// An AI, intent or planning failure.
    Ai(String),
    /// An OS keychain failure.
    Keychain(String),
    /// A browser or fallback-fetch failure.
    Browser(String),
    /// A database failure.
    Database(String),
    /// A filesystem failure.
    Io(String),
}

/// `e` is an AI error with the message `msg`.
pub open spec fn is_ai_error(e: CntrlError, msg: Seq<char>) -> bool {
    e matches CntrlError::Ai(m) && m@ == msg
}

} // verus!
