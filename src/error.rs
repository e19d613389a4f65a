//! The errors that sending a notification can end in.
use vstd::prelude::*;

verus! {

/// The gateway refused the notification: its HTTP status and the reason it
/// gave, or `"unknown"` where its answer could not be read.
#[derive(Debug)]
pub struct ApiError {
    pub status: u32,
    pub reason: String,
}

/// Every way in which sending a notification can fail.
#[derive(Debug)]
pub enum SendError {
    /// The signing key was malformed, or signing with it failed.
    Configuration,
    /// The system clock stood before the unix epoch or beyond what a token
    /// can carry.
    Clock,
    /// A header value held characters that a header field cannot carry, or
    /// the payload was not JSON text.
    Encoding,
    /// The transport failed before an answer came back; holds its message.
    Transport(String),
    /// The gateway answered with a refusal.
    Api(ApiError),
}

} // verus!
