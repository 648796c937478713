//! What a single attempt at a request came to, as far as retry policies read it.
use vstd::prelude::*;
use reqwest::header::{HeaderMap, HeaderValue};
use reqwest::Error as HttpError;

verus! {

/// The head of a response: its status code and its headers.
pub struct ResponseHead {
    pub status: u16,
    pub headers: HeaderMap<HeaderValue>,
}

/// A failure that kept a request from producing a response.
#[derive(Debug)]
pub struct TransportError {
    /// Whether the failure is a timeout.
    pub timeout: bool,
    /// Whether the failure came up while connecting.
    pub connect: bool,
    /// The failure itself.
    pub error: HttpError,
}

/// Outcome of a single request attempt, passed to retry policies.
#[derive(Clone, Copy)]
pub enum RetryableOutcome<'a> {
    /// The request returned a response.
    Response(&'a ResponseHead),
    /// The request failed before producing a response.
    Error(&'a TransportError),
}

} // verus!
