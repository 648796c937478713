//! Why a request was given up.
use vstd::prelude::*;
use reqwest::Error as HttpError;

verus! {

/// Why a request was given up.
#[derive(Debug)]
pub enum Error {
    /// The request failed, and was not retried.
    Reqwest(HttpError),
    /// The request body cannot be sent a second time.
    BodyNotRewindable,
    /// All retry attempts were exhausted.
    ///
    /// `source` carries the underlying transport error from the final attempt
    /// when exhaustion was caused by an error (timeout, connect, etc.). It is
    /// `None` when exhaustion was caused by a retryable *response* (e.g. a
    /// persistent 5xx or 429), since that path has no error to attach.
    MaxRetriesExceeded { attempts: u32, source: Option<HttpError> },
}

impl From<HttpError> for Error {
    fn from(err: HttpError) -> (error: Error) {
        Error::Reqwest(err)
    }
}

impl vstd::std_specs::convert::FromSpecImpl<HttpError> for Error {
    open spec fn obeys_from_spec() -> bool {
        true
    }

    open spec fn from_spec(err: HttpError) -> Error {
        Error::Reqwest(err)
    }
}

/// A transport error is wrapped as it is.
pub proof fn law_transport_errors_are_wrapped(err: HttpError, error: Error)
    requires
        call_ensures(<Error as From<HttpError>>::from, (err,), error),
    ensures
        error == Error::Reqwest(err),
{
}

} // verus!
