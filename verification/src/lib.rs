//! A retrying HTTP client for Rust, built on top of `reqwest`.
//!
//! A [`Client`] is a `reqwest::Client` with a [`RetryPolicy`]. The course of each of its requests is an
//! [`Execution`]: it is told the outcome of every attempt, and answers what to do next, a [`Step`].
//! The attempts themselves, and the waits between them, are left to whoever runs it.
//!
//! # Defaults
//!
//! - Up to 3 retries after the initial attempt.
//! - Exponential backoff with full jitter, 100ms base to 30s cap.
//! - Retries on 5xx, 429, 408, connect, and timeout errors. A `Retry-After` header
//!   on any retried response (e.g. 429 or 503) is honored in place of the
//!   computed backoff, capped so a hostile value cannot pin the client.
//! - Only idempotent methods (GET, HEAD, PUT, DELETE, OPTIONS, TRACE) are
//!   retried by default. POST/PATCH must be opted in explicitly.
//!
//! Override any of these with [`DefaultRetryPolicy::builder`] or by
//! implementing [`RetryPolicy`] yourself.
pub mod backoff;
pub mod client;
pub mod duration;
pub mod error;
pub mod execution;
pub mod method;
pub mod outcome;
pub mod outside;
pub mod policy;
pub mod retry_after;

pub use client::{Client, ClientBuilder};
pub use duration::Duration;
pub use error::Error;
pub use execution::{Execution, Step};
pub use method::Method;
pub use outcome::{ResponseHead, RetryableOutcome, TransportError};
pub use policy::{DefaultRetryPolicy, NoRetry, RetryPolicy};
