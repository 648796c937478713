//! The retrying client: an HTTP client and the policy by which its requests are retried.
use vstd::prelude::*;
use reqwest::Client as HttpClient;

use crate::execution::{begins, Execution};
use crate::method::{law_methods_have_their_names, Method};
use crate::outside::default_http_client;
use crate::policy::{
    builder_defaults, built, law_default_methods_are_idempotent, DefaultCheck, DefaultRetryPolicy,
    RetryCheck, RetryPolicy,
};

verus! {

/// A retrying HTTP client.
///
/// `Client` wraps a `reqwest::Client` and a [`RetryPolicy`]. The course of each of its requests is an
/// [`Execution`], which [`Client::begin`] starts.
pub struct Client<P: RetryPolicy = DefaultRetryPolicy<DefaultCheck>> {
    inner: HttpClient,
    retry_policy: P,
}

impl<P: RetryPolicy> Client<P> {
    /// The client that sends the requests.
    pub closed spec fn http(self) -> HttpClient {
        self.inner
    }

    /// The policy by which requests are retried.
    pub closed spec fn policy(self) -> P {
        self.retry_policy
    }
}

impl Client<DefaultRetryPolicy<DefaultCheck>> {
    /// Creates a client with the default retry policy.
    pub fn new(inner: HttpClient) -> (client: Client<DefaultRetryPolicy<DefaultCheck>>)
        ensures
            client.http() == inner,
            client.policy()@ == built(builder_defaults()),
    {
        Client { inner, retry_policy: DefaultRetryPolicy::builder().build() }
    }

    /// Returns a builder for configuring a client.
    pub fn builder() -> (builder: ClientBuilder<DefaultRetryPolicy<DefaultCheck>>)
        ensures
            builder.http() is None,
            builder.policy()@ == built(builder_defaults()),
    {
        ClientBuilder::new()
    }
}

impl<P: RetryPolicy> Client<P> {
    /// Creates a client with the given retry policy.
    pub fn with_policy(inner: HttpClient, policy: P) -> (client: Client<P>)
        ensures
            client.http() == inner,
            client.policy() == policy,
    {
        Client { inner, retry_policy: policy }
    }

    /// Returns a reference to the inner `reqwest::Client`.
    ///
    /// Useful when a single request should bypass retry logic but reuse the
    /// same connection pool.
    pub fn inner(&self) -> (inner: &HttpClient)
        ensures
            *inner == self.http(),
    {
        &self.inner
    }

    /// Returns a reference to the policy by which requests are retried.
    pub fn retry_policy(&self) -> (policy: &P)
        ensures
            *policy == self.policy(),
    {
        &self.retry_policy
    }

    /// The course of a request with this method, before its first attempt.
    pub fn begin(&self, method: &Method) -> (execution: Execution)
        ensures
            begins(&self.policy(), method@, execution@),
    {
        Execution::begin(&self.retry_policy, method)
    }
}

/// Whether an HTTP client is one that `reqwest` may make by default when it is asked.
pub closed spec fn is_default_client(client: HttpClient) -> bool {
    call_ensures(default_http_client, (), client)
}

/// Builder for [`Client`].
pub struct ClientBuilder<P: RetryPolicy = DefaultRetryPolicy<DefaultCheck>> {
    inner: Option<HttpClient>,
    retry_policy: P,
}

impl<P: RetryPolicy> ClientBuilder<P> {
    /// The client that is to send the requests, if one was given.
    pub closed spec fn http(self) -> Option<HttpClient> {
        self.inner
    }

    /// The policy by which requests are to be retried.
    pub closed spec fn policy(self) -> P {
        self.retry_policy
    }
}

impl ClientBuilder<DefaultRetryPolicy<DefaultCheck>> {
    /// Creates a new builder. Unless it is given another, its policy is the default one.
    pub fn new() -> (builder: ClientBuilder<DefaultRetryPolicy<DefaultCheck>>)
        ensures
            builder.http() is None,
            builder.policy()@ == built(builder_defaults()),
    {
        ClientBuilder { inner: None, retry_policy: DefaultRetryPolicy::builder().build() }
    }
}

impl Default for ClientBuilder<DefaultRetryPolicy<DefaultCheck>> {
    fn default() -> (builder: ClientBuilder<DefaultRetryPolicy<DefaultCheck>>)
        ensures
            builder.http() is None,
            builder.policy()@ == built(builder_defaults()),
    {
        ClientBuilder::new()
    }
}

impl<P: RetryPolicy> ClientBuilder<P> {
    /// Uses the provided `reqwest::Client` for the underlying requests.
    pub fn with_client(self, client: HttpClient) -> (builder: ClientBuilder<P>)
        ensures
            builder.http() == Some(client),
            builder.policy() == self.policy(),
    {
        ClientBuilder { inner: Some(client), retry_policy: self.retry_policy }
    }

    /// Uses the provided retry policy.
    pub fn with_retry_policy<Q: RetryPolicy>(self, policy: Q) -> (builder: ClientBuilder<Q>)
        ensures
            builder.http() == self.http(),
            builder.policy() == policy,
    {
        ClientBuilder { inner: self.inner, retry_policy: policy }
    }

    /// Builds the client.
    ///
    /// If no `reqwest::Client` was given, uses the default one, of which no more is known.
    pub fn build(self) -> (client: Client<P>)
        ensures
            client.policy() == self.policy(),
            self.http() matches Some(inner) ==> client.http() == inner,
            self.http() is None ==> is_default_client(client.http()),
    {
        let inner = match self.inner {
            Some(inner) => inner,
            None => default_http_client(),
        };
        Client { inner, retry_policy: self.retry_policy }
    }
}

/// A default client is one that `reqwest` made by default.
pub(crate) proof fn law_default_client_is_the_makers(client: HttpClient)
    requires
        is_default_client(client),
    ensures
        call_ensures(default_http_client, (), client),
{
}

/// A client has the HTTP client and the policy that it was given.
pub proof fn law_client_keeps_what_it_is_given<P: RetryPolicy>(
    inner: HttpClient,
    policy: P,
    client: Client<P>,
    handle: &HttpClient,
    held: &P,
)
    ensures
        call_ensures(Client::<P>::with_policy, (inner, policy), client) ==> client.http() == inner
            && client.policy() == policy,
        call_ensures(Client::<P>::inner, (&client,), handle) ==> *handle == client.http(),
        call_ensures(Client::<P>::retry_policy, (&client,), held) ==> *held == client.policy(),
{
}

/// A client that is given no policy has the default one: three retries, backoff from 100 milliseconds to
/// 30 seconds, and the same cap on a server-supplied wait.
pub proof fn law_clients_retry_by_default(
    inner: HttpClient,
    client: Client<DefaultRetryPolicy<DefaultCheck>>,
    builder: ClientBuilder<DefaultRetryPolicy<DefaultCheck>>,
)
    ensures
        call_ensures(Client::<DefaultRetryPolicy<DefaultCheck>>::new, (inner,), client) ==> {
            &&& client.http() == inner
            &&& client.policy()@.max_retries == 3
            &&& client.policy()@.min_wait == 100_000_000
            &&& client.policy()@.max_wait == 30_000_000_000
            &&& client.policy()@.retry_after_cap == 30_000_000_000
        },
        call_ensures(Client::<DefaultRetryPolicy<DefaultCheck>>::builder, (), builder)
            || call_ensures(ClientBuilder::<DefaultRetryPolicy<DefaultCheck>>::new, (), builder)
            || call_ensures(
            <ClientBuilder<DefaultRetryPolicy<DefaultCheck>> as Default>::default,
            (),
            builder,
        ) ==> {
            &&& builder.http() is None
            &&& builder.policy()@.max_retries == 3
            &&& builder.policy()@.min_wait == 100_000_000
            &&& builder.policy()@.max_wait == 30_000_000_000
            &&& builder.policy()@.retry_after_cap == 30_000_000_000
        },
{
}

/// A client that is given no policy retries requests with the six idempotent methods, by the default
/// predicate.
pub proof fn law_clients_retry_idempotent_methods(
    inner: HttpClient,
    client: Client<DefaultRetryPolicy<DefaultCheck>>,
    method: Seq<char>,
)
    requires
        call_ensures(Client::<DefaultRetryPolicy<DefaultCheck>>::new, (inner,), client),
    ensures
        client.policy()@.check == DefaultCheck,
        client.policy()@.methods.contains(method) <==> {
            ||| method == seq!['G', 'E', 'T']
            ||| method == seq!['H', 'E', 'A', 'D']
            ||| method == seq!['P', 'U', 'T']
            ||| method == seq!['D', 'E', 'L', 'E', 'T', 'E']
            ||| method == seq!['O', 'P', 'T', 'I', 'O', 'N', 'S']
            ||| method == seq!['T', 'R', 'A', 'C', 'E']
        },
{
    law_default_methods_are_idempotent();
    law_methods_have_their_names(arbitrary());
}

/// A request of a client starts out with no retry made, with the limit of the client's policy, and
/// retryable exactly if its method is among those of the policy.
pub proof fn law_client_requests_follow_its_policy<C: RetryCheck>(
    client: &Client<DefaultRetryPolicy<C>>,
    method: &Method,
    execution: Execution,
)
    requires
        call_ensures(Client::<DefaultRetryPolicy<C>>::begin, (client, method), execution),
    ensures
        execution@.attempt == 0,
        execution@.max_retries == client.policy()@.max_retries,
        execution@.method_retryable <==> client.policy()@.methods.contains(method@),
{
}

/// A builder of clients keeps the last HTTP client and the last policy that it was given, and hands them
/// to the client that it builds.
pub proof fn law_client_builder_remembers<P: RetryPolicy, Q: RetryPolicy>(
    builder: ClientBuilder<P>,
    inner: HttpClient,
    told: ClientBuilder<P>,
    policy: Q,
    changed: ClientBuilder<Q>,
    client: Client<P>,
)
    ensures
        call_ensures(ClientBuilder::<P>::with_client, (builder, inner), told) ==> told.http() == Some(
            inner,
        ) && told.policy() == builder.policy(),
        call_ensures(ClientBuilder::<P>::with_retry_policy::<Q>, (builder, policy), changed)
            ==> changed.http() == builder.http() && changed.policy() == policy,
        call_ensures(ClientBuilder::<P>::build, (builder,), client) ==> {
            &&& client.policy() == builder.policy()
            &&& builder.http() matches Some(given) ==> client.http() == given
            &&& builder.http() is None ==> is_default_client(client.http())
        },
{
}

} // verus!
