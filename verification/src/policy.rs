//! Retry policies: whether, how often and after what wait a request is sent again.
use vstd::arithmetic::power2::pow2;
use vstd::prelude::*;

use crate::backoff::{
    exponential_jitter_backoff, generator_draws, jittered, law_ceiling_is_exponential,
    law_full_jitter, millis, wait_ceiling,
};
use crate::duration::{Duration, NANOS_PER_MILLI, NANOS_PER_SEC};
use crate::error::Error;
use crate::execution::{
    begins, handed_back, is_course, law_backoff_is_for_the_attempt, law_single_attempt,
    waits_after_response, ExecutionView, Round,
};
use crate::method::{law_methods_have_their_names, law_names_in_order, names, to_vec, Method};
use crate::outcome::{ResponseHead, RetryableOutcome};
use crate::outside::header_contents;

verus! {

/// Defines whether and how requests should be retried.
///
/// Implementors must be `Send + Sync` because a client is shared across tasks.
pub trait RetryPolicy: Send + Sync {
    /// Maximum number of retry attempts after the initial request.
    fn max_retries(&self) -> u32;

    /// Returns `true` if the attempt should be retried.
    ///
    /// The `attempt` argument is zero-indexed (0 = first retry attempt).
    fn should_retry(&self, attempt: u32, outcome: RetryableOutcome<'_>) -> bool;

    /// Backoff duration to wait before the next retry attempt.
    fn backoff(&self, attempt: u32) -> Duration;

    /// HTTP methods that are eligible for retry.
    fn retryable_methods(&self) -> &[Method];

    /// Upper bound on a server-supplied `Retry-After` wait. Defaults to 5 minutes.
    fn max_retry_after(&self) -> (cap: Duration)
        default_ensures
            cap@ == 300 * NANOS_PER_SEC,
    {
        Duration::from_secs(300)
    }
}

/// The part of a [`DefaultRetryPolicy`] that decides whether an attempt should be retried.
pub trait RetryCheck: Send + Sync {
    /// Returns `true` if the attempt should be retried.
    fn check(&self, attempt: u32, outcome: RetryableOutcome<'_>) -> bool;
}

/// Whether the default predicate retries a response with this status: a server error, 429 Too Many
/// Requests or 408 Request Timeout.
pub open spec fn retryable_status(status: u16) -> bool {
    500 <= status < 600 || status == 429 || status == 408
}

/// Whether the default predicate retries an attempt with this outcome.
pub open spec fn retryable_outcome(outcome: RetryableOutcome<'_>) -> bool {
    match outcome {
        RetryableOutcome::Error(err) => err.timeout || err.connect,
        RetryableOutcome::Response(head) => retryable_status(head.status),
    }
}

/// The default predicate: retries 5xx, 429 and 408 responses and connect and timeout errors.
pub struct DefaultCheck;

impl RetryCheck for DefaultCheck {
    fn check(&self, _attempt: u32, outcome: RetryableOutcome<'_>) -> (retry: bool)
        ensures
            retry == retryable_outcome(outcome),
    {
        match outcome {
            RetryableOutcome::Error(err) => err.timeout || err.connect,
            RetryableOutcome::Response(head) => {
                let status: u16 = head.status;
                (500 <= status && status < 600) || status == 429 || status == 408
            },
        }
    }
}

/// A predicate that the user of a policy supplied.
pub struct CustomCheck<F: Fn(u32, RetryableOutcome<'_>) -> bool + Send + Sync> {
    predicate: F,
}

impl<F: Fn(u32, RetryableOutcome<'_>) -> bool + Send + Sync> CustomCheck<F> {
    #[verifier::type_invariant]
    spec fn total(self) -> bool {
        forall|attempt: u32, outcome: RetryableOutcome<'_>| #[trigger]
            call_requires(self.predicate, (attempt, outcome))
    }

    /// The predicate as it was supplied.
    pub closed spec fn predicate(self) -> F {
        self.predicate
    }
}

impl<F: Fn(u32, RetryableOutcome<'_>) -> bool + Send + Sync> RetryCheck for CustomCheck<F> {
    fn check(&self, attempt: u32, outcome: RetryableOutcome<'_>) -> (retry: bool)
        ensures
            call_ensures(self.predicate(), (attempt, outcome), retry),
    {
        proof {
            use_type_invariant(self);
        }
        (self.predicate)(attempt, outcome)
    }
}

/// What a [`DefaultRetryPolicyBuilder`] has been told; `None` where it has been told nothing.
#[verifier::ext_equal]
pub struct BuilderView<C> {
    pub max_retries: u32,
    pub check: C,
    /// The shortest and the longest backoff, in nanoseconds.
    pub backoff: Option<(nat, nat)>,
    /// The names of the methods that may be retried.
    pub methods: Seq<Seq<char>>,
    /// The cap on a server-supplied wait, in nanoseconds.
    pub retry_after_cap: Option<nat>,
}

/// What a [`DefaultRetryPolicy`] goes by.
#[verifier::ext_equal]
pub struct PolicyView<C> {
    pub max_retries: u32,
    pub check: C,
    /// The shortest backoff, in nanoseconds.
    pub min_wait: nat,
    /// The longest backoff, in nanoseconds.
    pub max_wait: nat,
    /// The names of the methods that may be retried.
    pub methods: Seq<Seq<char>>,
    /// The cap on a server-supplied wait, in nanoseconds.
    pub retry_after_cap: nat,
}

/// The names of the methods that are retried by default: the idempotent ones.
pub open spec fn default_methods() -> Seq<Seq<char>> {
    seq!["GET"@, "HEAD"@, "PUT"@, "DELETE"@, "OPTIONS"@, "TRACE"@]
}

/// The shortest backoff by default: 100 milliseconds.
pub open spec fn default_min_nanos() -> nat {
    100 * (NANOS_PER_MILLI as nat)
}

/// The longest backoff by default: 30 seconds.
pub open spec fn default_max_nanos() -> nat {
    30 * (NANOS_PER_SEC as nat)
}

/// What a builder starts from.
pub open spec fn builder_defaults() -> BuilderView<DefaultCheck> {
    BuilderView {
        max_retries: 3,
        check: DefaultCheck,
        backoff: None,
        methods: default_methods(),
        retry_after_cap: None,
    }
}

/// The policy that a builder makes. Backoff runs from 100 milliseconds to 30 seconds if nothing else
/// was said, and a server-supplied wait is capped at the longest backoff if nothing else was said.
pub open spec fn built<C>(told: BuilderView<C>) -> PolicyView<C> {
    let range = match told.backoff {
        Some(range) => range,
        None => (default_min_nanos(), default_max_nanos()),
    };
    PolicyView {
        max_retries: told.max_retries,
        check: told.check,
        min_wait: range.0,
        max_wait: range.1,
        methods: told.methods,
        retry_after_cap: match told.retry_after_cap {
            Some(cap) => cap,
            None => range.1,
        },
    }
}

/// Default retry policy: retries idempotent methods on 5xx, 429, 408, connect, and timeout errors.
pub struct DefaultRetryPolicy<C: RetryCheck = DefaultCheck> {
    max_retries: u32,
    check: C,
    min_wait: Duration,
    max_wait: Duration,
    retryable_methods: Vec<Method>,
    max_retry_after: Duration,
}

impl<C: RetryCheck> View for DefaultRetryPolicy<C> {
    type V = PolicyView<C>;

    closed spec fn view(&self) -> PolicyView<C> {
        PolicyView {
            max_retries: self.max_retries,
            check: self.check,
            min_wait: self.min_wait@,
            max_wait: self.max_wait@,
            methods: names(self.retryable_methods@),
            retry_after_cap: self.max_retry_after@,
        }
    }
}

impl DefaultRetryPolicy<DefaultCheck> {
    /// Returns a builder for configuring the default policy.
    pub fn builder() -> (builder: DefaultRetryPolicyBuilder<DefaultCheck>)
        ensures
            builder@ == builder_defaults(),
    {
        DefaultRetryPolicyBuilder::new()
    }
}

impl<C: RetryCheck> RetryPolicy for DefaultRetryPolicy<C> {
    fn max_retries(&self) -> (count: u32)
        ensures
            count == self@.max_retries,
    {
        self.max_retries
    }

    fn should_retry(&self, attempt: u32, outcome: RetryableOutcome<'_>) -> (retry: bool)
        ensures
            call_ensures(C::check, (&self@.check, attempt, outcome), retry),
    {
        self.check.check(attempt, outcome)
    }

    fn backoff(&self, attempt: u32) -> (wait: Duration)
        ensures
            wait@ <= self@.max_wait,
            exists|random: u64|
                {
                    &&& generator_draws(random)
                    &&& wait@ == #[trigger] jittered(
                        self@.min_wait,
                        self@.max_wait,
                        attempt,
                        random,
                    )
                },
    {
        let wait = exponential_jitter_backoff(self.min_wait, self.max_wait, attempt);
        proof {
            let random = choose|random: u64|
                generator_draws(random) && wait@ == #[trigger] jittered(
                    self.min_wait@,
                    self.max_wait@,
                    attempt,
                    random,
                );
            assert(wait@ == jittered(self@.min_wait, self@.max_wait, attempt, random));
        }
        wait
    }

    fn retryable_methods(&self) -> (methods: &[Method])
        ensures
            names(methods@) == self@.methods,
    {
        self.retryable_methods.as_slice()
    }

    fn max_retry_after(&self) -> (cap: Duration)
        ensures
            cap@ == self@.retry_after_cap,
    {
        self.max_retry_after
    }
}

/// Builder for `DefaultRetryPolicy`.
pub struct DefaultRetryPolicyBuilder<C: RetryCheck = DefaultCheck> {
    max_retries: u32,
    check: C,
    backoff: Option<(Duration, Duration)>,
    retryable_methods: Vec<Method>,
    max_retry_after: Option<Duration>,
}

impl<C: RetryCheck> View for DefaultRetryPolicyBuilder<C> {
    type V = BuilderView<C>;

    closed spec fn view(&self) -> BuilderView<C> {
        BuilderView {
            max_retries: self.max_retries,
            check: self.check,
            backoff: match self.backoff {
                Some(range) => Some((range.0@, range.1@)),
                None => None,
            },
            methods: names(self.retryable_methods@),
            retry_after_cap: match self.max_retry_after {
                Some(cap) => Some(cap@),
                None => None,
            },
        }
    }
}

impl DefaultRetryPolicyBuilder<DefaultCheck> {
    fn new() -> (builder: DefaultRetryPolicyBuilder<DefaultCheck>)
        ensures
            builder@ == builder_defaults(),
    {
        // Only idempotent methods are retried by default. Others, such as POST and PATCH, can have
        // duplicate side effects if retried blindly; opt them in explicitly.
        let methods: Vec<Method> = vec![
            Method::GET,
            Method::HEAD,
            Method::PUT,
            Method::DELETE,
            Method::OPTIONS,
            Method::TRACE,
        ];
        let builder = DefaultRetryPolicyBuilder {
            max_retries: 3,
            check: DefaultCheck,
            backoff: None,
            retryable_methods: methods,
            max_retry_after: None,
        };
        assert(builder@.methods =~= default_methods());
        builder
    }
}

impl<C: RetryCheck> DefaultRetryPolicyBuilder<C> {
    /// Sets the maximum number of retry attempts after the initial request.
    pub fn max_retries(self, max_retries: u32) -> (builder: DefaultRetryPolicyBuilder<C>)
        ensures
            builder@ == (BuilderView { max_retries, ..self@ }),
    {
        DefaultRetryPolicyBuilder { max_retries, ..self }
    }

    /// Configures exponential backoff with full jitter between `min_wait` and `max_wait`.
    ///
    /// Also implicitly caps server-supplied `Retry-After` at `max_wait` (unless overridden
    /// by [`max_retry_after`](Self::max_retry_after)).
    pub fn backoff(self, min_wait: Duration, max_wait: Duration) -> (builder:
        DefaultRetryPolicyBuilder<C>)
        ensures
            builder@ == (BuilderView { backoff: Some((min_wait@, max_wait@)), ..self@ }),
    {
        DefaultRetryPolicyBuilder { backoff: Some((min_wait, max_wait)), ..self }
    }

    /// Replaces the default retry predicate.
    pub fn check_retry<F: Fn(u32, RetryableOutcome<'_>) -> bool + Send + Sync>(self, check: F) -> (builder:
        DefaultRetryPolicyBuilder<CustomCheck<F>>)
        requires
            forall|attempt: u32, outcome: RetryableOutcome<'_>| #[trigger]
                call_requires(check, (attempt, outcome)),
        ensures
            builder@.check.predicate() == check,
            builder@.max_retries == self@.max_retries,
            builder@.backoff == self@.backoff,
            builder@.methods == self@.methods,
            builder@.retry_after_cap == self@.retry_after_cap,
    {
        DefaultRetryPolicyBuilder {
            max_retries: self.max_retries,
            check: CustomCheck { predicate: check },
            backoff: self.backoff,
            retryable_methods: self.retryable_methods,
            max_retry_after: self.max_retry_after,
        }
    }

    /// Replaces the set of HTTP methods that may be retried.
    pub fn retryable_methods(self, methods: &[Method]) -> (builder: DefaultRetryPolicyBuilder<C>)
        ensures
            builder@ == (BuilderView { methods: names(methods@), ..self@ }),
    {
        DefaultRetryPolicyBuilder { retryable_methods: to_vec(methods), ..self }
    }

    /// Sets the upper bound applied to a server-supplied `Retry-After` header value.
    pub fn max_retry_after(self, cap: Duration) -> (builder: DefaultRetryPolicyBuilder<C>)
        ensures
            builder@ == (BuilderView { retry_after_cap: Some(cap@), ..self@ }),
    {
        DefaultRetryPolicyBuilder { max_retry_after: Some(cap), ..self }
    }

    /// Builds the policy.
    pub fn build(self) -> (policy: DefaultRetryPolicy<C>)
        ensures
            policy@ == built(self@),
    {
        let (min_wait, max_wait) = match self.backoff {
            Some(range) => range,
            None => (Duration::from_millis(100), Duration::from_secs(30)),
        };
        let max_retry_after = match self.max_retry_after {
            Some(cap) => cap,
            None => max_wait,
        };
        DefaultRetryPolicy {
            max_retries: self.max_retries,
            check: self.check,
            min_wait,
            max_wait,
            retryable_methods: self.retryable_methods,
            max_retry_after,
        }
    }
}

/// A policy that never retries.
pub struct NoRetry;

impl RetryPolicy for NoRetry {
    fn max_retries(&self) -> (count: u32)
        ensures
            count == 0,
    {
        0
    }

    fn should_retry(&self, _attempt: u32, _outcome: RetryableOutcome<'_>) -> (retry: bool)
        ensures
            !retry,
    {
        false
    }

    fn backoff(&self, _attempt: u32) -> (wait: Duration)
        ensures
            wait@ == 0,
    {
        Duration::zero()
    }

    fn retryable_methods(&self) -> (methods: &[Method])
        ensures
            methods@ == Seq::<Method>::empty(),
    {
        &[]
    }
}

/// An explicit cap on a server-supplied wait holds whether backoff was configured before it or after
/// it, or not at all; without one the cap is the longest backoff.
pub proof fn law_explicit_cap_wins<C>(told: BuilderView<C>, cap: nat, min_wait: nat, max_wait: nat)
    ensures
        built(BuilderView { retry_after_cap: Some(cap), ..told }).retry_after_cap == cap,
        built(
            BuilderView {
                backoff: Some((min_wait, max_wait)),
                ..BuilderView { retry_after_cap: Some(cap), ..told }
            },
        ).retry_after_cap == cap,
        told.retry_after_cap is None ==> built(told).retry_after_cap == built(told).max_wait,
        told.retry_after_cap is None ==> built(
            BuilderView { backoff: Some((min_wait, max_wait)), ..told },
        ).retry_after_cap == max_wait,
{
}

/// A policy with a predicate that its user supplied answers as that predicate does.
pub proof fn law_custom_predicate_decides<F: Fn(u32, RetryableOutcome<'_>) -> bool + Send + Sync>(
    policy: DefaultRetryPolicy<CustomCheck<F>>,
    attempt: u32,
    outcome: RetryableOutcome<'_>,
    retry: bool,
)
    requires
        call_ensures(
            <DefaultRetryPolicy<CustomCheck<F>> as RetryPolicy>::should_retry,
            (&policy, attempt, outcome),
            retry,
        ),
    ensures
        call_ensures(policy@.check.predicate(), (attempt, outcome), retry),
{
}

/// A policy with the default predicate retries 5xx, 429 and 408 responses and connect and timeout errors,
/// and nothing else, whatever the attempt.
pub proof fn law_default_predicate_decides(
    policy: DefaultRetryPolicy<DefaultCheck>,
    attempt: u32,
    outcome: RetryableOutcome<'_>,
    retry: bool,
)
    requires
        call_ensures(
            <DefaultRetryPolicy<DefaultCheck> as RetryPolicy>::should_retry,
            (&policy, attempt, outcome),
            retry,
        ),
    ensures
        retry == retryable_outcome(outcome),
        match outcome {
            RetryableOutcome::Response(head) => retry <==> {
                ||| 500 <= head.status <= 599
                ||| head.status == 429
                ||| head.status == 408
            },
            RetryableOutcome::Error(err) => retry <==> err.timeout || err.connect,
        },
{
}

/// Only idempotent methods are retried by default: of the methods of HTTP, neither POST nor PATCH nor
/// CONNECT.
pub proof fn law_default_methods_are_idempotent()
    ensures
        !default_methods().contains(Method::POST@),
        !default_methods().contains(Method::PATCH@),
        !default_methods().contains(Method::CONNECT@),
        forall|method: Seq<char>|
            default_methods().contains(method) <==> {
                ||| method == Method::GET@
                ||| method == Method::HEAD@
                ||| method == Method::PUT@
                ||| method == Method::DELETE@
                ||| method == Method::OPTIONS@
                ||| method == Method::TRACE@
            },
{
    reveal_strlit("GET");
    reveal_strlit("HEAD");
    reveal_strlit("PUT");
    reveal_strlit("DELETE");
    reveal_strlit("OPTIONS");
    reveal_strlit("TRACE");
    reveal_strlit("POST");
    reveal_strlit("PATCH");
    reveal_strlit("CONNECT");
    let methods = default_methods();
    assert(methods[0] == "GET"@ && methods[1] == "HEAD"@ && methods[2] == "PUT"@ && methods[3]
        == "DELETE"@ && methods[4] == "OPTIONS"@ && methods[5] == "TRACE"@);
    assert("POST"@[0] == 'P' && "POST"@.len() == 4 && "HEAD"@[0] == 'H');
    assert("PATCH"@[0] == 'P' && "PATCH"@.len() == 5 && "TRACE"@[0] == 'T');
    assert("CONNECT"@[0] == 'C' && "CONNECT"@.len() == 7 && "OPTIONS"@[0] == 'O');
}

/// Under a policy that a builder made, a request starts out with the builder's limit, and retryable if
/// its method is one of the builder's.
pub proof fn law_policy_starts_requests<C: RetryCheck>(
    policy: DefaultRetryPolicy<C>,
    method: Seq<char>,
    start: ExecutionView,
)
    requires
        begins(&policy, method, start),
    ensures
        start.max_retries == policy@.max_retries,
        start.method_retryable == policy@.methods.contains(method),
{
}

/// Under a policy that a builder made, no wait is longer than the longest backoff or, after a response
/// that asks for one, the cap on a server-supplied wait.
pub proof fn law_policy_bounds_waits<C: RetryCheck>(
    policy: DefaultRetryPolicy<C>,
    state: ExecutionView,
    head: &ResponseHead,
    wait: nat,
)
    requires
        waits_after_response(&policy, state, head, wait),
    ensures
        wait <= policy@.max_wait || wait <= policy@.retry_after_cap,
{
}

/// Under the policy that never retries, every request is sent once and its outcome handed back.
pub proof fn law_no_retry_sends_once<R>(
    method: Seq<char>,
    start: ExecutionView,
    rounds: Seq<Round<R>>,
    result: Result<R, Error>,
)
    requires
        begins(&NoRetry, method, start),
        is_course(start, rounds, result),
    ensures
        rounds.len() == 1,
        result == handed_back(rounds[0].outcome),
{
    law_single_attempt(start, rounds, result);
}

/// A policy is what its builder was told: its limit, its predicate, its methods and its range of backoff.
/// A builder that was told no range gives 100 milliseconds to 30 seconds. The cap on a server-supplied
/// wait is the one told, or else the longest backoff.
pub proof fn law_policy_is_as_told<C: RetryCheck>(
    builder: DefaultRetryPolicyBuilder<C>,
    policy: DefaultRetryPolicy<C>,
)
    requires
        call_ensures(DefaultRetryPolicyBuilder::<C>::build, (builder,), policy),
    ensures
        policy@.max_retries == builder@.max_retries,
        policy@.check == builder@.check,
        policy@.methods == builder@.methods,
        match builder@.backoff {
            Some((min_wait, max_wait)) => policy@.min_wait == min_wait && policy@.max_wait == max_wait,
            None => policy@.min_wait == 100_000_000 && policy@.max_wait == 30_000_000_000,
        },
        match builder@.retry_after_cap {
            Some(cap) => policy@.retry_after_cap == cap,
            None => policy@.retry_after_cap == policy@.max_wait,
        },
{
}

/// A builder remembers what it is told last about each setting, and nothing that it is told of one
/// changes another.
pub proof fn law_builder_remembers<C: RetryCheck>(
    builder: DefaultRetryPolicyBuilder<C>,
    told: DefaultRetryPolicyBuilder<C>,
    count: u32,
    min_wait: Duration,
    max_wait: Duration,
    methods: &[Method],
    cap: Duration,
)
    ensures
        call_ensures(DefaultRetryPolicyBuilder::<C>::max_retries, (builder, count), told) ==> {
            &&& told@.max_retries == count
            &&& told@.check == builder@.check
            &&& told@.backoff == builder@.backoff
            &&& told@.methods == builder@.methods
            &&& told@.retry_after_cap == builder@.retry_after_cap
        },
        call_ensures(DefaultRetryPolicyBuilder::<C>::backoff, (builder, min_wait, max_wait), told)
            ==> {
            &&& told@.backoff == Some((min_wait@, max_wait@))
            &&& told@.max_retries == builder@.max_retries
            &&& told@.check == builder@.check
            &&& told@.methods == builder@.methods
            &&& told@.retry_after_cap == builder@.retry_after_cap
        },
        call_ensures(DefaultRetryPolicyBuilder::<C>::retryable_methods, (builder, methods), told)
            ==> {
            &&& told@.methods.len() == methods@.len()
            &&& forall|i: int|
                0 <= i < methods@.len() ==> #[trigger] told@.methods[i] == methods@[i]@
            &&& told@.max_retries == builder@.max_retries
            &&& told@.check == builder@.check
            &&& told@.backoff == builder@.backoff
            &&& told@.retry_after_cap == builder@.retry_after_cap
        },
        call_ensures(DefaultRetryPolicyBuilder::<C>::max_retry_after, (builder, cap), told) ==> {
            &&& told@.retry_after_cap == Some(cap@)
            &&& told@.max_retries == builder@.max_retries
            &&& told@.check == builder@.check
            &&& told@.backoff == builder@.backoff
            &&& told@.methods == builder@.methods
        },
{
}

/// A predicate that the user supplies replaces the one before it, and changes no other setting.
pub proof fn law_supplied_predicate_replaces<
    C: RetryCheck,
    F: Fn(u32, RetryableOutcome<'_>) -> bool + Send + Sync,
>(
    builder: DefaultRetryPolicyBuilder<C>,
    check: F,
    told: DefaultRetryPolicyBuilder<CustomCheck<F>>,
)
    requires
        call_ensures(DefaultRetryPolicyBuilder::<C>::check_retry::<F>, (builder, check), told),
    ensures
        told@.check.predicate() == check,
        told@.max_retries == builder@.max_retries,
        told@.backoff == builder@.backoff,
        told@.methods == builder@.methods,
        told@.retry_after_cap == builder@.retry_after_cap,
{
}

/// A builder starts with three retries, the default predicate, the six idempotent methods, and neither a
/// range of backoff nor a cap of its own.
pub proof fn law_builder_starts_from_defaults(
    builder: DefaultRetryPolicyBuilder<DefaultCheck>,
    method: Seq<char>,
)
    requires
        call_ensures(DefaultRetryPolicy::<DefaultCheck>::builder, (), builder),
    ensures
        builder@.max_retries == 3,
        builder@.check == DefaultCheck,
        builder@.backoff is None,
        builder@.retry_after_cap is None,
        builder@.methods.contains(method) <==> {
            ||| method == seq!['G', 'E', 'T']
            ||| method == seq!['H', 'E', 'A', 'D']
            ||| method == seq!['P', 'U', 'T']
            ||| method == seq!['D', 'E', 'L', 'E', 'T', 'E']
            ||| method == seq!['O', 'P', 'T', 'I', 'O', 'N', 'S']
            ||| method == seq!['T', 'R', 'A', 'C', 'E']
        },
        builder@ == builder_defaults(),
{
    law_default_methods_are_idempotent();
    law_methods_have_their_names(arbitrary());
}

/// A policy answers by its settings.
pub proof fn law_policy_answers_by_its_settings<C: RetryCheck>(
    policy: DefaultRetryPolicy<C>,
    count: u32,
    methods: &[Method],
    cap: Duration,
)
    ensures
        call_ensures(
            <DefaultRetryPolicy<C> as RetryPolicy>::max_retries,
            (&policy,),
            count,
        ) ==> count == policy@.max_retries,
        call_ensures(
            <DefaultRetryPolicy<C> as RetryPolicy>::retryable_methods,
            (&policy,),
            methods,
        ) ==> methods@.len() == policy@.methods.len() && forall|i: int|
            0 <= i < methods@.len() ==> (#[trigger] methods@[i])@ == policy@.methods[i],
        call_ensures(
            <DefaultRetryPolicy<C> as RetryPolicy>::max_retry_after,
            (&policy,),
            cap,
        ) ==> cap@ == policy@.retry_after_cap,
{
    if call_ensures(<DefaultRetryPolicy<C> as RetryPolicy>::retryable_methods, (&policy,), methods) {
        law_names_in_order(methods@);
        assert forall|i: int| 0 <= i < methods@.len() implies (#[trigger] methods@[i])@
            == policy@.methods[i] by {
            assert(names(methods@)[i] == methods@[i]@);
        }
    }
}

/// The backoff of a policy before the retry after `attempt` others is a number of whole milliseconds that
/// a drawn number picks evenly from none up to the shortest backoff doubled `attempt` times, and never
/// more than the longest.
pub proof fn law_policy_backs_off_exponentially<C: RetryCheck>(
    policy: DefaultRetryPolicy<C>,
    attempt: u32,
    wait: Duration,
)
    requires
        call_ensures(<DefaultRetryPolicy<C> as RetryPolicy>::backoff, (&policy, attempt), wait),
    ensures
        wait@ <= policy@.max_wait,
        millis(policy@.min_wait) > 0 ==> wait@ <= policy@.min_wait
            * pow2(attempt as nat),
        exists|random: u64|
            {
                &&& #[trigger] generator_draws(random)
                &&& wait@ == (random as nat % (wait_ceiling(
                    policy@.min_wait,
                    policy@.max_wait,
                    attempt,
                ) + 1)) * 1_000_000
            },
{
    let random = choose|random: u64|
        generator_draws(random) && wait@ == #[trigger] jittered(
            policy@.min_wait,
            policy@.max_wait,
            attempt,
            random,
        );
    assert(generator_draws(random));
    law_full_jitter(policy@.min_wait, policy@.max_wait, attempt);
    let p = pow2(attempt as nat);
    let ms = millis(policy@.min_wait);
    let min_wait = policy@.min_wait;
    if ms > 0 {
        law_ceiling_is_exponential(min_wait, policy@.max_wait, attempt);
        assert(ms * 1_000_000 <= min_wait);
        assert((ms * p) * 1_000_000 <= min_wait * p) by (nonlinear_arith)
            requires
                ms * 1_000_000 <= min_wait,
                p >= 0,
        ;
    }
}

/// After the responses of a server that sends no `Retry-After` header, the waits under a policy are its
/// exponential backoff: the `attempt`-th is picked by a drawn number from what that attempt allows.
pub proof fn law_policy_waits_grow_with_the_attempt<C: RetryCheck>(
    policy: DefaultRetryPolicy<C>,
    state: ExecutionView,
    attempt: u32,
    head: &ResponseHead,
    wait: nat,
)
    requires
        waits_after_response(&policy, state, head, wait),
        state.attempt == attempt,
        !header_contents(head.headers).contains_key("retry-after"@),
    ensures
        wait <= policy@.max_wait,
        millis(policy@.min_wait) > 0 ==> wait <= policy@.min_wait * pow2(attempt as nat),
        exists|random: u64|
            {
                &&& #[trigger] generator_draws(random)
                &&& wait == (random as nat % (wait_ceiling(
                    policy@.min_wait,
                    policy@.max_wait,
                    attempt,
                ) + 1)) * 1_000_000
            },
{
    law_backoff_is_for_the_attempt(&policy, state, attempt, head, wait);
    let backoff = choose|backoff: Duration|
        {
            &&& #[trigger] call_ensures(
                <DefaultRetryPolicy<C> as RetryPolicy>::backoff,
                (&policy, attempt),
                backoff,
            )
            &&& wait == backoff@
        };
    law_policy_backs_off_exponentially(policy, attempt, backoff);
}

/// The policy that never retries allows none, wants none, lists no methods and backs off for no time. Its
/// cap on a server-supplied wait is five minutes, as of any policy that sets none.
pub proof fn law_no_retry_refuses(
    count: u32,
    attempt: u32,
    outcome: RetryableOutcome<'_>,
    retry: bool,
    wait: Duration,
    methods: &[Method],
    cap: Duration,
)
    ensures
        call_ensures(<NoRetry as RetryPolicy>::max_retries, (&NoRetry,), count) ==> count == 0,
        call_ensures(<NoRetry as RetryPolicy>::should_retry, (&NoRetry, attempt, outcome), retry)
            ==> !retry,
        call_ensures(<NoRetry as RetryPolicy>::backoff, (&NoRetry, attempt), wait) ==> wait@ == 0,
        call_ensures(<NoRetry as RetryPolicy>::retryable_methods, (&NoRetry,), methods)
            ==> methods@.len() == 0,
        call_ensures(<NoRetry as RetryPolicy>::max_retry_after, (&NoRetry,), cap) ==> cap@
            == 300_000_000_000,
{
}

} // verus!
