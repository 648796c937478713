//! The course of one request: after each attempt, whether to stop or to try again, and when.
use vstd::prelude::*;
use reqwest::Error as HttpError;

use crate::duration::{max_nanos, Duration};
use crate::error::Error;
use crate::method::{contains, names, Method};
use crate::outcome::{ResponseHead, RetryableOutcome, TransportError};
use crate::outside::{header_contents, http_date_seconds, text_of};
use crate::policy::RetryPolicy;
use crate::retry_after::{
    clock_tells, delay_seconds, retry_after_header, retry_after_or_backoff, retry_wait,
};

verus! {

/// Where an execution stands.
pub struct ExecutionView {
    /// Whether the policy lets requests with this method be retried.
    pub method_retryable: bool,
    /// How many retries the policy allows.
    pub max_retries: nat,
    /// How many retries there have been.
    pub attempt: nat,
}

/// What follows from the outcome of an attempt.
pub enum Verdict<R> {
    /// The request is settled, with this result.
    Done(Result<R, Error>),
    /// The request is to be sent again.
    Retry,
}

/// The outcome of an attempt, handed back as it is.
pub open spec fn handed_back<R>(outcome: Result<R, HttpError>) -> Result<R, Error> {
    match outcome {
        Ok(response) => Ok(response),
        Err(err) => Err(Error::Reqwest(err)),
    }
}

/// The transport error of an attempt, if it ended with one.
pub open spec fn transport_error<R>(outcome: Result<R, HttpError>) -> Option<HttpError> {
    match outcome {
        Ok(_) => None,
        Err(err) => Some(err),
    }
}

/// What follows from an attempt with this outcome, of which the policy says that it should be retried
/// or not. It is handed back if it should not be, or if retries are not allowed at all; it is retried
/// while retries are left; then it is given up.
pub open spec fn verdict<R>(
    state: ExecutionView,
    retry: bool,
    outcome: Result<R, HttpError>,
) -> Verdict<R> {
    if !(state.method_retryable && retry) {
        Verdict::Done(handed_back(outcome))
    } else if state.attempt < state.max_retries {
        Verdict::Retry
    } else if state.attempt > 0 {
        Verdict::Done(
            Err(
                Error::MaxRetriesExceeded {
                    attempts: (state.attempt + 1) as u32,
                    source: transport_error(outcome),
                },
            ),
        )
    } else {
        Verdict::Done(handed_back(outcome))
    }
}

/// Where an execution stands after one more retry.
pub open spec fn retried(state: ExecutionView) -> ExecutionView {
    ExecutionView { attempt: state.attempt + 1, ..state }
}

/// Whether an execution of a request with this method may start out like this under the policy: with
/// the policy's limit, and retryable if the method is one of those that the policy lists.
pub open spec fn begins<P: RetryPolicy>(
    policy: &P,
    method: Seq<char>,
    state: ExecutionView,
) -> bool {
    &&& state.attempt == 0
    &&& exists|methods: &[Method]|
        {
            &&& #[trigger] call_ensures(P::retryable_methods, (policy,), methods)
            &&& state.method_retryable == names(methods@).contains(method)
        }
    &&& exists|max_retries: u32|
        {
            &&& #[trigger] call_ensures(P::max_retries, (policy,), max_retries)
            &&& state.max_retries == max_retries
        }
}

/// Whether `retry` is an answer that the policy may give on an attempt with this outcome. A policy is
/// not asked about a method that it does not let be retried.
pub open spec fn answers<P: RetryPolicy>(
    policy: &P,
    state: ExecutionView,
    outcome: RetryableOutcome<'_>,
    retry: bool,
) -> bool {
    state.method_retryable ==> call_ensures(
        P::should_retry,
        (policy, state.attempt as u32, outcome),
        retry,
    )
}

/// Whether `wait` is a wait, in nanoseconds, that may follow a response to be retried: by the
/// `Retry-After` header of the response, or else by the backoff of the policy.
pub open spec fn waits_after_response<P: RetryPolicy>(
    policy: &P,
    state: ExecutionView,
    head: &ResponseHead,
    wait: nat,
) -> bool {
    exists|default: Duration, cap: Duration, now: int|
        {
            &&& #[trigger] call_ensures(P::backoff, (policy, state.attempt as u32), default)
            &&& #[trigger] call_ensures(P::max_retry_after, (policy,), cap)
            &&& clock_tells(now)
            &&& wait == #[trigger] retry_wait(
                retry_after_header(header_contents(head.headers)),
                now,
                default@,
                cap@,
            )
        }
}

/// What to do next about a request.
pub enum Step<R> {
    /// Wait this long, then send the request again.
    Wait(Duration),
    /// Stop with this result.
    Done(Result<R, Error>),
}

/// The copy of a request that an attempt sends. A request of which no copy can be made cannot be sent
/// again, and is given up before it is sent at all.
pub fn request_to_send<Q>(copy: Option<Q>) -> (request: Result<Q, Error>)
    ensures
        request == match copy {
            Some(request) => Ok::<Q, Error>(request),
            None => Err(Error::BodyNotRewindable),
        },
{
    match copy {
        Some(request) => Ok(request),
        None => Err(Error::BodyNotRewindable),
    }
}

/// The course of one request.
///
/// It starts with the request's method and a policy, and is told the outcome of each attempt. It
/// answers what to do next: send the request again after a wait, or stop with a result.
#[derive(Debug)]
pub struct Execution {
    method_retryable: bool,
    max_retries: u32,
    attempt: u32,
}

impl View for Execution {
    type V = ExecutionView;

    closed spec fn view(&self) -> ExecutionView {
        ExecutionView {
            method_retryable: self.method_retryable,
            max_retries: self.max_retries as nat,
            attempt: self.attempt as nat,
        }
    }
}

impl Execution {
    #[verifier::type_invariant]
    spec fn within_limit(self) -> bool {
        self.attempt <= self.max_retries
    }

    /// The course of a request before its first attempt.
    pub fn new(method_retryable: bool, max_retries: u32) -> (execution: Execution)
        ensures
            execution@ == (ExecutionView {
                method_retryable,
                max_retries: max_retries as nat,
                attempt: 0,
            }),
    {
        Execution { method_retryable, max_retries, attempt: 0 }
    }

    /// The course of a request with this method under this policy, before its first attempt.
    pub fn begin<P: RetryPolicy>(policy: &P, method: &Method) -> (execution: Execution)
        ensures
            begins(policy, method@, execution@),
    {
        let method_retryable = contains(policy.retryable_methods(), method);
        Execution::new(method_retryable, policy.max_retries())
    }

    /// How many retries there have been: zero during the first attempt.
    pub fn attempt(&self) -> (attempt: u32)
        ensures
            attempt == self@.attempt,
            self@.attempt <= self@.max_retries,
    {
        proof {
            use_type_invariant(self);
        }
        self.attempt
    }

    /// What follows from an attempt with this outcome, of which the policy says that it should be
    /// retried or not.
    pub fn conclude<R>(&self, retry: bool, outcome: Result<R, HttpError>) -> (conclusion: Verdict<R>)
        requires
            self@.method_retryable && retry ==> self@.attempt < u32::MAX,
        ensures
            conclusion == verdict(self@, retry, outcome),
    {
        if self.method_retryable && retry {
            // Retryable, and so a retry if one is left.
            if self.attempt < self.max_retries {
                return Verdict::Retry;
            }
            if self.attempt > 0 {
                let source = match outcome {
                    // There is no transport error to attach as the cause.
                    Ok(_) => None,
                    // The final transport error tells callers why retries were exhausted.
                    Err(err) => Some(err),
                };
                return Verdict::Done(
                    Err(Error::MaxRetriesExceeded { attempts: self.attempt + 1, source }),
                );
            }
        }
        // Not to be retried, or never retried: the original outcome.
        match outcome {
            Ok(response) => Verdict::Done(Ok(response)),
            Err(err) => Verdict::Done(Err(Error::from(err))),
        }
    }

    /// Takes note of a retry.
    fn advance(&mut self)
        requires
            old(self)@.attempt < old(self)@.max_retries,
        ensures
            final(self)@ == retried(old(self)@),
    {
        self.attempt = self.attempt + 1;
    }

    /// Takes the response to an attempt, and answers what to do next.
    pub fn on_response<P: RetryPolicy, R>(
        &mut self,
        policy: &P,
        head: &ResponseHead,
        response: R,
    ) -> (step: Step<R>)
        requires
            forall|retry: bool| #[trigger]
                answers(policy, old(self)@, RetryableOutcome::Response(head), retry)
                    && old(self)@.method_retryable && retry ==> old(self)@.attempt < u32::MAX,
        ensures
            exists|retry: bool|
                {
                    &&& #[trigger] answers(
                        policy,
                        old(self)@,
                        RetryableOutcome::Response(head),
                        retry,
                    )
                    &&& match verdict(old(self)@, retry, Ok::<R, HttpError>(response)) {
                        Verdict::Done(result) => {
                            &&& step == Step::Done(result)
                            &&& final(self)@ == old(self)@
                        },
                        Verdict::Retry => {
                            &&& step matches Step::Wait(wait)
                            &&& waits_after_response(policy, old(self)@, head, wait@)
                            &&& final(self)@ == retried(old(self)@)
                        },
                    }
                },
    {
        let retry = self.method_retryable && policy.should_retry(
            self.attempt,
            RetryableOutcome::Response(head),
        );
        assert(answers(policy, old(self)@, RetryableOutcome::Response(head), retry));
        match self.conclude(retry, Ok(response)) {
            Verdict::Done(result) => Step::Done(result),
            Verdict::Retry => {
                let default = policy.backoff(self.attempt);
                let cap = policy.max_retry_after();
                let wait = retry_after_or_backoff(head, default, cap);
                self.advance();
                Step::Wait(wait)
            },
        }
    }

    /// Takes the error that an attempt ended with, and answers what to do next.
    pub fn on_error<P: RetryPolicy, R>(
        &mut self,
        policy: &P,
        err: TransportError,
    ) -> (step: Step<R>)
        requires
            forall|retry: bool| #[trigger]
                answers(policy, old(self)@, RetryableOutcome::Error(&err), retry)
                    && old(self)@.method_retryable && retry ==> old(self)@.attempt < u32::MAX,
        ensures
            exists|retry: bool|
                {
                    &&& #[trigger] answers(
                        policy,
                        old(self)@,
                        RetryableOutcome::Error(&err),
                        retry,
                    )
                    &&& match verdict(old(self)@, retry, Err::<R, HttpError>(err.error)) {
                        Verdict::Done(result) => {
                            &&& step == Step::Done(result)
                            &&& final(self)@ == old(self)@
                        },
                        Verdict::Retry => {
                            &&& step matches Step::Wait(wait)
                            &&& call_ensures(
                                P::backoff,
                                (policy, old(self)@.attempt as u32),
                                wait,
                            )
                            &&& final(self)@ == retried(old(self)@)
                        },
                    }
                },
    {
        let retry = self.method_retryable && policy.should_retry(
            self.attempt,
            RetryableOutcome::Error(&err),
        );
        assert(answers(policy, old(self)@, RetryableOutcome::Error(&err), retry));
        match self.conclude(retry, Err(err.error)) {
            Verdict::Done(result) => Step::Done(result),
            Verdict::Retry => {
                let wait = policy.backoff(self.attempt);
                self.advance();
                Step::Wait(wait)
            },
        }
    }
}

/// One attempt in the course of a request: what it came to, and whether the policy says that it should
/// be retried.
pub struct Round<R> {
    pub outcome: Result<R, HttpError>,
    pub retry: bool,
}

/// Where an execution stands after this many retries.
pub open spec fn after_retries(start: ExecutionView, retries: nat) -> ExecutionView
    decreases retries,
{
    if retries == 0 {
        start
    } else {
        retried(after_retries(start, (retries - 1) as nat))
    }
}

/// What follows from the attempt after this many retries.
pub open spec fn verdict_of<R>(start: ExecutionView, rounds: Seq<Round<R>>, retries: int) -> Verdict<
    R,
> {
    verdict(
        after_retries(start, retries as nat),
        rounds[retries].retry,
        rounds[retries].outcome,
    )
}

/// Whether these attempts, one after the other, are the whole course of a request that ends with this
/// result: each but the last leads to a retry, and the last settles the request.
pub open spec fn is_course<R>(
    start: ExecutionView,
    rounds: Seq<Round<R>>,
    result: Result<R, Error>,
) -> bool {
    &&& start.attempt == 0
    &&& rounds.len() > 0
    &&& forall|i: int|
        0 <= i < rounds.len() - 1 ==> (#[trigger] verdict_of(start, rounds, i)) is Retry
    &&& verdict_of(start, rounds, rounds.len() - 1) == Verdict::Done(result)
}

/// After as many retries as there have been, the attempt count is their number, and the rest is as it
/// was.
proof fn lemma_after_retries(start: ExecutionView, retries: nat)
    ensures
        after_retries(start, retries) == (ExecutionView {
            attempt: start.attempt + retries,
            ..start
        }),
    decreases retries,
{
    if retries > 0 {
        lemma_after_retries(start, (retries - 1) as nat);
    }
}

/// A request is sent at least once, and at most once more than retries are allowed.
pub proof fn law_attempts_are_bounded<R>(
    start: ExecutionView,
    rounds: Seq<Round<R>>,
    result: Result<R, Error>,
)
    requires
        is_course(start, rounds, result),
    ensures
        1 <= rounds.len() <= start.max_retries + 1,
{
    if rounds.len() > start.max_retries + 1 {
        lemma_after_retries(start, start.max_retries);
        assert(verdict_of(start, rounds, start.max_retries as int) is Retry);
    }
}

/// Every request comes to an end: among as many attempts as are allowed, there is one that settles it.
pub proof fn law_every_course_ends<R>(start: ExecutionView, rounds: Seq<Round<R>>)
    requires
        start.attempt == 0,
        rounds.len() == start.max_retries + 1,
    ensures
        exists|sent: int, result: Result<R, Error>|
            1 <= sent <= rounds.len() && #[trigger] is_course(start, rounds.take(sent), result),
{
    let last = start.max_retries as int;
    lemma_after_retries(start, start.max_retries);
    assert(!(verdict_of(start, rounds, last) is Retry));
    lemma_first_settled(start, rounds, last);
}

/// If an attempt is not to be retried, the first such attempt ends a course.
proof fn lemma_first_settled<R>(start: ExecutionView, rounds: Seq<Round<R>>, at: int)
    requires
        start.attempt == 0,
        0 <= at < rounds.len(),
        !(verdict_of(start, rounds, at) is Retry),
    ensures
        exists|sent: int, result: Result<R, Error>|
            1 <= sent <= rounds.len() && #[trigger] is_course(start, rounds.take(sent), result),
    decreases at,
{
    if exists|i: int| 0 <= i < at && !((#[trigger] verdict_of(start, rounds, i)) is Retry) {
        let i = choose|i: int|
            0 <= i < at && !((#[trigger] verdict_of(start, rounds, i)) is Retry);
        lemma_first_settled(start, rounds, i);
    } else {
        let sent = rounds.take(at + 1);
        assert forall|i: int| 0 <= i < sent.len() - 1 implies (#[trigger] verdict_of(
            start,
            sent,
            i,
        )) is Retry by {
            assert(verdict_of(start, rounds, i) is Retry);
        }
        let result = verdict_of(start, rounds, at)->Done_0;
        assert(is_course(start, sent, result));
    }
}

/// Only one course fits a row of outcomes: it cannot end at two different attempts, nor with two
/// different results.
pub proof fn law_course_is_determined<R>(
    start: ExecutionView,
    rounds: Seq<Round<R>>,
    sent: int,
    result: Result<R, Error>,
    other_sent: int,
    other_result: Result<R, Error>,
)
    requires
        0 <= sent <= rounds.len(),
        0 <= other_sent <= rounds.len(),
        is_course(start, rounds.take(sent), result),
        is_course(start, rounds.take(other_sent), other_result),
    ensures
        sent == other_sent,
        result == other_result,
{
    let a = rounds.take(sent);
    let b = rounds.take(other_sent);
    if sent < other_sent {
        assert(verdict_of(start, b, sent - 1) is Retry);
        assert(verdict_of(start, a, sent - 1) == verdict_of(start, b, sent - 1));
    } else if other_sent < sent {
        assert(verdict_of(start, a, other_sent - 1) is Retry);
        assert(verdict_of(start, a, other_sent - 1) == verdict_of(start, b, other_sent - 1));
    }
}

/// The result of a request is what its last attempt came to, unless that attempt was to be retried and
/// retries have been made: then retries were exhausted.
pub proof fn law_result_of_a_course<R>(
    start: ExecutionView,
    rounds: Seq<Round<R>>,
    result: Result<R, Error>,
)
    requires
        is_course(start, rounds, result),
    ensures
        result == if start.method_retryable && rounds.last().retry && start.max_retries > 0 {
            Err(
                Error::MaxRetriesExceeded {
                    attempts: rounds.len() as u32,
                    source: transport_error(rounds.last().outcome),
                },
            )
        } else {
            handed_back(rounds.last().outcome)
        },
{
    law_attempts_are_bounded(start, rounds, result);
    lemma_after_retries(start, (rounds.len() - 1) as nat);
}

/// Retries count as exhausted exactly if each of the allowed attempts was made and was to be retried,
/// and there was a retry at all. The error tells the number of attempts made, where 32 bits hold it.
pub proof fn law_exhaustion<R>(
    start: ExecutionView,
    rounds: Seq<Round<R>>,
    result: Result<R, Error>,
)
    requires
        is_course(start, rounds, result),
    ensures
        (result matches Err(Error::MaxRetriesExceeded { .. })) <==> {
            &&& start.method_retryable
            &&& start.max_retries > 0
            &&& rounds.len() == start.max_retries + 1
            &&& forall|i: int| 0 <= i < rounds.len() ==> (#[trigger] rounds[i]).retry
        },
        result matches Err(Error::MaxRetriesExceeded { attempts, .. }) ==> rounds.len() <= u32::MAX
            ==> attempts == rounds.len(),
{
    law_attempts_are_bounded(start, rounds, result);
    law_result_of_a_course(start, rounds, result);
    lemma_after_retries(start, (rounds.len() - 1) as nat);
    assert forall|i: int| 0 <= i < rounds.len() - 1 implies (#[trigger] rounds[i]).retry by {
        assert(verdict_of(start, rounds, i) is Retry);
        lemma_after_retries(start, i as nat);
    }
}

/// A success, or any other outcome that is not to be retried, is handed back whenever it comes, on the
/// last allowed attempt too.
pub proof fn law_success_is_returned<R>(
    start: ExecutionView,
    rounds: Seq<Round<R>>,
    result: Result<R, Error>,
)
    requires
        is_course(start, rounds, result),
        !rounds.last().retry,
    ensures
        result == handed_back(rounds.last().outcome),
{
}

/// A request is sent once only, and its outcome handed back, if its method may not be retried, if no
/// retries are allowed, or if the policy does not want the first attempt retried.
pub proof fn law_single_attempt<R>(
    start: ExecutionView,
    rounds: Seq<Round<R>>,
    result: Result<R, Error>,
)
    requires
        is_course(start, rounds, result),
        !start.method_retryable || start.max_retries == 0 || !rounds[0].retry,
    ensures
        rounds.len() == 1,
        result == handed_back(rounds[0].outcome),
{
    if rounds.len() > 1 {
        assert(verdict_of(start, rounds, 0) is Retry);
    }
}

/// A request that was sent does not end with the complaint that its body cannot be sent again.
pub proof fn law_sent_request_was_rewindable<R>(
    start: ExecutionView,
    rounds: Seq<Round<R>>,
    result: Result<R, Error>,
)
    requires
        is_course(start, rounds, result),
    ensures
        result != Err::<R, Error>(Error::BodyNotRewindable),
{
}

/// The sum of a row of waits.
pub open spec fn total(waits: Seq<nat>) -> nat
    decreases waits.len(),
{
    if waits.len() == 0 {
        0
    } else {
        total(waits.drop_last()) + waits.last()
    }
}

/// A sum is at most the number of its terms times their bound.
proof fn lemma_total_bound(waits: Seq<nat>, bound: nat)
    requires
        forall|i: int| 0 <= i < waits.len() ==> #[trigger] waits[i] <= bound,
    ensures
        total(waits) <= waits.len() * bound,
    decreases waits.len(),
{
    if waits.len() > 0 {
        lemma_total_bound(waits.drop_last(), bound);
        assert(waits.len() * bound == (waits.len() - 1) * bound + bound) by (nonlinear_arith);
    }
}

/// A request keeps its caller waiting, between attempts, for no longer than the allowed retries times
/// the longest single wait.
pub proof fn law_total_wait_is_bounded<R>(
    start: ExecutionView,
    rounds: Seq<Round<R>>,
    result: Result<R, Error>,
    waits: Seq<nat>,
    bound: nat,
)
    requires
        is_course(start, rounds, result),
        waits.len() == rounds.len() - 1,
        forall|i: int| 0 <= i < waits.len() ==> #[trigger] waits[i] <= bound,
    ensures
        total(waits) <= start.max_retries * bound,
{
    law_attempts_are_bounded(start, rounds, result);
    lemma_total_bound(waits, bound);
    assert(waits.len() * bound <= start.max_retries * bound) by (nonlinear_arith)
        requires
            waits.len() <= start.max_retries,
    ;
}

/// A retry follows exactly if the method allows one, the policy wants one and one is left.
pub proof fn law_when_a_retry_follows<R>(
    state: ExecutionView,
    retry: bool,
    outcome: Result<R, HttpError>,
)
    ensures
        verdict(state, retry, outcome) is Retry <==> {
            &&& state.method_retryable
            &&& retry
            &&& state.attempt < state.max_retries
        },
{
}

/// Where no retry follows, a response or an error is handed back untouched, unless a retry was wanted and
/// others have been made: then the attempts are counted, this one too, and an error is kept as the cause.
pub proof fn law_what_ends_a_request<R>(
    state: ExecutionView,
    retry: bool,
    outcome: Result<R, HttpError>,
    result: Result<R, Error>,
)
    requires
        verdict(state, retry, outcome) == Verdict::Done(result),
        state.attempt < u32::MAX,
    ensures
        !state.method_retryable || !retry || state.attempt == 0 ==> match outcome {
            Ok(response) => result == Ok::<R, Error>(response),
            Err(err) => result == Err::<R, Error>(Error::Reqwest(err)),
        },
        state.method_retryable && retry && state.attempt > 0 ==> {
            &&& result matches Err(Error::MaxRetriesExceeded { attempts, source })
            &&& attempts == state.attempt + 1
            &&& match outcome {
                Ok(_) => source is None,
                Err(err) => source == Some(err),
            }
        },
{
}

/// A retry adds one to the count, and changes neither the limit nor what is known of the method.
pub proof fn law_a_retry_counts_once(state: ExecutionView)
    ensures
        retried(state).attempt == state.attempt + 1,
        retried(state).max_retries == state.max_retries,
        retried(state).method_retryable == state.method_retryable,
{
}

/// An execution starts with no retries made and the limit that the policy gives; a retry is allowed
/// exactly if one of the methods that the policy lists has the name of the request's.
pub proof fn law_how_a_request_starts<P: RetryPolicy>(
    policy: &P,
    method: Seq<char>,
    state: ExecutionView,
)
    requires
        begins(policy, method, state),
    ensures
        state.attempt == 0,
        exists|methods: &[Method]|
            {
                &&& #[trigger] call_ensures(P::retryable_methods, (policy,), methods)
                &&& state.method_retryable <==> exists|i: int|
                    0 <= i < methods@.len() && (#[trigger] methods@[i])@ == method
            },
        exists|max_retries: u32|
            {
                &&& #[trigger] call_ensures(P::max_retries, (policy,), max_retries)
                &&& state.max_retries == max_retries
            },
{
    let methods = choose|methods: &[Method]|
        {
            &&& #[trigger] call_ensures(P::retryable_methods, (policy,), methods)
            &&& state.method_retryable == names(methods@).contains(method)
        };
    let listed = names(methods@);
    if listed.contains(method) {
        let i = choose|i: int| 0 <= i < listed.len() && listed[i] == method;
        assert(methods@[i]@ == method);
    }
    if exists|i: int| 0 <= i < methods@.len() && (#[trigger] methods@[i])@ == method {
        let i = choose|i: int| 0 <= i < methods@.len() && (#[trigger] methods@[i])@ == method;
        assert(listed[i] == method);
    }
    assert(call_ensures(P::retryable_methods, (policy,), methods));
}

/// About an attempt, the policy is asked with the number of that attempt and with its outcome.
pub proof fn law_policy_is_asked_about_the_attempt<P: RetryPolicy>(
    policy: &P,
    state: ExecutionView,
    attempt: u32,
    outcome: RetryableOutcome<'_>,
    retry: bool,
)
    requires
        answers(policy, state, outcome, retry),
        state.method_retryable,
        state.attempt == attempt,
    ensures
        call_ensures(P::should_retry, (policy, attempt, outcome), retry),
{
}

/// After a response whose `Retry-After` header is missing or cannot be read, the wait is the policy's
/// backoff for that very attempt.
pub proof fn law_backoff_is_for_the_attempt<P: RetryPolicy>(
    policy: &P,
    state: ExecutionView,
    attempt: u32,
    head: &ResponseHead,
    wait: nat,
)
    requires
        waits_after_response(policy, state, head, wait),
        state.attempt == attempt,
        header_contents(head.headers).contains_key("retry-after"@) ==> match text_of(
            header_contents(head.headers)["retry-after"@][0],
        ) {
            None => true,
            Some(text) => delay_seconds(text) is None && http_date_seconds(text) is None,
        },
    ensures
        exists|backoff: Duration|
            {
                &&& #[trigger] call_ensures(P::backoff, (policy, attempt), backoff)
                &&& wait == backoff@
            },
{
}

/// After a response whose `Retry-After` header is a number of seconds, the wait is that many, or the cap
/// of the policy if that is shorter.
pub proof fn law_retry_after_seconds_are_waited<P: RetryPolicy>(
    policy: &P,
    state: ExecutionView,
    head: &ResponseHead,
    wait: nat,
    text: Seq<char>,
    n: u64,
)
    requires
        waits_after_response(policy, state, head, wait),
        header_contents(head.headers).contains_key("retry-after"@),
        text_of(header_contents(head.headers)["retry-after"@][0]) == Some(text),
        delay_seconds(text) == Some(n),
    ensures
        exists|cap: Duration|
            {
                &&& #[trigger] call_ensures(P::max_retry_after, (policy,), cap)
                &&& n * 1_000_000_000 <= cap@ ==> wait == n * 1_000_000_000
                &&& n * 1_000_000_000 > cap@ ==> wait == cap@
            },
{
}

/// After a response whose `Retry-After` header is a date, the wait lasts from a moment that the clock
/// tells until that date, or for the cap of the policy if that is shorter.
pub proof fn law_retry_after_date_is_waited_for<P: RetryPolicy>(
    policy: &P,
    state: ExecutionView,
    head: &ResponseHead,
    wait: nat,
    text: Seq<char>,
    date: u64,
)
    requires
        waits_after_response(policy, state, head, wait),
        header_contents(head.headers).contains_key("retry-after"@),
        text_of(header_contents(head.headers)["retry-after"@][0]) == Some(text),
        delay_seconds(text) is None,
        http_date_seconds(text) == Some(date),
    ensures
        exists|cap: Duration, now: int|
            {
                &&& #[trigger] call_ensures(P::max_retry_after, (policy,), cap)
                &&& #[trigger] clock_tells(now)
                &&& date * 1_000_000_000 <= now ==> wait == 0
                &&& now <= date * 1_000_000_000 <= now + cap@ && cap@ <= max_nanos() ==> now + wait
                    == date * 1_000_000_000
                &&& now + cap@ < date * 1_000_000_000 && cap@ <= max_nanos() ==> wait == cap@
            },
{
    let (default, cap, now) = choose|default: Duration, cap: Duration, now: int|
        {
            &&& #[trigger] call_ensures(P::backoff, (policy, state.attempt as u32), default)
            &&& #[trigger] call_ensures(P::max_retry_after, (policy,), cap)
            &&& clock_tells(now)
            &&& wait == #[trigger] retry_wait(
                retry_after_header(header_contents(head.headers)),
                now,
                default@,
                cap@,
            )
        };
    assert(call_ensures(P::max_retry_after, (policy,), cap) && clock_tells(now));
}

/// After a response, there is a wait exactly where the method allows a retry, the policy wants one for this
/// attempt, and one is left; then it is counted. Otherwise the response is handed back, or, where the policy
/// wants another retry and all of them are made, the attempts are told, without a cause.
pub proof fn law_after_a_response<P: RetryPolicy, R>(
    execution: &mut Execution,
    policy: &P,
    head: &ResponseHead,
    response: R,
    step: Step<R>,
    attempt: u32,
)
    requires
        call_ensures(Execution::on_response::<P, R>, (execution, policy, head, response), step),
        old(execution)@.attempt == attempt,
        attempt < u32::MAX,
    ensures
        match step {
            Step::Wait(wait) => {
                &&& old(execution)@.method_retryable
                &&& attempt < old(execution)@.max_retries
                &&& call_ensures(P::should_retry, (policy, attempt, RetryableOutcome::Response(head)), true)
                &&& waits_after_response(policy, old(execution)@, head, wait@)
                &&& final(execution)@.attempt == attempt + 1
            },
            Step::Done(Err(Error::MaxRetriesExceeded { attempts, source })) => {
                &&& old(execution)@.method_retryable
                &&& attempt >= old(execution)@.max_retries
                &&& attempt > 0
                &&& call_ensures(P::should_retry, (policy, attempt, RetryableOutcome::Response(head)), true)
                &&& attempts == attempt + 1
                &&& source is None
                &&& final(execution)@.attempt == attempt
            },
            Step::Done(result) => {
                &&& result == Ok::<R, Error>(response)
                &&& {
                    ||| !old(execution)@.method_retryable
                    ||| call_ensures(P::should_retry, (policy, attempt, RetryableOutcome::Response(head)), false)
                    ||| old(execution)@.max_retries == 0
                }
                &&& final(execution)@.attempt == attempt
            },
        },
        final(execution)@.max_retries == old(execution)@.max_retries,
        final(execution)@.method_retryable == old(execution)@.method_retryable,
{
}

/// After an error, there is a wait exactly where the method allows a retry, the policy wants one for this
/// attempt, and one is left; then it is counted, and the wait is the policy's backoff for this attempt.
/// Otherwise the error is handed back, or, where the policy wants another retry and all of them are made,
/// the attempts are told, with the error as their cause.
pub proof fn law_after_an_error<P: RetryPolicy, R>(
    execution: &mut Execution,
    policy: &P,
    err: TransportError,
    step: Step<R>,
    attempt: u32,
)
    requires
        call_ensures(Execution::on_error::<P, R>, (execution, policy, err), step),
        old(execution)@.attempt == attempt,
        attempt < u32::MAX,
    ensures
        match step {
            Step::Wait(wait) => {
                &&& old(execution)@.method_retryable
                &&& attempt < old(execution)@.max_retries
                &&& call_ensures(P::should_retry, (policy, attempt, RetryableOutcome::Error(&err)), true)
                &&& call_ensures(P::backoff, (policy, attempt), wait)
                &&& final(execution)@.attempt == attempt + 1
            },
            Step::Done(Err(Error::MaxRetriesExceeded { attempts, source })) => {
                &&& old(execution)@.method_retryable
                &&& attempt >= old(execution)@.max_retries
                &&& attempt > 0
                &&& call_ensures(P::should_retry, (policy, attempt, RetryableOutcome::Error(&err)), true)
                &&& attempts == attempt + 1
                &&& source == Some(err.error)
                &&& final(execution)@.attempt == attempt
            },
            Step::Done(result) => {
                &&& result == Err::<R, Error>(Error::Reqwest(err.error))
                &&& {
                    ||| !old(execution)@.method_retryable
                    ||| call_ensures(P::should_retry, (policy, attempt, RetryableOutcome::Error(&err)), false)
                    ||| old(execution)@.max_retries == 0
                }
                &&& final(execution)@.attempt == attempt
            },
        },
        final(execution)@.max_retries == old(execution)@.max_retries,
        final(execution)@.method_retryable == old(execution)@.method_retryable,
{
}

/// A copy of a request is sent as it is, and a request without a copy is refused for its body.
pub proof fn law_only_copies_are_sent<Q>(copy: Option<Q>, request: Result<Q, Error>)
    requires
        call_ensures(request_to_send::<Q>, (copy,), request),
    ensures
        copy matches Some(q) ==> request == Ok::<Q, Error>(q),
        copy is None ==> request == Err::<Q, Error>(Error::BodyNotRewindable),
{
}

/// An execution starts as it is told to, or as its policy says, with no retries made.
pub proof fn law_executions_start_fresh<P: RetryPolicy>(
    method_retryable: bool,
    max_retries: u32,
    policy: &P,
    method: &Method,
    execution: Execution,
)
    ensures
        call_ensures(Execution::new, (method_retryable, max_retries), execution) ==> {
            &&& execution@.method_retryable == method_retryable
            &&& execution@.max_retries == max_retries
            &&& execution@.attempt == 0
        },
        call_ensures(Execution::begin::<P>, (policy, method), execution) ==> begins(
            policy,
            method@,
            execution@,
        ),
{
}

/// What follows from an attempt. It is retried exactly if its method may be, the policy says so and
/// retries are left. It is given up, and the first attempt counted with the retries, exactly if it would
/// be retried but for the retries that are used up. Otherwise it stays as it is, a response or an error.
pub proof fn law_conclusions<R>(
    execution: &Execution,
    retry: bool,
    outcome: Result<R, HttpError>,
    conclusion: Verdict<R>,
)
    requires
        execution@.attempt < u32::MAX,
        call_ensures(Execution::conclude::<R>, (execution, retry, outcome), conclusion),
    ensures
        conclusion is Retry <==> execution@.method_retryable && retry && execution@.attempt
            < execution@.max_retries,
        (conclusion matches Verdict::Done(Err(Error::MaxRetriesExceeded { .. })))
            <==> execution@.method_retryable && retry && execution@.attempt >= execution@.max_retries
            && execution@.attempt > 0,
        conclusion matches Verdict::Done(Err(Error::MaxRetriesExceeded { attempts, source }))
            ==> attempts == execution@.attempt + 1 && match outcome {
            Ok(_) => source is None,
            Err(err) => source == Some(err),
        },
        conclusion matches Verdict::Done(Ok(response)) ==> outcome == Ok::<R, HttpError>(response),
        conclusion matches Verdict::Done(Err(Error::Reqwest(err))) ==> outcome == Err::<R, HttpError>(
            err,
        ),
        !(conclusion matches Verdict::Done(Err(Error::BodyNotRewindable))),
{
}

/// The attempt that an execution tells is the number of retries so far, within the limit.
pub proof fn law_attempts_are_told(execution: &Execution, attempt: u32)
    requires
        call_ensures(Execution::attempt, (execution,), attempt),
    ensures
        attempt == execution@.attempt,
        attempt <= execution@.max_retries,
{
}

} // verus!
