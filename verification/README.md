# rs-retryablehttp

A retrying HTTP client library, built on `reqwest`, with its retry logic verified by Verus.

Retries respect idempotency and server backpressure by default: only idempotent methods are retried
unless you opt others in, and a server's `Retry-After` is honored, and capped, instead of fought.

## Defaults

- Up to 3 retries after the first attempt.
- Exponential backoff with full jitter, from 100 ms to 30 s.
- Retries on 5xx, 429 and 408 responses, and on connect and timeout errors.
- Retried methods: GET, HEAD, PUT, DELETE, OPTIONS, TRACE.
- A `Retry-After` header (seconds or an HTTP-date) replaces the backoff. It is capped at the longest
  backoff, or at an explicit `max_retry_after`.

## Layout

- `src/` is the library. Every decision is made here, and proved to be the one its contract states.
  - `execution`: the course of one request. It is told the outcome of each attempt, and answers
    whether to stop, with what result, or how long to wait before the next attempt.
  - `policy`: the `RetryPolicy` trait, the default policy and its builder, and the policy that never
    retries.
  - `retry_after`: reading `Retry-After`, and the wait that follows from it.
  - `backoff`: exponential backoff with full jitter.
  - `client`: a `reqwest::Client` with a policy, and its builder.
  - `duration`, `method`, `outcome`, `error`: the values that the others speak of.
  - `outside`: the calls into `reqwest`, `httpdate`, `rand` and the system clock. Their contracts are
    taken on trust; everything else rests on them.
- `app/` sends the requests: `Execute::execute` runs the attempts and the waits that an execution asks
  for, and carries the `tracing` events and the standard error trait.
- `tests/` plays whole requests through against scripted servers.
