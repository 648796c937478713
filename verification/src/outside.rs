//! The calls that leave this crate, and the outside types that pass through it.
use vstd::prelude::*;
use reqwest::Client as HttpClient;
use reqwest::Error as HttpError;

use crate::duration::NANOS_PER_SEC;

verus! {

/// `reqwest::Client`: a handle to a connection pool, carried through unread.
#[verifier::external_type_specification]
#[verifier::external_body]
pub struct ExHttpClient(HttpClient);

/// `reqwest::Error`: why a request failed, carried through unread.
#[verifier::external_type_specification]
#[verifier::external_body]
pub struct ExHttpError(HttpError);

/// `reqwest::header::HeaderMap`: a multimap from header names to values.
#[verifier::external_type_specification]
#[verifier::external_body]
#[verifier::reject_recursive_types(T)]
pub struct ExHeaderMap<T>(reqwest::header::HeaderMap<T>);

/// `reqwest::header::HeaderValue`: the bytes of one header value.
#[verifier::external_type_specification]
#[verifier::external_body]
pub struct ExHeaderValue(reqwest::header::HeaderValue);

/// What a header map holds: under each header name, in lower case, the values that were given for
/// it, oldest first. A name without a value is no key.
pub uninterp spec fn header_contents(
    headers: reqwest::header::HeaderMap<reqwest::header::HeaderValue>,
) -> Map<Seq<char>, Seq<Seq<u8>>>;

/// `HeaderMap::get` with the key `reqwest::header::RETRY_AFTER`: the first value under
/// `retry-after`, as its bytes, or `None` if the map holds no value under that name.
#[verifier::external_body]
pub(crate) fn first_retry_after(
    headers: &reqwest::header::HeaderMap<reqwest::header::HeaderValue>,
) -> (value: Option<Vec<u8>>)
    ensures
        value is Some <==> header_contents(*headers).contains_key("retry-after"@),
        value matches Some(bytes) ==> bytes@ == header_contents(*headers)["retry-after"@][0],
{
    headers.get(reqwest::header::RETRY_AFTER).map(|v| v.as_bytes().to_vec())
}

/// Whether a byte of a header value is text: visible ASCII, a space or a tab.
pub open spec fn is_text_byte(b: u8) -> bool {
    32 <= b < 127 || b == 9
}

/// The text of a header value, if all of its bytes are text.
pub open spec fn text_of(raw: Seq<u8>) -> Option<Seq<char>> {
    if forall|i: int| 0 <= i < raw.len() ==> is_text_byte(#[trigger] raw[i]) {
        Some(Seq::new(raw.len(), |i: int| raw[i] as char))
    } else {
        None
    }
}

/// `HeaderValue::to_str` on the header value with the bytes `raw`: the value as text if each of
/// its bytes is visible ASCII, a space or a tab, and `None` otherwise. Bytes that
/// `HeaderValue::from_bytes` takes for no header value are not all text either.
#[verifier::external_body]
pub(crate) fn header_text(raw: &[u8]) -> (text: Option<String>)
    ensures
        text is Some <==> text_of(raw@) is Some,
        text matches Some(t) ==> Some(t@) == text_of(raw@),
{
    let value = reqwest::header::HeaderValue::from_bytes(raw).ok()?;
    value.to_str().ok().map(|t| t.to_owned())
}

/// The moment that `httpdate::parse_http_date` reads from a text, in seconds since the Unix epoch,
/// or `None` if the text is no HTTP-date.
pub uninterp spec fn http_date_seconds(value: Seq<char>) -> Option<u64>;

/// `httpdate::parse_http_date`: a function of the text alone. Every date that it accepts lies at or
/// after the Unix epoch and on a whole second, so the seconds since then say all of it.
#[verifier::external_body]
pub(crate) fn parse_http_date(value: &str) -> (date: Option<u64>)
    ensures
        date == http_date_seconds(value@),
{
    let date = httpdate::parse_http_date(value).ok()?;
    date.duration_since(std::time::UNIX_EPOCH).ok().map(|d| d.as_secs())
}

/// `std::time::SystemTime::now`, as seconds and nanoseconds: since the Unix epoch in `Ok`, or
/// before it in `Err`. Nothing is said of the moment itself.
#[verifier::external_body]
pub(crate) fn system_now() -> (now: Result<(u64, u32), (u64, u32)>)
    ensures
        now matches Ok(since) ==> since.1 < NANOS_PER_SEC,
        now matches Err(until) ==> until.1 < NANOS_PER_SEC,
{
    match std::time::SystemTime::now().duration_since(std::time::UNIX_EPOCH) {
        Ok(since) => Ok((since.as_secs(), since.subsec_nanos())),
        Err(until) => Err((until.duration().as_secs(), until.duration().subsec_nanos())),
    }
}

/// `rand::random`: some number. Nothing is said of which. The generator is seeded from the entropy
/// source of the machine, without which the call panics.
#[verifier::external_body]
pub(crate) fn random_u64() -> (number: u64)
{
    rand::random::<u64>()
}

/// `reqwest::Client::default`: a client with default settings. Nothing is said of it. It is made from
/// the TLS backend and the resolver of the machine, without which the call panics.
#[verifier::external_body]
pub(crate) fn default_http_client() -> (client: HttpClient)
{
    HttpClient::default()
}

/// A header value is text exactly if its bytes are all from 32 to 126 or 9, and the text then has a
/// character for each byte, of the same number.
pub proof fn law_text_of_bytes(raw: Seq<u8>)
    ensures
        text_of(raw) is Some <==> forall|i: int|
            0 <= i < raw.len() ==> 32 <= #[trigger] raw[i] <= 126 || raw[i] == 9,
        text_of(raw) matches Some(text) ==> text.len() == raw.len() && forall|i: int|
            0 <= i < raw.len() ==> (#[trigger] text[i]) as int == raw[i] as int,
{
    if forall|i: int| 0 <= i < raw.len() ==> 32 <= #[trigger] raw[i] <= 126 || raw[i] == 9 {
        assert(forall|i: int| 0 <= i < raw.len() ==> is_text_byte(#[trigger] raw[i]));
    }
    if let Some(text) = text_of(raw) {
        assert forall|i: int| 0 <= i < raw.len() implies (#[trigger] text[i]) as int
            == raw[i] as int by {
            assert(is_text_byte(raw[i]));
        }
    }
}

} // verus!
