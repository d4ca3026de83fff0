//! What the library asks of `reqwest`: a GET request under construction, and
//! one more header on it.

use vstd::prelude::*;

verus! {

/// An HTTP client, as `reqwest` holds it.
#[verifier::external_type_specification]
#[verifier::external_body]
pub struct ExClient(reqwest::Client);

/// A request under construction, as `reqwest` holds it.
#[verifier::external_type_specification]
#[verifier::external_body]
pub struct ExRequestBuilder(reqwest::RequestBuilder);

/// The most header values that a request under construction may hold when
/// one more is added: the most with which the header map underneath is
/// certain to take another.
pub const HEADER_ROOM: usize = 6553;

/// The GET request that a client starts for a URL.
pub uninterp spec fn get_request(client: reqwest::Client, url: Seq<char>) -> reqwest::RequestBuilder;

/// The request under construction with one more header added to it.
pub uninterp spec fn with_header(
    request: reqwest::RequestBuilder,
    name: Seq<char>,
    value: Seq<char>,
) -> reqwest::RequestBuilder;

/// The number of header values that a request under construction holds; zero
/// where it holds an error in place of a request.
pub uninterp spec fn header_count(request: reqwest::RequestBuilder) -> nat;

/// `reqwest::Client::get`. The request is fresh: it holds no header but the
/// one that credentials in the URL give rise to.
#[verifier::external_body]
pub(crate) fn start_get(client: &reqwest::Client, url: &str) -> (r: reqwest::RequestBuilder)
    ensures
        r == get_request(*client, url@),
        header_count(r) <= 1,
{
    client.get(url)
}

/// `reqwest::RequestBuilder::header`. It adds at most one header value, and
/// none where the name or the value is not fit for a header: the request then
/// holds an error. The header map underneath panics when it cannot grow. It
/// cannot once it has 32,768 slots and is asked to double: that is when
/// 24,576 entries fill it or, after long runs of collisions, when a fifth of
/// the slots, 6,554 entries, are taken. With no more than `HEADER_ROOM`
/// values in it, it is asked for neither.
#[verifier::external_body]
pub(crate) fn add_header(request: reqwest::RequestBuilder, name: &str, value: &str) -> (r:
    reqwest::RequestBuilder)
    requires
        header_count(request) <= HEADER_ROOM,
    ensures
        r == with_header(request, name@, value@),
        header_count(r) <= header_count(request) + 1,
{
    request.header(name, value)
}

} // verus!
