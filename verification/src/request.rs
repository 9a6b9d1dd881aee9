//! The request dispatcher: which HTTP request is sent for a call, and what the
//! response to it means to the caller.
//!
//! A call is one round trip. [`Spotify::prepare`] says what is sent; whoever
//! performs the round trip hands the status and the text of the response to
//! [`outcome`], which says what the caller gets.

use crate::form::{pairs_view, Pairs};
use crate::query::Query;
use crate::url::{option_pairs, request_url, url_of, BASE_URL};
use crate::{Method, RequestError, Spotify};
use vstd::prelude::*;

verus! {

/// One HTTP request, ready to be sent.
#[derive(Clone, Debug)]
pub struct Request {
    /// The HTTP method.
    pub method: Method,
    /// The absolute URL.
    pub url: String,
    /// The headers as names and values, but for the authorization.
    pub headers: Vec<(String, String)>,
    /// The bearer token of the `Authorization` header.
    pub bearer: String,
    /// Whether the body of the call is sent, as JSON.
    pub sends_body: bool,
    /// Whether the response is read and handed to the caller.
    pub reads_response: bool,
}

/// A request as plain values.
pub struct RequestView {
    pub method: Method,
    pub url: Seq<char>,
    pub headers: Pairs,
    pub bearer: Seq<char>,
    pub sends_body: bool,
    pub reads_response: bool,
}

impl View for Request {
    type V = RequestView;

    open spec fn view(&self) -> RequestView {
        RequestView {
            method: self.method,
            url: self.url@,
            headers: pairs_view(self.headers@),
            bearer: self.bearer@,
            sends_body: self.sends_body,
            reads_response: self.reads_response,
        }
    }
}

/// The headers of every request: JSON is sent and JSON is expected.
pub open spec fn json_headers() -> Pairs {
    seq![("Accept"@, "application/json"@), ("Content-Type"@, "application/json"@)]
}

/// Whether a method sends the body of the call.
pub open spec fn carries_body(method: Method) -> bool {
    method == Method::POST || method == Method::PUT
}

/// Whether the caller of a method gets the response.
pub open spec fn returns_response(method: Method) -> bool {
    method == Method::GET
}

/// The request of a call. The address comes first: a call whose address
/// cannot be built fails on that account, whatever else is wrong with it. A
/// `POST` or a `PUT` needs a body. The request has the method of the call.
pub open spec fn prepared(
    authorization: Seq<char>,
    method: Method,
    path: Seq<char>,
    query: Option<Pairs>,
    has_body: bool,
) -> Result<RequestView, RequestError> {
    match url_of(path, query) {
        Err(e) => Err(e),
        Ok(url) => if carries_body(method) && !has_body {
            Err(RequestError::MissingBody)
        } else {
            Ok(
                RequestView {
                    method,
                    url,
                    headers: json_headers(),
                    bearer: authorization,
                    sends_body: carries_body(method),
                    reads_response: returns_response(method),
                },
            )
        },
    }
}

/// Whether an HTTP status is one of success: 200 to 299.
pub open spec fn success_status(status: u16) -> bool {
    200 <= status < 300
}

/// What the caller of a call gets: after a `GET` the text of the response
/// as it came, with the flag that says whether the status was one of
/// success; after any other method nothing.
pub open spec fn outcome_of(method: Method, status: u16, body: Seq<char>) -> Option<
    (Seq<char>, bool),
> {
    if returns_response(method) {
        Some((body, success_status(status)))
    } else {
        None
    }
}

/// Whether an HTTP status is one of success.
pub fn is_success(status: u16) -> (ok: bool)
    ensures
        ok == success_status(status),
{
    200 <= status && status < 300
}

/// The result of a call with method `method`, from the status and the text
/// of the response.
pub fn outcome(method: Method, status: u16, body: String) -> (result: Option<(String, bool)>)
    ensures
        match result {
            Some((text, ok)) => outcome_of(method, status, body@) == Some((text@, ok)),
            None => outcome_of(method, status, body@).is_none(),
        },
{
    match method {
        Method::GET => Some((body, is_success(status))),
        _ => None,
    }
}

impl Spotify {
    /// The request of a call with method `method` to the endpoint at `path`,
    /// with the query parameters of `query` where there are any; `has_body`
    /// says whether the call has a body.
    pub fn prepare(
        &self,
        method: Method,
        path: &str,
        query: Option<&Query>,
        has_body: bool,
    ) -> (request: Result<Request, RequestError>)
        ensures
            match request {
                Ok(r) => prepared(self.authorization@, method, path@, option_pairs(query), has_body)
                    == Ok::<RequestView, RequestError>(r@),
                Err(e) => prepared(
                    self.authorization@,
                    method,
                    path@,
                    option_pairs(query),
                    has_body,
                ) == Err::<RequestView, RequestError>(e),
            },
    {
        let url = match request_url(path, query) {
            Ok(url) => url,
            Err(e) => { return Err(e); },
        };
        let sends_body = match method {
            Method::POST | Method::PUT => true,
            _ => false,
        };
        if sends_body && !has_body {
            return Err(RequestError::MissingBody);
        }
        let mut headers: Vec<(String, String)> = Vec::new();
        headers.push(("Accept".to_owned(), "application/json".to_owned()));
        headers.push(("Content-Type".to_owned(), "application/json".to_owned()));
        assert(pairs_view(headers@) =~= json_headers());
        let reads_response = match method {
            Method::GET => true,
            _ => false,
        };
        Ok(
            Request {
                method,
                url,
                headers,
                bearer: self.authorization.clone(),
                sends_body,
                reads_response,
            },
        )
    }
}

/// Whatever the method of a call: where its request is prepared, the URL of
/// the request is the address of path and query, and two calls that differ
/// in nothing but method and body have one URL.
pub proof fn lemma_url_for_every_method(
    authorization: Seq<char>,
    method: Method,
    other: Method,
    path: Seq<char>,
    query: Option<Pairs>,
    has_body: bool,
    other_has_body: bool,
)
    ensures
        prepared(authorization, method, path, query, has_body) matches Ok(request) ==> url_of(
            path,
            query,
        ) == Ok::<Seq<char>, RequestError>(request.url),
        prepared(authorization, method, path, query, has_body) matches Ok(request) ==> (prepared(
            authorization,
            other,
            path,
            query,
            other_has_body,
        ) matches Ok(second) ==> second.url == request.url),
{
}

/// A call without query parameters that is prepared goes to the base
/// followed by the path, character for character.
pub proof fn lemma_path_unchanged(
    authorization: Seq<char>,
    method: Method,
    path: Seq<char>,
    has_body: bool,
)
    ensures
        prepared(authorization, method, path, None, has_body) matches Ok(request) ==> {
            &&& request.url == BASE_URL@ + path
            &&& request.url.skip(BASE_URL@.len() as int) == path
        },
{
}

/// The flag that a `GET` returns is the class of the status: true from 200 to
/// 299 and false for any other status; the text is the body of the response,
/// unchanged, whatever the status.
pub proof fn lemma_get_outcome(status: u16, body: Seq<char>)
    ensures
        outcome_of(Method::GET, status, body) == Some((body, 200 <= status <= 299)),
{
}

} // verus!
