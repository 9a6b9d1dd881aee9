//! A client binding for the Spotify Web API.
//!
//! The crate holds the data model of the API ([`objects`]) and the rules of its
//! request dispatcher: the query parameters of a call ([`query`]) and their
//! serialization ([`form`]), how the address of a call is built ([`url`]),
//! which request is sent for a call and what a response means to the caller
//! ([`request`]). Performing the HTTP round trip itself is left to the caller
//! of this library.

use vstd::prelude::*;

pub mod form;
pub mod objects;
pub mod query;
pub mod request;
pub mod text;
pub mod url;

verus! {

/// The client: a plain value holding the bearer token that authorizes its calls.
#[derive(Clone, Debug)]
pub struct Spotify {
    /// The bearer token, presented with every call.
    pub authorization: String,
}

/// The HTTP method of a call.
#[derive(Clone, Copy, Debug, PartialEq, Eq, Structural)]
pub enum Method {
    GET,
    POST,
    PUT,
    DELETE,
}

/// Why a call cannot be prepared.
#[derive(Clone, Copy, Debug, PartialEq, Eq, Structural)]
pub enum RequestError {
    /// The URL parser refuses the address.
    InvalidUrl,
    /// The method sends a body and the call has none.
    MissingBody,
}

impl Spotify {
    /// A client that authorizes its calls with the given bearer token.
    pub fn new(authorization: &str) -> (client: Self)
        ensures
            client.authorization@ == authorization@,
    {
        Spotify { authorization: authorization.to_owned() }
    }
}

} // verus!
