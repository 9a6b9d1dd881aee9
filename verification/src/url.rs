//! The address of a call: the fixed base of the API, the relative path of the
//! endpoint and, where the call has query parameters, the URL parser's
//! reading of the two with the parameters added to its query.

use crate::form::{
    decode_pairs, encode_pairs, lemma_pairs_round_trip, pairs_view, push_pairs, Pairs,
};
use crate::query::Query;
use crate::text::{
    first_index, lemma_first_index, lemma_first_index_none, lemma_first_index_split, push_char,
    split_once,
};
use crate::RequestError;
use vstd::prelude::*;

verus! {

/// The base of every endpoint of the API.
pub const BASE_URL: &'static str = "https://api.spotify.com/v1/";

/// What the URL parser makes of an absolute URL given as text: the URL in its
/// serialized form, or `None` where it refuses the text. The parser reads
/// the text and nothing else, so one text has one reading.
pub uninterp spec fn parsed_url(input: Seq<char>) -> Option<Seq<char>>;

/// Calls `reqwest::Url::parse`, the parser of the `url` crate, on `input` and
/// gives the URL in its serialized form, or `None` where the parser refuses
/// the text. The contract gives that result its name, `parsed_url`, and claims
/// nothing else of it.
#[verifier::external_body]
fn parse_url(input: &str) -> (url: Option<String>)
    ensures
        match url {
            Some(text) => parsed_url(input@) == Some(text@),
            None => parsed_url(input@).is_none(),
        },
{
    match reqwest::Url::parse(input) {
        Ok(url) => Some(url.to_string()),
        Err(_) => None,
    }
}

/// A serialized URL with parameters added to its query. The fragment, which
/// begins at the first `#`, stays at the end. A URL without a query gets one,
/// opened by `?`; in one that has a query, which begins at the first `?`, the
/// parameters follow what is there, after a `&` unless the query is empty.
/// The parameters are serialized as form parameters and joined by `&`.
pub open spec fn with_pairs(url: Seq<char>, pairs: Pairs) -> Seq<char> {
    let cut = first_index(url, '#');
    let front = url.take(cut);
    let fragment = url.skip(cut);
    let mark = first_index(front, '?');
    let opener = if mark == front.len() {
        seq!['?']
    } else {
        Seq::empty()
    };
    let separator = if pairs.len() > 0 && mark + 1 < front.len() {
        seq!['&']
    } else {
        Seq::empty()
    };
    front + opener + separator + encode_pairs(pairs) + fragment
}

/// An absolute URL given as text, with parameters added to its query: the
/// parser's reading of the text with the parameters added.
pub open spec fn address_with(input: Seq<char>, pairs: Pairs) -> Result<Seq<char>, RequestError> {
    match parsed_url(input) {
        None => Err(RequestError::InvalidUrl),
        Some(url) => Ok(with_pairs(url, pairs)),
    }
}

/// The address of a call: the base and the path as they are where the call has
/// no parameters; else what the URL parser makes of base and path, with the
/// parameters added to its query.
pub open spec fn url_of(path: Seq<char>, query: Option<Pairs>) -> Result<Seq<char>, RequestError> {
    match query {
        None => Ok(BASE_URL@ + path),
        Some(pairs) => address_with(BASE_URL@ + path, pairs),
    }
}

/// The plain value of an optional query.
pub open spec fn option_pairs(query: Option<&Query>) -> Option<Pairs> {
    match query {
        Some(query) => Some(query@),
        None => None,
    }
}

/// Adds parameters to the query of a serialized URL.
pub fn add_query(url: &str, pairs: &Vec<(String, String)>) -> (text: String)
    ensures
        text@ == with_pairs(url@, pairs_view(pairs@)),
{
    let ghost all = pairs_view(pairs@);
    let ghost cut = first_index(url@, '#');
    let (front, fragment) = match split_once(url, '#') {
        Some((before, after)) => {
            proof {
                lemma_first_index_split(url@, '#', before@, after@);
            }
            (before, Some(after))
        },
        None => {
            proof {
                lemma_first_index_none(url@, '#');
            }
            (url, None)
        },
    };
    assert(front@ == url@.take(cut));
    let ghost mark = first_index(front@, '?');
    let mut text = String::from_str(front);
    match split_once(front, '?') {
        None => {
            proof {
                lemma_first_index_none(front@, '?');
            }
            push_char(&mut text, '?');
        },
        Some((before, query)) => {
            proof {
                lemma_first_index_split(front@, '?', before@, query@);
                assert(front@.len() == before@.len() + 1 + query@.len());
            }
            if !query.is_empty() && pairs.len() > 0 {
                push_char(&mut text, '&');
            }
        },
    }
    let ghost opened = text@;
    push_pairs(&mut text, pairs);
    match fragment {
        Some(after) => {
            push_char(&mut text, '#');
            text.append(after);
            assert(text@ == opened + encode_pairs(all) + (seq!['#'] + after@));
        },
        None => {
            assert(text@ == opened + encode_pairs(all) + Seq::<char>::empty());
        },
    }
    text
}

/// Parses `input` as an absolute URL and adds the parameters of `query` to
/// its query.
pub fn with_query(input: &str, query: &Query) -> (url: Result<String, RequestError>)
    ensures
        match url {
            Ok(text) => address_with(input@, query@) == Ok::<Seq<char>, RequestError>(text@),
            Err(e) => address_with(input@, query@) == Err::<Seq<char>, RequestError>(e),
        },
{
    match parse_url(input) {
        Some(url) => Ok(add_query(url.as_str(), query.pairs())),
        None => Err(RequestError::InvalidUrl),
    }
}

/// The address of a call to the endpoint at `path`, with the query parameters
/// of `query` where there are any.
pub fn request_url(path: &str, query: Option<&Query>) -> (url: Result<String, RequestError>)
    ensures
        match url {
            Ok(text) => url_of(path@, option_pairs(query)) == Ok::<Seq<char>, RequestError>(text@),
            Err(e) => url_of(path@, option_pairs(query)) == Err::<Seq<char>, RequestError>(e),
        },
{
    let input = String::from_str(BASE_URL).concat(path);
    match query {
        None => Ok(input),
        Some(query) => with_query(input.as_str(), query),
    }
}

/// Adding parameters changes nothing of what the URL holds: what stands
/// before its fragment, scheme, host and path among it, stays in front as it
/// is, and the fragment stays at the end.
pub proof fn lemma_with_pairs_keeps_url(url: Seq<char>, pairs: Pairs)
    ensures
        0 <= first_index(url, '#') <= url.len() <= with_pairs(url, pairs).len(),
        with_pairs(url, pairs).take(first_index(url, '#')) == url.take(first_index(url, '#')),
        with_pairs(url, pairs).skip(
            with_pairs(url, pairs).len() - (url.len() - first_index(url, '#')),
        ) == url.skip(first_index(url, '#')),
{
    lemma_first_index(url, '#');
}

/// A URL that has neither query nor fragment is followed by `?` and the
/// serialized parameters.
pub proof fn lemma_with_pairs_plain(url: Seq<char>, pairs: Pairs)
    requires
        !url.contains('?'),
        !url.contains('#'),
    ensures
        with_pairs(url, pairs) == url + seq!['?'] + encode_pairs(pairs),
        decode_pairs(with_pairs(url, pairs).skip(url.len() as int + 1)) == pairs,
{
    lemma_first_index(url, '#');
    lemma_first_index(url, '?');
    if first_index(url, '#') < url.len() {
        assert(url.contains(url[first_index(url, '#')]));
    }
    if first_index(url, '?') < url.len() {
        assert(url.contains(url[first_index(url, '?')]));
    }
    assert(url.take(url.len() as int) == url);
    assert(url.skip(url.len() as int) == Seq::<char>::empty());
    assert(with_pairs(url, pairs) == url + seq!['?'] + encode_pairs(pairs));
    assert(with_pairs(url, pairs).skip(url.len() as int + 1) == encode_pairs(pairs));
    lemma_pairs_round_trip(pairs);
}

/// The address of a call without parameters ends with the path as it was
/// given, after the base.
pub proof fn lemma_url_without_query(path: Seq<char>)
    ensures
        url_of(path, None) == Ok::<Seq<char>, RequestError>(BASE_URL@ + path),
        (BASE_URL@ + path).skip(BASE_URL@.len() as int) == path,
{
}

/// The address of a call with parameters is what the URL parser makes of
/// base and path, with the parameters added: where it is built, the parser's
/// reading of base and path stands in front up to its fragment.
pub proof fn lemma_url_with_query(path: Seq<char>, pairs: Pairs)
    requires
        url_of(path, Some(pairs)) is Ok,
    ensures
        parsed_url(BASE_URL@ + path) matches Some(parsed) && url_of(path, Some(pairs)) == Ok::<
            Seq<char>,
            RequestError,
        >(with_pairs(parsed, pairs)) && with_pairs(parsed, pairs).take(first_index(parsed, '#'))
            == parsed.take(first_index(parsed, '#')),
{
    lemma_with_pairs_keeps_url(parsed_url(BASE_URL@ + path).unwrap(), pairs);
}

} // verus!
