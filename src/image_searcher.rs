//! The two image-search providers: the request each one takes and how the
//! image URL is read out of its answer.

use vstd::prelude::*;
use crate::error::ImageBotError;
use crate::json::{element, member, opt_value, value_at, JsonValue, Step};

verus! {

/// An HTTP GET to send: endpoint, query parameters and headers, in order.
pub struct SearchRequest {
    /// The query text that the request searches for.
    pub query: String,
    pub url: String,
    pub params: Vec<(String, String)>,
    pub headers: Vec<(String, String)>,
}

/// A list of name/value pairs as text.
pub open spec fn pairs_view(pairs: Seq<(String, String)>) -> Seq<(Seq<char>, Seq<char>)> {
    pairs.map_values(|p: (String, String)| (p.0@, p.1@))
}

/// The search engine, keyed by an API key and a search-engine id.
pub struct GoogleImageSeacher {
    api_key: String,
    cx_id: String,
}

/// The aggregator search, keyed by an API key sent in a header.
pub struct RapidApiImageSeacher {
    api_key: String,
}

/// The provider that a bot searches with, fixed at startup.
pub enum Searcher {
    Google(GoogleImageSeacher),
    RapidApi(RapidApiImageSeacher),
}

impl GoogleImageSeacher {
    pub closed spec fn api_key(&self) -> Seq<char> {
        self.api_key@
    }

    pub closed spec fn cx_id(&self) -> Seq<char> {
        self.cx_id@
    }

    pub fn new(api_key: String, cx_id: String) -> (r: Self)
        ensures
            r.api_key() == api_key@,
            r.cx_id() == cx_id@,
    {
        GoogleImageSeacher { api_key, cx_id }
    }

    /// The request for `query`: one medium-sized result, from the first.
    pub fn request(&self, query: &str) -> (r: SearchRequest)
        ensures
            r.query@ == query@,
            r.url@ == google_url(),
            pairs_view(r.params@) == google_params(query@, self.api_key(), self.cx_id()),
            r.headers@.len() == 0,
    {
        let mut params: Vec<(String, String)> = Vec::new();
        params.push(pair("start", "1"));
        params.push(pair("num", "1"));
        params.push(pair("q", query));
        params.push(pair("imgSize", "medium"));
        params.push(pair("key", self.api_key.as_str()));
        params.push(pair("cx", self.cx_id.as_str()));
        assert(pairs_view(params@) =~= google_params(query@, self.api_key(), self.cx_id()));
        SearchRequest {
            query: query.to_owned(),
            url: "https://www.googleapis.com/customsearch/v1".to_owned(),
            params,
            headers: Vec::new(),
        }
    }
}

impl GoogleImageSeacher {
    /// The image URL in the engine's answer `body`.
    pub fn read_response(&self, body: &JsonValue) -> (r: Result<String, ImageBotError>)
        ensures
            url_result(value_at(Some(*body), google_path()), r),
    {
        let v = member(Some(body), "items");
        let v = element(v, 0);
        let v = member(v, "pagemap");
        let v = member(v, "cse_thumbnail");
        let v = element(v, 0);
        let v = member(v, "src");
        proof {
            reveal_with_fuel(value_at, 7);
        }
        expect_string(v)
    }
}

impl RapidApiImageSeacher {
    /// The image URL in the aggregator's answer `body`.
    pub fn read_response(&self, body: &JsonValue) -> (r: Result<String, ImageBotError>)
        ensures
            url_result(value_at(Some(*body), rapid_path()), r),
    {
        let v = member(Some(body), "value");
        let v = element(v, 0);
        let v = member(v, "url");
        proof {
            reveal_with_fuel(value_at, 4);
        }
        expect_string(v)
    }

    pub closed spec fn api_key(&self) -> Seq<char> {
        self.api_key@
    }

    pub fn new(api_key: String) -> (r: Self)
        ensures
            r.api_key() == api_key@,
    {
        RapidApiImageSeacher { api_key }
    }

    /// The request for `query`: one result, from the first page, corrected
    /// and unfiltered.
    pub fn request(&self, query: &str) -> (r: SearchRequest)
        ensures
            r.query@ == query@,
            r.url@ == rapid_url(),
            pairs_view(r.params@) == rapid_params(query@),
            pairs_view(r.headers@) == rapid_headers(self.api_key()),
    {
        let mut params: Vec<(String, String)> = Vec::new();
        params.push(pair("pageNumber", "1"));
        params.push(pair("pageSize", "1"));
        params.push(pair("q", query));
        params.push(pair("autoCorrect", "true"));
        params.push(pair("safeSearch", "false"));
        assert(pairs_view(params@) =~= rapid_params(query@));
        let mut headers: Vec<(String, String)> = Vec::new();
        headers.push(pair("x-rapidapi-host", "contextualwebsearch-websearch-v1.p.rapidapi.com"));
        headers.push(pair("x-rapidapi-key", self.api_key.as_str()));
        assert(pairs_view(headers@) =~= rapid_headers(self.api_key()));
        SearchRequest {
            query: query.to_owned(),
            url: "https://rapidapi.p.rapidapi.com/api/Search/ImageSearchAPI".to_owned(),
            params,
            headers,
        }
    }
}

pub open spec fn google_url() -> Seq<char> {
    "https://www.googleapis.com/customsearch/v1"@
}

pub open spec fn google_params(query: Seq<char>, key: Seq<char>, cx: Seq<char>) -> Seq<
    (Seq<char>, Seq<char>),
> {
    seq![
        ("start"@, "1"@),
        ("num"@, "1"@),
        ("q"@, query),
        ("imgSize"@, "medium"@),
        ("key"@, key),
        ("cx"@, cx),
    ]
}

pub open spec fn rapid_url() -> Seq<char> {
    "https://rapidapi.p.rapidapi.com/api/Search/ImageSearchAPI"@
}

pub open spec fn rapid_params(query: Seq<char>) -> Seq<(Seq<char>, Seq<char>)> {
    seq![
        ("pageNumber"@, "1"@),
        ("pageSize"@, "1"@),
        ("q"@, query),
        ("autoCorrect"@, "true"@),
        ("safeSearch"@, "false"@),
    ]
}

pub open spec fn rapid_headers(key: Seq<char>) -> Seq<(Seq<char>, Seq<char>)> {
    seq![
        ("x-rapidapi-host"@, "contextualwebsearch-websearch-v1.p.rapidapi.com"@),
        ("x-rapidapi-key"@, key),
    ]
}

impl Searcher {
    /// Where this provider's answer holds the image URL.
    pub open spec fn path(&self) -> Seq<Step> {
        match self {
            Searcher::Google(_) => google_path(),
            Searcher::RapidApi(_) => rapid_path(),
        }
    }

    /// `r` is the request that this provider takes for `query`.
    pub open spec fn is_request_for(&self, query: Seq<char>, r: SearchRequest) -> bool {
        &&& r.query@ == query
        &&& match self {
            Searcher::Google(g) => {
                &&& r.url@ == google_url()
                &&& pairs_view(r.params@) == google_params(query, g.api_key(), g.cx_id())
                &&& r.headers@.len() == 0
            },
            Searcher::RapidApi(a) => {
                &&& r.url@ == rapid_url()
                &&& pairs_view(r.params@) == rapid_params(query)
                &&& pairs_view(r.headers@) == rapid_headers(a.api_key())
            },
        }
    }

    /// The request to send for `query`.
    pub fn request(&self, query: &str) -> (r: SearchRequest)
        ensures
            self.is_request_for(query@, r),
    {
        match self {
            Searcher::Google(g) => g.request(query),
            Searcher::RapidApi(a) => a.request(query),
        }
    }

    /// The image URL in the provider's answer `body`.
    pub fn read_response(&self, body: &JsonValue) -> (r: Result<String, ImageBotError>)
        ensures
            url_result(value_at(Some(*body), self.path()), r),
    {
        match self {
            Searcher::Google(g) => g.read_response(body),
            Searcher::RapidApi(a) => a.read_response(body),
        }
    }

    /// What a sent request comes to: the answer is read for the URL, and a
    /// transport error is handed back as it is, with no retry.
    pub fn search_result(&self, outcome: Result<JsonValue, reqwest::Error>) -> (r: Result<
        String,
        ImageBotError,
    >)
        ensures
            match outcome {
                Ok(body) => url_result(value_at(Some(body), self.path()), r),
                Err(e) => r == Err::<String, ImageBotError>(ImageBotError::NetworkIo(e)),
            },
    {
        match outcome {
            Ok(body) => self.read_response(&body),
            Err(e) => Err(ImageBotError::NetworkIo(e)),
        }
    }
}

/// Where the engine's answer holds the image URL:
/// `items[0].pagemap.cse_thumbnail[0].src`.
pub open spec fn google_path() -> Seq<Step> {
    seq![
        Step::Key("items"@),
        Step::Index(0),
        Step::Key("pagemap"@),
        Step::Key("cse_thumbnail"@),
        Step::Index(0),
        Step::Key("src"@),
    ]
}

/// Where the aggregator's answer holds the image URL: `value[0].url`.
pub open spec fn rapid_path() -> Seq<Step> {
    seq![Step::Key("value"@), Step::Index(0), Step::Key("url"@)]
}

/// The error text for what stood where the URL was expected; a missing
/// value reads as null.
pub open spec fn unexpected_message(found: Option<JsonValue>) -> Seq<char> {
    match found {
        None => "Expected a string, got a 'null'"@,
        Some(JsonValue::Null) => "Expected a string, got a 'null'"@,
        Some(JsonValue::Bool(_)) => "Expected a string, got a 'boolean'"@,
        Some(JsonValue::Number(_)) => "Expected a string, got a 'number'"@,
        Some(JsonValue::Str(_)) => "Expected a string, got a 'string'"@,
        Some(JsonValue::Array(_)) => "Expected a string, got a 'array'"@,
        Some(JsonValue::Object(_)) => "Expected a string, got a 'object'"@,
    }
}

/// `r` is what a search yields when `found` stands where the URL should be:
/// that very string, or else an `Api` error saying what stood there.
pub open spec fn url_result(found: Option<JsonValue>, r: Result<String, ImageBotError>) -> bool {
    match found {
        Some(JsonValue::Str(s)) => r == Ok::<String, ImageBotError>(s),
        _ => match r {
            Err(ImageBotError::Api(m)) => m@ == unexpected_message(found),
            _ => false,
        },
    }
}

/// Where the provider's answer holds a string at the URL's place, reading the
/// answer yields exactly that string.
pub proof fn lemma_string_is_the_url(searcher: Searcher, body: JsonValue, r: Result<String, ImageBotError>)
    requires
        url_result(value_at(Some(body), searcher.path()), r),
        value_at(Some(body), searcher.path()) matches Some(JsonValue::Str(_)),
    ensures
        match value_at(Some(body), searcher.path()) {
            Some(JsonValue::Str(s)) => r == Ok::<String, ImageBotError>(s),
            _ => false,
        },
{
}

/// Where the provider's answer holds anything but a string at the URL's place
/// (nothing, null, a number, an empty array, ...), reading it fails with an
/// `Api` error, never a transport error.
pub proof fn lemma_no_string_is_api_error(searcher: Searcher, body: JsonValue, r: Result<String, ImageBotError>)
    requires
        url_result(value_at(Some(body), searcher.path()), r),
        !(value_at(Some(body), searcher.path()) matches Some(JsonValue::Str(_))),
    ensures
        r matches Err(ImageBotError::Api(_)),
{
}

/// The image URL, where `found` is a string; else the `Api` error.
pub fn expect_string(found: Option<&JsonValue>) -> (r: Result<String, ImageBotError>)
    ensures
        url_result(opt_value(found), r),
{
    match found {
        Some(JsonValue::Str(s)) => Ok(s.clone()),
        None => Err(ImageBotError::Api("Expected a string, got a 'null'".to_owned())),
        Some(JsonValue::Null) => Err(ImageBotError::Api("Expected a string, got a 'null'".to_owned())),
        Some(JsonValue::Bool(_)) => Err(
            ImageBotError::Api("Expected a string, got a 'boolean'".to_owned()),
        ),
        Some(JsonValue::Number(_)) => Err(
            ImageBotError::Api("Expected a string, got a 'number'".to_owned()),
        ),
        Some(JsonValue::Array(_)) => Err(
            ImageBotError::Api("Expected a string, got a 'array'".to_owned()),
        ),
        Some(JsonValue::Object(_)) => Err(
            ImageBotError::Api("Expected a string, got a 'object'".to_owned()),
        ),
    }
}

fn pair(name: &str, value: &str) -> (r: (String, String))
    ensures
        r.0@ == name@,
        r.1@ == value@,
{
    (name.to_owned(), value.to_owned())
}

} // verus!
