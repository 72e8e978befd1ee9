use image_bot::error::ImageBotError;
use image_bot::image_searcher::{
    expect_string, GoogleImageSeacher, RapidApiImageSeacher, Searcher,
};
use image_bot::json::{element, member, JsonValue};

fn s(x: &str) -> String {
    x.to_string()
}

fn obj(members: Vec<(&str, JsonValue)>) -> JsonValue {
    JsonValue::Object(members.into_iter().map(|(k, v)| (s(k), v)).collect())
}

fn rapid() -> Searcher {
    Searcher::RapidApi(RapidApiImageSeacher::new(s("rk")))
}

fn google() -> Searcher {
    Searcher::Google(GoogleImageSeacher::new(s("gk"), s("cx1")))
}

fn rapid_answer(first: JsonValue) -> JsonValue {
    obj(vec![("value", JsonValue::Array(vec![first]))])
}

fn api_message(r: Result<String, ImageBotError>) -> String {
    match r {
        Err(ImageBotError::Api(m)) => m,
        Ok(u) => panic!("unexpected url {}", u),
        Err(_) => panic!("unexpected error kind"),
    }
}

#[test]
fn rapid_reads_url_string() {
    let body = rapid_answer(obj(vec![("url", JsonValue::Str(s("http://x/cat.png")))]));
    assert_eq!(rapid().read_response(&body).ok(), Some(s("http://x/cat.png")));
}

#[test]
fn google_reads_thumbnail_src() {
    let thumb = obj(vec![("src", JsonValue::Str(s("http://g/t.jpg")))]);
    let pagemap = obj(vec![("cse_thumbnail", JsonValue::Array(vec![thumb]))]);
    let item = obj(vec![("title", JsonValue::Str(s("t"))), ("pagemap", pagemap)]);
    let body = obj(vec![("kind", JsonValue::Null), ("items", JsonValue::Array(vec![item]))]);
    assert_eq!(google().read_response(&body).ok(), Some(s("http://g/t.jpg")));
    // the same answer holds no aggregator path
    assert_eq!(
        api_message(rapid().read_response(&body)),
        "Expected a string, got a 'null'"
    );
}

#[test]
fn missing_field_is_api_error() {
    let body = rapid_answer(obj(vec![("name", JsonValue::Str(s("x")))]));
    assert_eq!(
        api_message(rapid().read_response(&body)),
        "Expected a string, got a 'null'"
    );
}

#[test]
fn null_field_is_api_error() {
    let body = rapid_answer(obj(vec![("url", JsonValue::Null)]));
    assert_eq!(
        api_message(rapid().read_response(&body)),
        "Expected a string, got a 'null'"
    );
}

#[test]
fn number_field_is_api_error() {
    let body = rapid_answer(obj(vec![("url", JsonValue::Number(s("42")))]));
    assert_eq!(
        api_message(rapid().read_response(&body)),
        "Expected a string, got a 'number'"
    );
}

#[test]
fn empty_results_is_api_error() {
    let body = obj(vec![("value", JsonValue::Array(vec![]))]);
    assert_eq!(
        api_message(rapid().read_response(&body)),
        "Expected a string, got a 'null'"
    );
    let body = obj(vec![("items", JsonValue::Array(vec![]))]);
    assert_eq!(
        api_message(google().read_response(&body)),
        "Expected a string, got a 'null'"
    );
}

#[test]
fn other_kinds_are_named() {
    assert_eq!(
        api_message(expect_string(Some(&JsonValue::Bool(true)))),
        "Expected a string, got a 'boolean'"
    );
    assert_eq!(
        api_message(expect_string(Some(&JsonValue::Array(vec![])))),
        "Expected a string, got a 'array'"
    );
    assert_eq!(
        api_message(expect_string(Some(&obj(vec![])))),
        "Expected a string, got a 'object'"
    );
    assert_eq!(api_message(expect_string(None)), "Expected a string, got a 'null'");
}

#[test]
fn first_member_of_a_name_is_read() {
    let v = obj(vec![("a", JsonValue::Number(s("1"))), ("b", JsonValue::Str(s("x")))]);
    assert!(matches!(member(Some(&v), "b"), Some(JsonValue::Str(x)) if x == "x"));
    assert!(member(Some(&v), "c").is_none());
    assert!(member(Some(&JsonValue::Null), "a").is_none());
    let a = JsonValue::Array(vec![JsonValue::Null, JsonValue::Bool(false)]);
    assert!(matches!(element(Some(&a), 1), Some(JsonValue::Bool(false))));
    assert!(element(Some(&a), 2).is_none());
    assert!(element(Some(&v), 0).is_none());
}

#[test]
fn transport_error_is_passed_on() {
    let err = reqwest::Client::new().get("not a url").build().unwrap_err();
    match rapid().search_result(Err(err)) {
        Err(ImageBotError::NetworkIo(_)) => {}
        _ => panic!("expected a transport error"),
    }
    let body = rapid_answer(obj(vec![("url", JsonValue::Str(s("u")))]));
    assert_eq!(rapid().search_result(Ok(body)).ok(), Some(s("u")));
}

#[test]
fn google_request_parameters() {
    let r = google().request("cats");
    assert_eq!(r.query, "cats");
    assert_eq!(r.url, "https://www.googleapis.com/customsearch/v1");
    let expected: Vec<(String, String)> = vec![
        (s("start"), s("1")),
        (s("num"), s("1")),
        (s("q"), s("cats")),
        (s("imgSize"), s("medium")),
        (s("key"), s("gk")),
        (s("cx"), s("cx1")),
    ];
    assert_eq!(r.params, expected);
    assert!(r.headers.is_empty());
}

#[test]
fn rapid_request_parameters() {
    let r = rapid().request("two words");
    assert_eq!(r.url, "https://rapidapi.p.rapidapi.com/api/Search/ImageSearchAPI");
    let expected: Vec<(String, String)> = vec![
        (s("pageNumber"), s("1")),
        (s("pageSize"), s("1")),
        (s("q"), s("two words")),
        (s("autoCorrect"), s("true")),
        (s("safeSearch"), s("false")),
    ];
    assert_eq!(r.params, expected);
    let headers: Vec<(String, String)> = vec![
        (s("x-rapidapi-host"), s("contextualwebsearch-websearch-v1.p.rapidapi.com")),
        (s("x-rapidapi-key"), s("rk")),
    ];
    assert_eq!(r.headers, headers);
}
