use moe::client::{me_outcome, search_outcome};
use moe::{Client, Error, Method, Request, Response};

const ANSWER: &str = r#"{"RawDocsCount":1,"RawDocsSearchTime":2,"ReRankSearchTime":3,"CacheHit":true,"trial":4,"limit":5,"limit_ttl":6,"quota":7,"quota_ttl":8,"docs":[]}"#;

const ACCOUNT: &str = r#"{"user_id":1001,"email":"soruly@example.com","limit":5,"limit_ttl":6,"quota":7,"quota_ttl":8,"user_limit":9,"user_limit_ttl":10,"user_quota":11,"user_quota_ttl":12}"#;

fn response(status: u16, body: &str) -> Option<Response> {
    Some(Response { status, body: Some(body.to_string()) })
}

fn token_pair(token: &str) -> Vec<(String, String)> {
    vec![("token".to_string(), token.to_string())]
}

#[test]
fn new_client_points_at_the_service() {
    let client = Client::new();
    assert_eq!("https://trace.moe/api", client.base_uri);
    assert_eq!(None, client.token);
}

#[test]
fn client_with_token_keeps_it() {
    let client = Client::with_token("secret".to_string());
    assert_eq!("https://trace.moe/api", client.base_uri);
    assert_eq!(Some("secret".to_string()), client.token);
}

#[test]
fn search_request_posts_the_image() {
    let request = Client::new().search_request(b"foobar".to_vec());
    assert_eq!(Method::Post, request.method);
    assert_eq!("https://trace.moe/api/search", request.url);
    assert!(request.query.is_empty());
    assert_eq!(Some(r#"{"image":"Zm9vYmFy"}"#.to_string()), request.body);
}

#[test]
fn me_request_gets_without_body() {
    let request = Client::new().me_request();
    assert_eq!(Method::Get, request.method);
    assert_eq!("https://trace.moe/api/me", request.url);
    assert!(request.query.is_empty());
    assert_eq!(None, request.body);
}

#[test]
fn token_goes_into_the_query_of_every_request() {
    let client = Client::with_token("a b&c".to_string());
    assert_eq!(token_pair("a b&c"), client.search_request(vec![1]).query);
    assert_eq!(token_pair("a b&c"), client.me_request().query);
}

#[test]
fn token_set_later_goes_into_the_query() {
    let mut client = Client::new();
    client.token = Some("late".to_string());
    assert_eq!(token_pair("late"), client.me_request().query);
    client.token = None;
    assert!(client.me_request().query.is_empty());
    assert!(client.search_request(Vec::new()).query.is_empty());
}

#[test]
fn base_uri_can_be_changed() {
    let mut client = Client::new();
    client.base_uri = "http://localhost:8080".to_string();
    assert_eq!("http://localhost:8080/search", client.search_request(Vec::new()).url);
    assert_eq!("http://localhost:8080/me", client.me_request().url);
}

#[test]
fn status_400_is_an_empty_image() {
    assert_eq!(Err(Error::ImageEmpty), search_outcome(response(400, ANSWER)));
}

#[test]
fn status_403_is_an_invalid_token() {
    assert_eq!(Err(Error::InvalidToken), search_outcome(response(403, ANSWER)));
}

#[test]
fn status_413_is_too_large_an_image() {
    assert_eq!(Err(Error::ImageTooLarge), search_outcome(response(413, ANSWER)));
}

#[test]
fn status_429_carries_the_body_as_message() {
    let message = "Search limit exceeded. Please wait 39 seconds.";
    assert_eq!(
        Err(Error::RateLimit { message: message.to_string() }),
        search_outcome(response(429, message))
    );
    assert_eq!(Err(Error::RateLimit { message: String::new() }), search_outcome(response(429, "")));
}

#[test]
fn status_429_without_body_is_an_empty_response() {
    assert_eq!(Err(Error::ResponseEmpty), search_outcome(Some(Response { status: 429, body: None })));
}

#[test]
fn status_500_and_503_are_server_errors() {
    assert_eq!(Err(Error::InternalServerError), search_outcome(response(500, ANSWER)));
    assert_eq!(Err(Error::InternalServerError), search_outcome(response(503, ANSWER)));
    assert_eq!(
        Err(Error::InternalServerError),
        search_outcome(Some(Response { status: 500, body: None }))
    );
}

#[test]
fn other_statuses_decode_the_body() {
    for status in [200u16, 201, 204, 302, 401, 404, 428, 430, 501, 502, 504, 0, 65535] {
        let answer = search_outcome(response(status, ANSWER)).unwrap();
        assert_eq!(1, answer.raw_docs_count);
        assert_eq!(2, answer.raw_docs_search_time);
        assert_eq!(3, answer.re_rank_search_time);
        assert!(answer.cache_hit);
        assert_eq!(4, answer.trial);
        assert!(answer.docs.is_empty());
    }
}

#[test]
fn no_reply_is_a_failed_request() {
    assert_eq!(Err(Error::RequestFailed), search_outcome(None));
    assert_eq!(Err(Error::RequestFailed), me_outcome(None));
}

#[test]
fn missing_body_does_not_decode() {
    assert_eq!(Err(Error::JsonFailed), search_outcome(Some(Response { status: 200, body: None })));
    assert_eq!(Err(Error::JsonFailed), me_outcome(Some(Response { status: 200, body: None })));
}

#[test]
fn malformed_json_does_not_decode() {
    for body in ["", "{", "not json", r#"{"user_id": null,"#, "[1, 2", r#"{"docs": []} trailing"#] {
        assert_eq!(Err(Error::JsonFailed), search_outcome(response(200, body)));
        assert_eq!(Err(Error::JsonFailed), me_outcome(response(200, body)));
    }
}

#[test]
fn json_of_another_shape_does_not_decode() {
    for body in ["null", "[]", "{}", "12", r#""text""#] {
        assert_eq!(Err(Error::JsonFailed), search_outcome(response(200, body)));
        assert_eq!(Err(Error::JsonFailed), me_outcome(response(200, body)));
    }
    assert_eq!(Err(Error::JsonFailed), search_outcome(response(200, ACCOUNT)));
    assert_eq!(Err(Error::JsonFailed), me_outcome(response(200, ANSWER)));
}

#[test]
fn me_does_not_look_at_the_status() {
    for status in [200u16, 400, 403, 413, 429, 500, 503] {
        let me = me_outcome(response(status, ACCOUNT)).unwrap();
        assert_eq!(Some(1001), me.user_id);
        assert_eq!("soruly@example.com", me.email);
        assert_eq!((9, 10), (me.user_limit.user_limit, me.user_limit.user_limit_ttl));
        assert_eq!((11, 12), (me.user_quota.user_quota, me.user_quota.user_quota_ttl));
    }
}

#[test]
fn search_hands_its_request_to_the_exchange() {
    let client = Client::with_token("secret".to_string());
    let expected = client.search_request(b"image".to_vec());
    let result = client.search(b"image".to_vec(), |request: Request| {
        assert_eq!(expected, request);
        response(403, "")
    });
    assert_eq!(Err(Error::InvalidToken), result);
}

#[test]
fn me_hands_its_request_to_the_exchange() {
    let client = Client::with_token("secret".to_string());
    let expected = client.me_request();
    let result = client.me(|request: Request| {
        assert_eq!(expected, request);
        response(200, ACCOUNT)
    });
    assert_eq!(Some(1001), result.unwrap().user_id);
}

#[test]
fn failed_exchange_fails_the_operation() {
    let client = Client::new();
    assert_eq!(Err(Error::RequestFailed), client.search(vec![1, 2, 3], |_request: Request| None));
    assert_eq!(Err(Error::RequestFailed), client.me(|_request: Request| None));
}
