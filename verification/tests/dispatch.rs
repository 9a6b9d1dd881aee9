use spotify_api::query::Query;
use spotify_api::request::{is_success, outcome, Request};
use spotify_api::{Method, RequestError, Spotify};

fn json_headers() -> Vec<(String, String)> {
    vec![
        ("Accept".to_string(), "application/json".to_string()),
        ("Content-Type".to_string(), "application/json".to_string()),
    ]
}

fn expect_request(request: &Request, method: Method, url: &str, sends_body: bool) {
    assert_eq!(request.method, method);
    assert_eq!(request.url, url);
    assert_eq!(request.headers, json_headers());
    assert_eq!(request.bearer, "token-1");
    assert_eq!(request.sends_body, sends_body);
    assert_eq!(request.reads_response, method == Method::GET);
}

#[test]
fn new_keeps_the_token() {
    assert_eq!(Spotify::new("BQDe.x-y_z").authorization, "BQDe.x-y_z");
    assert_eq!(Spotify::new("").authorization, "");
}

#[test]
fn get_is_prepared_without_body() {
    let client = Spotify::new("token-1");
    let request = client.prepare(Method::GET, "me/player", None, false).unwrap();
    expect_request(&request, Method::GET, "https://api.spotify.com/v1/me/player", false);
    let request = client.prepare(Method::GET, "me/player", None, true).unwrap();
    expect_request(&request, Method::GET, "https://api.spotify.com/v1/me/player", false);
}

#[test]
fn get_with_query_is_prepared() {
    let client = Spotify::new("token-1");
    let mut query = Query::new();
    query.insert("q", "daft punk".to_string());
    query.insert("type", "artist".to_string());
    let request = client.prepare(Method::GET, "search", Some(&query), false).unwrap();
    expect_request(&request, Method::GET, "https://api.spotify.com/v1/search?q=daft+punk&type=artist", false);
}

#[test]
fn post_and_put_send_the_body() {
    let client = Spotify::new("token-1");
    let request = client.prepare(Method::POST, "me/player/queue", None, true).unwrap();
    expect_request(&request, Method::POST, "https://api.spotify.com/v1/me/player/queue", true);
    let request = client.prepare(Method::PUT, "me/player/play", None, true).unwrap();
    expect_request(&request, Method::PUT, "https://api.spotify.com/v1/me/player/play", true);
}

#[test]
fn post_and_put_need_a_body() {
    let client = Spotify::new("token-1");
    assert_eq!(
        client.prepare(Method::POST, "me/player/queue", None, false).err(),
        Some(RequestError::MissingBody)
    );
    assert_eq!(
        client.prepare(Method::PUT, "me/player/play", None, false).err(),
        Some(RequestError::MissingBody)
    );
}

#[test]
fn delete_is_sent_as_delete_without_body() {
    let client = Spotify::new("token-1");
    let request = client.prepare(Method::DELETE, "me/tracks", None, false).unwrap();
    expect_request(&request, Method::DELETE, "https://api.spotify.com/v1/me/tracks", false);
    let request = client.prepare(Method::DELETE, "me/tracks", None, true).unwrap();
    expect_request(&request, Method::DELETE, "https://api.spotify.com/v1/me/tracks", false);
}

#[test]
fn url_is_the_same_for_every_method() {
    let client = Spotify::new("token-1");
    let mut query = Query::new();
    query.insert("ids", "1,2".to_string());
    for method in [Method::GET, Method::POST, Method::PUT, Method::DELETE] {
        let request = client.prepare(method, "me/albums", Some(&query), true).unwrap();
        assert_eq!(request.url, "https://api.spotify.com/v1/me/albums?ids=1%2C2");
        assert_eq!(request.method, method);
    }
}

#[test]
fn get_success_flag_follows_the_status() {
    let payload = "{\"id\":\"4aawyAB9vmqN3uQ7FjRGTy\"}".to_string();
    assert_eq!(outcome(Method::GET, 200, payload.clone()), Some((payload.clone(), true)));
    let error = "{\"error\":{\"status\":404,\"message\":\"non existing id\"}}".to_string();
    assert_eq!(outcome(Method::GET, 404, error.clone()), Some((error, false)));
    assert_eq!(outcome(Method::GET, 204, String::new()), Some((String::new(), true)));
    assert_eq!(outcome(Method::GET, 500, payload.clone()), Some((payload, false)));
}

#[test]
fn other_methods_return_nothing() {
    for method in [Method::POST, Method::PUT, Method::DELETE] {
        assert_eq!(outcome(method, 200, "{}".to_string()), None);
        assert_eq!(outcome(method, 404, "{}".to_string()), None);
    }
}

#[test]
fn success_is_the_class_of_two_hundred() {
    assert!(!is_success(0));
    assert!(!is_success(100));
    assert!(!is_success(199));
    assert!(is_success(200));
    assert!(is_success(201));
    assert!(is_success(299));
    assert!(!is_success(300));
    assert!(!is_success(404));
    assert!(!is_success(u16::MAX));
}

#[test]
fn methods_are_equal_to_themselves_only() {
    let all = [Method::GET, Method::POST, Method::PUT, Method::DELETE];
    for (i, a) in all.iter().enumerate() {
        for (j, b) in all.iter().enumerate() {
            assert_eq!(a == b, i == j);
        }
    }
}
