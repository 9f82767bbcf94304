use tasks_mine::http::{network_error_of, HttpResponse, Method, NetworkError, SetCookie};
use tasks_mine::session::{RequestClient, SessionState};

fn set_cookie(name: &str, value: &str) -> SetCookie {
    SetCookie { name: name.to_string(), value: value.to_string(), domain: None, path: None }
}

fn response(status: u16, cookies: Vec<SetCookie>) -> Result<HttpResponse, NetworkError> {
    Ok(HttpResponse { status, cookies, body: String::new() })
}

#[test]
fn the_login_request_posts_the_credentials_as_json() {
    let request = RequestClient::login_request("https://x/login", "a", "b");
    assert_eq!(request.method, Method::Post);
    assert_eq!(request.url, "https://x/login");
    assert_eq!(request.headers.len(), 1);
    assert_eq!(request.headers[0].name, "Content-Type");
    assert_eq!(request.headers[0].value, "application/json");
    assert_eq!(request.body.as_deref(), Some("{\"password\":\"b\",\"username\":\"a\"}"));
}

#[test]
fn the_login_body_escapes_what_json_escapes() {
    let request = RequestClient::login_request("https://x/login", "a\"b", "p\\w\n");
    assert_eq!(
        request.body.as_deref(),
        Some("{\"password\":\"p\\\\w\\n\",\"username\":\"a\\\"b\"}")
    );
}

#[test]
fn a_post_request_carries_its_body_and_the_json_content_type() {
    let request = RequestClient::post_request("https://x/items", "[1]".to_string());
    assert_eq!(request.method, Method::Post);
    assert_eq!(request.url, "https://x/items");
    assert_eq!(request.headers.len(), 1);
    assert_eq!(request.headers[0].name, "Content-Type");
    assert_eq!(request.headers[0].value, "application/json");
    assert_eq!(request.body.as_deref(), Some("[1]"));
}

#[test]
fn login_with_200_and_a_cookie_stores_it_and_the_next_fetch_replays_it() {
    let mut client = RequestClient::new();
    let outcome = client.complete_login(&response(200, vec![set_cookie("session", "abc123")]));
    assert_eq!(outcome, Ok(true));
    assert_eq!(client.state(), SessionState::Authenticated);
    let stored = client.get_cookie("session").expect("the response set it");
    assert_eq!(stored.name, "session");
    assert_eq!(stored.value, "abc123");
    assert_eq!(stored.domain, "");
    assert_eq!(stored.path, "/");

    let request = client.get_request("https://x/items");
    assert_eq!(request.method, Method::Get);
    assert_eq!(request.url, "https://x/items");
    assert_eq!(request.headers.len(), 1);
    assert_eq!(request.headers[0].name, "Cookie");
    assert_eq!(request.headers[0].value, "session=abc123");
    assert!(request.body.is_none());
}

#[test]
fn login_keeps_the_domain_and_path_that_a_cookie_names() {
    let mut client = RequestClient::new();
    let cookie = SetCookie {
        name: "session".to_string(),
        value: "v".to_string(),
        domain: Some("x.example".to_string()),
        path: Some("/api".to_string()),
    };
    assert_eq!(client.complete_login(&response(204, vec![cookie])), Ok(true));
    let stored = client.get_cookie("session").unwrap();
    assert_eq!(stored.domain, "x.example");
    assert_eq!(stored.path, "/api");
}

#[test]
fn login_stores_every_cookie_of_the_response() {
    let mut client = RequestClient::new();
    let cookies = vec![set_cookie("a", "1"), set_cookie("b", "2"), set_cookie("a", "3")];
    assert_eq!(client.complete_login(&response(200, cookies)), Ok(true));
    assert_eq!(client.get_cookie("a").unwrap().value, "3");
    assert_eq!(client.get_cookie("b").unwrap().value, "2");
    assert_eq!(client.get_request("u").headers[0].value, "a=3; b=2");
}

#[test]
fn login_with_a_non_2xx_response_yields_false_and_leaves_the_store_unchanged() {
    let mut client = RequestClient::new();
    assert_eq!(client.complete_login(&response(200, vec![set_cookie("session", "abc123")])), Ok(true));
    for status in [100, 199, 300, 302, 401, 403, 500] {
        for cookies in [
            vec![],
            vec![set_cookie("csrf", "t")],
            vec![set_cookie("session", "other")],
            vec![set_cookie("a", "1"), set_cookie("session", "other"), set_cookie("b", "2")],
        ] {
            assert_eq!(client.complete_login(&response(status, cookies)), Ok(false));
            assert_eq!(client.get_cookie("session").unwrap().value, "abc123");
            assert!(client.get_cookie("csrf").is_none());
            assert!(client.get_cookie("a").is_none());
            assert!(client.get_cookie("b").is_none());
            let request = client.get_request("u");
            assert_eq!(request.headers.len(), 1);
            assert_eq!(request.headers[0].value, "session=abc123");
            assert_eq!(client.state(), SessionState::Authenticated);
        }
    }
}

#[test]
fn a_rejected_login_on_a_new_client_stays_anonymous() {
    let mut client = RequestClient::new();
    assert_eq!(client.complete_login(&response(401, vec![])), Ok(false));
    assert_eq!(client.state(), SessionState::Anonymous);
    assert!(client.get_request("u").headers.is_empty());
}

#[test]
fn a_rejection_that_sets_a_cookie_stores_nothing() {
    let mut client = RequestClient::new();
    assert_eq!(client.complete_login(&response(401, vec![set_cookie("csrf", "t")])), Ok(false));
    assert!(client.get_cookie("csrf").is_none());
    assert!(client.get_request("u").headers.is_empty());
    assert_eq!(client.state(), SessionState::Anonymous);
    assert_eq!(client.complete_login(&response(299, vec![set_cookie("csrf", "t")])), Ok(true));
    assert_eq!(client.get_cookie("csrf").unwrap().value, "t");
    assert_eq!(client.state(), SessionState::Authenticated);
    assert_eq!(client.complete_login(&response(300, vec![set_cookie("csrf", "u")])), Ok(false));
    assert_eq!(client.get_cookie("csrf").unwrap().value, "t");
}

#[test]
fn the_bounds_of_the_2xx_range_count_as_success() {
    let mut client = RequestClient::new();
    assert_eq!(client.complete_login(&response(200, vec![])), Ok(true));
    assert_eq!(client.complete_login(&response(299, vec![])), Ok(true));
    assert_eq!(client.complete_login(&response(199, vec![])), Ok(false));
    assert_eq!(client.complete_login(&response(300, vec![])), Ok(false));
}

#[test]
fn a_2xx_login_without_a_cookie_returns_true_and_does_not_authenticate() {
    let mut client = RequestClient::new();
    assert_eq!(client.complete_login(&response(200, vec![])), Ok(true));
    assert_eq!(client.state(), SessionState::Anonymous);
}

#[test]
fn a_transport_failure_is_handed_on_and_changes_nothing() {
    let mut client = RequestClient::new();
    assert_eq!(client.complete_login(&response(200, vec![set_cookie("session", "s")])), Ok(true));
    for failure in
        [NetworkError::ConnectionFailed, NetworkError::Timeout, NetworkError::InvalidResponse]
    {
        assert_eq!(client.complete_login(&Err(failure)), Err(failure));
        assert_eq!(client.get_cookie("session").unwrap().value, "s");
        assert_eq!(client.state(), SessionState::Authenticated);
    }
}

#[test]
fn clearing_the_cookies_ends_the_login() {
    let mut client = RequestClient::new();
    assert_eq!(client.complete_login(&response(200, vec![set_cookie("session", "s")])), Ok(true));
    client.clear_cookies();
    assert_eq!(client.state(), SessionState::Anonymous);
    assert!(client.get_request("https://x/items").headers.is_empty());
}

#[test]
fn a_fetch_without_cookies_carries_no_cookie_header() {
    let client = RequestClient::new();
    let request = client.get_request("https://x/items");
    assert_eq!(request.method, Method::Get);
    assert_eq!(request.url, "https://x/items");
    assert!(request.headers.is_empty());
    assert!(request.body.is_none());
}

#[test]
fn succeeded_is_true_from_200_to_299() {
    let at = |status: u16| HttpResponse { status, cookies: vec![], body: String::new() };
    assert!(at(200).succeeded());
    assert!(at(250).succeeded());
    assert!(at(299).succeeded());
    assert!(!at(0).succeeded());
    assert!(!at(199).succeeded());
    assert!(!at(300).succeeded());
    assert!(!at(404).succeeded());
}

#[test]
fn a_transport_error_is_named_by_what_went_wrong() {
    assert_eq!(network_error_of(true, false), NetworkError::Timeout);
    assert_eq!(network_error_of(true, true), NetworkError::Timeout);
    assert_eq!(network_error_of(false, true), NetworkError::ConnectionFailed);
    assert_eq!(network_error_of(false, false), NetworkError::InvalidResponse);
}
