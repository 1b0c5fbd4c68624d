use play_rs::event::{HandlerError, ProxyRequest, ProxyResponse};
use play_rs::handler::{greeting, handle, my_handler};

fn request(path: &str) -> ProxyRequest {
    ProxyRequest { path: Some(String::from(path)) }
}

fn assert_success_shape(resp: &ProxyResponse) {
    assert_eq!(resp.status_code, 200);
    assert!(resp.headers.is_empty());
    assert!(resp.multi_value_headers.is_empty());
    assert!(!resp.is_base64_encoded);
}

#[test]
fn greeting_embeds_the_path() {
    assert_eq!(greeting("/test"), "Hello World! From Rust: '/test'");
    assert_eq!(greeting(""), "Hello World! From Rust: ''");
    assert_eq!(greeting("a b/c"), "Hello World! From Rust: 'a b/c'");
}

#[test]
fn handler_answers_test_path() {
    let resp = my_handler(&request("/test"));
    assert_success_shape(&resp);
    assert_eq!(resp.body, Some(String::from("Hello World! From Rust: '/test'")));
}

#[test]
fn handler_answers_empty_path() {
    let resp = my_handler(&request(""));
    assert_success_shape(&resp);
    assert_eq!(resp.body, Some(String::from("Hello World! From Rust: ''")));
}

#[test]
fn handler_embeds_any_path_verbatim() {
    for path in ["/", "/a/b/c", "no leading slash", "'quoted'"] {
        let resp = my_handler(&request(path));
        assert_success_shape(&resp);
        assert_eq!(
            resp.body,
            Some(format!("Hello World! From Rust: '{}'", path))
        );
    }
}

#[test]
fn handle_fails_without_a_path() {
    let r = handle(&ProxyRequest { path: None });
    assert!(matches!(r, Err(HandlerError::MissingPath)));
}

#[test]
fn handle_succeeds_with_a_path() {
    let r = handle(&request("/test")).unwrap();
    assert_success_shape(&r);
    assert_eq!(r.body, Some(String::from("Hello World! From Rust: '/test'")));
}

#[test]
fn handler_is_idempotent() {
    let first = my_handler(&request("/twice"));
    let second = my_handler(&request("/twice"));
    assert_eq!(first.status_code, second.status_code);
    assert_eq!(first.headers, second.headers);
    assert_eq!(first.multi_value_headers, second.multi_value_headers);
    assert_eq!(first.body, second.body);
    assert_eq!(first.is_base64_encoded, second.is_base64_encoded);
}
