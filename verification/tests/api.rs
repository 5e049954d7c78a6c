use ququer_client::api::{bearer, http_error_message, is_success, ApiClient};

#[test]
fn url_construction_strips_trailing_slash() {
    let client = ApiClient::new("http://example.com/");
    assert_eq!(client.url("/api/test"), "http://example.com/api/test");
}

#[test]
fn every_trailing_slash_is_stripped() {
    let client = ApiClient::new("http://example.com///");
    assert_eq!(client.base_url(), "http://example.com");
    assert_eq!(ApiClient::new("").url("/x"), "/x");
    assert_eq!(ApiClient::new("https://ququer.ai").url("/api/wallet"), "https://ququer.ai/api/wallet");
}

#[test]
fn bearer_header_value() {
    assert_eq!(bearer("test-token"), "Bearer test-token");
}

#[test]
fn only_2xx_is_success() {
    assert!(is_success(200));
    assert!(is_success(201));
    assert!(is_success(299));
    assert!(!is_success(199));
    assert!(!is_success(300));
    assert!(!is_success(404));
    assert!(!is_success(500));
}

#[test]
fn http_error_names_status_and_body() {
    let err = http_error_message(404, "Not Found", "not found");
    assert_eq!(err, "HTTP 404 Not Found: not found");
    let err = http_error_message(500, "Internal Server Error", "internal error");
    assert!(err.contains("500"));
    assert!(err.contains("internal error"));
    assert_eq!(http_error_message(0, "", ""), "HTTP 0 : ");
}
