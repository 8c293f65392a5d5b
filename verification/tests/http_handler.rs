use tunnelize::http::client_resolver::{
    is_authorized as client_is_authorized, read_filled_buffer, request_text, resolve_http_hostname,
};
use tunnelize::http::http_handler::{
    find_request_host, get_error_response, get_http_version, get_unauthorized_response,
    is_authorized,
};

fn request(lines: &[&str]) -> String {
    let mut text = lines.join("\r\n");
    text.push_str("\r\n\r\n");
    text
}

#[test]
fn host_header_gives_the_host_without_port() {
    let r = request(&["GET / HTTP/1.1", "Host: example.com:8080", "Accept: */*"]);
    assert_eq!(find_request_host(&r), Some("example.com".to_string()));
}

#[test]
fn host_header_name_is_matched_in_any_case() {
    let r = request(&["GET / HTTP/1.1", "hOsT:   Tunnel-A.localhost  "]);
    assert_eq!(find_request_host(&r), Some("Tunnel-A.localhost".to_string()));
}

#[test]
fn request_without_host_has_none() {
    let r = request(&["GET / HTTP/1.1", "Accept: */*"]);
    assert_eq!(find_request_host(&r), None);
}

#[test]
fn first_host_line_wins() {
    let r = request(&["GET / HTTP/1.1", "Host: first", "Host: second"]);
    assert_eq!(find_request_host(&r), Some("first".to_string()));
}

#[test]
fn resolver_lowercases_the_host() {
    let r = request(&["GET / HTTP/1.1", "Host: Tunnel-A.LocalHost:3457"]);
    assert_eq!(resolve_http_hostname(&r), Some("tunnel-a.localhost".to_string()));
}

#[test]
fn basic_credentials_are_checked() {
    // "user:pass" in base64 is "dXNlcjpwYXNz".
    let r = request(&["GET / HTTP/1.1", "Authorization: Basic dXNlcjpwYXNz"]);
    assert!(is_authorized(&r, &"user".to_string(), &"pass".to_string()));
    assert!(!is_authorized(&r, &"user".to_string(), &"other".to_string()));
    let none = request(&["GET / HTTP/1.1"]);
    assert!(!is_authorized(&none, &"user".to_string(), &"pass".to_string()));
}

#[test]
fn resolver_compares_the_lowercased_header() {
    let r = request(&["GET / HTTP/1.1", "Authorization: Basic dXNlcjpwYXNz"]);
    assert!(!client_is_authorized(&r, "user".to_string(), "pass".to_string()));
    // "a:b" in base64 is "YTpi"; lowercased it is "ytpi", which is not it either.
    let lower = request(&["GET / HTTP/1.1", "authorization: basic ytpi"]);
    assert!(!client_is_authorized(&lower, "a".to_string(), "b".to_string()));
    // "jg:j" in base64 is "amc6ag==", which has no capitals, so it survives lowercasing.
    let matching = request(&["GET / HTTP/1.1", "Authorization: Basic AMC6AG=="]);
    assert!(client_is_authorized(&matching, "jg".to_string(), "j".to_string()));
}

#[test]
fn version_comes_from_a_line_that_starts_with_http() {
    let plain = request(&["GET / HTTP/1.0", "Host: a"]);
    assert_eq!(get_http_version(&plain), "HTTP/1.1");
    let response = request(&["HTTP/2 200 OK", "Server: x"]);
    assert_eq!(get_http_version(&response), "HTTP/2");
}

#[test]
fn unauthorized_response_names_the_realm() {
    let r = request(&["GET / HTTP/1.1"]);
    let message =
        "Access to the requested resource is not authorized. Please provide valid credentials.";
    let expected = format!(
        "HTTP/1.1 401 Unauthorized\r\nWWW-Authenticate: Basic realm=\"Staging\"\r\nContent-Length: {}\r\n\r\n{}",
        message.len(),
        message
    );
    assert_eq!(get_unauthorized_response(&r, &Some("Staging".to_string())), expected);
    let default_realm = get_unauthorized_response(&r, &None);
    assert!(default_realm.contains("realm=\"Production\""));
    assert!(default_realm.contains("Content-Length: 85\r\n"));
}

#[test]
fn error_response_carries_the_message() {
    let r = request(&["GET / HTTP/1.1"]);
    assert_eq!(
        get_error_response(&r, "Tunnel gone".to_string()),
        "HTTP/1.1 502 OK\r\nContent-Length: 11\r\nContent-Type: text/plain\r\nConnection: close\r\n\r\nTunnel gone"
    );
}

#[test]
fn content_length_counts_bytes() {
    let r = request(&["GET / HTTP/1.1"]);
    let response = get_error_response(&r, "é".to_string());
    assert!(response.contains("Content-Length: 2\r\n"));
}

#[test]
fn request_bytes_become_text_only_when_valid_utf8() {
    assert_eq!(request_text(b"GET / HTTP/1.1\r\n".to_vec()), "GET / HTTP/1.1\r\n");
    assert_eq!(request_text("Host: é".as_bytes().to_vec()), "Host: é");
    assert_eq!(request_text(vec![0x47, 0xff, 0x45]), "");
    assert_eq!(request_text(Vec::new()), "");
    assert!(read_filled_buffer(1024, 1024));
    assert!(!read_filled_buffer(10, 1024));
    assert!(!read_filled_buffer(0, 0));
}
