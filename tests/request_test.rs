use webserver::exception::Exception;
use webserver::param::{HttpEncoding, HttpRequestMethod, HttpVersion};
use webserver::request::Request;

fn decode(text: &str) -> Result<Request, Exception> {
    Request::try_from(&text.as_bytes().to_vec(), 0)
}

#[test]
fn test_parse_get_request() {
    let request_str = "GET / HTTP/1.1\r\nHost: localhost:7878\r\nUser-Agent: Test-Browser\r\nAccept-Encoding: gzip, deflate, br\r\n\r\n";
    let buffer = request_str.as_bytes().to_vec();

    let request = Request::try_from(&buffer, 0).unwrap();

    assert_eq!(request.method(), HttpRequestMethod::Get);
    assert_eq!(request.path(), "/");
    assert_eq!(request.user_agent(), "Test-Browser");
    assert!(request.accept_encoding().contains(&HttpEncoding::Gzip));
    assert!(request.accept_encoding().contains(&HttpEncoding::Deflate));
    assert!(request.accept_encoding().contains(&HttpEncoding::Br));
}

#[test]
fn test_parse_head_request() {
    let request_str =
        "HEAD /index.html HTTP/1.1\r\nHost: localhost:7878\r\nUser-Agent: Test-Agent\r\n\r\n";
    let buffer = request_str.as_bytes().to_vec();

    let request = Request::try_from(&buffer, 0).unwrap();

    assert_eq!(request.method(), HttpRequestMethod::Head);
    assert_eq!(request.path(), "/index.html");
}

#[test]
fn test_parse_options_request() {
    let request_str = "OPTIONS * HTTP/1.1\r\nHost: localhost:7878\r\n\r\n";
    let buffer = request_str.as_bytes().to_vec();

    let request = Request::try_from(&buffer, 0).unwrap();

    assert_eq!(request.method(), HttpRequestMethod::Options);
    assert_eq!(request.path(), "*");
}

#[test]
fn test_parse_post_request() {
    let request_str =
        "POST /submit HTTP/1.1\r\nHost: localhost:7878\r\nContent-Length: 10\r\n\r\ntest=value";
    let buffer = request_str.as_bytes().to_vec();

    let request = Request::try_from(&buffer, 0).unwrap();

    assert_eq!(request.method(), HttpRequestMethod::Post);
    assert_eq!(request.path(), "/submit");
}

#[test]
fn test_unsupported_method() {
    let request_str = "DELETE /resource HTTP/1.1\r\nHost: localhost:7878\r\n\r\n";
    let buffer = request_str.as_bytes().to_vec();

    let result = Request::try_from(&buffer, 0);

    assert!(result.is_err());
    match result.unwrap_err() {
        Exception::UnSupportedRequestMethod => {}
        _ => panic!("Expected UnSupportedRequestMethod error"),
    }
}

#[test]
fn test_unsupported_http_version() {
    let request_str = "GET / HTTP/2.0\r\nHost: localhost:7878\r\n\r\n";
    let buffer = request_str.as_bytes().to_vec();

    let result = Request::try_from(&buffer, 0);

    assert!(result.is_err());
    match result.unwrap_err() {
        Exception::UnsupportedHttpVersion => {}
        _ => panic!("Expected UnsupportedHttpVersion error"),
    }
}

#[test]
fn test_invalid_utf8() {
    let buffer = vec![0xFF, 0xFE, 0xFD];

    let result = Request::try_from(&buffer, 0);

    assert!(result.is_err());
    match result.unwrap_err() {
        Exception::RequestIsNotUtf8 => {}
        _ => panic!("Expected RequestIsNotUtf8 error"),
    }
}

#[test]
fn test_case_insensitive_headers() {
    let request_str = "GET / HTTP/1.1\r\nhost: localhost:7878\r\nuser-agent: Test\r\naccept-encoding: gzip\r\n\r\n";
    let buffer = request_str.as_bytes().to_vec();

    let request = Request::try_from(&buffer, 0).unwrap();

    assert_eq!(request.user_agent(), "Test");
    assert!(request.accept_encoding().contains(&HttpEncoding::Gzip));
}

#[test]
fn test_no_encoding_header() {
    let request_str = "GET / HTTP/1.1\r\nHost: localhost:7878\r\n\r\n";
    let buffer = request_str.as_bytes().to_vec();

    let request = Request::try_from(&buffer, 0).unwrap();

    assert!(request.accept_encoding().is_empty());
}

#[test]
fn test_partial_encoding() {
    let request_str = "GET / HTTP/1.1\r\nHost: localhost:7878\r\nAccept-Encoding: gzip\r\n\r\n";
    let buffer = request_str.as_bytes().to_vec();

    let request = Request::try_from(&buffer, 0).unwrap();

    assert!(request.accept_encoding().contains(&HttpEncoding::Gzip));
    assert!(!request.accept_encoding().contains(&HttpEncoding::Br));
    assert!(!request.accept_encoding().contains(&HttpEncoding::Deflate));
}

#[test]
fn test_path_with_query_string() {
    let request_str = "GET /page?id=123&name=test HTTP/1.1\r\nHost: localhost:7878\r\n\r\n";
    let buffer = request_str.as_bytes().to_vec();

    let request = Request::try_from(&buffer, 0).unwrap();

    assert_eq!(request.path(), "/page?id=123&name=test");
}

#[test]
fn test_lowercase_method() {
    let request_str = "get / HTTP/1.1\r\nHost: localhost:7878\r\n\r\n";
    let buffer = request_str.as_bytes().to_vec();

    let request = Request::try_from(&buffer, 0).unwrap();

    assert_eq!(request.method(), HttpRequestMethod::Get);
}

#[test]
fn simple_get_decodes_method_path_version() {
    let q = decode("GET / HTTP/1.1\r\nHost: x\r\n\r\n").unwrap();
    assert_eq!(q.method(), HttpRequestMethod::Get);
    assert_eq!(q.path(), "/");
    assert_eq!(*q.version(), HttpVersion::V1_1);
    assert_eq!(q.user_agent(), "");
    assert!(q.accept().is_none());
    assert!(q.range().is_none());
}

#[test]
fn delete_is_unsupported_method() {
    assert_eq!(decode("DELETE / HTTP/1.1\r\n\r\n").unwrap_err(), Exception::UnSupportedRequestMethod);
}

#[test]
fn short_request_line_is_unsupported_method() {
    assert_eq!(decode("GET /\r\n\r\n").unwrap_err(), Exception::UnSupportedRequestMethod);
    assert_eq!(decode("").unwrap_err(), Exception::UnSupportedRequestMethod);
}

#[test]
fn version_is_case_insensitive() {
    assert!(decode("GET / http/1.1\r\n\r\n").is_ok());
    assert_eq!(decode("GET / HTTP/1.0\r\n\r\n").unwrap_err(), Exception::UnsupportedHttpVersion);
}

#[test]
fn path_with_spaces_is_rejoined() {
    let q = decode("GET /a b  c HTTP/1.1\r\n\r\n").unwrap();
    assert_eq!(q.path(), "/a b  c");
}

#[test]
fn range_header_forms() {
    let q = decode("GET /f HTTP/1.1\r\nRange: bytes=0-3\r\n\r\n").unwrap();
    assert_eq!(q.range(), Some((0, Some(3))));
    let q = decode("GET /f HTTP/1.1\r\nrange: bytes=5-\r\n\r\n").unwrap();
    assert_eq!(q.range(), Some((5, None)));
    let q = decode("GET /f HTTP/1.1\r\nRange: bytes=x-3\r\n\r\n").unwrap();
    assert_eq!(q.range(), None);
    let q = decode("GET /f HTTP/1.1\r\nRange: bytes=2-y\r\n\r\n").unwrap();
    assert_eq!(q.range(), Some((2, None)));
    let q = decode("GET /f HTTP/1.1\r\nRange: bytes=1-2-3\r\n\r\n").unwrap();
    assert_eq!(q.range(), None);
    let q = decode("GET /f HTTP/1.1\r\nRange: bytes=+7-18446744073709551615\r\n\r\n").unwrap();
    assert_eq!(q.range(), Some((7, Some(18446744073709551615))));
    let q = decode("GET /f HTTP/1.1\r\nRange: bytes=18446744073709551616-\r\n\r\n").unwrap();
    assert_eq!(q.range(), None);
}

#[test]
fn first_matching_header_wins() {
    let q = decode("GET / HTTP/1.1\r\nUser-Agent: one\r\nUser-Agent: two\r\nAccept: text/html\r\nAccept: x\r\n\r\n").unwrap();
    assert_eq!(q.user_agent(), "one");
    assert_eq!(q.accept().map(|s| s.as_str()), Some("text/html"));
}

#[test]
fn accept_encoding_uses_fixed_order_and_substrings() {
    let q = decode("GET / HTTP/1.1\r\nACCEPT-ENCODING: br;q=1, deflate, gzip;q=0\r\n\r\n").unwrap();
    assert_eq!(q.accept_encoding(), &vec![HttpEncoding::Gzip, HttpEncoding::Deflate, HttpEncoding::Br]);
    let q = decode("GET / HTTP/1.1\r\nAccept-Encoding: br\r\n\r\n").unwrap();
    assert_eq!(q.accept_encoding(), &vec![HttpEncoding::Br]);
}

#[test]
fn exception_messages() {
    assert_eq!(Exception::RequestIsNotUtf8.message(), "Request bytes can't be parsed in UTF-8");
    assert_eq!(Exception::FileNotFound.message(), "File not found (404)");
}

#[test]
fn method_is_upper_cased_with_unicode_rules() {
    assert_eq!(decode("poſt / HTTP/1.1\r\n\r\n").unwrap().method(), HttpRequestMethod::Post);
    assert_eq!(decode("optıons * HTTP/1.1\r\n\r\n").unwrap().method(), HttpRequestMethod::Options);
    assert_eq!(decode("Head / Http/1.1\r\n\r\n").unwrap().method(), HttpRequestMethod::Head);
    assert_eq!(decode("GETS / HTTP/1.1\r\n\r\n").unwrap_err(), Exception::UnSupportedRequestMethod);
}

#[test]
fn upper_cased_token_matching() {
    assert_eq!(webserver::request::method_from_upper("OPTIONS"), Some(HttpRequestMethod::Options));
    assert_eq!(webserver::request::method_from_upper("get"), None);
    assert!(webserver::request::is_supported_version("HTTP/1.1"));
    assert!(!webserver::request::is_supported_version("http/1.1"));
}
