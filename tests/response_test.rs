use webserver::cache::FileCache;
use webserver::config::Config;
use webserver::encoding::{compress, decide_encoding, encode_body, should_skip_compression};
use webserver::param::{get_mime, HttpEncoding, HttpRequestMethod};
use webserver::request::Request;
use webserver::response::{file_extension, Entity, Plan, Response};

const DATE: &str = "Mon, 02 Jan 2006 15:04:05 +0000";

fn req(text: &str) -> Request {
    Request::try_from(&text.as_bytes().to_vec(), 0).unwrap()
}

fn text_of(r: &Response) -> String {
    String::from_utf8_lossy(&r.as_bytes()).to_string()
}

#[test]
fn test_format_date() {
    let response = Response::new();
    assert!(response.date.contains("+0000") || response.date.contains("GMT"));
}

#[test]
fn test_compress_none() {
    let data = b"Hello, World!".to_vec();
    let result = compress(data.clone(), None).unwrap();
    assert_eq!(result, data);
}

#[test]
fn test_compress_gzip() {
    let data = b"Hello, World! This is a test string for compression.".to_vec();
    let result = compress(data.clone(), Some(HttpEncoding::Gzip)).unwrap();

    assert_ne!(result, data);
    assert_eq!(&result[0..2], &[0x1f, 0x8b]);
}

#[test]
fn test_compress_deflate() {
    let data = b"Hello, World! This is a test string for compression.".to_vec();
    let result = compress(data.clone(), Some(HttpEncoding::Deflate)).unwrap();

    assert_ne!(result, data);
    assert!(!result.is_empty());
}

#[test]
fn test_compress_brotli() {
    let data = b"Hello, World! This is a test string for compression.".to_vec();
    let result = compress(data.clone(), Some(HttpEncoding::Br)).unwrap();

    assert_ne!(result, data);
    assert!(!result.is_empty());
}

#[test]
fn test_decide_encoding_gzip() {
    let encodings = vec![HttpEncoding::Gzip, HttpEncoding::Deflate];
    let result = decide_encoding(&encodings);
    assert_eq!(result, Some(HttpEncoding::Gzip));
}

#[test]
fn test_decide_encoding_deflate_only() {
    let encodings = vec![HttpEncoding::Deflate];
    let result = decide_encoding(&encodings);
    assert_eq!(result, Some(HttpEncoding::Deflate));
}

#[test]
fn test_decide_encoding_none() {
    let encodings = vec![];
    let result = decide_encoding(&encodings);
    assert_eq!(result, None);
}

#[test]
fn test_decide_encoding_br_ignored() {
    let encodings = vec![HttpEncoding::Br, HttpEncoding::Gzip];
    let result = decide_encoding(&encodings);
    assert_eq!(result, Some(HttpEncoding::Gzip));
}

#[test]
fn test_get_mime_html() {
    assert_eq!(get_mime("html"), "text/html;charset=utf-8");
}

#[test]
fn test_get_mime_css() {
    assert_eq!(get_mime("css"), "text/css;charset=utf-8");
}

#[test]
fn test_get_mime_js() {
    assert_eq!(get_mime("js"), "text/javascript;charset=utf-8");
}

#[test]
fn test_get_mime_json() {
    assert_eq!(get_mime("json"), "application/json");
}

#[test]
fn test_get_mime_png() {
    assert_eq!(get_mime("png"), "image/png");
}

#[test]
fn test_get_mime_jpg() {
    assert_eq!(get_mime("jpg"), "image/jpeg");
}

#[test]
fn test_get_mime_unknown() {
    assert_eq!(get_mime("unknown_extension"), "application/octet-stream");
}

#[test]
fn test_get_mime_pdf() {
    assert_eq!(get_mime("pdf"), "application/pdf");
}

#[test]
fn test_response_new() {
    let response = Response::new();

    assert_eq!(response.status_code(), 200);
    assert_eq!(response.information(), "OK");
    assert!(response.allow.is_some());
}

#[test]
fn test_response_as_bytes_basic() {
    let response = Response::new();
    let bytes = response.as_bytes();
    let response_str = String::from_utf8_lossy(&bytes);

    assert!(response_str.starts_with("HTTP/1.1 200 OK"));
    assert!(response_str.contains("Content-Length: 0"));
    assert!(response_str.contains("Server: shaneyale-webserver"));
    assert!(response_str.contains("\r\n\r\n"));
}

#[test]
fn test_response_as_bytes_with_content() {
    let mut response = Response::new();
    response.content = Some(b"Hello".to_vec());
    response.content_length = 5;
    response.content_type = Some("text/plain".to_string());

    let bytes = response.as_bytes();
    let response_str = String::from_utf8_lossy(&bytes);

    assert!(response_str.contains("Content-Type: text/plain"));
    assert!(response_str.contains("Content-Length: 5"));
    assert!(response_str.ends_with("Hello"));
}

#[test]
fn test_response_status_code_setter() {
    let mut response = Response::new();
    response.set_code(404);

    assert_eq!(response.status_code(), 404);
    assert_eq!(response.information(), "Not Found");
}

#[test]
fn test_response_status_code_various() {
    for (code, expected_info) in [
        (200, "OK"),
        (201, "Created"),
        (204, "No Content"),
        (301, "Moved Permanently"),
        (400, "Bad Request"),
        (401, "Unauthorized"),
        (403, "Forbidden"),
        (404, "Not Found"),
        (500, "Internal Server Error"),
    ] {
        let mut response = Response::new();
        response.set_code(code);
        assert_eq!(response.status_code(), code);
        assert_eq!(response.information(), expected_info);
    }
}

#[test]
fn test_response_with_gzip_encoding() {
    let mut response = Response::new();
    response.content_encoding = Some(HttpEncoding::Gzip);
    response.content = Some(b"test".to_vec());
    response.content_length = 4;
    response.content_type = Some("text/plain".to_string());

    let bytes = response.as_bytes();
    let response_str = String::from_utf8_lossy(&bytes);

    assert!(response_str.contains("Content-encoding: gzip"));
}

#[test]
fn test_response_with_allow_header() {
    let response = Response::new();
    let bytes = response.as_bytes();
    let response_str = String::from_utf8_lossy(&bytes);

    assert!(response_str.contains("Allow: GET, HEAD, OPTIONS"));
}

#[test]
fn test_compress_empty_data() {
    let data = vec![];
    let result = compress(data.clone(), None).unwrap();
    assert_eq!(result, data);

    let result_gzip = compress(data, Some(HttpEncoding::Gzip)).unwrap();
    assert!(!result_gzip.is_empty());
}

#[test]
fn test_compress_large_data() {
    let data = vec![b'A'; 10000];
    let result_gzip = compress(data.clone(), Some(HttpEncoding::Gzip)).unwrap();
    let result_deflate = compress(data.clone(), Some(HttpEncoding::Deflate)).unwrap();
    let result_br = compress(data.clone(), Some(HttpEncoding::Br)).unwrap();

    assert!(result_gzip.len() < data.len());
    assert!(result_deflate.len() < data.len());
    assert!(result_br.len() < data.len());
}

#[test]
fn test_response_date_format() {
    let response = Response::new();
    let bytes = response.as_bytes();
    let response_str = String::from_utf8_lossy(&bytes);

    assert!(response_str.contains("Date: "));
}

#[test]
fn test_head_request_response() {
    let request = req("HEAD /index.html HTTP/1.1\r\nHost: localhost:7878\r\n\r\n");
    let mut cache = FileCache::from_capacity(10);
    let config = Config::new();
    let page = b"<!DOCTYPE html><html><body>hi</body></html>".to_vec();
    let entity = Entity::File { size: page.len() as u64, modified: 7 };

    let response = match Response::from("static/index.html", &request, entity, &config, DATE.to_string()) {
        Plan::Lookup(target) => match Response::lookup(&target, &mut cache, DATE.to_string()) {
            Some(r) => r,
            None => Response::fill(&target, page.clone(), &mut cache, DATE.to_string()),
        },
        _ => panic!("a small file is served through the cache"),
    };
    let response_str = text_of(&response);
    assert!(response_str.starts_with("HTTP/1.1 200 OK"));
    assert!(response_str.contains("Content-Length:"));
    assert!(response_str.contains("Server: shaneyale-webserver"));

    assert!(!response_str.contains("<!DOCTYPE html>"));
}

#[test]
fn exact_wire_bytes() {
    let mut r = Response::dated(DATE.to_string());
    r.content = Some(b"hi".to_vec());
    r.content_length = 2;
    r.content_type = Some("text/plain".to_string());
    r.allow = None;
    r.accept_ranges = Some("bytes".to_string());
    assert_eq!(
        text_of(&r),
        "HTTP/1.1 200 OK\r\nContent-Type: text/plain\r\nContent-Length: 2\r\nDate: Mon, 02 Jan 2006 15:04:05 +0000\r\nServer: shaneyale-webserver\r\nAccept-Ranges: bytes\r\n\r\nhi"
    );
}

#[test]
fn serializing_twice_gives_identical_bytes() {
    let r = Response::from_status_code(404, &vec![HttpEncoding::Gzip], DATE.to_string());
    assert_eq!(r.as_bytes(), r.as_bytes());
    assert_eq!(r.clone().as_bytes(), r.as_bytes());
}

#[test]
fn range_inside_resource_is_partial_content() {
    let request = req("GET /f.txt HTTP/1.1\r\nRange: bytes=0-3\r\n\r\n");
    let entity = Entity::File { size: 10, modified: 1 };
    match Response::from("f.txt", &request, entity, &Config::new(), DATE.to_string()) {
        Plan::ReadRange { response, start, len } => {
            assert_eq!((start, len), (0, 4));
            assert_eq!(response.status_code(), 206);
            assert_eq!(response.content_range.as_deref(), Some("bytes 0-3/10"));
            assert_eq!(response.get_content_length(), 4);
            let full = response.with_body(b"0123".to_vec());
            let text = text_of(&full);
            assert!(text.contains("Content-Range: bytes 0-3/10\r\n"));
            assert!(text.ends_with("\r\n\r\n0123"));
        }
        _ => panic!("expected a range read"),
    }
}

#[test]
fn range_past_end_is_not_satisfiable() {
    let request = req("GET /f.txt HTTP/1.1\r\nRange: bytes=8-20\r\n\r\n");
    let entity = Entity::File { size: 10, modified: 1 };
    match Response::from("f.txt", &request, entity, &Config::new(), DATE.to_string()) {
        Plan::Respond(r) => {
            assert_eq!(r.status_code(), 416);
            assert_eq!(r.content_range.as_deref(), Some("bytes */10"));
            assert_eq!(r.get_content_length(), 0);
            assert!(r.content.is_none());
        }
        _ => panic!("expected 416"),
    }
}

#[test]
fn range_on_empty_file_is_not_satisfiable() {
    let request = req("GET /f.txt HTTP/1.1\r\nRange: bytes=0-\r\n\r\n");
    let entity = Entity::File { size: 0, modified: 1 };
    match Response::from("f.txt", &request, entity, &Config::new(), DATE.to_string()) {
        Plan::Respond(r) => assert_eq!(r.status_code(), 416),
        _ => panic!("expected 416"),
    }
}

#[test]
fn brotli_only_client_gets_no_encoding() {
    let request = req("GET / HTTP/1.1\r\nAccept-Encoding: br\r\n\r\n");
    assert_eq!(decide_encoding(request.accept_encoding()), None);
}

#[test]
fn method_gate() {
    let config = Config::new();
    let post = req("POST /x HTTP/1.1\r\n\r\n");
    match Response::from("x", &post, Entity::Missing, &config, DATE.to_string()) {
        Plan::Respond(r) => {
            assert_eq!(r.status_code(), 405);
            assert!(text_of(&r).contains("Allow: GET, HEAD, OPTIONS\r\n"));
            assert!(text_of(&r).contains("<h1>405</h1>"));
        }
        _ => panic!("expected 405"),
    }
    let options = req("OPTIONS * HTTP/1.1\r\n\r\n");
    match Response::from("*", &options, Entity::Missing, &config, DATE.to_string()) {
        Plan::Respond(r) => {
            assert_eq!(r.status_code(), 204);
            assert!(text_of(&r).contains("Allow: GET, HEAD, OPTIONS\r\n"));
            assert!(r.content.is_none());
        }
        _ => panic!("expected 204"),
    }
    let get = req("GET /x HTTP/1.1\r\n\r\n");
    match Response::from("x", &get, Entity::Missing, &config, DATE.to_string()) {
        Plan::Respond(r) => assert_eq!(r.status_code(), 500),
        _ => panic!("expected 500"),
    }
    match Response::from("noext", &get, Entity::File { size: 3, modified: 0 }, &config, DATE.to_string()) {
        Plan::Respond(r) => assert_eq!(r.status_code(), 404),
        _ => panic!("expected 404"),
    }
    assert!(matches!(
        Response::from("a.php", &get, Entity::File { size: 3, modified: 0 }, &config, DATE.to_string()),
        Plan::RunScript
    ));
}

#[test]
fn large_file_is_streamed() {
    let mut config = Config::new();
    config.streaming_threshold = 100;
    let get = req("GET /big.bin HTTP/1.1\r\n\r\n");
    match Response::from("big.bin", &get, Entity::File { size: 101, modified: 0 }, &config, DATE.to_string()) {
        Plan::Respond(r) => {
            assert!(r.is_streaming());
            assert_eq!(r.get_content_length(), 101);
            assert!(text_of(&r).contains("Accept-Ranges: bytes\r\n"));
        }
        _ => panic!("expected streaming"),
    }
}

#[test]
fn small_file_is_compressed_and_cached_uncompressed() {
    let get = req("GET /a.txt HTTP/1.1\r\nAccept-Encoding: gzip\r\n\r\n");
    let mut cache = FileCache::from_capacity(2);
    let body = vec![b'z'; 500];
    let entity = Entity::File { size: 500, modified: 9 };
    let target = match Response::from("a.txt", &get, entity, &Config::new(), DATE.to_string()) {
        Plan::Lookup(t) => t,
        _ => panic!("expected lookup"),
    };
    assert!(Response::lookup(&target, &mut cache, DATE.to_string()).is_none());
    let first = Response::fill(&target, body.clone(), &mut cache, DATE.to_string());
    assert_eq!(first.content_encoding, Some(HttpEncoding::Gzip));
    assert!(first.content.as_ref().unwrap().len() < 500);
    assert_eq!(cache.find("a.txt", 9).map(|b| b.to_vec()), Some(body.clone()));
    let hit = Response::lookup(&target, &mut cache, DATE.to_string()).unwrap();
    assert_eq!(hit.content, first.content);
    assert_eq!(hit.get_content_length(), first.get_content_length());
}

#[test]
fn images_skip_compression() {
    assert!(should_skip_compression("image/png"));
    assert!(should_skip_compression("video/mp4"));
    assert!(!should_skip_compression("text/html;charset=utf-8"));
    let get = req("GET /p.png HTTP/1.1\r\nAccept-Encoding: gzip\r\n\r\n");
    match Response::from("p.png", &get, Entity::File { size: 5, modified: 0 }, &Config::new(), DATE.to_string()) {
        Plan::Lookup(t) => assert_eq!(t.encoding, None),
        _ => panic!("expected lookup"),
    }
}

#[test]
fn directory_targets_depend_on_accept() {
    let json = req("GET /d HTTP/1.1\r\nAccept: application/json\r\n\r\n");
    let html = req("GET /d HTTP/1.1\r\n\r\n");
    let config = Config::new();
    match Response::from("d", &json, Entity::Directory { modified: 3 }, &config, DATE.to_string()) {
        Plan::Lookup(t) => {
            assert_eq!(t.key, "d:json");
            assert_eq!(t.content_type, "application/json");
        }
        _ => panic!("expected lookup"),
    }
    match Response::from("d", &html, Entity::Directory { modified: 3 }, &config, DATE.to_string()) {
        Plan::Lookup(t) => assert_eq!(t.key, "d"),
        _ => panic!("expected lookup"),
    }
}

#[test]
fn head_matches_get_headers() {
    let get = req("GET /a.css HTTP/1.1\r\nAccept-Encoding: deflate\r\n\r\n");
    let head = req("HEAD /a.css HTTP/1.1\r\nAccept-Encoding: deflate\r\n\r\n");
    let body = b"body { color: red; } body { color: red; }".to_vec();
    let entity = Entity::File { size: body.len() as u64, modified: 1 };
    let config = Config::new();
    let mut c1 = FileCache::from_capacity(2);
    let mut c2 = FileCache::from_capacity(2);
    let (Plan::Lookup(tg), Plan::Lookup(th)) = (
        Response::from("a.css", &get, entity, &config, DATE.to_string()),
        Response::from("a.css", &head, entity, &config, DATE.to_string()),
    ) else {
        panic!("expected lookups")
    };
    let rg = Response::fill(&tg, body.clone(), &mut c1, DATE.to_string());
    let rh = Response::fill(&th, body.clone(), &mut c2, DATE.to_string());
    assert!(rh.content.is_none());
    let mut stripped = rg.clone();
    stripped.content = None;
    assert_eq!(stripped.as_bytes(), rh.as_bytes());
}

#[test]
fn script_outcomes() {
    let get = req("GET /a.php HTTP/1.1\r\n\r\n");
    let ok = Response::from_script(Ok("<p>x</p>".to_string()), &get, DATE.to_string());
    assert_eq!(ok.status_code(), 200);
    assert_eq!(ok.content.as_deref(), Some(&b"<p>x</p>"[..]));
    let err = Response::from_script(Err(webserver::exception::Exception::PHPCodeError), &get, DATE.to_string());
    assert_eq!(err.status_code(), 500);
}

#[test]
fn encode_body_falls_back_only_on_failure() {
    let (b, e) = encode_body(b"abc".to_vec(), None);
    assert_eq!((b, e), (b"abc".to_vec(), None));
    let (b, e) = encode_body(b"abcabcabcabc".to_vec(), Some(HttpEncoding::Gzip));
    assert_eq!(e, Some(HttpEncoding::Gzip));
    assert_eq!(&b[0..2], &[0x1f, 0x8b]);
}

#[test]
fn status_pages() {
    let r = Response::response_404(&req("GET / HTTP/1.1\r\n\r\n"), 0);
    assert_eq!(r.status_code(), 404);
    assert!(r.allow.is_none());
    let body = String::from_utf8(r.content.clone().unwrap()).unwrap();
    assert!(body.contains("<h1>404</h1>"));
    assert!(body.contains("你指定的网页无法找到"));
    assert_eq!(r.get_content_length(), body.len() as u64);
    let r = Response::response_400(&req("GET / HTTP/1.1\r\n\r\n"), 0);
    assert!(String::from_utf8(r.content.clone().unwrap()).unwrap().contains("Bad Request"));
    let r = Response::response_500(&req("GET / HTTP/1.1\r\nAccept-Encoding: gzip\r\n\r\n"), 0);
    assert_eq!(r.content_encoding, Some(HttpEncoding::Gzip));
}

#[test]
fn extensions() {
    assert_eq!(file_extension("www/a/index.html").as_deref(), Some("html"));
    assert_eq!(file_extension("a.tar.gz").as_deref(), Some("gz"));
    assert_eq!(file_extension("dir.d/file"), None);
    assert_eq!(file_extension(".htaccess"), None);
    assert_eq!(file_extension("x/.."), None);
    assert_eq!(file_extension("x/y."), Some(String::new()));
}

#[test]
fn method_names() {
    assert_eq!(HttpRequestMethod::Options.as_str(), "OPTIONS");
    assert_eq!(HttpEncoding::Deflate.as_str(), "deflate");
}

#[test]
fn head_error_pages_have_no_body() {
    let head = req("HEAD /missing HTTP/1.1\r\n\r\n");
    let r = Response::response_404(&head, 0);
    let get_len = Response::response_404(&req("GET /missing HTTP/1.1\r\n\r\n"), 0).get_content_length();
    assert!(r.content.is_none());
    assert_eq!(r.get_content_length(), get_len);
    assert!(text_of(&r).ends_with("\r\n\r\n"));
    match Response::from("x", &head, Entity::Missing, &Config::new(), DATE.to_string()) {
        Plan::Respond(r) => {
            assert_eq!(r.status_code(), 500);
            assert!(r.content.is_none());
        }
        _ => panic!("expected 500"),
    }
}

#[test]
fn head_range_answers_without_reading() {
    let head = req("HEAD /f.txt HTTP/1.1\r\nRange: bytes=2-\r\n\r\n");
    match Response::from("f.txt", &head, Entity::File { size: 10, modified: 1 }, &Config::new(), DATE.to_string()) {
        Plan::Respond(r) => {
            assert_eq!(r.status_code(), 206);
            assert_eq!(r.content_range.as_deref(), Some("bytes 2-9/10"));
            assert_eq!(r.get_content_length(), 8);
            assert!(!r.streams_body(HttpRequestMethod::Head));
        }
        _ => panic!("expected a complete response"),
    }
}

#[test]
fn stamped_dates_have_rfc2822_utc_shape() {
    for d in [Response::new().date, webserver::response::http_date(), Response::response_500(&req("GET / HTTP/1.1\r\n\r\n"), 0).date] {
        let n = d.chars().count();
        assert!(n == 30 || n == 31, "{}", d);
        assert!(d.ends_with(" +0000"));
        assert!(!d.contains('\r') && !d.contains('\n'));
    }
}

#[test]
fn status_page_starts_with_doctype_and_marker_comment() {
    let html = webserver::util::HtmlBuilder::from_status_code(404, None).build();
    assert!(html.starts_with("<!DOCTYPE html>\n            <!-- 本文件由shaneyale的Rust Webserver自动生成 -->\n            <html>"));
}
