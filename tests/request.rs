use httpr::header::{Header, ReqString};
use httpr::method::ReqType;
use httpr::request::{build_request, fixed_headers, parse_request_line, req_type_with_path};
use httpr::response::decode_response;

fn header(name: &str, value: &str) -> Header {
    Header { header_name: name.to_string(), header_value: value.to_string() }
}

#[test]
fn method_names() {
    assert_eq!(ReqType::ReqGet.as_str(), "GET");
    assert_eq!(ReqType::ReqPost.as_str(), "POST");
}

#[test]
fn method_from_supported_text() {
    assert_eq!(ReqType::from_str("GET"), ReqType::ReqGet);
    assert_eq!(ReqType::from_str("POST"), ReqType::ReqPost);
}

#[test]
fn unsupported_method_is_reported() {
    let err = ReqType::parse("PUT").unwrap_err();
    assert_eq!(err.method, "PUT");
}

#[test]
fn method_match_is_case_sensitive() {
    assert_eq!(ReqType::parse("get").unwrap_err().method, "get");
    assert_eq!(ReqType::parse("").unwrap_err().method, "");
    assert_eq!(ReqType::parse("GET ").unwrap_err().method, "GET ");
    assert_eq!(ReqType::parse("POST").unwrap(), ReqType::ReqPost);
}

#[test]
fn request_line_for_each_method() {
    assert_eq!(req_type_with_path(ReqType::ReqGet, "/"), "GET / HTTP/1.1\r\n");
    assert_eq!(req_type_with_path(ReqType::ReqPost, "/a/b?c=d"), "POST /a/b?c=d HTTP/1.1\r\n");
}

#[test]
fn headers_serialize_in_order() {
    let mut text = String::from("X");
    Header::apply_all_headers(vec![header("B", "2"), header("A", "1"), header("B", "3")], &mut text);
    assert_eq!(text, "XB: 2\r\nA: 1\r\nB: 3\r\n");
    text.req_headers_end();
    assert_eq!(text, "XB: 2\r\nA: 1\r\nB: 3\r\n\r\n");
}

#[test]
fn no_headers_leaves_text_unchanged() {
    let mut text = String::from("GET / HTTP/1.1\r\n");
    Header::apply_all_headers(Vec::new(), &mut text);
    assert_eq!(text, "GET / HTTP/1.1\r\n");
    text.req_headers_end();
    assert_eq!(text, "GET / HTTP/1.1\r\n\r\n");
}

#[test]
fn header_values_are_verbatim() {
    let mut text = String::new();
    Header::apply_all_headers(vec![header("Name", "a: b\tc")], &mut text);
    assert_eq!(text, "Name: a: b\tc\r\n");
}

#[test]
fn fixed_headers_for_host() {
    let hs = fixed_headers("example.com");
    assert_eq!(hs.len(), 2);
    assert_eq!(hs[0].header_name, "Host");
    assert_eq!(hs[0].header_value, "example.com");
    assert_eq!(hs[1].header_name, "Connection");
    assert_eq!(hs[1].header_value, "close");
    let mut text = String::new();
    Header::apply_all_headers(hs, &mut text);
    assert_eq!(text, "Host: example.com\r\nConnection: close\r\n");
}

#[test]
fn whole_request_with_defaults() {
    let method = ReqType::from_str("GET");
    assert_eq!(
        build_request(method, "/", "example.com"),
        "GET / HTTP/1.1\r\nHost: example.com\r\nConnection: close\r\n\r\n"
    );
    assert_eq!(
        build_request(ReqType::ReqPost, "/p", "127.0.0.1"),
        "POST /p HTTP/1.1\r\nHost: 127.0.0.1\r\nConnection: close\r\n\r\n"
    );
}

#[test]
fn request_line_round_trip() {
    for (m, p) in [(ReqType::ReqGet, "/"), (ReqType::ReqPost, "/x y"), (ReqType::ReqGet, "/ü")] {
        let line = req_type_with_path(m, p);
        let (m2, p2) = parse_request_line(&line).unwrap();
        assert_eq!(m2, m);
        assert_eq!(p2, p);
    }
}

#[test]
fn request_line_parse_failures() {
    assert!(parse_request_line("").is_none());
    assert!(parse_request_line("GET  HTTP/1.1\r\n").is_none());
    assert!(parse_request_line("PUT / HTTP/1.1\r\n").is_none());
    assert!(parse_request_line("GET / HTTP/1.0\r\n").is_none());
    assert!(parse_request_line("GET / HTTP/1.1").is_none());
    assert!(parse_request_line("get / HTTP/1.1\r\n").is_none());
}

#[test]
fn decode_text_response() {
    let bytes = "HTTP/1.1 200 OK\r\n\r\nhé".as_bytes().to_vec();
    assert_eq!(decode_response(&bytes).unwrap(), "HTTP/1.1 200 OK\r\n\r\nhé");
    assert_eq!(decode_response(&[]).unwrap(), "");
}

#[test]
fn decode_rejects_invalid_utf8() {
    assert!(decode_response(&[0x48, 0xff, 0x49]).is_none());
    assert!(decode_response(&[0xc3]).is_none());
}
