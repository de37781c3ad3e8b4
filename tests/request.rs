use std::str::FromStr;

use http_request::{get_next_word, split_query, Method, MethodError, ParseError, Request, Server};

fn parse(text: &str) -> Result<Request<'_>, ParseError> {
    Request::try_from(text.as_bytes())
}

#[test]
fn get_with_query_string() {
    let req = parse("GET /user?id=1 HTTP/1.1\r\n\r\n").unwrap();
    assert_eq!(req.method(), Method::GET);
    assert_eq!(req.path(), "/user");
    assert_eq!(req.query_string(), Some("id=1"));
}

#[test]
fn post_root_without_query() {
    let req = parse("POST / HTTP/1.1\r\n\r\n").unwrap();
    assert_eq!(req.method(), Method::POST);
    assert_eq!(req.path(), "/");
    assert_eq!(req.query_string(), None);
}

#[test]
fn empty_query_string_is_present() {
    let req = parse("GET /a? HTTP/1.1\r\n").unwrap();
    assert_eq!(req.method(), Method::GET);
    assert_eq!(req.path(), "/a");
    assert_eq!(req.query_string(), Some(""));
}

#[test]
fn unknown_method_is_rejected() {
    assert_eq!(parse("FOO / HTTP/1.1\r\n").err(), Some(ParseError::InvalidMethod));
}

#[test]
fn other_protocol_version_is_rejected() {
    assert_eq!(parse("GET / HTTP/1.0\r\n").err(), Some(ParseError::InvalidProtocol));
}

#[test]
fn missing_protocol_token_is_rejected() {
    assert_eq!(parse("GET /").err(), Some(ParseError::InvalidRequest));
}

#[test]
fn every_canonical_method_parses() {
    let cases = [
        ("GET", Method::GET),
        ("POST", Method::POST),
        ("PUT", Method::PUT),
        ("DELETE", Method::DELETE),
        ("HEAD", Method::HEAD),
        ("OPTIONS", Method::OPTIONS),
        ("CONNECT", Method::CONNECT),
        ("TRACE", Method::TRACE),
        ("PATCH", Method::PATCH),
    ];
    for (name, method) in cases {
        let line = format!("{} /items/7 HTTP/1.1\r\nHost: x\r\n\r\n", name);
        let req = parse(&line).unwrap();
        assert_eq!(req.method(), method);
        assert_eq!(req.path(), "/items/7");
        assert_eq!(req.query_string(), None);
        assert_eq!(Method::from_str(name), Ok(method));
    }
}

#[test]
fn method_classification_is_case_sensitive() {
    assert_eq!(Method::from_str("get"), Err(MethodError));
    assert_eq!(Method::from_str("FOO"), Err(MethodError));
    assert_eq!(Method::from_str(""), Err(MethodError));
    assert_eq!(Method::from_str(" GET"), Err(MethodError));
    assert_eq!(Method::from_str("GETS"), Err(MethodError));
    assert_eq!(parse("get / HTTP/1.1\r\n").err(), Some(ParseError::InvalidMethod));
}

#[test]
fn query_splits_at_first_question_mark() {
    let req = parse("PUT /a?b=1?c=2 HTTP/1.1\r\n").unwrap();
    assert_eq!(req.method(), Method::PUT);
    assert_eq!(req.path(), "/a");
    assert_eq!(req.query_string(), Some("b=1?c=2"));
}

#[test]
fn invalid_utf8_is_rejected_first() {
    let bytes: &[u8] = b"GET /\xff HTTP/1.1\r\n";
    assert_eq!(Request::try_from(bytes).err(), Some(ParseError::InvalidEncoding));
    let garbage: &[u8] = &[0xc3, 0x28];
    assert_eq!(Request::try_from(garbage).err(), Some(ParseError::InvalidEncoding));
    let bad_method: &[u8] = b"FOO / HTTP/1.0\xc0\r\n";
    assert_eq!(Request::try_from(bad_method).err(), Some(ParseError::InvalidEncoding));
}

#[test]
fn other_protocol_spellings_are_rejected() {
    assert_eq!(parse("GET / http/1.1\r\n").err(), Some(ParseError::InvalidProtocol));
    assert_eq!(parse("GET / HTTP/2\r\n").err(), Some(ParseError::InvalidProtocol));
    assert_eq!(parse("GET /  \r\n").err(), Some(ParseError::InvalidProtocol));
    assert_eq!(parse("FOO / HTTP/1.0\r\n").err(), Some(ParseError::InvalidProtocol));
}

#[test]
fn incomplete_lines_are_rejected() {
    assert_eq!(parse("").err(), Some(ParseError::InvalidRequest));
    assert_eq!(parse("GET").err(), Some(ParseError::InvalidRequest));
    assert_eq!(parse("GET / HTTP/1.1").err(), Some(ParseError::InvalidRequest));
}

#[test]
fn repeated_delimiters_give_empty_tokens() {
    assert_eq!(parse(" / HTTP/1.1\r\n").err(), Some(ParseError::InvalidMethod));
    assert_eq!(parse("  / HTTP/1.1\r\n").err(), Some(ParseError::InvalidProtocol));
    let req = parse("GET  HTTP/1.1\r\n").unwrap();
    assert_eq!(req.method(), Method::GET);
    assert_eq!(req.path(), "");
    assert_eq!(req.query_string(), None);
}

#[test]
fn carriage_return_ends_tokens() {
    let req = parse("DELETE\r/x\rHTTP/1.1\rtrailing").unwrap();
    assert_eq!(req.method(), Method::DELETE);
    assert_eq!(req.path(), "/x");
    assert_eq!(req.query_string(), None);
}

#[test]
fn zero_padding_after_the_line_is_ignored() {
    let mut buf = [0u8; 1024];
    let line = b"HEAD /index.html?lang=en HTTP/1.1\r\nHost: example\r\n\r\n";
    buf[..line.len()].copy_from_slice(line);
    let req = Request::try_from(&buf[..]).unwrap();
    assert_eq!(req.method(), Method::HEAD);
    assert_eq!(req.path(), "/index.html");
    assert_eq!(req.query_string(), Some("lang=en"));
}

#[test]
fn zero_filled_buffer_is_incomplete() {
    let buf = [0u8; 1024];
    assert_eq!(Request::try_from(&buf[..]).err(), Some(ParseError::InvalidRequest));
}

#[test]
fn non_ascii_text_is_split_by_characters() {
    let req = parse("GET /caf\u{e9}?q=\u{fc}ber HTTP/1.1\r\n").unwrap();
    assert_eq!(req.path(), "/caf\u{e9}");
    assert_eq!(req.query_string(), Some("q=\u{fc}ber"));
}

#[test]
fn results_borrow_from_the_buffer() {
    let text = "OPTIONS /p?q HTTP/1.1\r\n";
    let req = parse(text).unwrap();
    let base = text.as_ptr() as usize;
    assert_eq!(req.path().as_ptr() as usize, base + 8);
    assert_eq!(req.query_string().unwrap().as_ptr() as usize, base + 11);
}

#[test]
fn parsing_twice_gives_equal_results() {
    let buf: &[u8] = b"TRACE /t?x=y HTTP/1.1\r\n";
    let a = Request::try_from(buf).unwrap();
    let b = Request::try_from(buf).unwrap();
    assert_eq!(a.method(), b.method());
    assert_eq!(a.path(), b.path());
    assert_eq!(a.query_string(), b.query_string());
    let bad: &[u8] = b"CONNECT / HTTP/1.2\r\n";
    assert_eq!(Request::try_from(bad).err(), Request::try_from(bad).err());
}

#[test]
fn error_messages() {
    assert_eq!(ParseError::InvalidRequest.message(), "Invalid request");
    assert_eq!(ParseError::InvalidEncoding.message(), "Invalid encoding");
    assert_eq!(ParseError::InvalidProtocol.message(), "Invalid protocol");
    assert_eq!(ParseError::InvalidMethod.message(), "Invalid method");
}

#[test]
fn errors_convert_from_lower_level_failures() {
    assert_eq!(ParseError::from(MethodError), ParseError::InvalidMethod);
    let utf8 = std::str::from_utf8(&[0xffu8]).unwrap_err();
    assert_eq!(ParseError::from(utf8), ParseError::InvalidEncoding);
}

#[test]
fn next_word_splits_at_first_delimiter() {
    assert_eq!(get_next_word("GET / HTTP/1.1"), Some(("GET", "/ HTTP/1.1")));
    assert_eq!(get_next_word("a\rb c"), Some(("a", "b c")));
    assert_eq!(get_next_word(" x"), Some(("", "x")));
    assert_eq!(get_next_word("end "), Some(("end", "")));
    assert_eq!(get_next_word("\u{e9}t\u{e9} x"), Some(("\u{e9}t\u{e9}", "x")));
    assert_eq!(get_next_word("nothing"), None);
    assert_eq!(get_next_word(""), None);
}

#[test]
fn split_query_cases() {
    assert_eq!(split_query("/a?b"), ("/a", Some("b")));
    assert_eq!(split_query("?"), ("", Some("")));
    assert_eq!(split_query("/plain"), ("/plain", None));
    assert_eq!(split_query(""), ("", None));
}

#[test]
fn server_keeps_its_address() {
    let server = Server::new(String::from("127.0.0.1:8080"));
    assert_eq!(server.addr(), "127.0.0.1:8080");
}
