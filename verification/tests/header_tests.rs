use wire_trace::header::{
    compute_header, header_len, headers_have_content_length, name_is_content_length,
    push_decimal, wants_content_length,
};
use wire_trace::output::{AddContentLength, Http1PausePlan, Http1PlanOutput, PausePoints, Url};

fn points() -> PausePoints {
    PausePoints { start: vec![], end: vec![] }
}

fn no_pauses() -> Http1PausePlan {
    Http1PausePlan {
        request_headers: points(),
        request_body: points(),
        response_headers: points(),
        response_body: points(),
    }
}

fn plan(
    method: Option<&str>,
    path: &str,
    query: Option<&str>,
    headers: &[(&str, &str)],
    body: &str,
    policy: AddContentLength,
) -> Http1PlanOutput {
    Http1PlanOutput {
        url: Url {
            scheme: b"http".to_vec(),
            host: Some(b"h".to_vec()),
            port: Some(80),
            path: path.as_bytes().to_vec(),
            query: query.map(|q| q.as_bytes().to_vec()),
        },
        method: method.map(|m| m.as_bytes().to_vec()),
        version_string: None,
        add_content_length: policy,
        headers: headers
            .iter()
            .map(|(k, v)| (k.as_bytes().to_vec(), v.as_bytes().to_vec()))
            .collect(),
        body: body.as_bytes().to_vec(),
        pause: no_pauses(),
    }
}

fn header_text(p: &Http1PlanOutput) -> String {
    assert!(header_len(p).is_some());
    String::from_utf8(compute_header(p).to_vec()).unwrap()
}

#[test]
fn get_without_method_defaults_to_get_and_http11() {
    let p = plan(None, "/hello", None, &[], "", AddContentLength::Auto);
    assert_eq!(header_text(&p), "GET /hello HTTP/1.1\r\n\r\n");
}

#[test]
fn request_line_carries_query_and_named_version() {
    let mut p = plan(Some("PUT"), "/a/b", Some("x=1&y=2"), &[], "", AddContentLength::Never);
    p.version_string = Some(b"HTTP/1.0".to_vec());
    assert_eq!(header_text(&p), "PUT /a/b?x=1&y=2 HTTP/1.0\r\n\r\n");
}

#[test]
fn post_with_auto_content_length_adds_the_header() {
    let p = plan(Some("POST"), "/", None, &[("Host", "h")], "x=1", AddContentLength::Auto);
    let text = header_text(&p);
    assert_eq!(text, "POST / HTTP/1.1\r\nHost: h\r\nContent-Length: 3\r\n\r\n");
    assert!(text.contains("Content-Length: 3"));
}

#[test]
fn auto_does_not_add_a_second_content_length() {
    let p = plan(
        Some("POST"),
        "/",
        None,
        &[("Content-Length", "3"), ("Host", "h")],
        "x=1",
        AddContentLength::Auto,
    );
    let text = header_text(&p);
    assert_eq!(text, "POST / HTTP/1.1\r\nContent-Length: 3\r\nHost: h\r\n\r\n");
    assert_eq!(text.matches("Content-Length").count(), 1);
}

#[test]
fn auto_sees_content_length_in_any_capitals() {
    let p = plan(Some("POST"), "/", None, &[("cOnTeNt-LeNgTh", "3")], "x=1", AddContentLength::Auto);
    assert!(!wants_content_length(&p));
    assert_eq!(header_text(&p), "POST / HTTP/1.1\r\ncOnTeNt-LeNgTh: 3\r\n\r\n");
}

#[test]
fn auto_adds_nothing_for_an_empty_body() {
    let p = plan(Some("POST"), "/", None, &[("Host", "h")], "", AddContentLength::Auto);
    assert!(!wants_content_length(&p));
    assert_eq!(header_text(&p), "POST / HTTP/1.1\r\nHost: h\r\n\r\n");
}

#[test]
fn always_adds_even_when_present_and_empty() {
    let p = plan(Some("POST"), "/", None, &[("Content-Length", "9")], "", AddContentLength::Always);
    assert!(wants_content_length(&p));
    assert_eq!(
        header_text(&p),
        "POST / HTTP/1.1\r\nContent-Length: 9\r\nContent-Length: 0\r\n\r\n"
    );
}

#[test]
fn never_adds_nothing() {
    let p = plan(Some("POST"), "/", None, &[], "abcdefghijkl", AddContentLength::Never);
    assert!(!wants_content_length(&p));
    assert_eq!(header_text(&p), "POST / HTTP/1.1\r\n\r\n");
}

#[test]
fn duplicate_headers_keep_their_order() {
    let p = plan(
        None,
        "/",
        None,
        &[("A", "1"), ("B", "2"), ("A", "3")],
        "",
        AddContentLength::Never,
    );
    assert_eq!(header_text(&p), "GET / HTTP/1.1\r\nA: 1\r\nB: 2\r\nA: 3\r\n\r\n");
}

#[test]
fn header_len_is_the_length_of_the_header() {
    let p = plan(Some("POST"), "/", None, &[("Host", "h")], "0123456789ab", AddContentLength::Auto);
    let text = header_text(&p);
    assert!(text.ends_with("Content-Length: 12\r\n\r\n"));
    assert_eq!(header_len(&p), Some(text.len()));
}

#[test]
fn decimal_digits_are_most_significant_first() {
    let mut out = b"n=".to_vec();
    push_decimal(&mut out, 0);
    assert_eq!(out, b"n=0".to_vec());
    let mut out = Vec::new();
    push_decimal(&mut out, 10);
    assert_eq!(out, b"10".to_vec());
    let mut out = Vec::new();
    push_decimal(&mut out, 4096);
    assert_eq!(out, b"4096".to_vec());
}

#[test]
fn content_length_name_is_matched_whole() {
    assert!(name_is_content_length(b"content-length"));
    assert!(name_is_content_length(b"Content-Length"));
    assert!(name_is_content_length(b"CONTENT-LENGTH"));
    assert!(!name_is_content_length(b"content-lengt"));
    assert!(!name_is_content_length(b"content_length"));
    assert!(!name_is_content_length(b"content-length "));
    assert!(!name_is_content_length(b""));
    assert!(headers_have_content_length(&vec![
        (b"Host".to_vec(), b"h".to_vec()),
        (b"content-LENGTH".to_vec(), b"1".to_vec()),
    ]));
    assert!(!headers_have_content_length(&vec![(b"Host".to_vec(), b"h".to_vec())]));
}
