use rust_http_server::http::{
    fallback_body, get_content_type, get_file_extension, parse_header_to_filepath, read_file_result,
    request_line_result, resolve_filename, respond, usize_to_string, HTTP_RESPONSE_CODE,
};

#[test]
fn parse_plain_get() {
    let r = parse_header_to_filepath("GET /index.html HTTP/1.1".to_string());
    assert_eq!(r, Ok("index.html".to_string()));
}

#[test]
fn parse_root_path_is_empty() {
    let r = parse_header_to_filepath("GET / HTTP/1.1".to_string());
    assert_eq!(r, Ok("".to_string()));
}

#[test]
fn parse_accepts_version_two() {
    let r = parse_header_to_filepath("GET /a.css HTTP/2".to_string());
    assert_eq!(r, Ok("a.css".to_string()));
}

#[test]
fn parse_takes_last_version_marker() {
    let r = parse_header_to_filepath("GET /a HTTP/1.1 HTTP/2".to_string());
    assert_eq!(r, Ok("a HTTP/1.1".to_string()));
}

#[test]
fn parse_allows_trailing_text() {
    let r = parse_header_to_filepath("GET /x HTTP/1.1\r".to_string());
    assert_eq!(r, Ok("x".to_string()));
}

#[test]
fn parse_rejects_other_methods() {
    let r = parse_header_to_filepath("POST /x HTTP/1.1".to_string());
    assert_eq!(r, Err(HTTP_RESPONSE_CODE::HTTP_400_BAD_REQUEST));
}

#[test]
fn parse_rejects_double_slash() {
    let r = parse_header_to_filepath("GET //x HTTP/1.1".to_string());
    assert_eq!(r, Err(HTTP_RESPONSE_CODE::HTTP_400_BAD_REQUEST));
}

#[test]
fn parse_rejects_unknown_version() {
    let r = parse_header_to_filepath("GET /x HTTP/1.0".to_string());
    assert_eq!(r, Err(HTTP_RESPONSE_CODE::HTTP_400_BAD_REQUEST));
}

#[test]
fn parse_rejects_garbage() {
    let r = parse_header_to_filepath("hello world".to_string());
    assert_eq!(r, Err(HTTP_RESPONSE_CODE::HTTP_400_BAD_REQUEST));
    let r = parse_header_to_filepath("".to_string());
    assert_eq!(r, Err(HTTP_RESPONSE_CODE::HTTP_400_BAD_REQUEST));
}

#[test]
fn extension_of_plain_names() {
    assert_eq!(get_file_extension("index.html".to_string()), Some("html".to_string()));
    assert_eq!(get_file_extension("a.b.c".to_string()), Some("c".to_string()));
    assert_eq!(get_file_extension(".rs".to_string()), Some("rs".to_string()));
}

#[test]
fn extension_needs_dot_and_lowercase() {
    assert_eq!(get_file_extension("abc".to_string()), None);
    assert_eq!(get_file_extension("a.b1c".to_string()), None);
    assert_eq!(get_file_extension("photo.JPG".to_string()), None);
    assert_eq!(get_file_extension("".to_string()), None);
    assert_eq!(get_file_extension("name.".to_string()), None);
}

#[test]
fn content_type_table() {
    assert_eq!(
        get_content_type("a.js".to_string()),
        Some("Content-Type: text/javascript".to_string())
    );
    assert_eq!(
        get_content_type("a.html".to_string()),
        Some("Content-Type: text/html".to_string())
    );
    assert_eq!(get_content_type("a.css".to_string()), Some("Content-Type: text/css".to_string()));
    assert_eq!(get_content_type("a.png".to_string()), Some("Content-Type: image/png".to_string()));
    assert_eq!(get_content_type("a.jpg".to_string()), Some("Content-Type: image/jpeg".to_string()));
    assert_eq!(
        get_content_type("a.jpeg".to_string()),
        Some("Content-Type: image/jpeg".to_string())
    );
    assert_eq!(get_content_type("a.txt".to_string()), None);
    assert_eq!(get_content_type("README".to_string()), None);
}

#[test]
fn resolve_empty_path_to_index() {
    assert_eq!(resolve_filename("".to_string()), "index.html".to_string());
    assert_eq!(resolve_filename("other.css".to_string()), "other.css".to_string());
}

#[test]
fn lookup_results() {
    assert_eq!(read_file_result(Some("body".to_string())), Ok("body".to_string()));
    assert_eq!(read_file_result(None), Err(HTTP_RESPONSE_CODE::HTTP_404_NOT_FOUND));
}

#[test]
fn line_results() {
    assert_eq!(request_line_result(Some("GET / HTTP/1.1".to_string())), Ok("GET / HTTP/1.1".to_string()));
    assert_eq!(request_line_result(None), Err(HTTP_RESPONSE_CODE::HTTP_400_BAD_REQUEST));
}

#[test]
fn decimal_rendering() {
    assert_eq!(usize_to_string(0), "0".to_string());
    assert_eq!(usize_to_string(7), "7".to_string());
    assert_eq!(usize_to_string(10), "10".to_string());
    assert_eq!(usize_to_string(190), "190".to_string());
    assert_eq!(usize_to_string(1234567), "1234567".to_string());
}

#[test]
fn status_texts() {
    assert_eq!(HTTP_RESPONSE_CODE::HTTP_200_OK.status_text(), "200 OK");
    assert_eq!(HTTP_RESPONSE_CODE::HTTP_400_BAD_REQUEST.status_text(), "400 BAD REQUEST");
    assert_eq!(HTTP_RESPONSE_CODE::HTTP_404_NOT_FOUND.status_text(), "404 NOT FOUND");
    assert_eq!(HTTP_RESPONSE_CODE::HTTP_501_NOT_IMPLEMENTED.status_text(), "501 NOT IMPLEMENTED");
    assert_eq!(
        HTTP_RESPONSE_CODE::HTTP_505_HTTP_VERSION_NOT_SUPPORTED.status_text(),
        "HTTP_505_HTTP_VERSION_NOT_SUPPORTED"
    );
}

#[test]
fn code_names() {
    assert_eq!(HTTP_RESPONSE_CODE::HTTP_200_OK.code_name(), "HTTP_200_OK");
    assert_eq!(HTTP_RESPONSE_CODE::HTTP_404_NOT_FOUND.code_name(), "HTTP_404_NOT_FOUND");
}

#[test]
fn respond_serves_found_file() {
    let r = respond(Ok("index.html".to_string()), Ok("<h1>hi</h1>".to_string()));
    assert_eq!(
        r,
        "HTTP/1.1 200 OK\r\nContent-Length: 11\r\nContent-Type: text/html\r\n\r\n<h1>hi</h1>"
    );
}

#[test]
fn respond_resolves_empty_path_to_index() {
    let r = respond(Ok("".to_string()), Ok("x".to_string()));
    assert_eq!(r, "HTTP/1.1 200 OK\r\nContent-Length: 1\r\nContent-Type: text/html\r\n\r\nx");
}

#[test]
fn respond_without_known_extension_has_no_content_type() {
    let r = respond(Ok("notes.txt".to_string()), Ok("abc".to_string()));
    assert_eq!(r, "HTTP/1.1 200 OK\r\nContent-Length: 3\r\n\r\nabc");
}

#[test]
fn respond_counts_bytes_not_chars() {
    let r = respond(Ok("data.txt".to_string()), Ok("héllo".to_string()));
    assert_eq!(r, format!("HTTP/1.1 200 OK\r\nContent-Length: 6\r\n\r\nhéllo"));
}

#[test]
fn respond_missing_file_is_404_with_fallback() {
    let r = respond(
        Ok("missing.txt".to_string()),
        Err(HTTP_RESPONSE_CODE::HTTP_404_NOT_FOUND),
    );
    let expected = format!(
        "HTTP/1.1 404 NOT FOUND\r\nContent-Length: 190\r\nContent-Type: text/html\r\n\r\n{}",
        fallback_body()
    );
    assert_eq!(r, expected);
}

#[test]
fn respond_bad_request_is_400_with_fallback() {
    let r = respond(
        Err(HTTP_RESPONSE_CODE::HTTP_400_BAD_REQUEST),
        Err(HTTP_RESPONSE_CODE::HTTP_400_BAD_REQUEST),
    );
    let expected = format!(
        "HTTP/1.1 400 BAD REQUEST\r\nContent-Length: 190\r\nContent-Type: text/html\r\n\r\n{}",
        fallback_body()
    );
    assert_eq!(r, expected);
}

#[test]
fn respond_other_status_lines() {
    let r = respond(
        Err(HTTP_RESPONSE_CODE::HTTP_501_NOT_IMPLEMENTED),
        Err(HTTP_RESPONSE_CODE::HTTP_501_NOT_IMPLEMENTED),
    );
    assert!(r.starts_with("HTTP/1.1 501 NOT IMPLEMENTED\r\n"));
    let r = respond(
        Err(HTTP_RESPONSE_CODE::HTTP_505_HTTP_VERSION_NOT_SUPPORTED),
        Err(HTTP_RESPONSE_CODE::HTTP_505_HTTP_VERSION_NOT_SUPPORTED),
    );
    assert!(r.starts_with("HTTP/1.1 HTTP_505_HTTP_VERSION_NOT_SUPPORTED\r\n"));
}

#[test]
fn end_to_end_request_lines() {
    // The whole pipeline on the three request lines the server must tell
    // apart, with the file lookup outcome supplied as a value.
    let index_contents = "<html>index</html>".to_string();

    let filepath = parse_header_to_filepath("GET /index.html HTTP/1.1".to_string());
    assert_eq!(filepath, Ok("index.html".to_string()));
    let resolved = resolve_filename(filepath.clone().unwrap());
    assert_eq!(resolved, "index.html".to_string());
    let contents = read_file_result(Some(index_contents.clone()));
    let r = respond(filepath, contents);
    assert!(r.starts_with("HTTP/1.1 200 OK\r\nContent-Length: 18\r\n"));
    assert!(r.ends_with("</html>"));

    let filepath = parse_header_to_filepath("GET /missing.txt HTTP/1.1".to_string());
    assert_eq!(filepath, Ok("missing.txt".to_string()));
    let contents = read_file_result(None);
    let r = respond(filepath, contents);
    assert!(r.starts_with("HTTP/1.1 404 NOT FOUND\r\n"));
    assert!(r.ends_with(fallback_body()));

    let filepath = parse_header_to_filepath("NOT A REQUEST".to_string());
    let code = filepath.clone().unwrap_err();
    let r = respond(filepath, Err(code));
    assert!(r.starts_with("HTTP/1.1 400 BAD REQUEST\r\n"));
}
