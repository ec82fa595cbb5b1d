use tinyserver_rs::{response, route, Route};

#[test]
fn root_request_gets_the_index_page() {
    assert_eq!(route("GET / HTTP/1.1"), Route::Index);
    assert_eq!(Route::Index.status_line(), "HTTP/1.1 200 OK");
    assert_eq!(Route::Index.filename(), "static/index.html");
}

#[test]
fn any_other_request_gets_the_error_page() {
    for line in [
        "",
        "GET /",
        "GET / HTTP/1.0",
        "GET / HTTP/1.1 ",
        " GET / HTTP/1.1",
        "get / http/1.1",
        "GET /index.html HTTP/1.1",
        "POST / HTTP/1.1",
        "GET / HTTP/1.1\r",
    ] {
        assert_eq!(route(line), Route::NotFound);
    }
    assert_eq!(Route::NotFound.status_line(), "HTTP/1.1 404 NOT FOUND");
    assert_eq!(Route::NotFound.filename(), "static/404.html");
}

#[test]
fn response_frames_status_length_and_body() {
    assert_eq!(
        response("HTTP/1.1 200 OK", "hello"),
        "HTTP/1.1 200 OK\r\nContent-Length: 5\r\n\r\nhello"
    );
}

#[test]
fn response_to_an_empty_body_has_length_zero() {
    assert_eq!(
        response("HTTP/1.1 404 NOT FOUND", ""),
        "HTTP/1.1 404 NOT FOUND\r\nContent-Length: 0\r\n\r\n"
    );
}

#[test]
fn response_length_has_every_digit() {
    let body = "x".repeat(123456);
    let text = response("S", &body);
    assert_eq!(text, format!("S\r\nContent-Length: 123456\r\n\r\n{}", body));

    let body = "y".repeat(7089);
    let text = response("S", &body);
    assert!(text.starts_with("S\r\nContent-Length: 7089\r\n\r\ny"));
    assert_eq!(text.len(), 1 + 18 + 4 + 4 + 7089);
}

#[test]
fn response_length_at_the_powers_of_ten() {
    for (size, digits) in [(9, "9"), (10, "10"), (11, "11"), (99, "99"), (100, "100"), (1000, "1000")] {
        let body = "z".repeat(size);
        assert_eq!(
            response("L", &body),
            format!("L\r\nContent-Length: {}\r\n\r\n{}", digits, body)
        );
    }
}

#[test]
fn response_length_counts_bytes_not_characters() {
    assert_eq!(
        response("HTTP/1.1 200 OK", "h\u{e9}llo \u{1f600}"),
        "HTTP/1.1 200 OK\r\nContent-Length: 11\r\n\r\nh\u{e9}llo \u{1f600}"
    );
}

#[test]
fn respond_uses_the_status_line_of_the_page() {
    assert_eq!(
        Route::Index.respond("<h1>Hello</h1>"),
        "HTTP/1.1 200 OK\r\nContent-Length: 14\r\n\r\n<h1>Hello</h1>"
    );
    assert_eq!(
        Route::NotFound.respond("Oops"),
        "HTTP/1.1 404 NOT FOUND\r\nContent-Length: 4\r\n\r\nOops"
    );
}
