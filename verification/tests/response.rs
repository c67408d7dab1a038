use micro_http::common::Body;
use micro_http::response::{Response, StatusCode, StatusLine};

#[test]
fn test_raw() {
    let mut response = Response::new(StatusCode::OK);
    let body = String::from("This is a test");
    response.set_body(Body::new(body.clone()));

    // Headers can be in either order.
    let content_type = "Content-Type: text/plain\r\n";
    let content_length = format!("Content-Length: {}\r\n", body.len());

    let expected_response_1 = format!(
        "HTTP/1.0 200 \r\n{}{}\r\nThis is a test",
        content_length, content_type
    );
    let expected_response_2 = format!(
        "HTTP/1.0 200 \r\n{}{}\r\nThis is a test",
        content_type, content_length
    );

    assert!(
        response.raw() == expected_response_1.into_bytes()
            || response.raw() == expected_response_2.into_bytes()
    );
}

#[test]
fn raw_with_body_is_exact() {
    let mut response = Response::new(StatusCode::OK);
    response.set_body(Body::new(String::from("This is a test")));
    let expected: &[u8] =
        b"HTTP/1.0 200 \r\nContent-Length: 14\r\nContent-Type: text/plain\r\n\r\nThis is a test";
    assert_eq!(response.raw(), expected.to_vec());
}

#[test]
fn status_code_raw_gives_three_digits() {
    assert_eq!(StatusCode::OK.raw(), b"200");
    assert_eq!(StatusCode::BadRequest.raw(), b"400");
    assert_eq!(StatusCode::NotFound.raw(), b"404");
    assert_eq!(StatusCode::InternalServerError.raw(), b"500");
    assert_eq!(StatusCode::NotImplemented.raw(), b"501");
    let all = [
        StatusCode::OK,
        StatusCode::BadRequest,
        StatusCode::NotFound,
        StatusCode::InternalServerError,
        StatusCode::NotImplemented,
    ];
    for status in all {
        let raw = status.raw();
        assert_eq!(raw.len(), 3);
        assert!(raw.iter().all(|b| b.is_ascii_digit()));
    }
}

#[test]
fn status_line_raw_for_ok() {
    let line = StatusLine::new(StatusCode::OK);
    assert_eq!(line.raw(), b"HTTP/1.0 200 \r\n".to_vec());
}

#[test]
fn status_line_raw_for_each_status() {
    assert_eq!(StatusLine::new(StatusCode::BadRequest).raw(), b"HTTP/1.0 400 \r\n".to_vec());
    assert_eq!(StatusLine::new(StatusCode::NotFound).raw(), b"HTTP/1.0 404 \r\n".to_vec());
    assert_eq!(
        StatusLine::new(StatusCode::InternalServerError).raw(),
        b"HTTP/1.0 500 \r\n".to_vec()
    );
    assert_eq!(StatusLine::new(StatusCode::NotImplemented).raw(), b"HTTP/1.0 501 \r\n".to_vec());
}

#[test]
fn raw_twice_gives_the_same_bytes() {
    let mut response = Response::new(StatusCode::NotFound);
    assert_eq!(response.raw(), response.raw());
    response.set_body(Body::new(String::from("nothing here")));
    let first = response.raw();
    let second = response.raw();
    assert_eq!(first, second);
    assert_eq!(
        first,
        b"HTTP/1.0 404 \r\nContent-Length: 12\r\nContent-Type: text/plain\r\n\r\nnothing here"
            .to_vec()
    );
}

#[test]
fn raw_without_body_has_no_headers() {
    let response = Response::new(StatusCode::OK);
    assert_eq!(response.raw(), b"HTTP/1.0 200 \r\n\r\n".to_vec());
    assert!(response.body().is_none());

    let response = Response::new(StatusCode::NotImplemented);
    let raw = response.raw();
    assert_eq!(raw, b"HTTP/1.0 501 \r\n\r\n".to_vec());
    let text = String::from_utf8(raw).unwrap();
    assert!(!text.contains("Content-Length"));
    assert!(!text.contains("Content-Type"));
}

#[test]
fn status_returns_what_new_was_given() {
    let all = [
        StatusCode::OK,
        StatusCode::BadRequest,
        StatusCode::NotFound,
        StatusCode::InternalServerError,
        StatusCode::NotImplemented,
    ];
    for status in all {
        let mut response = Response::new(status);
        assert!(response.status() == status);
        response.set_body(Body::new(String::from("x")));
        assert!(response.status() == status);
    }
}

#[test]
fn body_returns_a_copy_of_what_was_set() {
    let mut response = Response::new(StatusCode::OK);
    let body = Body::new(String::from("payload"));
    let given = body.raw().to_vec();
    response.set_body(body);

    let before = response.raw();
    let mut copy = response.body().unwrap();
    assert_eq!(copy.raw(), given.as_slice());
    assert_eq!(copy.len(), 7);

    // Replacing the copy leaves the response as it was.
    copy = Body::new(String::from("something else entirely"));
    assert_eq!(copy.len(), 23);
    assert_eq!(response.body().unwrap().raw(), b"payload");
    assert_eq!(response.raw(), before);
}

#[test]
fn empty_body_declares_length_zero() {
    let mut response = Response::new(StatusCode::OK);
    response.set_body(Body::new(String::new()));
    assert!(response.body().unwrap().is_empty());
    assert_eq!(
        response.raw(),
        b"HTTP/1.0 200 \r\nContent-Length: 0\r\nContent-Type: text/plain\r\n\r\n".to_vec()
    );
}

#[test]
fn content_length_counts_bytes_not_characters() {
    let mut response = Response::new(StatusCode::OK);
    response.set_body(Body::new(String::from("héllo")));
    let mut expected = b"HTTP/1.0 200 \r\nContent-Length: 6\r\nContent-Type: text/plain\r\n\r\n".to_vec();
    expected.extend_from_slice("héllo".as_bytes());
    assert_eq!(response.raw(), expected);
}

#[test]
fn body_of_raw_bytes_is_sent_unchanged() {
    let bytes: Vec<u8> = vec![0, 255, 13, 10, 13, 10, 128];
    let mut response = Response::new(StatusCode::InternalServerError);
    response.set_body(Body::from_bytes(bytes.clone()));
    let mut expected =
        b"HTTP/1.0 500 \r\nContent-Length: 7\r\nContent-Type: text/plain\r\n\r\n".to_vec();
    expected.extend_from_slice(&bytes);
    assert_eq!(response.raw(), expected);
}

#[test]
fn long_body_declares_its_length() {
    let text = "a".repeat(12345);
    let mut response = Response::new(StatusCode::OK);
    response.set_body(Body::new(text.clone()));
    let expected = format!(
        "HTTP/1.0 200 \r\nContent-Length: 12345\r\nContent-Type: text/plain\r\n\r\n{}",
        text
    );
    assert_eq!(response.raw(), expected.into_bytes());
}

#[test]
fn second_body_replaces_the_first_and_keeps_its_headers() {
    let mut response = Response::new(StatusCode::OK);
    response.set_body(Body::new(String::from("one")));
    response.set_body(Body::new(String::from("three")));
    assert_eq!(response.body().unwrap().raw(), b"three");
    let expected: &[u8] = b"HTTP/1.0 200 \r\n\
Content-Length: 3\r\nContent-Type: text/plain\r\n\
Content-Length: 5\r\nContent-Type: text/plain\r\n\
\r\nthree";
    assert_eq!(response.raw(), expected.to_vec());
}
