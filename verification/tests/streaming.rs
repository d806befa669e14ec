use next_router::{
    body_chunk, decode, decode_body, decode_body_chunk, decode_stream_start, route_result,
    stream_start, BodyDecoder, DecodeError, Evaluation, MiddlewareHeadersResponse,
    MiddlewareResponse, RewriteResponse, RouterIncomingMessage, RouterResult,
};

type Item = Result<Vec<u8>, String>;

fn message(text: &str) -> Item {
    Ok(text.as_bytes().to_vec())
}

fn headers_message() -> Item {
    message("{\"type\":\"middleware-headers\",\"data\":{\"statusCode\":200,\"headers\":[[\"a\",\"b\"]]}}")
}

fn start(first: Option<&Item>) -> MiddlewareResponse {
    match decode_stream_start(first) {
        RouterResult::Middleware(response) => response,
        other => panic!("expected a middleware response, got {:?}", other),
    }
}

#[test]
fn stream_gives_headers_then_body_chunks_in_order() {
    let first = headers_message();
    let mut response = start(Some(&first));
    assert_eq!(response.status_code, 200);
    assert_eq!(response.headers, vec![("a".to_string(), "b".to_string())]);
    assert!(!response.body.is_ended());

    let b1 = message("{\"type\":\"middleware-body\",\"data\":[66,49]}");
    let b2 = message("{\"type\":\"middleware-body\",\"data\":[66,50]}");
    assert_eq!(response.next_chunk(Some(&b1)), Some(Ok(b"B1".to_vec())));
    assert!(!response.body.is_ended());
    assert_eq!(response.next_chunk(Some(&b2)), Some(Ok(b"B2".to_vec())));
    assert_eq!(response.next_chunk(None), None);
    assert!(response.body.is_ended());
    assert_eq!(response.status_code, 200);
    assert_eq!(response.headers, vec![("a".to_string(), "b".to_string())]);
}

#[test]
fn stream_that_does_not_start_with_headers_is_an_error() {
    assert!(matches!(decode_stream_start(None), RouterResult::Error));
    let firsts = [
        message("{\"type\":\"rewrite\",\"data\":{\"url\":\"/x\",\"headers\":[]}}"),
        message("{\"type\":\"none\"}"),
        message("{\"type\":\"middleware-body\",\"data\":[1]}"),
        message("{\"type\":\"error\"}"),
        message("{\"type\":\"middleware-headers\"}"),
        message("{\"type\":\"middleware-headers\",\"data\":{\"statusCode\":200}}"),
        message("not json"),
        message(""),
        Ok(vec![0xff]),
        Err("connection reset".to_string()),
    ];
    for first in &firsts {
        assert!(matches!(decode_stream_start(Some(first)), RouterResult::Error));
    }
}

#[test]
fn evaluation_of_a_stream() {
    let evaluation = Evaluation::Stream(Some(headers_message()));
    match route_result(&evaluation) {
        RouterResult::Middleware(response) => {
            assert_eq!(response.status_code, 200);
            assert_eq!(response.headers, vec![("a".to_string(), "b".to_string())]);
            assert!(!response.body.is_ended());
        }
        other => panic!("expected a middleware response, got {:?}", other),
    }
    assert!(matches!(route_result(&Evaluation::Stream(None)), RouterResult::Error));
    let failed = Evaluation::Stream(Some(Err("closed".to_string())));
    assert!(matches!(route_result(&failed), RouterResult::Error));
    let single = Evaluation::Stream(Some(message("{\"type\":\"none\"}")));
    assert!(matches!(route_result(&single), RouterResult::Error));
}

#[test]
fn body_ends_with_the_first_chunk_that_fails_to_decode() {
    let first = headers_message();
    let mut response = start(Some(&first));
    let good = message("{\"type\":\"middleware-body\",\"data\":[1,2]}");
    let bad = message("{\"type\":\"middleware-body\",\"data\":[1,2");
    let later = message("{\"type\":\"middleware-body\",\"data\":[3]}");
    assert_eq!(response.next_chunk(Some(&good)), Some(Ok(vec![1, 2])));
    assert_eq!(response.next_chunk(Some(&good)), Some(Ok(vec![1, 2])));
    assert_eq!(
        response.next_chunk(Some(&bad)),
        Some(Err("EOF while parsing a list at line 1 column 37".to_string()))
    );
    assert!(response.body.is_ended());
    assert_eq!(response.next_chunk(Some(&later)), None);
    assert_eq!(response.next_chunk(None), None);
    assert_eq!(response.status_code, 200);
    assert_eq!(response.headers, vec![("a".to_string(), "b".to_string())]);
}

#[test]
fn body_chunk_errors_say_what_went_wrong() {
    let cases: Vec<(Item, &str)> = vec![
        (Err("socket closed".to_string()), "socket closed"),
        (Ok(vec![0xc0, 0x80]), "error decoding string"),
        (message("[1,2]"), "message is not an object"),
        (message("{\"data\":[1]}"), "message has no type"),
        (message("{\"type\":\"body\"}"), "unknown message type: body"),
        (
            message("{\"type\":\"middleware-body\",\"data\":[300]}"),
            "invalid data in message of type: middleware-body",
        ),
        (message("{\"type\":\"none\"}"), "unexpected message type: None"),
        (
            message("{\"type\":\"error\",\"name\":\"Error\",\"message\":\"boom\",\"stack\":[]}"),
            "unexpected message type: Error(\n    StructuredError { .. },\n)",
        ),
        (
            message("{\"type\":\"rewrite\",\"data\":{\"url\":\"/x\",\"headers\":[]}}"),
            "unexpected message type: Rewrite {\n    data: RewriteResponse {\n        url: \"/x\",\n        headers: [],\n    },\n}",
        ),
        (
            headers_message(),
            "unexpected message type: MiddlewareHeaders {\n    data: MiddlewareHeadersResponse {\n        status_code: 200,\n        headers: [\n            (\n                \"a\",\n                \"b\",\n            ),\n        ],\n    },\n}",
        ),
    ];
    for (raw, expected) in &cases {
        assert_eq!(decode_body_chunk(raw), Err(expected.to_string()));
        let mut body = BodyDecoder::new();
        assert_eq!(body.next(Some(raw)), Some(Err(expected.to_string())));
        assert!(body.is_ended());
        assert_eq!(body.next(Some(raw)), None);
    }
}

#[test]
fn body_may_be_empty() {
    let mut body = BodyDecoder::new();
    assert!(!body.is_ended());
    assert_eq!(body.next(None), None);
    assert!(body.is_ended());
    assert_eq!(body.next(Some(&message("{\"type\":\"middleware-body\",\"data\":[1]}"))), None);
    assert_eq!(decode_body(&vec![]), Vec::<Item>::new());
}

#[test]
fn body_may_be_left_unread() {
    let first = headers_message();
    let mut response = start(Some(&first));
    let chunk = message("{\"type\":\"middleware-body\",\"data\":[9]}");
    assert_eq!(response.next_chunk(Some(&chunk)), Some(Ok(vec![9])));
    assert!(!response.body.is_ended());
    drop(response);
    let untouched = start(Some(&first));
    drop(untouched);
}

#[test]
fn whole_body_is_decoded_up_to_the_first_error() {
    let chunk = |n: u8| message(&format!("{{\"type\":\"middleware-body\",\"data\":[{}]}}", n));
    let all_good = vec![chunk(1), chunk(2), chunk(3)];
    assert_eq!(decode_body(&all_good), vec![Ok(vec![1]), Ok(vec![2]), Ok(vec![3])]);

    let with_failure = vec![chunk(1), chunk(2), message("{\"type\":\"none\"}"), chunk(4), message("x")];
    assert_eq!(
        decode_body(&with_failure),
        vec![Ok(vec![1]), Ok(vec![2]), Err("unexpected message type: None".to_string())]
    );

    let failed_read = vec![Err("reset".to_string()), chunk(1)];
    assert_eq!(decode_body(&failed_read), vec![Err("reset".to_string())]);
}

#[test]
fn new_response_has_an_unread_body() {
    let response = MiddlewareResponse::default();
    assert_eq!(response.status_code, 0);
    assert!(response.headers.is_empty());
    assert!(!response.body.is_ended());
}

#[test]
fn none_message_in_the_body_is_the_one_error_of_the_body() {
    let first =
        message("{\"type\":\"middleware-headers\",\"data\":{\"statusCode\":204,\"headers\":[]}}");
    let mut response = start(Some(&first));
    assert_eq!(response.status_code, 204);
    assert!(response.headers.is_empty());
    let none = message("{\"type\":\"none\"}");
    assert_eq!(
        response.next_chunk(Some(&none)),
        Some(Err("unexpected message type: None".to_string()))
    );
    assert_eq!(response.next_chunk(None), None);
    assert_eq!(
        decode_body(&vec![none]),
        vec![Err("unexpected message type: None".to_string())]
    );
}

#[test]
fn debug_form_is_what_pretty_debug_prints() {
    let headers = vec![
        ("a".to_string(), "b".to_string()),
        ("x-\"q\"".to_string(), "tab\there\nline \\ \u{7f} \u{e9} \u{301}".to_string()),
    ];
    let messages = vec![
        RouterIncomingMessage::Rewrite {
            data: RewriteResponse { url: "/x?a=\"1\"".to_string(), headers: headers.clone() },
        },
        RouterIncomingMessage::Rewrite { data: RewriteResponse::default() },
        RouterIncomingMessage::MiddlewareHeaders {
            data: MiddlewareHeadersResponse { status_code: 65535, headers: headers.clone() },
        },
        RouterIncomingMessage::MiddlewareHeaders {
            data: MiddlewareHeadersResponse { status_code: 0, headers: vec![] },
        },
        RouterIncomingMessage::MiddlewareHeaders {
            data: MiddlewareHeadersResponse { status_code: 204, headers: vec![] },
        },
        RouterIncomingMessage::MiddlewareBody { data: vec![0, 9, 10, 99, 100, 255] },
        RouterIncomingMessage::MiddlewareBody { data: vec![] },
    ];
    for message in &messages {
        assert_eq!(message.debug_text(), format!("{:#?}", message));
    }
    assert_eq!(RouterIncomingMessage::PassThrough.debug_text(), "None");
    let report = decode(b"{\"type\":\"error\",\"message\":\"boom\"}").unwrap();
    let text = report.debug_text();
    assert!(text.starts_with("Error(\n    "));
    assert!(text.ends_with(",\n)"));
}

#[test]
fn stream_start_takes_a_decoded_message() {
    let headers = RouterIncomingMessage::MiddlewareHeaders {
        data: MiddlewareHeadersResponse {
            status_code: 404,
            headers: vec![("a".to_string(), "b".to_string())],
        },
    };
    match stream_start(Some(Ok(headers))) {
        RouterResult::Middleware(response) => {
            assert_eq!(response.status_code, 404);
            assert_eq!(response.headers, vec![("a".to_string(), "b".to_string())]);
            assert!(!response.body.is_ended());
        }
        other => panic!("expected a middleware response, got {:?}", other),
    }
    assert!(matches!(stream_start(None), RouterResult::Error));
    assert!(matches!(stream_start(Some(Err(DecodeError::MissingType))), RouterResult::Error));
    assert!(matches!(
        stream_start(Some(Ok(RouterIncomingMessage::PassThrough))),
        RouterResult::Error
    ));
    let rewrite = RouterIncomingMessage::Rewrite { data: RewriteResponse::default() };
    assert!(matches!(stream_start(Some(Ok(rewrite))), RouterResult::Error));
    let chunk = RouterIncomingMessage::MiddlewareBody { data: vec![1] };
    assert!(matches!(stream_start(Some(Ok(chunk))), RouterResult::Error));
}

#[test]
fn body_chunk_takes_a_decoded_message() {
    assert_eq!(
        body_chunk(Ok(RouterIncomingMessage::MiddlewareBody { data: vec![7, 8] })),
        Ok(vec![7, 8])
    );
    assert_eq!(
        body_chunk(Ok(RouterIncomingMessage::PassThrough)),
        Err("unexpected message type: None".to_string())
    );
    assert_eq!(
        body_chunk(Ok(RouterIncomingMessage::MiddlewareHeaders {
            data: MiddlewareHeadersResponse { status_code: 7, headers: vec![] },
        })),
        Err("unexpected message type: MiddlewareHeaders {\n    data: MiddlewareHeadersResponse {\n        status_code: 7,\n        headers: [],\n    },\n}".to_string())
    );
    assert_eq!(
        body_chunk(Err(DecodeError::NotAnObject)),
        Err("message is not an object".to_string())
    );
}
