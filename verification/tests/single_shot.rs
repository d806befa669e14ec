use next_router::{
    decode, decode_message, decode_single_shot, route_result, single_shot, DecodeError,
    Evaluation, Json, MessageKind, ParseError, RouterIncomingMessage, RouterResult,
};

fn text(s: &str) -> Json {
    Json::String(s.to_string())
}

fn object(members: Vec<(&str, Json)>) -> Json {
    Json::Object(members.into_iter().map(|(key, value)| (key.to_string(), value)).collect())
}

#[test]
fn none_message_passes_the_request_through() {
    let result = decode_single_shot(b"{\"type\":\"none\"}");
    assert!(matches!(result, RouterResult::PassThrough));
}

#[test]
fn none_message_ignores_other_members() {
    let result = decode_single_shot(b"{\"extra\":[1,2],\"type\":\"none\",\"data\":null}");
    assert!(matches!(result, RouterResult::PassThrough));
}

#[test]
fn rewrite_message_gives_url_and_headers() {
    let result =
        decode_single_shot(b"{\"type\":\"rewrite\",\"data\":{\"url\":\"/x\",\"headers\":[]}}");
    match result {
        RouterResult::Rewrite(rewrite) => {
            assert_eq!(rewrite.url, "/x");
            assert!(rewrite.headers.is_empty());
        }
        other => panic!("expected a rewrite, got {:?}", other),
    }
}

#[test]
fn rewrite_message_keeps_header_order_and_duplicates() {
    let result = decode_single_shot(
        b"{\"type\":\"rewrite\",\"data\":{\"url\":\"/to?a=1\",\"headers\":[[\"x-b\",\"2\"],[\"x-a\",\"1\"],[\"x-b\",\"3\"]]}}",
    );
    match result {
        RouterResult::Rewrite(rewrite) => {
            assert_eq!(rewrite.url, "/to?a=1");
            assert_eq!(
                rewrite.headers,
                vec![
                    ("x-b".to_string(), "2".to_string()),
                    ("x-a".to_string(), "1".to_string()),
                    ("x-b".to_string(), "3".to_string()),
                ]
            );
        }
        other => panic!("expected a rewrite, got {:?}", other),
    }
}

#[test]
fn middleware_messages_are_errors_as_a_single_message() {
    let headers = b"{\"type\":\"middleware-headers\",\"data\":{\"statusCode\":200,\"headers\":[]}}";
    assert!(matches!(decode_single_shot(headers), RouterResult::Error));
    let body = b"{\"type\":\"middleware-body\",\"data\":[1,2,3]}";
    assert!(matches!(decode_single_shot(body), RouterResult::Error));
}

#[test]
fn error_message_is_an_error() {
    let bytes = b"{\"type\":\"error\",\"name\":\"Error\",\"message\":\"boom\",\"stack\":[]}";
    assert!(matches!(decode_single_shot(bytes), RouterResult::Error));
    match decode(bytes) {
        Ok(RouterIncomingMessage::Error { details }) => {
            assert_eq!(details.member("message"), Some(&text("boom")));
        }
        other => panic!("expected an error message, got {:?}", other),
    }
}

#[test]
fn malformed_single_messages_are_errors() {
    assert!(matches!(decode_single_shot(b""), RouterResult::Error));
    assert!(matches!(decode_single_shot(b"{\"type\":\"none\""), RouterResult::Error));
    assert!(matches!(decode_single_shot(b"[\"none\"]"), RouterResult::Error));
    assert!(matches!(decode_single_shot(b"{\"type\":\"redirect\"}"), RouterResult::Error));
    assert!(matches!(decode_single_shot(b"{\"type\":\"rewrite\"}"), RouterResult::Error));
    assert!(matches!(decode_single_shot(&[0xff, 0xfe]), RouterResult::Error));
}

#[test]
fn decoding_twice_gives_the_same_result() {
    let bytes = b"{\"type\":\"rewrite\",\"data\":{\"url\":\"/x\",\"headers\":[[\"a\",\"b\"]]}}";
    let first = decode_single_shot(bytes);
    let second = decode_single_shot(bytes);
    match (first, second) {
        (RouterResult::Rewrite(a), RouterResult::Rewrite(b)) => {
            assert_eq!(a.url, b.url);
            assert_eq!(a.headers, b.headers);
            assert_eq!(a.url, "/x");
            assert_eq!(a.headers, vec![("a".to_string(), "b".to_string())]);
        }
        other => panic!("expected two rewrites, got {:?}", other),
    }
    assert!(matches!(decode_single_shot(b"{\"type\":\"none\"}"), RouterResult::PassThrough));
    assert!(matches!(decode_single_shot(b"{\"type\":\"none\"}"), RouterResult::PassThrough));
    assert!(matches!(decode_single_shot(b"nonsense"), RouterResult::Error));
    assert!(matches!(decode_single_shot(b"nonsense"), RouterResult::Error));
}

#[test]
fn single_shot_takes_a_decoded_message() {
    assert!(matches!(single_shot(Ok(RouterIncomingMessage::PassThrough)), RouterResult::PassThrough));
    assert!(matches!(
        single_shot(Ok(RouterIncomingMessage::MiddlewareBody { data: vec![1] })),
        RouterResult::Error
    ));
    assert!(matches!(single_shot(Err(DecodeError::NotAnObject)), RouterResult::Error));
}

#[test]
fn evaluation_of_one_message() {
    let evaluation = Evaluation::Single(b"{\"type\":\"none\"}".to_vec());
    assert!(matches!(route_result(&evaluation), RouterResult::PassThrough));
    assert!(matches!(route_result(&Evaluation::Failed), RouterResult::Error));
}

#[test]
fn decode_reports_bytes_that_are_not_utf8() {
    let error = decode(&[b'{', 0xc3, 0x28, b'}']).unwrap_err();
    assert!(matches!(error, DecodeError::Parse(ParseError::InvalidUtf8)));
    assert_eq!(error.message(), "error decoding string");
}

#[test]
fn decode_reports_text_that_is_not_json() {
    let error = decode(b"{\"type\":").unwrap_err();
    match &error {
        DecodeError::Parse(ParseError::InvalidJson(message)) => {
            assert_eq!(message, "EOF while parsing a value at line 1 column 8");
        }
        other => panic!("expected a JSON error, got {:?}", other),
    }
    assert_eq!(error.message(), "EOF while parsing a value at line 1 column 8");
}

#[test]
fn decode_reports_a_document_that_is_no_object() {
    for bytes in [&b"null"[..], b"true", b"12", b"\"none\"", b"[]"] {
        let error = decode(bytes).unwrap_err();
        assert!(matches!(error, DecodeError::NotAnObject));
        assert_eq!(error.message(), "message is not an object");
    }
}

#[test]
fn decode_reports_a_missing_type() {
    for bytes in [&b"{}"[..], b"{\"data\":1}", b"{\"type\":7}", b"{\"type\":null}"] {
        let error = decode(bytes).unwrap_err();
        assert!(matches!(error, DecodeError::MissingType));
        assert_eq!(error.message(), "message has no type");
    }
}

#[test]
fn decode_reports_an_unknown_type() {
    let error = decode(b"{\"type\":\"Rewrite\"}").unwrap_err();
    match &error {
        DecodeError::UnknownType(name) => assert_eq!(name, "Rewrite"),
        other => panic!("expected an unknown type, got {:?}", other),
    }
    assert_eq!(error.message(), "unknown message type: Rewrite");
}

#[test]
fn decode_reports_invalid_data() {
    let cases: Vec<(&[u8], MessageKind, &str)> = vec![
        (b"{\"type\":\"rewrite\"}", MessageKind::Rewrite, "rewrite"),
        (b"{\"type\":\"rewrite\",\"data\":{\"url\":1,\"headers\":[]}}", MessageKind::Rewrite, "rewrite"),
        (b"{\"type\":\"rewrite\",\"data\":{\"url\":\"/x\"}}", MessageKind::Rewrite, "rewrite"),
        (
            b"{\"type\":\"rewrite\",\"data\":{\"url\":\"/x\",\"headers\":[[\"a\"]]}}",
            MessageKind::Rewrite,
            "rewrite",
        ),
        (
            b"{\"type\":\"rewrite\",\"data\":{\"url\":\"/x\",\"headers\":[[\"a\",\"b\",\"c\"]]}}",
            MessageKind::Rewrite,
            "rewrite",
        ),
        (
            b"{\"type\":\"rewrite\",\"data\":{\"url\":\"/x\",\"headers\":[[\"a\",1]]}}",
            MessageKind::Rewrite,
            "rewrite",
        ),
        (
            b"{\"type\":\"middleware-headers\",\"data\":{\"statusCode\":65536,\"headers\":[]}}",
            MessageKind::MiddlewareHeaders,
            "middleware-headers",
        ),
        (
            b"{\"type\":\"middleware-headers\",\"data\":{\"statusCode\":-1,\"headers\":[]}}",
            MessageKind::MiddlewareHeaders,
            "middleware-headers",
        ),
        (
            b"{\"type\":\"middleware-headers\",\"data\":{\"statusCode\":200.5,\"headers\":[]}}",
            MessageKind::MiddlewareHeaders,
            "middleware-headers",
        ),
        (
            b"{\"type\":\"middleware-headers\",\"data\":{\"statusCode\":\"200\",\"headers\":[]}}",
            MessageKind::MiddlewareHeaders,
            "middleware-headers",
        ),
        (b"{\"type\":\"middleware-body\",\"data\":[256]}", MessageKind::MiddlewareBody, "middleware-body"),
        (b"{\"type\":\"middleware-body\",\"data\":[-1]}", MessageKind::MiddlewareBody, "middleware-body"),
        (b"{\"type\":\"middleware-body\",\"data\":\"abc\"}", MessageKind::MiddlewareBody, "middleware-body"),
        (b"{\"type\":\"middleware-body\"}", MessageKind::MiddlewareBody, "middleware-body"),
    ];
    for (bytes, kind, name) in cases {
        let error = decode(bytes).unwrap_err();
        match &error {
            DecodeError::InvalidData(found) => assert_eq!(*found, kind),
            other => panic!("expected invalid data, got {:?}", other),
        }
        assert_eq!(error.message(), format!("invalid data in message of type: {}", name));
    }
}

#[test]
fn decode_reads_each_kind_of_message() {
    match decode(b"{\"type\":\"middleware-headers\",\"data\":{\"statusCode\":65535,\"headers\":[[\"a\",\"b\"]]}}") {
        Ok(RouterIncomingMessage::MiddlewareHeaders { data }) => {
            assert_eq!(data.status_code, 65535);
            assert_eq!(data.headers, vec![("a".to_string(), "b".to_string())]);
        }
        other => panic!("expected headers, got {:?}", other),
    }
    match decode(b"{\"type\":\"middleware-body\",\"data\":[0,127,255]}") {
        Ok(RouterIncomingMessage::MiddlewareBody { data }) => assert_eq!(data, vec![0, 127, 255]),
        other => panic!("expected a body chunk, got {:?}", other),
    }
    match decode(b"{\"type\":\"middleware-body\",\"data\":[]}") {
        Ok(RouterIncomingMessage::MiddlewareBody { data }) => assert!(data.is_empty()),
        other => panic!("expected a body chunk, got {:?}", other),
    }
    assert!(matches!(decode(b" { \"type\" : \"none\" } "), Ok(RouterIncomingMessage::PassThrough)));
}

#[test]
fn message_kinds_have_their_wire_names() {
    let kinds = [
        (MessageKind::Rewrite, "rewrite"),
        (MessageKind::MiddlewareHeaders, "middleware-headers"),
        (MessageKind::MiddlewareBody, "middleware-body"),
        (MessageKind::PassThrough, "none"),
        (MessageKind::Error, "error"),
    ];
    for (kind, name) in kinds {
        assert_eq!(kind.name(), name);
        assert_eq!(MessageKind::named(name), Some(kind));
    }
    assert_eq!(MessageKind::named("None"), None);
    assert_eq!(RouterIncomingMessage::PassThrough.kind(), MessageKind::PassThrough);
    assert_eq!(
        RouterIncomingMessage::MiddlewareBody { data: vec![] }.kind(),
        MessageKind::MiddlewareBody
    );
    assert_eq!(MessageKind::named(""), None);
}

#[test]
fn decode_message_reads_a_tree_built_by_hand() {
    let json = object(vec![
        ("type", text("rewrite")),
        (
            "data",
            object(vec![
                ("url", text("/x")),
                ("headers", Json::Array(vec![Json::Array(vec![text("a"), text("b")])])),
            ]),
        ),
    ]);
    match decode_message(json) {
        Ok(RouterIncomingMessage::Rewrite { data }) => {
            assert_eq!(data.url, "/x");
            assert_eq!(data.headers, vec![("a".to_string(), "b".to_string())]);
        }
        other => panic!("expected a rewrite, got {:?}", other),
    }
    let twice = object(vec![("type", text("none")), ("type", text("rewrite"))]);
    assert!(matches!(decode_message(twice), Ok(RouterIncomingMessage::PassThrough)));
    assert!(matches!(decode_message(Json::Null), Err(DecodeError::NotAnObject)));
}

#[test]
fn parse_builds_the_tree_of_a_document() {
    let parsed = Json::parse(
        b"{\"a\":null,\"b\":[true,false,0,18446744073709551615,-3,1.5,1e3],\"c\":{\"d\":\"e\\u0041\\n\"}}",
    );
    let expected = object(vec![
        ("a", Json::Null),
        (
            "b",
            Json::Array(vec![
                Json::Bool(true),
                Json::Bool(false),
                Json::Number(Some(0)),
                Json::Number(Some(u64::MAX)),
                Json::Number(None),
                Json::Number(None),
                Json::Number(None),
            ]),
        ),
        ("c", object(vec![("d", text("eA\n"))])),
    ]);
    assert_eq!(parsed, Ok(expected));
}

#[test]
fn parse_rejects_what_is_no_document() {
    assert_eq!(Json::parse(&[0x80]), Err(ParseError::InvalidUtf8));
    assert_eq!(
        Json::parse(b"{} x"),
        Err(ParseError::InvalidJson("trailing characters at line 1 column 4".to_string()))
    );
    assert_eq!(
        Json::parse(b""),
        Err(ParseError::InvalidJson("EOF while parsing a value at line 1 column 0".to_string()))
    );
}

#[test]
fn parse_keeps_the_last_of_two_members_with_one_key() {
    let parsed = Json::parse(b"{\"k\":1,\"k\":2}").unwrap();
    assert_eq!(parsed, object(vec![("k", Json::Number(Some(2)))]));
}

#[test]
fn member_finds_the_first_entry_under_a_key() {
    let json = object(vec![("a", Json::Number(Some(1))), ("b", Json::Null), ("a", Json::Bool(true))]);
    assert_eq!(json.member("a"), Some(&Json::Number(Some(1))));
    assert_eq!(json.member("b"), Some(&Json::Null));
    assert_eq!(json.member("c"), None);
    assert_eq!(Json::Array(vec![]).member("a"), None);
    assert_eq!(text("a").member("a"), None);
}
