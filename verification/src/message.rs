//! The messages that the routing sandbox sends, and how a JSON document is
//! read as one of them.
//!
//! A message is a JSON object. Its member `type` names the kind of message;
//! its member `data`, where the kind has one, holds the payload.

use crate::json::{
    array_view, documents_view, parse_failure_text, parsed, Json, JsonView, ParseError,
    ParseFailure,
};
use vstd::prelude::*;
use vstd::string::*;

verus! {

/// A list of header names and values, in order, duplicates kept.
pub type HeaderList = Seq<(Seq<char>, Seq<char>)>;

/// Where to send a request instead, and the headers to merge into it.
#[derive(Debug, Clone, Default)]
pub struct RewriteResponse {
    pub url: String,
    pub headers: Vec<(String, String)>,
}

/// What a [`RewriteResponse`] holds.
pub struct RewriteView {
    pub url: Seq<char>,
    pub headers: HeaderList,
}

impl View for RewriteResponse {
    type V = RewriteView;

    open spec fn view(&self) -> RewriteView {
        RewriteView { url: self.url@, headers: self.headers.deep_view() }
    }
}

/// The status and headers of a middleware response: the first message of a
/// stream.
#[derive(Debug, Clone, Default)]
pub struct MiddlewareHeadersResponse {
    pub status_code: u16,
    pub headers: Vec<(String, String)>,
}

/// What a [`MiddlewareHeadersResponse`] holds.
pub struct MiddlewareHeadersView {
    pub status_code: u16,
    pub headers: HeaderList,
}

impl View for MiddlewareHeadersResponse {
    type V = MiddlewareHeadersView;

    open spec fn view(&self) -> MiddlewareHeadersView {
        MiddlewareHeadersView { status_code: self.status_code, headers: self.headers.deep_view() }
    }
}

/// One chunk of a middleware response's body.
#[derive(Debug, Clone, Default)]
pub struct MiddlewareBodyResponse(pub Vec<u8>);

impl View for MiddlewareBodyResponse {
    type V = Seq<u8>;

    open spec fn view(&self) -> Seq<u8> {
        self.0@
    }
}

/// The kinds of message, as the member `type` names them.
#[derive(Debug, Clone, Copy, PartialEq, Eq, Structural)]
pub enum MessageKind {
    Rewrite,
    MiddlewareHeaders,
    MiddlewareBody,
    /// Nothing to do: the request passes through. On the wire: `none`.
    PassThrough,
    Error,
}

/// A message of the sandbox.
#[derive(Debug)]
#[allow(inconsistent_fields)]
pub enum RouterIncomingMessage {
    Rewrite { data: RewriteResponse },
    MiddlewareHeaders { data: MiddlewareHeadersResponse },
    MiddlewareBody { data: Vec<u8> },
    PassThrough,
    /// The sandbox reports an error; `details` is the whole message.
    Error { details: Json },
}

/// What a [`RouterIncomingMessage`] holds.
pub enum MessageView {
    Rewrite(RewriteView),
    MiddlewareHeaders(MiddlewareHeadersView),
    MiddlewareBody(Seq<u8>),
    PassThrough,
    Error(JsonView),
}

impl View for RouterIncomingMessage {
    type V = MessageView;

    open spec fn view(&self) -> MessageView {
        match self {
            RouterIncomingMessage::Rewrite { data } => MessageView::Rewrite(data@),
            RouterIncomingMessage::MiddlewareHeaders { data } => MessageView::MiddlewareHeaders(
                data@,
            ),
            RouterIncomingMessage::MiddlewareBody { data } => MessageView::MiddlewareBody(data@),
            RouterIncomingMessage::PassThrough => MessageView::PassThrough,
            RouterIncomingMessage::Error { details } => MessageView::Error(details@),
        }
    }
}

impl MessageView {
    /// The kind of this message.
    pub open spec fn kind(self) -> MessageKind {
        match self {
            MessageView::Rewrite(_) => MessageKind::Rewrite,
            MessageView::MiddlewareHeaders(_) => MessageKind::MiddlewareHeaders,
            MessageView::MiddlewareBody(_) => MessageKind::MiddlewareBody,
            MessageView::PassThrough => MessageKind::PassThrough,
            MessageView::Error(_) => MessageKind::Error,
        }
    }
}

/// Why some bytes are not a message.
#[derive(Debug)]
pub enum DecodeError {
    /// The bytes are no JSON document.
    Parse(ParseError),
    /// The document is not an object.
    NotAnObject,
    /// The object has no member `type` that is a string.
    MissingType,
    /// The member `type` names no kind of message; the field is what it
    /// holds.
    UnknownType(String),
    /// The payload of a message of this kind is missing or ill-formed.
    InvalidData(MessageKind),
}

/// What a [`DecodeError`] says.
pub enum DecodeFailure {
    Parse(ParseFailure),
    NotAnObject,
    MissingType,
    UnknownType(Seq<char>),
    InvalidData(MessageKind),
}

impl View for DecodeError {
    type V = DecodeFailure;

    open spec fn view(&self) -> DecodeFailure {
        match self {
            DecodeError::Parse(error) => DecodeFailure::Parse(error@),
            DecodeError::NotAnObject => DecodeFailure::NotAnObject,
            DecodeError::MissingType => DecodeFailure::MissingType,
            DecodeError::UnknownType(name) => DecodeFailure::UnknownType(name@),
            DecodeError::InvalidData(kind) => DecodeFailure::InvalidData(*kind),
        }
    }
}

/// What a decode failure reads as.
pub open spec fn failure_text(failure: DecodeFailure) -> Seq<char> {
    match failure {
        DecodeFailure::Parse(inner) => parse_failure_text(inner),
        DecodeFailure::NotAnObject => "message is not an object"@,
        DecodeFailure::MissingType => "message has no type"@,
        DecodeFailure::UnknownType(name) => "unknown message type: "@ + name,
        DecodeFailure::InvalidData(kind) => "invalid data in message of type: "@ + kind_name(kind),
    }
}

impl DecodeError {
    /// This error as a text.
    pub fn message(&self) -> (text: String)
        ensures
            text@ == failure_text(self@),
    {
        match self {
            DecodeError::Parse(inner) => inner.message(),
            DecodeError::NotAnObject => "message is not an object".to_owned(),
            DecodeError::MissingType => "message has no type".to_owned(),
            DecodeError::UnknownType(name) => {
                let mut text = "unknown message type: ".to_owned();
                text.append(name.as_str());
                text
            },
            DecodeError::InvalidData(kind) => {
                let mut text = "invalid data in message of type: ".to_owned();
                text.append(kind.name());
                text
            },
        }
    }
}

impl RouterIncomingMessage {
    /// The kind of this message.
    pub fn kind(&self) -> (kind: MessageKind)
        ensures
            kind == self@.kind(),
    {
        match self {
            RouterIncomingMessage::Rewrite { .. } => MessageKind::Rewrite,
            RouterIncomingMessage::MiddlewareHeaders { .. } => MessageKind::MiddlewareHeaders,
            RouterIncomingMessage::MiddlewareBody { .. } => MessageKind::MiddlewareBody,
            RouterIncomingMessage::PassThrough => MessageKind::PassThrough,
            RouterIncomingMessage::Error { .. } => MessageKind::Error,
        }
    }
}

/// The name of a kind of message on the wire.
pub open spec fn kind_name(kind: MessageKind) -> Seq<char> {
    match kind {
        MessageKind::Rewrite => "rewrite"@,
        MessageKind::MiddlewareHeaders => "middleware-headers"@,
        MessageKind::MiddlewareBody => "middleware-body"@,
        MessageKind::PassThrough => "none"@,
        MessageKind::Error => "error"@,
    }
}

/// The kind of message that `name` names, if any.
pub open spec fn kind_named(name: Seq<char>) -> Option<MessageKind> {
    if name == "rewrite"@ {
        Some(MessageKind::Rewrite)
    } else if name == "middleware-headers"@ {
        Some(MessageKind::MiddlewareHeaders)
    } else if name == "middleware-body"@ {
        Some(MessageKind::MiddlewareBody)
    } else if name == "none"@ {
        Some(MessageKind::PassThrough)
    } else if name == "error"@ {
        Some(MessageKind::Error)
    } else {
        None
    }
}

/// Each kind is named by its own name, and by no other.
pub proof fn kind_names_are_distinct(kind: MessageKind)
    ensures
        kind_named(kind_name(kind)) == Some(kind),
{
    reveal_strlit("rewrite");
    reveal_strlit("middleware-headers");
    reveal_strlit("middleware-body");
    reveal_strlit("none");
    reveal_strlit("error");
    assert("rewrite"@.len() == 7);
    assert("middleware-headers"@.len() == 18);
    assert("middleware-body"@.len() == 15);
    assert("none"@.len() == 4);
    assert("error"@.len() == 5);
}

/// A header as the wire has it: an array of two strings, name and value.
pub open spec fn header_of(json: JsonView) -> Option<(Seq<char>, Seq<char>)> {
    match json {
        JsonView::Array(items) => if items.len() == 2 {
            match (items[0], items[1]) {
                (JsonView::String(name), JsonView::String(value)) => Some((name, value)),
                _ => None,
            }
        } else {
            None
        },
        _ => None,
    }
}

/// A header list as the wire has it: an array of headers.
pub open spec fn headers_of(json: JsonView) -> Option<HeaderList> {
    match json {
        JsonView::Array(items) => if forall|i: int|
            0 <= i < items.len() ==> header_of(#[trigger] items[i]) is Some {
            Some(Seq::new(items.len(), |i: int| header_of(items[i])->0))
        } else {
            None
        },
        _ => None,
    }
}

/// A byte as the wire has it: a whole number from 0 to 255.
pub open spec fn byte_of(json: JsonView) -> Option<u8> {
    match json {
        JsonView::Number(Some(n)) => if n <= 255 {
            Some(n as u8)
        } else {
            None
        },
        _ => None,
    }
}

/// A body chunk as the wire has it: an array of bytes.
pub open spec fn bytes_of(json: JsonView) -> Option<Seq<u8>> {
    match json {
        JsonView::Array(items) => if forall|i: int|
            0 <= i < items.len() ==> byte_of(#[trigger] items[i]) is Some {
            Some(Seq::new(items.len(), |i: int| byte_of(items[i])->0))
        } else {
            None
        },
        _ => None,
    }
}

/// A rewrite as the wire has it: an object with the string `url` and the
/// header list `headers`.
pub open spec fn rewrite_of(json: JsonView) -> Option<RewriteView> {
    match (json.member("url"@), json.member("headers"@)) {
        (Some(JsonView::String(url)), Some(list)) => match headers_of(list) {
            Some(headers) => Some(RewriteView { url, headers }),
            None => None,
        },
        _ => None,
    }
}

/// Status and headers as the wire has them: an object with the number
/// `statusCode`, from 0 to 65535, and the header list `headers`.
pub open spec fn middleware_headers_of(json: JsonView) -> Option<MiddlewareHeadersView> {
    match (json.member("statusCode"@), json.member("headers"@)) {
        (Some(JsonView::Number(Some(status))), Some(list)) => match headers_of(list) {
            Some(headers) => if status <= 65535 {
                Some(MiddlewareHeadersView { status_code: status as u16, headers })
            } else {
                None
            },
            None => None,
        },
        _ => None,
    }
}

/// The message of kind `kind` that the object `json` holds: the payload is
/// its member `data`, and an error report is the whole object.
pub open spec fn payload_of(kind: MessageKind, json: JsonView) -> Result<
    MessageView,
    DecodeFailure,
> {
    match kind {
        MessageKind::Rewrite => match json.member("data"@) {
            Some(data) => match rewrite_of(data) {
                Some(rewrite) => Ok(MessageView::Rewrite(rewrite)),
                None => Err(DecodeFailure::InvalidData(kind)),
            },
            None => Err(DecodeFailure::InvalidData(kind)),
        },
        MessageKind::MiddlewareHeaders => match json.member("data"@) {
            Some(data) => match middleware_headers_of(data) {
                Some(headers) => Ok(MessageView::MiddlewareHeaders(headers)),
                None => Err(DecodeFailure::InvalidData(kind)),
            },
            None => Err(DecodeFailure::InvalidData(kind)),
        },
        MessageKind::MiddlewareBody => match json.member("data"@) {
            Some(data) => match bytes_of(data) {
                Some(bytes) => Ok(MessageView::MiddlewareBody(bytes)),
                None => Err(DecodeFailure::InvalidData(kind)),
            },
            None => Err(DecodeFailure::InvalidData(kind)),
        },
        MessageKind::PassThrough => Ok(MessageView::PassThrough),
        MessageKind::Error => Ok(MessageView::Error(json)),
    }
}

/// The message that a JSON document holds: the document is an object, its
/// member `type` names the kind, and the payload is as that kind asks.
pub open spec fn message_of(json: JsonView) -> Result<MessageView, DecodeFailure> {
    if !(json is Object) {
        Err(DecodeFailure::NotAnObject)
    } else {
        match json.member("type"@) {
            Some(JsonView::String(name)) => match kind_named(name) {
                Some(kind) => payload_of(kind, json),
                None => Err(DecodeFailure::UnknownType(name)),
            },
            _ => Err(DecodeFailure::MissingType),
        }
    }
}

/// What decoding a message came to, by what it holds.
pub open spec fn decoded_view(message: Result<RouterIncomingMessage, DecodeError>) -> Result<
    MessageView,
    DecodeFailure,
> {
    match message {
        Ok(message) => Ok(message@),
        Err(error) => Err(error@),
    }
}

/// The message that `bytes` spell.
pub open spec fn message_of_bytes(bytes: Seq<u8>) -> Result<MessageView, DecodeFailure> {
    match parsed(bytes) {
        Ok(json) => message_of(json),
        Err(failure) => Err(DecodeFailure::Parse(failure)),
    }
}

/// Whether `text` spells `word`.
fn text_is(text: &String, word: &str) -> (r: bool)
    ensures
        r == (text@ == word@),
{
    let other = word.to_owned();
    *text == other
}

impl MessageKind {
    /// The name of this kind on the wire.
    pub fn name(self) -> (r: &'static str)
        ensures
            r@ == kind_name(self),
    {
        match self {
            MessageKind::Rewrite => "rewrite",
            MessageKind::MiddlewareHeaders => "middleware-headers",
            MessageKind::MiddlewareBody => "middleware-body",
            MessageKind::PassThrough => "none",
            MessageKind::Error => "error",
        }
    }

    /// The kind that `name` names, if any.
    pub fn named(name: &str) -> (r: Option<MessageKind>)
        ensures
            r == kind_named(name@),
    {
        let name = name.to_owned();
        let name = &name;
        if text_is(name, "rewrite") {
            Some(MessageKind::Rewrite)
        } else if text_is(name, "middleware-headers") {
            Some(MessageKind::MiddlewareHeaders)
        } else if text_is(name, "middleware-body") {
            Some(MessageKind::MiddlewareBody)
        } else if text_is(name, "none") {
            Some(MessageKind::PassThrough)
        } else if text_is(name, "error") {
            Some(MessageKind::Error)
        } else {
            None
        }
    }
}

/// Reads a header: an array of two strings.
fn decode_header(json: &Json) -> (r: Option<(String, String)>)
    ensures
        match r {
            Some(header) => header_of(json@) == Some((header.0@, header.1@)),
            None => header_of(json@) is None,
        },
{
    match json {
        Json::Array(items) => {
            proof {
                array_view(*items);
            }
            if items.len() != 2 {
                return None;
            }
            assert(documents_view(items@)[0] == items@[0]@);
            assert(documents_view(items@)[1] == items@[1]@);
            match (&items[0], &items[1]) {
                (Json::String(name), Json::String(value)) => Some((name.clone(), value.clone())),
                _ => None,
            }
        },
        _ => None,
    }
}

/// Reads a header list: an array of headers.
pub fn decode_headers(json: &Json) -> (r: Option<Vec<(String, String)>>)
    ensures
        match r {
            Some(headers) => headers_of(json@) == Some(headers.deep_view()),
            None => headers_of(json@) is None,
        },
{
    match json {
        Json::Array(items) => {
            let ghost elements = documents_view(items@);
            let mut headers: Vec<(String, String)> = Vec::new();
            let mut i: usize = 0;
            proof {
                array_view(*items);
            }
            while i < items.len()
                invariant
                    json@ == JsonView::Array(elements),
                    elements.len() == items@.len(),
                    forall|k: int| 0 <= k < elements.len() ==> #[trigger] elements[k] == items@[k]@,
                    i <= items.len(),
                    headers@.len() == i,
                    forall|k: int|
                        0 <= k < i ==> header_of(#[trigger] elements[k]) == Some(
                            (headers@[k].0@, headers@[k].1@),
                        ),
                decreases items.len() - i,
            {
                match decode_header(&items[i]) {
                    Some(header) => headers.push(header),
                    None => {
                        assert(header_of(elements[i as int]) is None);
                        return None;
                    },
                }
                i += 1;
            }
            assert(headers.deep_view() =~= Seq::new(
                elements.len(),
                |i: int| header_of(elements[i])->0,
            ));
            Some(headers)
        },
        _ => None,
    }
}

/// Reads a body chunk: an array of bytes.
pub fn decode_bytes(json: &Json) -> (r: Option<Vec<u8>>)
    ensures
        match r {
            Some(bytes) => bytes_of(json@) == Some(bytes@),
            None => bytes_of(json@) is None,
        },
{
    match json {
        Json::Array(items) => {
            let ghost elements = documents_view(items@);
            let mut bytes: Vec<u8> = Vec::new();
            let mut i: usize = 0;
            proof {
                array_view(*items);
            }
            while i < items.len()
                invariant
                    json@ == JsonView::Array(elements),
                    elements.len() == items@.len(),
                    forall|k: int| 0 <= k < elements.len() ==> #[trigger] elements[k] == items@[k]@,
                    i <= items.len(),
                    bytes@.len() == i,
                    forall|k: int| 0 <= k < i ==> byte_of(#[trigger] elements[k]) == Some(bytes@[k]),
                decreases items.len() - i,
            {
                assert(elements[i as int] == items@[i as int]@);
                match &items[i] {
                    Json::Number(Some(n)) => {
                        if *n > 255 {
                            return None;
                        }
                        bytes.push(*n as u8);
                    },
                    _ => {
                        return None;
                    },
                }
                i += 1;
            }
            assert(bytes@ =~= Seq::new(elements.len(), |i: int| byte_of(elements[i])->0));
            Some(bytes)
        },
        _ => None,
    }
}

/// Reads a rewrite: an object with `url` and `headers`.
pub fn decode_rewrite(json: &Json) -> (r: Option<RewriteResponse>)
    ensures
        match r {
            Some(rewrite) => rewrite_of(json@) == Some(rewrite@),
            None => rewrite_of(json@) is None,
        },
{
    match (json.member("url"), json.member("headers")) {
        (Some(Json::String(url)), Some(list)) => match decode_headers(list) {
            Some(headers) => Some(RewriteResponse { url: url.clone(), headers }),
            None => None,
        },
        _ => None,
    }
}

/// Reads status and headers: an object with `statusCode` and `headers`.
pub fn decode_middleware_headers(json: &Json) -> (r: Option<MiddlewareHeadersResponse>)
    ensures
        match r {
            Some(headers) => middleware_headers_of(json@) == Some(headers@),
            None => middleware_headers_of(json@) is None,
        },
{
    match (json.member("statusCode"), json.member("headers")) {
        (Some(Json::Number(Some(status))), Some(list)) => match decode_headers(list) {
            Some(headers) => if *status <= 65535 {
                Some(MiddlewareHeadersResponse { status_code: *status as u16, headers })
            } else {
                None
            },
            None => None,
        },
        _ => None,
    }
}

/// Reads the payload of a message of kind `kind` from the object `json`.
fn decode_payload(kind: MessageKind, json: Json) -> (r: Result<RouterIncomingMessage, DecodeError>)
    ensures
        match r {
            Ok(message) => payload_of(kind, json@) == Ok::<MessageView, DecodeFailure>(message@),
            Err(error) => payload_of(kind, json@) == Err::<MessageView, DecodeFailure>(error@),
        },
{
    match kind {
        MessageKind::Rewrite => match json.member("data") {
            Some(data) => match decode_rewrite(data) {
                Some(rewrite) => Ok(RouterIncomingMessage::Rewrite { data: rewrite }),
                None => Err(DecodeError::InvalidData(kind)),
            },
            None => Err(DecodeError::InvalidData(kind)),
        },
        MessageKind::MiddlewareHeaders => match json.member("data") {
            Some(data) => match decode_middleware_headers(data) {
                Some(headers) => Ok(RouterIncomingMessage::MiddlewareHeaders { data: headers }),
                None => Err(DecodeError::InvalidData(kind)),
            },
            None => Err(DecodeError::InvalidData(kind)),
        },
        MessageKind::MiddlewareBody => match json.member("data") {
            Some(data) => match decode_bytes(data) {
                Some(bytes) => Ok(RouterIncomingMessage::MiddlewareBody { data: bytes }),
                None => Err(DecodeError::InvalidData(kind)),
            },
            None => Err(DecodeError::InvalidData(kind)),
        },
        MessageKind::PassThrough => Ok(RouterIncomingMessage::PassThrough),
        MessageKind::Error => Ok(RouterIncomingMessage::Error { details: json }),
    }
}

/// Reads a JSON document as a message.
pub fn decode_message(json: Json) -> (r: Result<RouterIncomingMessage, DecodeError>)
    ensures
        match r {
            Ok(message) => message_of(json@) == Ok::<MessageView, DecodeFailure>(message@),
            Err(error) => message_of(json@) == Err::<MessageView, DecodeFailure>(error@),
        },
{
    let name = match &json {
        Json::Object(_) => match json.member("type") {
            Some(Json::String(name)) => name.clone(),
            _ => {
                return Err(DecodeError::MissingType);
            },
        },
        _ => {
            return Err(DecodeError::NotAnObject);
        },
    };
    match MessageKind::named(name.as_str()) {
        Some(kind) => decode_payload(kind, json),
        None => Err(DecodeError::UnknownType(name)),
    }
}

/// Reads the bytes of one message.
pub fn decode(bytes: &[u8]) -> (r: Result<RouterIncomingMessage, DecodeError>)
    ensures
        match r {
            Ok(message) => message_of_bytes(bytes@) == Ok::<MessageView, DecodeFailure>(message@),
            Err(error) => message_of_bytes(bytes@) == Err::<MessageView, DecodeFailure>(error@),
        },
{
    match Json::parse(bytes) {
        Ok(json) => decode_message(json),
        Err(error) => Err(DecodeError::Parse(error)),
    }
}

} // verus!
