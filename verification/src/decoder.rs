//! From what the sandbox returned to a routing result.
//!
//! The sandbox answers with one message, or with a stream of them. One
//! message decides between a rewrite and passing the request through. A
//! stream is a middleware response: its first message holds status and
//! headers, and the rest is its body.

use crate::body::{body_step, item_view, raw_view, BodyDecoder, StreamItem};
use crate::json::JsonView;
use crate::message::{
    decode, decoded_view, kind_names_are_distinct, message_of, message_of_bytes, rewrite_of,
    DecodeError, DecodeFailure, HeaderList, MessageKind, MessageView, RewriteResponse,
    RewriteView, RouterIncomingMessage,
};
use vstd::prelude::*;

verus! {

/// A response that middleware gives: status and headers, known from the
/// start, and a body that is read chunk by chunk.
#[derive(Debug, Clone, Default)]
pub struct MiddlewareResponse {
    pub status_code: u16,
    pub headers: Vec<(String, String)>,
    pub body: BodyDecoder,
}

/// What a [`MiddlewareResponse`] holds.
pub struct MiddlewareView {
    pub status_code: u16,
    pub headers: HeaderList,
    pub body_ended: bool,
}

impl View for MiddlewareResponse {
    type V = MiddlewareView;

    open spec fn view(&self) -> MiddlewareView {
        MiddlewareView {
            status_code: self.status_code,
            headers: self.headers.deep_view(),
            body_ended: self.body.ended(),
        }
    }
}

impl MiddlewareResponse {
    /// Yields the next element of the body, given what the stream gave.
    /// Status and headers stay as they are.
    pub fn next_chunk(&mut self, raw: Option<&Result<Vec<u8>, String>>) -> (item: Option<
        Result<Vec<u8>, String>,
    >)
        ensures
            final(self).status_code == old(self).status_code,
            final(self).headers == old(self).headers,
            final(self).body.ended() == body_step(old(self).body.ended(), raw_view(raw)).0,
            match item {
                Some(element) => body_step(old(self).body.ended(), raw_view(raw)).1 == Some(
                    item_view(element),
                ),
                None => body_step(old(self).body.ended(), raw_view(raw)).1 is None,
            },
    {
        self.body.next(raw)
    }
}

/// What to do with a request.
#[derive(Debug)]
pub enum RouterResult {
    /// Send it elsewhere.
    Rewrite(RewriteResponse),
    /// Answer it with what middleware gives.
    Middleware(MiddlewareResponse),
    /// Leave it as it is.
    PassThrough,
    /// Routing failed.
    Error,
}

/// What a [`RouterResult`] holds.
pub enum RouterResultView {
    Rewrite(RewriteView),
    Middleware(MiddlewareView),
    PassThrough,
    Error,
}

impl View for RouterResult {
    type V = RouterResultView;

    open spec fn view(&self) -> RouterResultView {
        match self {
            RouterResult::Rewrite(data) => RouterResultView::Rewrite(data@),
            RouterResult::Middleware(response) => RouterResultView::Middleware(response@),
            RouterResult::PassThrough => RouterResultView::PassThrough,
            RouterResult::Error => RouterResultView::Error,
        }
    }
}

/// What the sandbox returned from one evaluation.
#[derive(Debug)]
pub enum Evaluation {
    /// One message: its bytes.
    Single(Vec<u8>),
    /// A stream: its first element as it was read, `None` if it had none.
    Stream(Option<Result<Vec<u8>, String>>),
    /// No answer: the evaluation failed.
    Failed,
}

/// What an [`Evaluation`] holds.
pub enum EvaluationView {
    Single(Seq<u8>),
    Stream(Option<StreamItem>),
    Failed,
}

impl View for Evaluation {
    type V = EvaluationView;

    open spec fn view(&self) -> EvaluationView {
        match self {
            Evaluation::Single(bytes) => EvaluationView::Single(bytes@),
            Evaluation::Stream(Some(first)) => EvaluationView::Stream(Some(item_view(*first))),
            Evaluation::Stream(None) => EvaluationView::Stream(None),
            Evaluation::Failed => EvaluationView::Failed,
        }
    }
}

/// The result that a single message gives: a rewrite is passed on, `none`
/// passes the request through, and everything else is an error, bytes that
/// are no message and the messages of a middleware response among them.
pub open spec fn single_shot_result(message: Result<MessageView, DecodeFailure>) -> RouterResultView {
    match message {
        Ok(MessageView::Rewrite(data)) => RouterResultView::Rewrite(data),
        Ok(MessageView::PassThrough) => RouterResultView::PassThrough,
        _ => RouterResultView::Error,
    }
}

/// The result that a stream gives, by its first element as it was decoded,
/// `None` where no element was read: a middleware response with an unread
/// body where that element is a `middleware-headers` message, an error
/// otherwise.
pub open spec fn stream_start_result(
    first: Option<Result<MessageView, DecodeFailure>>,
) -> RouterResultView {
    match first {
        Some(Ok(MessageView::MiddlewareHeaders(data))) => RouterResultView::Middleware(
            MiddlewareView {
                status_code: data.status_code,
                headers: data.headers,
                body_ended: false,
            },
        ),
        _ => RouterResultView::Error,
    }
}

/// The result that a stream gives, by its first element as it was read: what
/// the message that its bytes spell gives, and an error for a stream without
/// an element and for a failed read.
pub open spec fn stream_result(first: Option<StreamItem>) -> RouterResultView {
    match first {
        Some(Ok(bytes)) => stream_start_result(Some(message_of_bytes(bytes))),
        _ => RouterResultView::Error,
    }
}

/// The result that an evaluation gives.
pub open spec fn evaluation_result(evaluation: EvaluationView) -> RouterResultView {
    match evaluation {
        EvaluationView::Single(bytes) => single_shot_result(message_of_bytes(bytes)),
        EvaluationView::Stream(first) => stream_result(first),
        EvaluationView::Failed => RouterResultView::Error,
    }
}

/// Decides on a single message that has been decoded, or could not be.
pub fn single_shot(message: Result<RouterIncomingMessage, DecodeError>) -> (result: RouterResult)
    ensures
        result@ == single_shot_result(decoded_view(message)),
{
    match message {
        Ok(RouterIncomingMessage::Rewrite { data }) => RouterResult::Rewrite(data),
        Ok(RouterIncomingMessage::PassThrough) => RouterResult::PassThrough,
        _ => RouterResult::Error,
    }
}

/// Decides on the bytes of a single message.
pub fn decode_single_shot(bytes: &[u8]) -> (result: RouterResult)
    ensures
        result@ == single_shot_result(message_of_bytes(bytes@)),
{
    single_shot(decode(bytes))
}

/// What the first element of a stream came to, by what it holds.
pub open spec fn first_view(
    first: Option<Result<RouterIncomingMessage, DecodeError>>,
) -> Option<Result<MessageView, DecodeFailure>> {
    match first {
        Some(message) => Some(decoded_view(message)),
        None => None,
    }
}

/// Decides on a stream by its first element as it was decoded, `None` where
/// no element was read.
pub fn stream_start(first: Option<Result<RouterIncomingMessage, DecodeError>>) -> (result:
    RouterResult)
    ensures
        result@ == stream_start_result(first_view(first)),
{
    match first {
        Some(Ok(RouterIncomingMessage::MiddlewareHeaders { data })) => RouterResult::Middleware(
            MiddlewareResponse {
                status_code: data.status_code,
                headers: data.headers,
                body: BodyDecoder::new(),
            },
        ),
        _ => RouterResult::Error,
    }
}

/// Decides on a stream by its first element, `None` where the stream had
/// none. Nothing else is read.
pub fn decode_stream_start(first: Option<&Result<Vec<u8>, String>>) -> (result: RouterResult)
    ensures
        result@ == stream_result(raw_view(first)),
{
    match first {
        Some(Ok(bytes)) => stream_start(Some(decode(bytes.as_slice()))),
        _ => stream_start(None),
    }
}

/// Decides on what an evaluation returned.
pub fn route_result(evaluation: &Evaluation) -> (result: RouterResult)
    ensures
        result@ == evaluation_result(evaluation@),
{
    match evaluation {
        Evaluation::Single(bytes) => decode_single_shot(bytes.as_slice()),
        Evaluation::Stream(first) => decode_stream_start(first.as_ref()),
        Evaluation::Failed => RouterResult::Error,
    }
}

/// A stream that does not start with a `middleware-headers` message is an
/// error: an empty stream, a failed read, bytes that are no message, and a
/// message of any other kind.
pub proof fn stream_without_headers_is_error(first: Option<StreamItem>)
    requires
        !(first matches Some(Ok(bytes)) && message_of_bytes(bytes) matches Ok(
            MessageView::MiddlewareHeaders(_),
        )),
    ensures
        stream_result(first) == RouterResultView::Error,
{
}

/// The result of a single message depends on its bytes alone: the same bytes
/// give the same result.
pub proof fn single_shot_is_repeatable(first: Seq<u8>, second: Seq<u8>)
    requires
        first == second,
    ensures
        single_shot_result(message_of_bytes(first)) == single_shot_result(
            message_of_bytes(second),
        ),
{
}

/// An object whose `type` is `none` passes the request through, whatever
/// else it holds.
pub proof fn none_passes_through(json: JsonView)
    requires
        json is Object,
        json.member("type"@) == Some(JsonView::String("none"@)),
    ensures
        single_shot_result(message_of(json)) == RouterResultView::PassThrough,
{
    kind_names_are_distinct(MessageKind::PassThrough);
}

/// An object whose `type` is `rewrite` gives the rewrite that its `data`
/// holds.
pub proof fn rewrite_is_passed_on(json: JsonView, data: JsonView, rewrite: RewriteView)
    requires
        json is Object,
        json.member("type"@) == Some(JsonView::String("rewrite"@)),
        json.member("data"@) == Some(data),
        rewrite_of(data) == Some(rewrite),
    ensures
        single_shot_result(message_of(json)) == RouterResultView::Rewrite(rewrite),
{
}

} // verus!
