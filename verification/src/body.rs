//! The body of a middleware response.
//!
//! After the message with status and headers, every element of the sandbox's
//! stream is one chunk of the body. The body is decoded element by element,
//! as its consumer asks for it, and ends with the stream or with the first
//! element that is no chunk: that one becomes an error in the body, and
//! nothing follows it.

use crate::debug::message_debug;
use crate::message::{
    decode, decoded_view, failure_text, message_of_bytes, DecodeError, DecodeFailure,
    MessageView, RouterIncomingMessage,
};
use vstd::prelude::*;
use vstd::string::*;

verus! {

/// An element of the sandbox's stream as it was read: the bytes of a
/// message, or what the transport said when it failed.
pub type StreamItem = Result<Seq<u8>, Seq<char>>;

/// An element of a response body: a chunk, or the error that ends the body.
pub type BodyItem = Result<Seq<u8>, Seq<char>>;

/// An element of either sequence, by the bytes and characters it holds.
pub open spec fn item_view(item: Result<Vec<u8>, String>) -> Result<Seq<u8>, Seq<char>> {
    match item {
        Ok(bytes) => Ok(bytes@),
        Err(message) => Err(message@),
    }
}

/// A sequence of elements, each by what it holds.
pub open spec fn items_view(items: Seq<Result<Vec<u8>, String>>) -> Seq<
    Result<Seq<u8>, Seq<char>>,
> {
    Seq::new(items.len(), |i: int| item_view(items[i]))
}

/// What a pull was given, by the bytes and characters it holds.
pub open spec fn raw_view(raw: Option<&Result<Vec<u8>, String>>) -> Option<StreamItem> {
    match raw {
        None => None,
        Some(element) => Some(item_view(*element)),
    }
}

/// What the body says of a message that is no body chunk: that it was not
/// expected, and the message in its debug form.
pub open spec fn unexpected_text(message: MessageView) -> Seq<char> {
    "unexpected message type: "@ + message_debug(message)
}

/// The body element that a decoded stream element gives: the chunk of a
/// `middleware-body` message, and an error for bytes that are no message and
/// for a message of any other kind.
pub open spec fn chunk_of(decoded: Result<MessageView, DecodeFailure>) -> BodyItem {
    match decoded {
        Ok(MessageView::MiddlewareBody(data)) => Ok(data),
        Ok(other) => Err(unexpected_text(other)),
        Err(failure) => Err(failure_text(failure)),
    }
}

/// The body element that one stream element gives: what its message gives,
/// and for a failed read what the transport said.
pub open spec fn body_item(raw: StreamItem) -> BodyItem {
    match raw {
        Err(message) => Err(message),
        Ok(bytes) => chunk_of(message_of_bytes(bytes)),
    }
}

/// The body that the stream elements after the headers give: their body
/// elements in order, up to and including the first error.
pub open spec fn body_of(raw: Seq<StreamItem>) -> Seq<BodyItem>
    decreases raw.len(),
{
    if raw.len() == 0 {
        Seq::empty()
    } else if body_item(raw[0]) is Err {
        seq![body_item(raw[0])]
    } else {
        seq![body_item(raw[0])] + body_of(raw.drop_first())
    }
}

/// One pull on a body: whether the body has ended afterwards, and the
/// element that the pull yields. `raw` is what the stream gave, `None` at
/// its end. An ended body yields nothing, whatever the stream gives.
pub open spec fn body_step(ended: bool, raw: Option<StreamItem>) -> (bool, Option<BodyItem>) {
    if ended {
        (true, None)
    } else {
        match raw {
            None => (true, None),
            Some(element) => (body_item(element) is Err, Some(body_item(element))),
        }
    }
}

/// Gives the body element of a stream element after the headers that has
/// been decoded, or could not be.
pub fn body_chunk(message: Result<RouterIncomingMessage, DecodeError>) -> (item: Result<
    Vec<u8>,
    String,
>)
    ensures
        item_view(item) == chunk_of(decoded_view(message)),
{
    match message {
        Ok(RouterIncomingMessage::MiddlewareBody { data }) => Ok(data),
        Ok(other) => {
            let debug = other.debug_text();
            let mut text = "unexpected message type: ".to_owned();
            text.append(debug.as_str());
            Err(text)
        },
        Err(error) => Err(error.message()),
    }
}

/// Decodes one stream element after the headers.
pub fn decode_body_chunk(raw: &Result<Vec<u8>, String>) -> (item: Result<Vec<u8>, String>)
    ensures
        item_view(item) == body_item(item_view(*raw)),
{
    match raw {
        Err(message) => Err(message.clone()),
        Ok(bytes) => body_chunk(decode(bytes.as_slice())),
    }
}

/// The body of a middleware response, not yet read: it remembers only
/// whether it has ended.
#[derive(Debug, Clone, Default)]
pub struct BodyDecoder {
    ended: bool,
}

impl BodyDecoder {
    /// Whether the body has ended: the stream has, or an error was yielded.
    pub closed spec fn ended(&self) -> bool {
        self.ended
    }

    /// A body of which nothing has been read.
    pub fn new() -> (body: BodyDecoder)
        ensures
            !body.ended(),
    {
        BodyDecoder { ended: false }
    }

    /// Whether the body has ended. Read nothing more from the stream once
    /// it has.
    pub fn is_ended(&self) -> (ended: bool)
        ensures
            ended == self.ended(),
    {
        self.ended
    }

    /// Yields the next element of the body, given what the stream gave:
    /// `None` at the end of the stream.
    pub fn next(&mut self, raw: Option<&Result<Vec<u8>, String>>) -> (item: Option<
        Result<Vec<u8>, String>,
    >)
        ensures
            final(self).ended() == body_step(old(self).ended(), raw_view(raw)).0,
            match item {
                Some(element) => body_step(old(self).ended(), raw_view(raw)).1 == Some(
                    item_view(element),
                ),
                None => body_step(old(self).ended(), raw_view(raw)).1 is None,
            },
    {
        if self.ended {
            return None;
        }
        match raw {
            None => {
                self.ended = true;
                None
            },
            Some(element) => {
                let item = decode_body_chunk(element);
                if item.is_err() {
                    self.ended = true;
                }
                Some(item)
            },
        }
    }
}

/// Decodes a whole body at once, from all the stream elements after the
/// headers.
pub fn decode_body(raw: &Vec<Result<Vec<u8>, String>>) -> (body: Vec<Result<Vec<u8>, String>>)
    ensures
        items_view(body@) == body_of(items_view(raw@)),
{
    let mut decoder = BodyDecoder::new();
    let mut body: Vec<Result<Vec<u8>, String>> = Vec::new();
    let mut i: usize = 0;
    assert(items_view(raw@).subrange(0, raw@.len() as int) == items_view(raw@));
    assert(items_view(body@) + body_of(items_view(raw@)) == body_of(items_view(raw@)));
    while i < raw.len() && !decoder.is_ended()
        invariant
            i <= raw.len(),
            decoder.ended() ==> body_of(items_view(raw@)) == items_view(body@),
            !decoder.ended() ==> body_of(items_view(raw@)) == items_view(body@) + body_of(
                items_view(raw@).subrange(i as int, raw@.len() as int),
            ),
        decreases raw.len() - i,
    {
        let ghost rest = items_view(raw@).subrange(i as int, raw@.len() as int);
        let ghost before = items_view(body@);
        assert(rest.drop_first() == items_view(raw@).subrange(i as int + 1, raw@.len() as int));
        assert(rest[0] == item_view(raw@[i as int]));
        match decoder.next(Some(&raw[i])) {
            Some(item) => {
                body.push(item);
                assert(items_view(body@) == before + seq![item_view(item)]);
                assert(before + (seq![item_view(item)] + body_of(rest.drop_first())) == before
                    + seq![item_view(item)] + body_of(rest.drop_first()));
            },
            None => {},
        }
        i += 1;
    }
    proof {
        if !decoder.ended() {
            let rest = items_view(raw@).subrange(i as int, raw@.len() as int);
            assert(rest.len() == 0);
            assert(items_view(body@) + body_of(rest) == items_view(body@));
        }
    }
    body
}

/// A body that holds no error is the stream's elements, each decoded.
pub proof fn body_without_failure(raw: Seq<StreamItem>)
    requires
        forall|i: int| 0 <= i < raw.len() ==> body_item(#[trigger] raw[i]) is Ok,
    ensures
        body_of(raw) == Seq::new(raw.len(), |i: int| body_item(raw[i])),
    decreases raw.len(),
{
    if raw.len() > 0 {
        let rest = raw.drop_first();
        assert forall|i: int| 0 <= i < rest.len() implies body_item(#[trigger] rest[i]) is Ok by {
            assert(rest[i] == raw[i + 1]);
        }
        body_without_failure(rest);
        assert(body_of(raw) =~= Seq::new(raw.len(), |i: int| body_item(raw[i])));
    } else {
        assert(body_of(raw) =~= Seq::new(raw.len(), |i: int| body_item(raw[i])));
    }
}

/// Where the element at `first` is the first that fails, the body is the
/// chunks before it, in order, then that one error, and nothing after it.
pub proof fn body_ends_at_first_failure(raw: Seq<StreamItem>, first: int)
    requires
        0 <= first < raw.len(),
        forall|i: int| 0 <= i < first ==> body_item(#[trigger] raw[i]) is Ok,
        body_item(raw[first]) is Err,
    ensures
        body_of(raw).len() == first + 1,
        forall|i: int| 0 <= i <= first ==> #[trigger] body_of(raw)[i] == body_item(raw[i]),
        forall|i: int| 0 <= i < first ==> #[trigger] body_of(raw)[i] is Ok,
        body_of(raw)[first] is Err,
    decreases first,
{
    if first > 0 {
        let rest = raw.drop_first();
        assert forall|i: int| 0 <= i < first - 1 implies body_item(#[trigger] rest[i]) is Ok by {
            assert(rest[i] == raw[i + 1]);
        }
        assert(rest[first - 1] == raw[first]);
        body_ends_at_first_failure(rest, first - 1);
        assert forall|i: int| 0 <= i <= first implies #[trigger] body_of(raw)[i] == body_item(
            raw[i],
        ) by {
            if i > 0 {
                assert(body_of(raw)[i] == body_of(rest)[i - 1]);
                assert(rest[i - 1] == raw[i]);
            }
        }
    }
}

} // verus!
