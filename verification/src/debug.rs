//! The debug form of a message: the text that Rust's pretty debug
//! formatting, `{:#?}`, prints of it. A body says with it which message
//! stood where a chunk was due.

use crate::json::JsonView;
use crate::message::{HeaderList, MessageView, RouterIncomingMessage};
use vstd::prelude::*;
use vstd::string::*;

verus! {

/// What std's `Debug` prints of a string: the text in double quotes, with
/// its escapes.
pub uninterp spec fn str_debug(text: Seq<char>) -> Seq<char>;

/// `<str as std::fmt::Debug>::fmt`, through `format!`. The contract claims
/// only that the outcome is a function of the text: `str_debug` names it.
#[verifier::external_body]
fn quoted(text: &str) -> (r: String)
    ensures
        r@ == str_debug(text@),
{
    format!("{:?}", text)
}

/// A digit as a text.
pub open spec fn digit_text(d: nat) -> Seq<char> {
    if d == 0 {
        "0"@
    } else if d == 1 {
        "1"@
    } else if d == 2 {
        "2"@
    } else if d == 3 {
        "3"@
    } else if d == 4 {
        "4"@
    } else if d == 5 {
        "5"@
    } else if d == 6 {
        "6"@
    } else if d == 7 {
        "7"@
    } else if d == 8 {
        "8"@
    } else {
        "9"@
    }
}

/// A number in decimal digits, without leading zeros.
pub open spec fn decimal(n: nat) -> Seq<char>
    decreases n,
{
    if n < 10 {
        digit_text(n)
    } else {
        decimal(n / 10) + digit_text(n % 10)
    }
}

/// One header of a response, as a line of its own in the list: a pair of
/// two strings.
pub open spec fn header_line(header: (Seq<char>, Seq<char>)) -> Seq<char> {
    "            (\n                "@ + str_debug(header.0) + ",\n                "@ + str_debug(
        header.1,
    ) + ",\n            ),\n"@
}

/// The lines of the headers of a response, in order.
pub open spec fn header_lines(headers: HeaderList) -> Seq<char>
    decreases headers.len(),
{
    if headers.len() == 0 {
        Seq::empty()
    } else {
        header_lines(headers.drop_last()) + header_line(headers.last())
    }
}

/// The headers of a response: a list of pairs, one to a line, and `[]`
/// where there are none.
pub open spec fn headers_debug(headers: HeaderList) -> Seq<char> {
    if headers.len() == 0 {
        "[]"@
    } else {
        "[\n"@ + header_lines(headers) + "        ]"@
    }
}

/// One byte of a body chunk, as a line of its own in the list.
pub open spec fn byte_line(byte: u8) -> Seq<char> {
    "        "@ + decimal(byte as nat) + ",\n"@
}

/// The lines of the bytes of a body chunk, in order.
pub open spec fn byte_lines(bytes: Seq<u8>) -> Seq<char>
    decreases bytes.len(),
{
    if bytes.len() == 0 {
        Seq::empty()
    } else {
        byte_lines(bytes.drop_last()) + byte_line(bytes.last())
    }
}

/// The bytes of a body chunk: a list of numbers, one to a line, and `[]`
/// where there are none.
pub open spec fn bytes_debug(bytes: Seq<u8>) -> Seq<char> {
    if bytes.len() == 0 {
        "[]"@
    } else {
        "[\n"@ + byte_lines(bytes) + "    ]"@
    }
}

/// What stands for the details of an error report. They are not shown.
pub closed spec fn error_details_debug(details: JsonView) -> Seq<char> {
    "StructuredError { .. }"@
}

/// The debug form of a message: its variant, with the payload field by
/// field. The message that passes a request through is `None`. Of an error
/// report this says that it is `Error(`, the details indented on lines of
/// their own, and `)`.
pub open spec fn message_debug(message: MessageView) -> Seq<char> {
    match message {
        MessageView::Rewrite(data) => "Rewrite {\n    data: RewriteResponse {\n        url: "@
            + str_debug(data.url) + ",\n        headers: "@ + headers_debug(data.headers)
            + ",\n    },\n}"@,
        MessageView::MiddlewareHeaders(data) =>
            "MiddlewareHeaders {\n    data: MiddlewareHeadersResponse {\n        status_code: "@
            + decimal(data.status_code as nat) + ",\n        headers: "@ + headers_debug(
            data.headers,
        ) + ",\n    },\n}"@,
        MessageView::MiddlewareBody(data) => "MiddlewareBody {\n    data: "@ + bytes_debug(data)
            + ",\n}"@,
        MessageView::PassThrough => "None"@,
        MessageView::Error(details) => "Error(\n    "@ + error_details_debug(details) + ",\n)"@,
    }
}

/// A digit as a text.
fn digit(d: u64) -> (r: &'static str)
    requires
        d < 10,
    ensures
        r@ == digit_text(d as nat),
{
    if d == 0 {
        "0"
    } else if d == 1 {
        "1"
    } else if d == 2 {
        "2"
    } else if d == 3 {
        "3"
    } else if d == 4 {
        "4"
    } else if d == 5 {
        "5"
    } else if d == 6 {
        "6"
    } else if d == 7 {
        "7"
    } else if d == 8 {
        "8"
    } else {
        "9"
    }
}

/// Writes a number in decimal digits.
fn decimal_text(n: u64) -> (r: String)
    ensures
        r@ == decimal(n as nat),
    decreases n,
{
    if n < 10 {
        digit(n).to_owned()
    } else {
        let mut text = decimal_text(n / 10);
        text.append(digit(n % 10));
        text
    }
}

/// Writes the headers of a response.
fn headers_debug_text(headers: &Vec<(String, String)>) -> (r: String)
    ensures
        r@ == headers_debug(headers.deep_view()),
{
    if headers.len() == 0 {
        return "[]".to_owned();
    }
    let ghost list = headers.deep_view();
    let mut text = "[\n".to_owned();
    let mut i: usize = 0;
    assert(text@ =~= "[\n"@ + header_lines(list.take(0)));
    while i < headers.len()
        invariant
            i <= headers.len(),
            list == headers.deep_view(),
            text@ == "[\n"@ + header_lines(list.take(i as int)),
        decreases headers.len() - i,
    {
        let ghost before = text@;
        let name = quoted(headers[i].0.as_str());
        let value = quoted(headers[i].1.as_str());
        text.append("            (\n                ");
        text.append(name.as_str());
        text.append(",\n                ");
        text.append(value.as_str());
        text.append(",\n            ),\n");
        proof {
            let next = list.take(i as int + 1);
            assert(next.drop_last() == list.take(i as int));
            assert(next.last() == list[i as int]);
            assert(list[i as int] == (headers@[i as int].0@, headers@[i as int].1@));
            assert(text@ =~= before + header_line(list[i as int]));
            assert(text@ =~= "[\n"@ + header_lines(next));
        }
        i += 1;
    }
    assert(list.take(headers@.len() as int) == list);
    text.append("        ]");
    text
}

/// Writes the bytes of a body chunk.
fn bytes_debug_text(bytes: &Vec<u8>) -> (r: String)
    ensures
        r@ == bytes_debug(bytes@),
{
    if bytes.len() == 0 {
        return "[]".to_owned();
    }
    let mut text = "[\n".to_owned();
    let mut i: usize = 0;
    assert(text@ =~= "[\n"@ + byte_lines(bytes@.take(0)));
    while i < bytes.len()
        invariant
            i <= bytes.len(),
            text@ == "[\n"@ + byte_lines(bytes@.take(i as int)),
        decreases bytes.len() - i,
    {
        let ghost before = text@;
        let number = decimal_text(bytes[i] as u64);
        text.append("        ");
        text.append(number.as_str());
        text.append(",\n");
        proof {
            let next = bytes@.take(i as int + 1);
            assert(next.drop_last() == bytes@.take(i as int));
            assert(next.last() == bytes@[i as int]);
            assert(text@ =~= before + byte_line(bytes@[i as int]));
            assert(text@ =~= "[\n"@ + byte_lines(next));
        }
        i += 1;
    }
    assert(bytes@.take(bytes@.len() as int) == bytes@);
    text.append("    ]");
    text
}

impl RouterIncomingMessage {
    /// Writes the debug form of this message.
    pub fn debug_text(&self) -> (text: String)
        ensures
            text@ == message_debug(self@),
    {
        match self {
            RouterIncomingMessage::Rewrite { data } => {
                let url = quoted(data.url.as_str());
                let headers = headers_debug_text(&data.headers);
                let mut text = "Rewrite {\n    data: RewriteResponse {\n        url: ".to_owned();
                text.append(url.as_str());
                text.append(",\n        headers: ");
                text.append(headers.as_str());
                text.append(",\n    },\n}");
                text
            },
            RouterIncomingMessage::MiddlewareHeaders { data } => {
                let status = decimal_text(data.status_code as u64);
                let headers = headers_debug_text(&data.headers);
                let mut text =
                    "MiddlewareHeaders {\n    data: MiddlewareHeadersResponse {\n        status_code: ".to_owned();
                text.append(status.as_str());
                text.append(",\n        headers: ");
                text.append(headers.as_str());
                text.append(",\n    },\n}");
                text
            },
            RouterIncomingMessage::MiddlewareBody { data } => {
                let bytes = bytes_debug_text(data);
                let mut text = "MiddlewareBody {\n    data: ".to_owned();
                text.append(bytes.as_str());
                text.append(",\n}");
                text
            },
            RouterIncomingMessage::PassThrough => "None".to_owned(),
            RouterIncomingMessage::Error { .. } => {
                let mut text = "Error(\n    ".to_owned();
                text.append("StructuredError { .. }");
                text.append(",\n)");
                text
            },
        }
    }
}

/// Whatever its details, the debug form of an error report opens with
/// `Error(` and a line break, and closes with a comma, a line break and `)`.
pub proof fn error_report_is_framed(details: JsonView)
    ensures
        "Error(\n"@.is_prefix_of(message_debug(MessageView::Error(details))),
        ",\n)"@.is_suffix_of(message_debug(MessageView::Error(details))),
{
    reveal_strlit("Error(\n");
    reveal_strlit("Error(\n    ");
    reveal_strlit(",\n)");
    let text = message_debug(MessageView::Error(details));
    let head = "Error(\n    "@;
    let inner = error_details_debug(details);
    let tail = ",\n)"@;
    assert(text == head + inner + tail);
    assert(head.len() == 11);
    assert("Error(\n"@.len() == 7);
    assert(tail.len() == 3);
    assert("Error(\n"@ =~= text.subrange(0, 7)) by {
        assert forall|i: int| 0 <= i < 7 implies "Error(\n"@[i] == text[i] by {
            assert(text[i] == head[i]);
        }
    }
    assert(tail =~= text.subrange(text.len() - 3, text.len() as int));
}

} // verus!
