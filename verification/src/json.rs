//! JSON documents as the routing protocol reads them.
//!
//! Parsing is `serde_json`'s work; this module holds the tree that comes out
//! of it and the few questions the protocol asks of such a tree.

use vstd::prelude::*;
use vstd::string::*;
use vstd::utf8::*;

verus! {

/// A JSON document.
#[derive(Debug, PartialEq, Eq)]
pub enum Json {
    Null,
    Bool(bool),
    /// A number. The field is its value where the number is written as a
    /// non-negative integer below 2^64, and `None` for every other number:
    /// the protocol reads no others.
    Number(Option<u64>),
    String(String),
    Array(Vec<Json>),
    /// The members of an object, in the order in which they are held.
    Object(Vec<(String, Json)>),
}

/// A JSON document as a mathematical value.
pub enum JsonView {
    Null,
    Bool(bool),
    Number(Option<u64>),
    String(Seq<char>),
    Array(Seq<JsonView>),
    Object(Seq<(Seq<char>, JsonView)>),
}

impl View for Json {
    type V = JsonView;

    open spec fn view(&self) -> JsonView
        decreases self,
    {
        match self {
            Json::Null => JsonView::Null,
            Json::Bool(b) => JsonView::Bool(*b),
            Json::Number(n) => JsonView::Number(*n),
            Json::String(s) => JsonView::String(s@),
            Json::Array(items) => JsonView::Array(
                Seq::new(
                    items@.len(),
                    |i: int|
                        if 0 <= i < items@.len() {
                            items@[i]@
                        } else {
                            JsonView::Null
                        },
                ),
            ),
            Json::Object(entries) => JsonView::Object(
                Seq::new(
                    entries@.len(),
                    |i: int|
                        if 0 <= i < entries@.len() {
                            (entries@[i].0@, entries@[i].1@)
                        } else {
                            (Seq::empty(), JsonView::Null)
                        },
                ),
            ),
        }
    }
}

/// A list of documents, by what each holds.
pub open spec fn documents_view(documents: Seq<Json>) -> Seq<JsonView> {
    Seq::new(documents.len(), |i: int| documents[i]@)
}

/// The members of an object, by what each holds.
pub open spec fn members_view(entries: Seq<(String, Json)>) -> Seq<(Seq<char>, JsonView)> {
    Seq::new(entries.len(), |i: int| (entries[i].0@, entries[i].1@))
}

/// An array holds what its items hold, in order.
pub proof fn array_view(items: Vec<Json>)
    ensures
        Json::Array(items)@ == JsonView::Array(documents_view(items@)),
{
    reveal_with_fuel(<Json as View>::view, 2);
    assert(Json::Array(items)@->Array_0 =~= documents_view(items@));
}

/// An object holds what its members hold, in order.
pub proof fn object_view(entries: Vec<(String, Json)>)
    ensures
        Json::Object(entries)@ == JsonView::Object(members_view(entries@)),
{
    reveal_with_fuel(<Json as View>::view, 2);
    assert(Json::Object(entries)@->Object_0 =~= members_view(entries@));
}

/// Why a sequence of bytes is not a JSON document.
#[derive(Debug, PartialEq, Eq)]
pub enum ParseError {
    /// The bytes are not UTF-8.
    InvalidUtf8,
    /// The text is not JSON; the field is the parser's message.
    InvalidJson(String),
}

/// What a [`ParseError`] says, with the parser's message as a sequence of
/// characters.
pub enum ParseFailure {
    InvalidUtf8,
    InvalidJson(Seq<char>),
}

impl View for ParseError {
    type V = ParseFailure;

    open spec fn view(&self) -> ParseFailure {
        match self {
            ParseError::InvalidUtf8 => ParseFailure::InvalidUtf8,
            ParseError::InvalidJson(message) => ParseFailure::InvalidJson(message@),
        }
    }
}

/// What a parse failure reads as.
pub open spec fn parse_failure_text(failure: ParseFailure) -> Seq<char> {
    match failure {
        ParseFailure::InvalidUtf8 => "error decoding string"@,
        ParseFailure::InvalidJson(message) => message,
    }
}

impl ParseError {
    /// This error as a text.
    pub fn message(&self) -> (text: String)
        ensures
            text@ == parse_failure_text(self@),
    {
        match self {
            ParseError::InvalidUtf8 => "error decoding string".to_owned(),
            ParseError::InvalidJson(message) => message.clone(),
        }
    }
}

/// `serde_json::Value`: what the parser hands over. It is carried to
/// [`json_of_value`], and nothing is read from it in between.
#[verifier::external_type_specification]
#[verifier::external_body]
pub struct ExValue(serde_json::Value);

/// What `serde_json::from_str` makes of a text: the document it parses to,
/// or the message of the error it reports.
pub uninterp spec fn json_document(text: Seq<char>) -> Result<JsonView, Seq<char>>;

/// The document that a `serde_json::Value` holds.
pub uninterp spec fn json_content(value: serde_json::Value) -> JsonView;

/// The compact JSON text of an array of strings, as `serde_json` writes it.
pub uninterp spec fn json_array_text(items: Seq<Seq<char>>) -> Seq<char>;

/// The first member of `entries` under `key`, if there is one.
pub open spec fn first_member(entries: Seq<(Seq<char>, JsonView)>, key: Seq<char>) -> Option<
    JsonView,
>
    decreases entries.len(),
{
    if entries.len() == 0 {
        None
    } else if entries[0].0 == key {
        Some(entries[0].1)
    } else {
        first_member(entries.drop_first(), key)
    }
}

impl JsonView {
    /// The member of an object under `key`; `None` for a missing member and
    /// for a document that is no object.
    pub open spec fn member(self, key: Seq<char>) -> Option<JsonView> {
        match self {
            JsonView::Object(entries) => first_member(entries, key),
            _ => None,
        }
    }
}

/// The document that `bytes` spell: they must be UTF-8, and the text must
/// parse.
pub open spec fn parsed(bytes: Seq<u8>) -> Result<JsonView, ParseFailure> {
    if !valid_utf8(bytes) {
        Err(ParseFailure::InvalidUtf8)
    } else {
        match json_document(decode_utf8(bytes)) {
            Ok(document) => Ok(document),
            Err(message) => Err(ParseFailure::InvalidJson(message)),
        }
    }
}

/// `std::str::from_utf8`: a text exactly when `bytes` are valid UTF-8, and
/// then the text whose bytes they are.
#[verifier::external_body]
fn text_of_bytes(bytes: &[u8]) -> (r: Option<&str>)
    ensures
        r is Some <==> valid_utf8(bytes@),
        r matches Some(text) ==> text.spec_bytes() == bytes@,
{
    std::str::from_utf8(bytes).ok()
}

/// `serde_json::from_str` at `serde_json::Value`, with the error turned into
/// its message. The contract claims only that the outcome is a function of
/// the text: `json_document` names it.
#[verifier::external_body]
fn value_of_text(text: &str) -> (r: Result<serde_json::Value, String>)
    ensures
        match r {
            Ok(value) => json_document(text@) == Ok::<JsonView, Seq<char>>(json_content(value)),
            Err(message) => json_document(text@) == Err::<JsonView, Seq<char>>(message@),
        },
{
    serde_json::from_str::<serde_json::Value>(text).map_err(|error| error.to_string())
}

/// Copies a `serde_json::Value` into a [`Json`], variant by variant:
/// `Number::as_u64` gives a number's field, and an object's members come in
/// the order in which its map hands them out. `json_content` names what the
/// copy holds.
#[verifier::external_body]
fn json_of_value(value: &serde_json::Value) -> (json: Json)
    ensures
        json@ == json_content(*value),
{
    match value {
        serde_json::Value::Null => Json::Null,
        serde_json::Value::Bool(b) => Json::Bool(*b),
        serde_json::Value::Number(n) => Json::Number(n.as_u64()),
        serde_json::Value::String(s) => Json::String(s.clone()),
        serde_json::Value::Array(items) => Json::Array(items.iter().map(json_of_value).collect()),
        serde_json::Value::Object(members) => Json::Object(
            members.iter().map(|(key, member)| (key.clone(), json_of_value(member))).collect(),
        ),
    }
}

/// Writes an array of strings as compact JSON text: `serde_json::Value`
/// made from the list, then its `Display`. `json_array_text` names the text;
/// of an empty array it is `[]`.
#[verifier::external_body]
pub(crate) fn array_text(items: &Vec<String>) -> (text: String)
    ensures
        text@ == json_array_text(items.deep_view()),
        items@.len() == 0 ==> text@ == "[]"@,
{
    serde_json::Value::from(items.clone()).to_string()
}

impl Json {
    /// Parses `bytes` as one JSON document.
    pub fn parse(bytes: &[u8]) -> (r: Result<Json, ParseError>)
        ensures
            match r {
                Ok(json) => parsed(bytes@) == Ok::<JsonView, ParseFailure>(json@),
                Err(error) => parsed(bytes@) == Err::<JsonView, ParseFailure>(error@),
            },
    {
        match text_of_bytes(bytes) {
            None => Err(ParseError::InvalidUtf8),
            Some(text) => {
                proof {
                    encode_utf8_decode_utf8(text@);
                }
                match value_of_text(text) {
                    Ok(value) => Ok(json_of_value(&value)),
                    Err(message) => Err(ParseError::InvalidJson(message)),
                }
            },
        }
    }

    /// Looks up the member of an object under `key`: the first, where
    /// several have this key.
    pub fn member(&self, key: &str) -> (r: Option<&Json>)
        ensures
            match r {
                Some(found) => self@.member(key@) == Some(found@),
                None => self@.member(key@) is None,
            },
    {
        match self {
            Json::Object(entries) => {
                let wanted = key.to_owned();
                let ghost members = members_view(entries@);
                let mut i: usize = 0;
                proof {
                    object_view(*entries);
                    assert(members.subrange(0, members.len() as int) == members);
                }
                while i < entries.len()
                    invariant
                        i <= entries.len(),
                        wanted@ == key@,
                        self@ == JsonView::Object(members),
                        members.len() == entries@.len(),
                        forall|k: int|
                            0 <= k < members.len() ==> #[trigger] members[k] == (
                                entries@[k].0@,
                                entries@[k].1@,
                            ),
                        first_member(members, key@) == first_member(
                            members.subrange(i as int, members.len() as int),
                            key@,
                        ),
                    decreases entries.len() - i,
                {
                    let ghost rest = members.subrange(i as int, members.len() as int);
                    assert(rest.drop_first() == members.subrange(
                        i as int + 1,
                        members.len() as int,
                    ));
                    assert(rest[0] == members[i as int]);
                    if entries[i].0 == wanted {
                        return Some(&entries[i].1);
                    }
                    i += 1;
                }
                None
            },
            _ => None,
        }
    }
}

} // verus!
