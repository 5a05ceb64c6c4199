//! JSON documents, as `serde_json` reads them.
use vstd::prelude::*;

verus! {

/// What a JSON value is.
pub enum JsonView {
    Null,
    Bool(bool),
    /// A number, with its value where that is an integer of 64 bits and a sign.
    Number(Option<i64>),
    Text(Seq<char>),
    Array(Seq<JsonView>),
    Object(Map<Seq<char>, JsonView>),
}

impl JsonView {
    pub open spec fn text(self) -> Option<Seq<char>> {
        match self {
            JsonView::Text(text) => Some(text),
            _ => None,
        }
    }

    pub open spec fn integer(self) -> Option<i64> {
        match self {
            JsonView::Number(integer) => integer,
            _ => None,
        }
    }

    /// What an object holds under a key.
    pub open spec fn member(self, key: Seq<char>) -> Option<JsonView> {
        match self {
            JsonView::Object(members) => if members.contains_key(key) {
                Some(members[key])
            } else {
                None
            },
            _ => None,
        }
    }

    /// The text that an object holds under a key.
    pub open spec fn member_text(self, key: Seq<char>) -> Option<Seq<char>> {
        match self.member(key) {
            Some(value) => value.text(),
            None => None,
        }
    }

    pub open spec fn member_integer(self, key: Seq<char>) -> Option<i64> {
        match self.member(key) {
            Some(value) => value.integer(),
            None => None,
        }
    }
}

/// `serde_json::Value`, held as it is.
#[verifier::external_type_specification]
#[verifier::external_body]
pub struct ExJsonValue(serde_json::Value);

/// What a `serde_json::Value` holds.
pub uninterp spec fn json_of(value: serde_json::Value) -> JsonView;

/// What `serde_json::from_slice` reads bytes as, where they are a JSON document.
pub uninterp spec fn json_document(bytes: Seq<u8>) -> Option<JsonView>;

/// The JSON string, quotes and escapes included, that `serde_json` writes a text as.
pub uninterp spec fn json_quoted(text: Seq<char>) -> Seq<char>;

/// `serde_json::from_slice` into a `Value`: the value of the document, or nothing where the bytes are
/// no JSON document.
#[verifier::external_body]
pub(crate) fn parse_json(bytes: &[u8]) -> (value: Option<serde_json::Value>)
    ensures
        match value {
            Some(parsed) => json_document(bytes@) == Some(json_of(parsed)),
            None => json_document(bytes@) is None,
        },
{
    serde_json::from_slice(bytes).ok()
}

/// `serde_json::Value::get` with a text: what an object holds under the key; nothing, where the key
/// is missing or the value is no object.
#[verifier::external_body]
pub(crate) fn json_get<'a>(value: &'a serde_json::Value, key: &str) -> (member: Option<
    &'a serde_json::Value,
>)
    ensures
        match member {
            Some(found) => json_of(*value).member(key@) == Some(json_of(*found)),
            None => json_of(*value).member(key@) is None,
        },
{
    value.get(key)
}

/// `serde_json::Value::as_str`: the text of a JSON string, and of nothing else.
#[verifier::external_body]
pub(crate) fn json_text(value: &serde_json::Value) -> (text: Option<&str>)
    ensures
        match text {
            Some(found) => json_of(*value).text() == Some(found@),
            None => json_of(*value).text() is None,
        },
{
    value.as_str()
}

/// `serde_json::Value::as_i64`: the value of a number that is an integer in range, and of nothing
/// else.
#[verifier::external_body]
pub(crate) fn json_integer(value: &serde_json::Value) -> (integer: Option<i64>)
    ensures
        integer == json_of(*value).integer(),
{
    value.as_i64()
}

/// `serde_json::Value::as_array`: the items of an array, in order, and of nothing else.
#[verifier::external_body]
pub(crate) fn json_items(value: &serde_json::Value) -> (items: Option<&Vec<serde_json::Value>>)
    ensures
        match items {
            Some(found) => json_of(*value) matches JsonView::Array(views) && views.len()
                == found@.len() && forall|i: int|
                0 <= i < views.len() ==> #[trigger] json_of(found@[i]) == views[i],
            None => !(json_of(*value) is Array),
        },
{
    value.as_array()
}

/// The text of a JSON string value, as `serde_json::Value` displays it.
#[verifier::external_body]
pub(crate) fn quote_json(text: &str) -> (quoted: String)
    ensures
        quoted@ == json_quoted(text@),
{
    serde_json::Value::String(text.to_owned()).to_string()
}

/// The text that a value holds under a key.
pub fn member_text<'a>(value: &'a serde_json::Value, key: &str) -> (text: Option<&'a str>)
    ensures
        match text {
            Some(found) => json_of(*value).member_text(key@) == Some(found@),
            None => json_of(*value).member_text(key@) is None,
        },
{
    match json_get(value, key) {
        Some(member) => json_text(member),
        None => None,
    }
}

pub fn member_integer(value: &serde_json::Value, key: &str) -> (integer: Option<i64>)
    ensures
        integer == json_of(*value).member_integer(key@),
{
    match json_get(value, key) {
        Some(member) => json_integer(member),
        None => None,
    }
}

/// Whether a byte is white space: a space, a tab, or the end of a line or page.
pub open spec fn is_space(byte: u8) -> bool {
    byte == 32 || byte == 9 || byte == 10 || byte == 12 || byte == 13
}

/// Whether the first byte that is no white space is an opening bracket.
pub open spec fn starts_with_bracket(bytes: Seq<u8>) -> bool {
    exists|i: int|
        0 <= i < bytes.len() && #[trigger] bytes[i] == 91 && forall|j: int|
            0 <= j < i ==> is_space(#[trigger] bytes[j])
}

pub fn looks_like_array(bytes: &[u8]) -> (array: bool)
    ensures
        array == starts_with_bracket(bytes@),
{
    let mut index: usize = 0;
    while index < bytes.len()
        invariant
            index <= bytes@.len(),
            forall|j: int| 0 <= j < index ==> is_space(#[trigger] bytes@[j]),
        decreases bytes@.len() - index,
    {
        let byte: u8 = bytes[index];
        if !(byte == 32 || byte == 9 || byte == 10 || byte == 12 || byte == 13) {
            proof {
                if byte != 91 {
                    assert forall|i: int| 0 <= i < bytes@.len() && #[trigger] bytes@[i] == 91 implies exists|
                        j: int,
                    |
                        0 <= j < i && !is_space(#[trigger] bytes@[j]) by {
                        if i > index {
                            assert(!is_space(bytes@[index as int]));
                        } else if i < index {
                            assert(is_space(bytes@[i]));
                        }
                    }
                } else {
                    assert(bytes@[index as int] == 91);
                }
            }
            return byte == 91;
        }
        index += 1;
    }
    proof {
        assert forall|i: int| 0 <= i < bytes@.len() implies #[trigger] bytes@[i] != 91 by {
            assert(is_space(bytes@[i]));
        }
    }
    false
}

/// The text of one entry of a JSON object.
pub open spec fn entry(name: Seq<char>, value: Seq<char>) -> Seq<char> {
    seq!['"'] + name + seq!['"', ':'] + value
}

/// The text of a JSON string that needs no escapes.
pub open spec fn plain(text: Seq<char>) -> Seq<char> {
    seq!['"'] + text + seq!['"']
}

/// Whether an object says a text under a key.
pub open spec fn says(members: Map<Seq<char>, JsonView>, key: Seq<char>, text: Seq<char>) -> bool {
    members.contains_key(key) && members[key] == JsonView::Text(text)
}

/// A document looks like an array exactly where an opening bracket is what first follows its white
/// space: blanks, tabs, line feeds, form feeds and carriage returns. One of white space alone does
/// not.
pub proof fn law_arrays_open_with_a_bracket(space: Seq<u8>, byte: u8, rest: Seq<u8>)
    requires
        forall|i: int|
            0 <= i < space.len() ==> #[trigger] space[i] == 0x20 || space[i] == 0x09 || space[i]
                == 0x0a || space[i] == 0x0c || space[i] == 0x0d,
        byte != 0x20 && byte != 0x09 && byte != 0x0a && byte != 0x0c && byte != 0x0d,
    ensures
        starts_with_bracket(space.push(byte) + rest) <==> byte == 0x5b,
        !starts_with_bracket(space),
{
    let bytes = space.push(byte) + rest;
    assert(bytes[space.len() as int] == byte);
    assert forall|j: int| 0 <= j < space.len() implies is_space(#[trigger] bytes[j]) by {
        assert(bytes[j] == space[j]);
    }
    if byte != 0x5b && starts_with_bracket(bytes) {
        let i = choose|i: int|
            0 <= i < bytes.len() && #[trigger] bytes[i] == 91 && forall|j: int|
                0 <= j < i ==> is_space(#[trigger] bytes[j]);
        if i < space.len() {
            assert(is_space(bytes[i]));
        } else if i > space.len() {
            assert(is_space(bytes[space.len() as int]));
        }
    }
}

/// What an object says under a key is what stands there, and only an object says anything; a text is
/// only a text, and an integer only an integer.
pub proof fn law_members(
    members: Map<Seq<char>, JsonView>,
    key: Seq<char>,
    text: Seq<char>,
    number: i64,
    other: JsonView,
)
    ensures
        JsonView::Object(members).member(key) is Some <==> members.contains_key(key),
        members.contains_key(key) ==> JsonView::Object(members).member(key) == Some(members[key]),
        JsonView::Object(members).member_text(key) == Some(text) <==> says(members, key, text),
        JsonView::Object(members).member_integer(key) == Some(number) <==> members.contains_key(key)
            && members[key] == JsonView::Number(Some(number)),
        !(other is Object) ==> other.member(key) is None && other.member_text(key) is None
            && other.member_integer(key) is None,
        !(other is Text) ==> other.text() is None,
        !(other is Number) ==> other.integer() is None,
{
}

} // verus!
