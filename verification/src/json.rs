//! A JSON document as the library reads it.
//!
//! Reading JSON text is `serde_json`'s work. What it hands back is copied
//! into [`Json`], a tree of plain values, and every lookup after that is
//! verified here.

use crate::text::same_text;
use vstd::prelude::*;

verus! {

/// A JSON value. Numbers are kept without their digits: nothing here reads them.
#[derive(Debug)]
pub enum Json {
    Null,
    Bool(bool),
    Number,
    Text(String),
    Array(Vec<Json>),
    Object(Vec<(String, Json)>),
}

/// The mathematical form of a [`Json`] value. An object is the sequence of
/// its members, each a name and a value.
pub ghost enum JsonValue {
    Null,
    Bool(bool),
    Number,
    Text(Seq<char>),
    Array(Seq<JsonValue>),
    Object(Seq<(Seq<char>, JsonValue)>),
}

/// The mathematical form of `j`.
pub open spec fn value_of(j: Json) -> JsonValue
    decreases j,
{
    match j {
        Json::Null => JsonValue::Null,
        Json::Bool(b) => JsonValue::Bool(b),
        Json::Number => JsonValue::Number,
        Json::Text(s) => JsonValue::Text(s@),
        Json::Array(items) => JsonValue::Array(
            Seq::new(
                items@.len(),
                |i: int|
                    if 0 <= i < items@.len() {
                        value_of(items@[i])
                    } else {
                        JsonValue::Null
                    },
            ),
        ),
        Json::Object(members) => JsonValue::Object(
            Seq::new(
                members@.len(),
                |i: int|
                    if 0 <= i < members@.len() {
                        (members@[i].0@, value_of(members@[i].1))
                    } else {
                        (Seq::empty(), JsonValue::Null)
                    },
            ),
        ),
    }
}

impl View for Json {
    type V = JsonValue;

    open spec fn view(&self) -> JsonValue {
        value_of(*self)
    }
}

/// What the view of an object holds.
pub proof fn lemma_object_view(j: Json)
    requires
        j is Object,
    ensures
        j@ is Object,
        j@->Object_0.len() == j->Object_0@.len(),
        forall|k: int|
            0 <= k < j->Object_0@.len() ==> #[trigger] j@->Object_0[k] == (
                j->Object_0@[k].0@,
                j->Object_0@[k].1@,
            ),
{
}

/// What the view of an array holds.
pub proof fn lemma_array_view(j: Json)
    requires
        j is Array,
    ensures
        j@ is Array,
        j@->Array_0.len() == j->Array_0@.len(),
        forall|k: int| 0 <= k < j->Array_0@.len() ==> #[trigger] j@->Array_0[k] == j->Array_0@[k]@,
{
}

/// The value of the first member named `key`.
pub open spec fn lookup(members: Seq<(Seq<char>, JsonValue)>, key: Seq<char>) -> Option<JsonValue>
    decreases members.len(),
{
    if members.len() == 0 {
        None
    } else if members[0].0 == key {
        Some(members[0].1)
    } else {
        lookup(members.drop_first(), key)
    }
}

impl JsonValue {
    /// The member `key` of an object; `None` for a missing member and for
    /// anything but an object.
    pub open spec fn member(self, key: Seq<char>) -> Option<JsonValue> {
        match self {
            JsonValue::Object(members) => lookup(members, key),
            _ => None,
        }
    }

    /// The element at `index` of an array; `None` past its end and for
    /// anything but an array.
    pub open spec fn element(self, index: int) -> Option<JsonValue> {
        match self {
            JsonValue::Array(items) => if 0 <= index < items.len() {
                Some(items[index])
            } else {
                None
            },
            _ => None,
        }
    }

    /// The elements of an array; `None` for anything else.
    pub open spec fn items(self) -> Option<Seq<JsonValue>> {
        match self {
            JsonValue::Array(items) => Some(items),
            _ => None,
        }
    }

    /// The characters of a string value; `None` for anything else.
    pub open spec fn text(self) -> Option<Seq<char>> {
        match self {
            JsonValue::Text(s) => Some(s),
            _ => None,
        }
    }

    /// The truth value of `true` or `false`; `None` for anything else.
    pub open spec fn flag(self) -> Option<bool> {
        match self {
            JsonValue::Bool(b) => Some(b),
            _ => None,
        }
    }

    /// The characters of the string member `key`; `None` where the member is
    /// missing or holds no string.
    pub open spec fn text_member(self, key: Seq<char>) -> Option<Seq<char>> {
        match self.member(key) {
            Some(value) => value.text(),
            None => None,
        }
    }

    /// The truth value of the member `key`; `None` where the member is
    /// missing or holds neither `true` nor `false`.
    pub open spec fn flag_member(self, key: Seq<char>) -> Option<bool> {
        match self.member(key) {
            Some(value) => value.flag(),
            None => None,
        }
    }
}

/// The value that `serde_json::from_str` reads from `text`, as
/// [`json_of_value`] copies it; `None` where it reports an error.
pub uninterp spec fn json_document(text: Seq<char>) -> Option<JsonValue>;

/// What a `serde_json::Value` holds: the same tree, the members of an
/// object in the order in which its map hands them out, numbers without
/// their digits.
pub uninterp spec fn value_contents(value: serde_json::Value) -> JsonValue;

/// The message of the error that `serde_json::from_str` reports on `text`.
pub uninterp spec fn json_fault(text: Seq<char>) -> Seq<char>;

/// The white space that JSON allows between its tokens.
pub open spec fn json_space(c: char) -> bool {
    c == ' ' || c == '\n' || c == '\t' || c == '\r'
}

/// Whether a JSON value can begin with `c`.
pub open spec fn opens_value(c: char) -> bool {
    c == '{' || c == '[' || c == '"' || c == '-' || ('0' <= c && c <= '9') || c == 't' || c == 'f'
        || c == 'n'
}

/// The first character of `text` that is not JSON white space.
pub open spec fn first_mark(text: Seq<char>) -> Option<char>
    decreases text.len(),
{
    if text.len() == 0 {
        None
    } else if json_space(text[0]) {
        first_mark(text.drop_first())
    } else {
        Some(text[0])
    }
}

/// Whether `text` begins, after white space, as a JSON value does.
pub open spec fn opens_json(text: Seq<char>) -> bool {
    match first_mark(text) {
        Some(c) => opens_value(c),
        None => false,
    }
}

/// The document that `text` holds: what the decoder reads from it, and
/// nothing where the text cannot begin a JSON value.
pub open spec fn document(text: Seq<char>) -> Option<JsonValue> {
    if opens_json(text) {
        json_document(text)
    } else {
        None
    }
}

#[verifier::external_type_specification]
#[verifier::external_body]
pub struct ExValue(serde_json::Value);

/// Copies a `serde_json::Value` into a [`Json`], variant by variant, and
/// so puts its contents where verified code can read them. The contract
/// only gives those contents their name.
#[verifier::external_body]
fn json_of_value(value: serde_json::Value) -> (j: Json)
    ensures
        j@ == value_contents(value),
{
    match value {
        serde_json::Value::Null => Json::Null,
        serde_json::Value::Bool(b) => Json::Bool(b),
        serde_json::Value::Number(_) => Json::Number,
        serde_json::Value::String(s) => Json::Text(s),
        serde_json::Value::Array(items) => Json::Array(
            items.into_iter().map(json_of_value).collect(),
        ),
        serde_json::Value::Object(members) => Json::Object(
            members.into_iter().map(|(k, v)| (k, json_of_value(v))).collect(),
        ),
    }
}

/// Calls `serde_json::from_str` for a `serde_json::Value`; an error comes
/// back as its message. The contract names the contents of the value read
/// and the message, both fixed by the text, and claims one thing more: the
/// decoder accepts a text only if its first character after spaces, tabs
/// and line ends is one of those with which a JSON value begins.
#[verifier::external_body]
fn read_value(text: &str) -> (r: Result<serde_json::Value, String>)
    ensures
        r matches Ok(value) ==> json_document(text@) == Some(value_contents(value)),
        r matches Err(m) ==> json_document(text@) is None && m@ == json_fault(text@),
        r is Ok ==> opens_json(text@),
{
    serde_json::from_str::<serde_json::Value>(text).map_err(|e| e.to_string())
}

impl Json {
    /// Decodes `text` as one JSON document. The error is the decoder's
    /// message.
    pub fn decode(text: &str) -> (r: Result<Json, String>)
        ensures
            match r {
                Ok(j) => document(text@) == Some(j@),
                Err(m) => document(text@) is None && m@ == json_fault(text@),
            },
    {
        match read_value(text) {
            Ok(value) => Ok(json_of_value(value)),
            Err(message) => Err(message),
        }
    }

    /// The member `key` of an object.
    pub fn member(&self, key: &str) -> (r: Option<&Json>)
        ensures
            match r {
                Some(j) => self@.member(key@) == Some(j@),
                None => self@.member(key@) is None,
            },
    {
        match self {
            Json::Object(members) => {
                let ghost all = self@->Object_0;
                let mut i: usize = 0;
                proof {
                    lemma_object_view(*self);
                    assert(all.skip(0) =~= all);
                }
                while i < members.len()
                    invariant
                        i <= members.len(),
                        self@ == JsonValue::Object(all),
                        all.len() == members@.len(),
                        forall|k: int|
                            0 <= k < members@.len() ==> #[trigger] all[k] == (
                                members@[k].0@,
                                members@[k].1@,
                            ),
                        lookup(all, key@) == lookup(all.skip(i as int), key@),
                    decreases members.len() - i,
                {
                    proof {
                        assert(all.skip(i as int)[0] == all[i as int]);
                        assert(all.skip(i as int).drop_first() =~= all.skip(i + 1));
                    }
                    if same_text(members[i].0.as_str(), key) {
                        return Some(&members[i].1);
                    }
                    i += 1;
                }
                None
            },
            _ => None,
        }
    }

    /// The element at `index` of an array.
    pub fn element(&self, index: usize) -> (r: Option<&Json>)
        ensures
            match r {
                Some(j) => self@.element(index as int) == Some(j@),
                None => self@.element(index as int) is None,
            },
    {
        match self {
            Json::Array(items) => if index < items.len() {
                proof {
                    lemma_array_view(*self);
                }
                Some(&items[index])
            } else {
                None
            },
            _ => None,
        }
    }

    /// How many elements an array has.
    pub fn length(&self) -> (r: Option<usize>)
        ensures
            match r {
                Some(n) => self@.items() is Some && self@.items()->0.len() == n,
                None => self@.items() is None,
            },
    {
        match self {
            Json::Array(items) => {
                proof {
                    lemma_array_view(*self);
                }
                Some(items.len())
            },
            _ => None,
        }
    }

    /// The characters of a string value.
    pub fn text(&self) -> (r: Option<&String>)
        ensures
            match r {
                Some(s) => self@.text() == Some(s@),
                None => self@.text() is None,
            },
    {
        match self {
            Json::Text(s) => Some(s),
            _ => None,
        }
    }

    /// The truth value of `true` or `false`.
    pub fn flag(&self) -> (r: Option<bool>)
        ensures
            r == self@.flag(),
    {
        match self {
            Json::Bool(b) => Some(*b),
            _ => None,
        }
    }

    /// Whether the value is `null`.
    pub fn is_null(&self) -> (r: bool)
        ensures
            r == (self@ is Null),
    {
        match self {
            Json::Null => true,
            _ => false,
        }
    }

    /// The truth value of the member `key`.
    pub fn flag_member(&self, key: &str) -> (r: Option<bool>)
        ensures
            r == self@.flag_member(key@),
    {
        match self.member(key) {
            Some(value) => value.flag(),
            None => None,
        }
    }

    /// The characters of the string member `key`.
    pub fn text_member(&self, key: &str) -> (r: Option<&String>)
        ensures
            match r {
                Some(s) => self@.text_member(key@) == Some(s@),
                None => self@.text_member(key@) is None,
            },
    {
        match self.member(key) {
            Some(value) => value.text(),
            None => None,
        }
    }
}

} // verus!
