//! JSON documents as plain values.
//!
//! Parsing is left to `serde_json`. What it produces is turned, node by node,
//! into a [`JsonValue`], and everything the library then reads from a document
//! is read from that value by verified code.
use crate::text::str_eq;
use vstd::string::*;
use vstd::prelude::*;

verus! {

/// Makes `serde_json::Value` known as a type. Nothing is seen of what a
/// value holds.
#[verifier::external_type_specification]
#[verifier::external_body]
pub struct ExSerdeValue(serde_json::Value);

/// Makes `serde_json::Error` known as a type. Nothing is seen of what an
/// error holds.
#[verifier::external_type_specification]
#[verifier::external_body]
pub struct ExSerdeError(serde_json::Error);

/// A JSON document. A number is kept as the decimal text that `serde_json`
/// prints for it; the members of an object are kept in the order in which
/// `serde_json` walks them.
#[derive(Debug)]
pub enum JsonValue {
    Null,
    Bool(bool),
    Number(String),
    String(String),
    Array(Vec<JsonValue>),
    Object(Vec<(String, JsonValue)>),
}

/// The document that `serde_json::from_str` reads from `text`, or `None` where
/// it rejects the text.
pub uninterp spec fn json_document(text: Seq<char>) -> Option<JsonValue>;

/// What a `serde_json::Value` holds, as a value of this library.
pub uninterp spec fn json_model(value: serde_json::Value) -> JsonValue;

/// Calls `serde_json::from_str` for a `serde_json::Value`. The call succeeds
/// exactly on the texts that have a document, and the value it gives holds
/// that document.
#[verifier::external_body]
fn read_document(text: &str) -> (r: Result<serde_json::Value, serde_json::Error>)
    ensures
        r matches Ok(value) ==> json_document(text@) == Some(json_model(value)),
        r is Err ==> json_document(text@) is None,
{
    serde_json::from_str::<serde_json::Value>(text)
}

/// Copies a `serde_json::Value` into a [`JsonValue`], variant by variant. A
/// number is copied as the text of its `Display` form.
#[verifier::external_body]
fn model_of(value: &serde_json::Value) -> (model: JsonValue)
    ensures
        model == json_model(*value),
{
    match value {
        serde_json::Value::Null => JsonValue::Null,
        serde_json::Value::Bool(b) => JsonValue::Bool(*b),
        serde_json::Value::Number(n) => JsonValue::Number(n.to_string()),
        serde_json::Value::String(s) => JsonValue::String(s.clone()),
        serde_json::Value::Array(items) => JsonValue::Array(items.iter().map(model_of).collect()),
        serde_json::Value::Object(members) => JsonValue::Object(
            members.iter().map(|(k, v)| (k.clone(), model_of(v))).collect(),
        ),
    }
}

/// The message of a `serde_json::Error`, as its `Display` form gives it.
/// Nothing is claimed of the text.
#[verifier::external_body]
fn error_text(error: &serde_json::Error) -> String {
    error.to_string()
}

/// Why a text is no JSON document. The detail is the parser's own message and
/// is kept for display only.
#[derive(Debug)]
pub struct JsonError {
    pub detail: String,
}

/// The value of the first member of `members` named `key`.
pub open spec fn lookup(members: Seq<(String, JsonValue)>, key: Seq<char>) -> Option<JsonValue>
    decreases members.len(),
{
    if members.len() == 0 {
        None
    } else if members[0].0@ == key {
        Some(members[0].1)
    } else {
        lookup(members.skip(1), key)
    }
}

/// Looking a name up in a row of members that has one more member at its
/// end: what was found before is found still, and the new member is found
/// under its name if nothing was.
pub proof fn lemma_lookup_push(
    members: Seq<(String, JsonValue)>,
    member: (String, JsonValue),
    key: Seq<char>,
)
    ensures
        lookup(members.push(member), key) == if lookup(members, key) is None && member.0@ == key {
            Some(member.1)
        } else {
            lookup(members, key)
        },
    decreases members.len(),
{
    let grown = members.push(member);
    reveal_with_fuel(lookup, 2);
    if members.len() > 0 {
        assert(grown.skip(1) =~= members.skip(1).push(member));
        lemma_lookup_push(members.skip(1), member, key);
    }
}

impl JsonValue {
    /// The member `key` of an object; `None` for a missing member and for
    /// anything that is no object.
    pub open spec fn member(self, key: Seq<char>) -> Option<JsonValue> {
        match self {
            JsonValue::Object(members) => lookup(members@, key),
            _ => None,
        }
    }

    /// The text of a string; `None` for anything else.
    pub open spec fn text(self) -> Option<Seq<char>> {
        match self {
            JsonValue::String(s) => Some(s@),
            _ => None,
        }
    }

    /// The text of the string member `key`, if the value is an object that has
    /// such a member and the member is a string.
    pub open spec fn text_member(self, key: Seq<char>) -> Option<Seq<char>> {
        match self.member(key) {
            Some(value) => value.text(),
            None => None,
        }
    }

    /// The texts of a row of values; a value that is no string counts as the
    /// empty text.
    pub open spec fn texts_of(items: Seq<JsonValue>) -> Seq<Seq<char>> {
        items.map_values(
            |item: JsonValue|
                match item.text() {
                    Some(text) => text,
                    None => Seq::empty(),
                },
        )
    }

    /// The number of members of an object; zero for anything else.
    pub open spec fn size(self) -> nat {
        match self {
            JsonValue::Object(members) => members@.len(),
            _ => 0,
        }
    }

    /// The string `text`.
    pub fn string(text: &str) -> (value: JsonValue)
        ensures
            value.text() == Some(text@),
    {
        JsonValue::String(String::from_str(text))
    }

    /// An object without members.
    pub fn object() -> (value: JsonValue)
        ensures
            value is Object,
            value.size() == 0,
            forall|key: Seq<char>| value.member(key) is None,
    {
        JsonValue::Object(Vec::new())
    }

    /// The object with one more member, `key`, at its end. A member that the
    /// object has already stays the one that is found under its name. A value
    /// that is no object is handed back as it is.
    pub fn with(self, key: &str, value: JsonValue) -> (r: JsonValue)
        ensures
            !(self is Object) ==> r == self,
            self is Object ==> r is Object && r.size() == self.size() + 1,
            forall|k: Seq<char>|
                self is Object ==> #[trigger] r.member(k) == if self.member(k) is None && k
                    == key@ {
                    Some(value)
                } else {
                    self.member(k)
                },
    {
        match self {
            JsonValue::Object(members) => {
                let mut members = members;
                let ghost before = members@;
                let name = String::from_str(key);
                members.push((name, value));
                proof {
                    assert forall|k: Seq<char>|
                        #[trigger] lookup(members@, k) == if lookup(before, k) is None && k
                            == key@ {
                            Some(value)
                        } else {
                            lookup(before, k)
                        } by {
                        lemma_lookup_push(before, (name, value), k);
                    }
                }
                JsonValue::Object(members)
            },
            other => other,
        }
    }

    /// Reads a document. Succeeds exactly where `serde_json` accepts the text.
    pub fn parse(text: &str) -> (r: Result<JsonValue, JsonError>)
        ensures
            match r {
                Ok(value) => json_document(text@) == Some(value),
                Err(_) => json_document(text@) is None,
            },
    {
        match read_document(text) {
            Ok(value) => Ok(model_of(&value)),
            Err(error) => Err(JsonError { detail: error_text(&error) }),
        }
    }

    /// The member `key` of an object.
    pub fn get(&self, key: &str) -> (r: Option<&JsonValue>)
        ensures
            match r {
                Some(value) => self.member(key@) == Some(*value),
                None => self.member(key@) is None,
            },
    {
        match self {
            JsonValue::Object(members) => {
                let mut i: usize = 0;
                proof {
                    assert(members@.skip(0) =~= members@);
                }
                while i < members.len()
                    invariant
                        i <= members.len(),
                        self.member(key@) == lookup(members@.skip(i as int), key@),
                    decreases members.len() - i,
                {
                    proof {
                        assert(members@.skip(i as int).skip(1) =~= members@.skip(i + 1));
                    }
                    if str_eq(members[i].0.as_str(), key) {
                        return Some(&members[i].1);
                    }
                    i += 1;
                }
                None
            },
            _ => None,
        }
    }

    /// The text of a string.
    pub fn as_str(&self) -> (r: Option<&str>)
        ensures
            match r {
                Some(s) => self.text() == Some(s@),
                None => self.text() is None,
            },
    {
        match self {
            JsonValue::String(s) => Some(s.as_str()),
            _ => None,
        }
    }

    /// The text of the string member `key`.
    pub fn get_str(&self, key: &str) -> (r: Option<&str>)
        ensures
            match r {
                Some(s) => self.text_member(key@) == Some(s@),
                None => self.text_member(key@) is None,
            },
    {
        match self.get(key) {
            Some(value) => value.as_str(),
            None => None,
        }
    }

    /// Whether the value is an object with a member `key`.
    pub fn contains_key(&self, key: &str) -> (found: bool)
        ensures
            found == self.member(key@).is_some(),
    {
        self.get(key).is_some()
    }
}

} // verus!
