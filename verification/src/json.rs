//! JSON documents as this library reads and writes them.

use crate::text::same_text;
use vstd::prelude::*;
use vstd::string::StringExecFns;

verus! {

/// A JSON document, as mathematics: text is a sequence of characters, an
/// array a sequence of documents, an object a sequence of named documents.
pub enum JsonValue {
    Null,
    Bool(bool),
    Number(Option<i64>),
    Text(Seq<char>),
    Array(Seq<JsonValue>),
    Object(Seq<(Seq<char>, JsonValue)>),
}

/// A JSON document.
///
/// A number keeps its value when it is an integer of 64 signed bits, which
/// is all this library reads; any other number is `Number(None)`.
#[derive(Debug, PartialEq, Eq)]
pub enum Json {
    Null,
    Bool(bool),
    Number(Option<i64>),
    Text(String),
    Array(Vec<Json>),
    Object(Vec<Member>),
}

/// One named entry of a JSON object.
#[derive(Debug, PartialEq, Eq)]
pub struct Member {
    pub name: String,
    pub value: Json,
}

/// What `json` holds. Every index that the two sequences are built from
/// is in range; the tests on it are there to show that the recursion ends.
pub open spec fn value_of(json: Json) -> JsonValue
    decreases json,
{
    match json {
        Json::Null => JsonValue::Null,
        Json::Bool(b) => JsonValue::Bool(b),
        Json::Number(n) => JsonValue::Number(n),
        Json::Text(s) => JsonValue::Text(s@),
        Json::Array(items) => JsonValue::Array(
            Seq::new(
                items@.len(),
                |i: int| if 0 <= i < items@.len() {
                    value_of(items@[i])
                } else {
                    JsonValue::Null
                },
            ),
        ),
        Json::Object(members) => JsonValue::Object(
            Seq::new(
                members@.len(),
                |i: int| if 0 <= i < members@.len() {
                    (members@[i].name@, value_of(members@[i].value))
                } else {
                    (Seq::empty(), JsonValue::Null)
                },
            ),
        ),
    }
}

impl View for Json {
    type V = JsonValue;

    open spec fn view(&self) -> JsonValue {
        value_of(*self)
    }
}

/// The first of `entries` that is named `name`, if there is one.
pub open spec fn lookup(entries: Seq<(Seq<char>, JsonValue)>, name: Seq<char>) -> Option<JsonValue>
    decreases entries.len(),
{
    if entries.len() == 0 {
        None
    } else if entries.first().0 == name {
        Some(entries.first().1)
    } else {
        lookup(entries.drop_first(), name)
    }
}

/// An entry is found by its name alone: putting an entry of another name
/// anywhere among `entries` changes nothing for `name`.
pub proof fn lookup_passes_over_other_names(
    entries: Seq<(Seq<char>, JsonValue)>,
    at: int,
    extra: (Seq<char>, JsonValue),
    name: Seq<char>,
)
    requires
        0 <= at <= entries.len(),
        extra.0 != name,
    ensures
        lookup(entries.insert(at, extra), name) == lookup(entries, name),
    decreases at,
{
    let longer = entries.insert(at, extra);
    if at == 0 {
        assert(longer.drop_first() =~= entries);
    } else {
        assert(longer.first() == entries.first());
        assert(longer.drop_first() =~= entries.drop_first().insert(at - 1, extra));
        lookup_passes_over_other_names(entries.drop_first(), at - 1, extra, name);
    }
}

impl JsonValue {
    /// The entry named `name` of an object; `None` where there is none or
    /// this is no object.
    pub open spec fn member(self, name: Seq<char>) -> Option<JsonValue> {
        match self {
            JsonValue::Object(entries) => lookup(entries, name),
            _ => None,
        }
    }
}

/// The view of an optional reference to a document.
pub open spec fn seen(found: Option<&Json>) -> Option<JsonValue> {
    match found {
        Some(json) => Some(json@),
        None => None,
    }
}

impl Member {
    /// The entry that names the text `value` as `name`.
    pub fn text(name: &str, value: &str) -> (r: Member)
        ensures
            r.name@ == name@,
            r.value@ == JsonValue::Text(value@),
    {
        Member { name: String::from_str(name), value: Json::Text(String::from_str(value)) }
    }
}

impl Json {
    /// The entry named `name` of an object.
    pub fn member(&self, name: &str) -> (r: Option<&Json>)
        ensures
            seen(r) == self@.member(name@),
    {
        match self {
            Json::Object(members) => {
                let ghost entries = self@->Object_0;
                assert(entries.skip(0) =~= entries);
                let mut i: usize = 0;
                while i < members.len()
                    invariant
                        i <= members.len(),
                        self@ == JsonValue::Object(entries),
                        entries.len() == members@.len(),
                        forall|k: int|
                            0 <= k < members@.len() ==> #[trigger] entries[k] == (
                                members@[k].name@,
                                members@[k].value@,
                            ),
                        lookup(entries, name@) == lookup(entries.skip(i as int), name@),
                    decreases members.len() - i,
                {
                    let member = &members[i];
                    proof {
                        assert(entries.skip(i as int).first() == entries[i as int]);
                        assert(entries.skip(i as int).drop_first() =~= entries.skip(i + 1));
                    }
                    if same_text(member.name.as_str(), name) {
                        return Some(&member.value);
                    }
                    i += 1;
                }
                None
            },
            _ => None,
        }
    }
}

} // verus!
