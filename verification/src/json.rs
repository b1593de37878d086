//! A plain model of JSON documents.
use vstd::prelude::*;

verus! {

/// A JSON document held as plain values.
///
/// A number is kept as its decimal text, the members of an object as a list
/// of names and values. A document that was read from bytes has no object
/// with two members of one name ([`JsonView::unique_names`]).
#[derive(Debug, PartialEq, Eq)]
pub enum Json {
    Null,
    Bool(bool),
    Number(String),
    String(String),
    Array(Vec<Json>),
    Object(Vec<(String, Json)>),
}

/// The mathematical value of a [`Json`] document.
pub enum JsonView {
    Null,
    Bool(bool),
    Number(Seq<char>),
    String(Seq<char>),
    Array(Seq<JsonView>),
    Object(Seq<(Seq<char>, JsonView)>),
}

/// The names of the members of an object, in order.
pub open spec fn member_names(members: Seq<(Seq<char>, JsonView)>) -> Seq<Seq<char>> {
    members.map_values(|member: (Seq<char>, JsonView)| member.0)
}

impl JsonView {
    /// No object of the document has two members of one name.
    pub open spec fn unique_names(self) -> bool
        decreases self,
    {
        match self {
            JsonView::Array(items) => forall|i: int|
                0 <= i < items.len() ==> (#[trigger] items[i]).unique_names(),
            JsonView::Object(members) => {
                &&& member_names(members).no_duplicates()
                &&& forall|i: int|
                    0 <= i < members.len() ==> (#[trigger] members[i]).1.unique_names()
            },
            _ => true,
        }
    }
}

impl Json {
    /// The value of the document.
    pub open spec fn model(&self) -> JsonView
        decreases self,
    {
        match self {
            Json::Null => JsonView::Null,
            Json::Bool(b) => JsonView::Bool(*b),
            Json::Number(text) => JsonView::Number(text@),
            Json::String(text) => JsonView::String(text@),
            Json::Array(items) => JsonView::Array(
                Seq::new(
                    items@.len(),
                    |i: int|
                        if 0 <= i < items@.len() {
                            items@[i].model()
                        } else {
                            JsonView::Null
                        },
                ),
            ),
            Json::Object(members) => JsonView::Object(
                Seq::new(
                    members@.len(),
                    |i: int|
                        if 0 <= i < members@.len() {
                            (members@[i].0@, members@[i].1.model())
                        } else {
                            (Seq::empty(), JsonView::Null)
                        },
                ),
            ),
        }
    }
}

impl Clone for Json {
    /// A copy with the same value.
    fn clone(&self) -> (copy: Json)
        ensures
            copy.model() == self.model(),
        decreases self,
    {
        match self {
            Json::Null => Json::Null,
            Json::Bool(b) => Json::Bool(*b),
            Json::Number(text) => Json::Number(text.clone()),
            Json::String(text) => Json::String(text.clone()),
            Json::Array(items) => {
                let mut copies: Vec<Json> = Vec::new();
                let mut i: usize = 0;
                while i < items.len()
                    invariant
                        self is Array && self->Array_0 == *items,
                        i <= items.len(),
                        copies.len() == i,
                        forall|k: int| 0 <= k < i ==> copies@[k].model() == items@[k].model(),
                    decreases items.len() - i,
                {
                    copies.push(items[i].clone());
                    i += 1;
                }
                let copy = Json::Array(copies);
                assert(copy.model()->Array_0 =~= self.model()->Array_0);
                copy
            },
            Json::Object(members) => {
                let mut copies: Vec<(String, Json)> = Vec::new();
                let mut i: usize = 0;
                while i < members.len()
                    invariant
                        self is Object && self->Object_0 == *members,
                        i <= members.len(),
                        copies.len() == i,
                        forall|k: int| 0 <= k < i ==> copies@[k].0@ == members@[k].0@
                            && copies@[k].1.model() == members@[k].1.model(),
                    decreases members.len() - i,
                {
                    copies.push((members[i].0.clone(), members[i].1.clone()));
                    i += 1;
                }
                let copy = Json::Object(copies);
                assert(copy.model()->Object_0 =~= self.model()->Object_0);
                copy
            },
        }
    }
}

/// The JSON value of `serde_json`.
#[verifier::external_type_specification]
#[verifier::external_body]
pub struct ExValue(serde_json::Value);

/// The error of `serde_json`.
#[verifier::external_type_specification]
#[verifier::external_body]
pub struct ExError(serde_json::Error);

/// The JSON document that the bytes spell, as `serde_json::from_slice` reads
/// them; `None` where it reads none.
pub uninterp spec fn json_of_bytes(bytes: Seq<u8>) -> Option<JsonView>;

/// The document that a `serde_json::Value` holds.
pub uninterp spec fn value_model(value: serde_json::Value) -> JsonView;

/// Calls `serde_json::from_slice` for a `serde_json::Value`.
///
/// Believed, not proved: whether the call succeeds, and the document that
/// the value then holds, depend on the bytes alone.
#[verifier::external_body]
fn bytes_to_json(bytes: &Vec<u8>) -> (parsed: Result<serde_json::Value, serde_json::Error>)
    ensures
        match parsed {
            Ok(value) => json_of_bytes(bytes@) == Some(value_model(value)),
            Err(_) => json_of_bytes(bytes@) is None,
        },
{
    serde_json::from_slice(bytes)
}

/// A `serde_json::Value` taken apart by one level: what it holds, with the
/// items of an array and the values of an object still as they are.
enum Unpacked<'a> {
    Null,
    Bool(bool),
    Number(String),
    String(String),
    Array(Vec<&'a serde_json::Value>),
    Object(Vec<(&'a String, &'a serde_json::Value)>),
}

/// The document that the parts of a value make up.
spec fn unpacked_model(parts: Unpacked) -> JsonView {
    match parts {
        Unpacked::Null => JsonView::Null,
        Unpacked::Bool(b) => JsonView::Bool(b),
        Unpacked::Number(text) => JsonView::Number(text@),
        Unpacked::String(text) => JsonView::String(text@),
        Unpacked::Array(items) => JsonView::Array(
            items@.map_values(|item: &serde_json::Value| value_model(*item)),
        ),
        Unpacked::Object(members) => JsonView::Object(
            members@.map_values(
                |member: (&String, &serde_json::Value)| (member.0@, value_model(*member.1)),
            ),
        ),
    }
}

/// The names of the members of the parts of an object differ from one
/// another.
spec fn unpacked_names_differ(parts: Unpacked) -> bool {
    parts matches Unpacked::Object(members) ==> members@.map_values(
        |member: (&String, &serde_json::Value)| member.0@,
    ).no_duplicates()
}

/// Tells the variants of `serde_json::Value` apart, and hands out what the
/// variant holds: a number as the text that `serde_json::Number` displays,
/// the members of an object in the order in which `serde_json::Map` iterates.
///
/// Believed, not proved: the document of the value is made up of what is
/// handed out, the items of an array and the values of an object standing for
/// their own documents; and the members of an object, which a map holds by
/// their names, differ in their names.
#[verifier::external_body]
fn unpack<'a>(value: &'a serde_json::Value) -> (parts: Unpacked<'a>)
    ensures
        value_model(*value) == unpacked_model(parts),
        unpacked_names_differ(parts),
{
    match value {
        serde_json::Value::Null => Unpacked::Null,
        serde_json::Value::Bool(b) => Unpacked::Bool(*b),
        serde_json::Value::Number(n) => Unpacked::Number(n.to_string()),
        serde_json::Value::String(s) => Unpacked::String(s.clone()),
        serde_json::Value::Array(a) => Unpacked::Array(a.iter().collect()),
        serde_json::Value::Object(o) => Unpacked::Object(o.iter().collect()),
    }
}

/// The document that a `serde_json::Value` holds, as plain values.
fn json_from_value(value: &serde_json::Value) -> (json: Json)
    ensures
        json.model() == value_model(*value),
        json.model().unique_names(),
    decreases value_model(*value),
{
    match unpack(value) {
        Unpacked::Null => Json::Null,
        Unpacked::Bool(b) => Json::Bool(b),
        Unpacked::Number(text) => Json::Number(text),
        Unpacked::String(text) => Json::String(text),
        Unpacked::Array(items) => {
            let ghost all = value_model(*value)->Array_0;
            let mut converted: Vec<Json> = Vec::new();
            let mut i: usize = 0;
            while i < items.len()
                invariant
                    i <= items.len(),
                    value_model(*value) == JsonView::Array(all),
                    all.len() == items@.len(),
                    forall|k: int| 0 <= k < items@.len() ==> all[k] == value_model(*items@[k]),
                    converted.len() == i,
                    forall|k: int|
                        0 <= k < i ==> converted@[k].model() == all[k] && (
                        #[trigger] all[k]).unique_names(),
                decreases items.len() - i,
            {
                assert(decreases_to!(value_model(*value)->Array_0 => all[i as int]));
                converted.push(json_from_value(items[i]));
                i += 1;
            }
            let json = Json::Array(converted);
            assert(json.model()->Array_0 =~= all);
            json
        },
        Unpacked::Object(members) => {
            let ghost all = value_model(*value)->Object_0;
            let mut converted: Vec<(String, Json)> = Vec::new();
            let mut i: usize = 0;
            while i < members.len()
                invariant
                    i <= members.len(),
                    value_model(*value) == JsonView::Object(all),
                    all.len() == members@.len(),
                    forall|k: int|
                        0 <= k < members@.len() ==> all[k] == (
                            members@[k].0@,
                            value_model(*members@[k].1),
                        ),
                    converted.len() == i,
                    forall|k: int|
                        0 <= k < i ==> converted@[k].0@ == all[k].0 && converted@[k].1.model()
                            == all[k].1 && (#[trigger] all[k]).1.unique_names(),
                decreases members.len() - i,
            {
                assert(decreases_to!(value_model(*value)->Object_0 => all[i as int]));
                converted.push((members[i].0.clone(), json_from_value(members[i].1)));
                i += 1;
            }
            let json = Json::Object(converted);
            assert(json.model()->Object_0 =~= all);
            assert(member_names(all) =~= members@.map_values(
                |member: (&String, &serde_json::Value)| member.0@,
            ));
            json
        },
    }
}

/// Reads the bytes as a JSON document.
pub fn parse_json(bytes: &Vec<u8>) -> (parsed: Option<Json>)
    ensures
        match parsed {
            Some(json) => json_of_bytes(bytes@) == Some(json.model()) && json.model().unique_names(),
            None => json_of_bytes(bytes@) is None,
        },
{
    match bytes_to_json(bytes) {
        Ok(value) => Some(json_from_value(&value)),
        Err(_) => None,
    }
}

/// The values of the members of an object, or of the fields that a record
/// keeps as it found them.
pub open spec fn members_model(members: Seq<(String, Json)>) -> Seq<(Seq<char>, JsonView)> {
    Seq::new(members.len(), |i: int| (members[i].0@, members[i].1.model()))
}

} // verus!
