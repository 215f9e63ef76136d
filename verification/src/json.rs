//! JSON documents as the engine sees them: command arguments, success
//! payloads and the documents that requests and scenarios are read from.

use vstd::prelude::*;

use crate::text::str_eq;

verus! {

/// A JSON document held by the engine.
///
/// A number is kept as its decimal text, so that every number a document can
/// hold passes through unchanged. An object keeps its members in document
/// order.
#[derive(Debug, PartialEq, Eq)]
pub enum Json {
    Null,
    Bool(bool),
    Number(String),
    String(String),
    Array(Vec<Json>),
    Object(Vec<(String, Json)>),
}

/// The mathematical value of a [`Json`] document.
pub enum JsonValue {
    Null,
    Bool(bool),
    Number(Seq<char>),
    String(Seq<char>),
    Array(Seq<JsonValue>),
    Object(Seq<(Seq<char>, JsonValue)>),
}

impl View for Json {
    type V = JsonValue;

    open spec fn view(&self) -> JsonValue
        decreases self,
    {
        match self {
            Json::Null => JsonValue::Null,
            Json::Bool(b) => JsonValue::Bool(*b),
            Json::Number(n) => JsonValue::Number(n@),
            Json::String(s) => JsonValue::String(s@),
            Json::Array(items) => JsonValue::Array(
                Seq::new(
                    items@.len(),
                    |i: int|
                        if 0 <= i < items@.len() {
                            proof {
                                vstd::std_specs::vec::axiom_vec_index_decreases(*items, i);
                            }
                            items[i]@
                        } else {
                            JsonValue::Null
                        },
                ),
            ),
            Json::Object(members) => JsonValue::Object(
                Seq::new(
                    members@.len(),
                    |i: int|
                        if 0 <= i < members@.len() {
                            proof {
                                vstd::std_specs::vec::axiom_vec_index_decreases(*members, i);
                            }
                            let member = members[i];
                            (member.0@, member.1@)
                        } else {
                            (Seq::<char>::empty(), JsonValue::Null)
                        },
                ),
            ),
        }
    }
}

/// The value of the first member named `key`, if there is one.
pub open spec fn lookup(members: Seq<(Seq<char>, JsonValue)>, key: Seq<char>) -> Option<JsonValue>
    decreases members.len(),
{
    if members.len() == 0 {
        None
    } else if members[0].0 == key {
        Some(members[0].1)
    } else {
        lookup(members.drop_first(), key)
    }
}

impl JsonValue {
    /// The member `key` of an object; `None` for a missing member and for
    /// every value that is not an object.
    pub open spec fn member(self, key: Seq<char>) -> Option<JsonValue> {
        match self {
            JsonValue::Object(members) => lookup(members, key),
            _ => None,
        }
    }

    /// The text of a string value; `None` for every other value.
    pub open spec fn text(self) -> Option<Seq<char>> {
        match self {
            JsonValue::String(s) => Some(s),
            _ => None,
        }
    }

    /// The text of the member `key` where that member is a string.
    pub open spec fn text_member(self, key: Seq<char>) -> Option<Seq<char>> {
        match self.member(key) {
            Some(v) => v.text(),
            None => None,
        }
    }
}

/// The view of an array holds the views of its items, in order.
pub proof fn lemma_array_view(items: Vec<Json>)
    ensures
        Json::Array(items)@ is Array,
        Json::Array(items)@->Array_0.len() == items@.len(),
        forall|k: int| 0 <= k < items@.len() ==> (#[trigger] Json::Array(items)@->Array_0[k]) == items@[k]@,
{
    reveal_with_fuel(<Json as View>::view, 2);
}

/// The view of an object holds the names and the views of its members, in
/// order.
pub proof fn lemma_object_view(members: Vec<(String, Json)>)
    ensures
        Json::Object(members)@ is Object,
        Json::Object(members)@->Object_0.len() == members@.len(),
        forall|k: int| 0 <= k < members@.len() ==> (#[trigger] Json::Object(members)@->Object_0[k]) == (
            members@[k].0@,
            members@[k].1@,
        ),
{
    reveal_with_fuel(<Json as View>::view, 2);
}

impl Json {
    /// The member `key` of an object.
    pub fn get(&self, key: &str) -> (found: Option<&Json>)
        ensures
            match found {
                Some(j) => self@.member(key@) == Some(j@),
                None => self@.member(key@) is None,
            },
    {
        match self {
            Json::Object(members) => {
                let ghost all = self@->Object_0;
                proof {
                    lemma_object_view(*members);
                    assert(all.skip(0) =~= all);
                }
                let mut i: usize = 0;
                while i < members.len()
                    invariant
                        i <= members.len(),
                        all.len() == members@.len(),
                        forall|k: int| 0 <= k < members@.len() ==> all[k] == (members@[k].0@, members@[k].1@),
                        self@.member(key@) == lookup(all, key@),
                        lookup(all, key@) == lookup(all.skip(i as int), key@),
                    decreases members.len() - i,
                {
                    let ghost rest = all.skip(i as int);
                    assert(rest.len() > 0 && rest[0] == all[i as int]);
                    assert(rest.drop_first() =~= all.skip(i + 1));
                    if str_eq(members[i].0.as_str(), key) {
                        return Some(&members[i].1);
                    }
                    i += 1;
                }
                assert(all.skip(i as int).len() == 0);
                None
            },
            _ => None,
        }
    }

    /// The text of a string value.
    pub fn as_str(&self) -> (found: Option<&str>)
        ensures
            match found {
                Some(s) => self@.text() == Some(s@),
                None => self@.text() is None,
            },
    {
        match self {
            Json::String(s) => Some(s.as_str()),
            _ => None,
        }
    }

    /// The text of the member `key` where that member is a string.
    pub fn str_member(&self, key: &str) -> (found: Option<&str>)
        ensures
            match found {
                Some(s) => self@.text_member(key@) == Some(s@),
                None => self@.text_member(key@) is None,
            },
    {
        match self.get(key) {
            Some(j) => j.as_str(),
            None => None,
        }
    }

    /// Whether the document is `null`.
    pub fn is_null(&self) -> (b: bool)
        ensures
            b == (self@ == JsonValue::Null),
    {
        match self {
            Json::Null => true,
            _ => false,
        }
    }
}

impl Clone for Json {
    fn clone(&self) -> (copy: Json)
        ensures
            copy@ == self@,
        decreases self,
    {
        match self {
            Json::Null => Json::Null,
            Json::Bool(b) => Json::Bool(*b),
            Json::Number(n) => Json::Number(n.clone()),
            Json::String(s) => Json::String(s.clone()),
            Json::Array(items) => {
                let mut out: Vec<Json> = Vec::new();
                let mut i: usize = 0;
                #[verifier::loop_isolation(false)]
                while i < items.len()
                    invariant
                        i <= items.len(),
                        out@.len() == i,
                        forall|k: int| 0 <= k < i ==> out@[k]@ == items@[k]@,
                    decreases items.len() - i,
                {
                    proof {
                        vstd::std_specs::vec::axiom_vec_index_decreases(*items, i as int);
                    }
                    let item = items[i].clone();
                    out.push(item);
                    i += 1;
                }
                let copy = Json::Array(out);
                proof {
                    lemma_array_view(out);
                    lemma_array_view(*items);
                }
                assert(copy@->Array_0 =~= self@->Array_0);
                copy
            },
            Json::Object(members) => {
                let mut out: Vec<(String, Json)> = Vec::new();
                let mut i: usize = 0;
                #[verifier::loop_isolation(false)]
                while i < members.len()
                    invariant
                        i <= members.len(),
                        out@.len() == i,
                        forall|k: int| 0 <= k < i ==> out@[k].0@ == members@[k].0@ && out@[k].1@ == members@[k].1@,
                    decreases members.len() - i,
                {
                    proof {
                        vstd::std_specs::vec::axiom_vec_index_decreases(*members, i as int);
                    }
                    let name = members[i].0.clone();
                    let value = members[i].1.clone();
                    out.push((name, value));
                    i += 1;
                }
                let copy = Json::Object(out);
                proof {
                    lemma_object_view(out);
                    lemma_object_view(*members);
                }
                assert(copy@->Object_0 =~= self@->Object_0);
                copy
            },
        }
    }
}

/// The names and values of a list of members, as an object holds them.
pub open spec fn members_view(members: Seq<(String, Json)>) -> Seq<(Seq<char>, JsonValue)> {
    Seq::new(members.len(), |i: int| (members[i].0@, members[i].1@))
}

/// An object is viewed as the list of its members.
pub proof fn lemma_object_members(members: Vec<(String, Json)>)
    ensures
        Json::Object(members)@ == JsonValue::Object(members_view(members@)),
{
    lemma_object_view(members);
    assert(Json::Object(members)@->Object_0 =~= members_view(members@));
}

/// Appends the member `name` to a list of members.
pub fn push_member(members: &mut Vec<(String, Json)>, name: &str, value: Json)
    ensures
        members_view(final(members)@) == members_view(old(members)@).push((name@, value@)),
{
    members.push((name.to_string(), value));
    assert(members_view(members@) =~= members_view(old(members)@).push((name@, value@)));
}

/// The object that holds the given members.
pub fn object_of(members: Vec<(String, Json)>) -> (j: Json)
    ensures
        j@ == JsonValue::Object(members_view(members@)),
{
    proof {
        lemma_object_members(members);
    }
    Json::Object(members)
}

/// The array of the given texts.
pub open spec fn text_array(items: Seq<Seq<char>>) -> JsonValue {
    JsonValue::Array(Seq::new(items.len(), |i: int| JsonValue::String(items[i])))
}

/// The object whose members are the given texts, under the given names.
pub open spec fn text_object(pairs: Seq<(Seq<char>, Seq<char>)>) -> JsonValue {
    JsonValue::Object(Seq::new(pairs.len(), |i: int| (pairs[i].0, JsonValue::String(pairs[i].1))))
}

/// An optional text: the text, or `null`.
pub open spec fn text_or_null(text: Option<Seq<char>>) -> JsonValue {
    match text {
        Some(t) => JsonValue::String(t),
        None => JsonValue::Null,
    }
}

/// The views of a list of texts.
pub open spec fn texts_view(items: Seq<String>) -> Seq<Seq<char>> {
    Seq::new(items.len(), |i: int| items[i]@)
}

/// The array that holds the given texts.
pub fn array_of_texts(items: &Vec<String>) -> (j: Json)
    ensures
        j@ == text_array(texts_view(items@)),
{
    let mut out: Vec<Json> = Vec::new();
    let mut i: usize = 0;
    while i < items.len()
        invariant
            i <= items.len(),
            out@.len() == i,
            forall|k: int| 0 <= k < i ==> out@[k]@ == JsonValue::String(items@[k]@),
        decreases items.len() - i,
    {
        out.push(Json::String(items[i].clone()));
        i += 1;
    }
    proof {
        lemma_array_view(out);
    }
    let j = Json::Array(out);
    assert(j@->Array_0 =~= text_array(texts_view(items@))->Array_0);
    j
}

/// The object that holds the given texts under the given names.
pub fn object_of_texts(pairs: &Vec<(String, String)>) -> (j: Json)
    ensures
        j@ == text_object(crate::host::pairs_view(pairs@)),
{
    let mut out: Vec<(String, Json)> = Vec::new();
    let mut i: usize = 0;
    while i < pairs.len()
        invariant
            i <= pairs.len(),
            out@.len() == i,
            forall|k: int| 0 <= k < i ==> out@[k].0@ == pairs@[k].0@ && out@[k].1@ == JsonValue::String(pairs@[k].1@),
        decreases pairs.len() - i,
    {
        out.push((pairs[i].0.clone(), Json::String(pairs[i].1.clone())));
        i += 1;
    }
    proof {
        lemma_object_view(out);
    }
    let j = Json::Object(out);
    assert(j@->Object_0 =~= text_object(crate::host::pairs_view(pairs@))->Object_0);
    j
}

#[verifier::external_type_specification]
#[verifier::external_body]
pub struct ExValue(serde_json::Value);

#[verifier::external_type_specification]
#[verifier::external_body]
pub struct ExJsonError(serde_json::Error);

#[verifier::external_type_specification]
#[verifier::external_body]
pub struct ExYamlError(serde_yaml::Error);

/// The document that a `serde_json::Value` holds: its scalars, the items of
/// its arrays and the members of its objects in their order, a number as
/// the text that `serde_json::Number` prints for it.
pub uninterp spec fn value_view(v: serde_json::Value) -> JsonValue;

/// The document that `serde_json::from_str` reads from a JSON text; `None`
/// for a text that it rejects.
pub uninterp spec fn json_document(text: Seq<char>) -> Option<JsonValue>;

/// The document that `serde_yaml::from_str` reads from a YAML text; `None`
/// for a text that it rejects or that has no JSON form.
pub uninterp spec fn yaml_document(text: Seq<char>) -> Option<JsonValue>;

/// Reads a JSON text.
///
/// Calls `serde_json::from_str` for a `serde_json::Value`. The parser reads
/// nothing but the text, so the contract names the outcome by the text.
#[verifier::external_body]
pub(crate) fn read_json(text: &str) -> (r: Result<serde_json::Value, serde_json::Error>)
    ensures
        match r {
            Ok(v) => json_document(text@) == Some(value_view(v)),
            Err(_) => json_document(text@) is None,
        },
{
    serde_json::from_str::<serde_json::Value>(text)
}

/// Reads a YAML text.
///
/// Calls `serde_yaml::from_str` for a `serde_json::Value`, which accepts the
/// documents that have a JSON form. The parser reads nothing but the text,
/// so the contract names the outcome by the text.
#[verifier::external_body]
pub(crate) fn read_yaml(text: &str) -> (r: Result<serde_json::Value, serde_yaml::Error>)
    ensures
        match r {
            Ok(v) => yaml_document(text@) == Some(value_view(v)),
            Err(_) => yaml_document(text@) is None,
        },
{
    serde_yaml::from_str::<serde_json::Value>(text)
}

/// The message of a `serde_json::Error`, as its `Display` impl prints it.
/// Nothing is claimed of the text.
#[verifier::external_body]
pub(crate) fn json_error_text(e: &serde_json::Error) -> (text: String) {
    e.to_string()
}

/// The message of a `serde_yaml::Error`, as its `Display` impl prints it.
/// Nothing is claimed of the text.
#[verifier::external_body]
pub(crate) fn yaml_error_text(e: &serde_yaml::Error) -> (text: String) {
    e.to_string()
}

/// Copies a `serde_json::Value` into a [`Json`], variant by variant. A number
/// is copied as the text that `serde_json::Number` prints for it.
#[verifier::external_body]
pub(crate) fn json_of_value(v: &serde_json::Value) -> (j: Json)
    ensures
        j@ == value_view(*v),
{
    match v {
        serde_json::Value::Null => Json::Null,
        serde_json::Value::Bool(b) => Json::Bool(*b),
        serde_json::Value::Number(n) => Json::Number(n.to_string()),
        serde_json::Value::String(s) => Json::String(s.clone()),
        serde_json::Value::Array(items) => Json::Array(items.iter().map(json_of_value).collect()),
        serde_json::Value::Object(members) => Json::Object(
            members.iter().map(|(k, x)| (k.clone(), json_of_value(x))).collect(),
        ),
    }
}

/// Reads a JSON text into a document; the error is the parser's message.
pub fn parse_json(text: &str) -> (r: Result<Json, String>)
    ensures
        match r {
            Ok(j) => json_document(text@) == Some(j@),
            Err(_) => json_document(text@) is None,
        },
{
    match read_json(text) {
        Ok(v) => Ok(json_of_value(&v)),
        Err(e) => Err(json_error_text(&e)),
    }
}

/// Reads a YAML text into a document; the error is the parser's message.
pub fn parse_yaml(text: &str) -> (r: Result<Json, String>)
    ensures
        match r {
            Ok(j) => yaml_document(text@) == Some(j@),
            Err(_) => yaml_document(text@) is None,
        },
{
    match read_yaml(text) {
        Ok(v) => Ok(json_of_value(&v)),
        Err(e) => Err(yaml_error_text(&e)),
    }
}

/// The views of a list of documents.
pub open spec fn items_view(items: Seq<Json>) -> Seq<JsonValue> {
    Seq::new(items.len(), |i: int| items[i]@)
}

impl Json {
    /// The items of an array.
    pub fn as_array(&self) -> (found: Option<&Vec<Json>>)
        ensures
            match found {
                Some(items) => self@ == JsonValue::Array(items_view(items@)),
                None => !(self@ is Array),
            },
    {
        match self {
            Json::Array(items) => {
                proof {
                    lemma_array_view(*items);
                    assert(self@->Array_0 =~= items_view(items@));
                }
                Some(items)
            },
            _ => None,
        }
    }

    /// The text of a number.
    pub fn as_number(&self) -> (found: Option<&str>)
        ensures
            match found {
                Some(t) => self@ == JsonValue::Number(t@),
                None => !(self@ is Number),
            },
    {
        match self {
            Json::Number(t) => Some(t.as_str()),
            _ => None,
        }
    }
}

} // verus!
