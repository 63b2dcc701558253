//! JSON values as the bridge sees them: trees of plain data, with the mathematical
//! value that each tree stands for.

use crate::text::{signed_decimal, signed_decimal_string, str_eq};
use serde_json::Value;
use vstd::prelude::*;

verus! {

/// One `key: value` entry of a JSON object.
#[derive(Debug, PartialEq)]
pub struct JsonMember {
    pub key: String,
    pub value: Json,
}

/// A JSON value.
///
/// A number is kept as the text it is written with, so that it passes through
/// the bridge digit for digit. An object keeps its entries in the order in
/// which they were written. Where a key occurs more than once, the last entry
/// is the one that counts.
#[derive(Debug, PartialEq)]
pub enum Json {
    Null,
    Bool(bool),
    Number(String),
    String(String),
    Array(Vec<Json>),
    Object(Vec<JsonMember>),
}

/// What a [`Json`] tree stands for.
pub enum JsonValue {
    Null,
    Bool(bool),
    Number(Seq<char>),
    String(Seq<char>),
    Array(Seq<JsonValue>),
    Object(Seq<Entry>),
}

/// What a [`JsonMember`] stands for.
pub struct Entry {
    pub key: Seq<char>,
    pub value: JsonValue,
}

impl View for Json {
    type V = JsonValue;

    open spec fn view(&self) -> JsonValue
        decreases self,
    {
        match self {
            Json::Null => JsonValue::Null,
            Json::Bool(b) => JsonValue::Bool(*b),
            Json::Number(text) => JsonValue::Number(text@),
            Json::String(s) => JsonValue::String(s@),
            Json::Array(items) => JsonValue::Array(
                Seq::new(
                    items@.len(),
                    |i: int|
                        if 0 <= i < items@.len() {
                            items@[i].view()
                        } else {
                            JsonValue::Null
                        },
                ),
            ),
            Json::Object(members) => JsonValue::Object(
                Seq::new(
                    members@.len(),
                    |i: int|
                        if 0 <= i < members@.len() {
                            Entry { key: members@[i].key@, value: members@[i].value.view() }
                        } else {
                            Entry { key: Seq::empty(), value: JsonValue::Null }
                        },
                ),
            ),
        }
    }
}

impl View for JsonMember {
    type V = Entry;

    open spec fn view(&self) -> Entry {
        Entry { key: self.key@, value: self.value@ }
    }
}

/// The entry `key: value`.
pub open spec fn entry(key: Seq<char>, value: JsonValue) -> Entry {
    Entry { key, value }
}

/// The values that a sequence of trees stands for.
pub open spec fn values_of(items: Seq<Json>) -> Seq<JsonValue> {
    Seq::new(items.len(), |i: int| items[i]@)
}

/// The entries that a sequence of members stands for.
pub open spec fn entries_of(members: Seq<JsonMember>) -> Seq<Entry> {
    Seq::new(members.len(), |i: int| members[i]@)
}

/// The value of an array is the sequence of the values of its items.
pub proof fn lemma_array_view(items: Vec<Json>)
    ensures
        Json::Array(items)@ == JsonValue::Array(values_of(items@)),
{
    assert(Json::Array(items)@->Array_0 =~= values_of(items@));
}

/// The value of an object is the sequence of its entries.
pub proof fn lemma_object_view(members: Vec<JsonMember>)
    ensures
        Json::Object(members)@ == JsonValue::Object(entries_of(members@)),
{
    assert(Json::Object(members)@->Object_0 =~= entries_of(members@));
}

/// The value at the `Ok` side of a result, with the error's message kept as
/// it is.
pub open spec fn result_text(outcome: Result<String, String>) -> Result<Seq<char>, Seq<char>> {
    match outcome {
        Ok(text) => Ok(text@),
        Err(message) => Err(message@),
    }
}

/// The value of an optional tree.
pub open spec fn option_value(tree: Option<Json>) -> Option<JsonValue> {
    match tree {
        Some(j) => Some(j@),
        None => None,
    }
}

/// The value that `entries` gives to `key`: that of the last entry with this
/// key, if there is one.
pub open spec fn lookup(entries: Seq<Entry>, key: Seq<char>) -> Option<JsonValue>
    decreases entries.len(),
{
    if entries.len() == 0 {
        None
    } else if entries.last().key == key {
        Some(entries.last().value)
    } else {
        lookup(entries.drop_last(), key)
    }
}

/// Looking a key up after one more entry: the new entry answers for its own
/// key, and the entries before it answer for every other.
pub proof fn lemma_lookup_push(entries: Seq<Entry>, last: Entry, key: Seq<char>)
    ensures
        lookup(entries.push(last), key) == if last.key == key {
            Some(last.value)
        } else {
            lookup(entries, key)
        },
{
    assert(entries.push(last).drop_last() == entries);
}

impl JsonValue {
    /// The member `key` of an object; `None` for a missing key and for every
    /// value that is no object.
    pub open spec fn get(self, key: Seq<char>) -> Option<JsonValue> {
        match self {
            JsonValue::Object(entries) => lookup(entries, key),
            _ => None,
        }
    }

    /// The text of a string; `None` for every other value.
    pub open spec fn as_str(self) -> Option<Seq<char>> {
        match self {
            JsonValue::String(s) => Some(s),
            _ => None,
        }
    }

    /// The items of an array; `None` for every other value.
    pub open spec fn as_array(self) -> Option<Seq<JsonValue>> {
        match self {
            JsonValue::Array(items) => Some(items),
            _ => None,
        }
    }

    /// The value of an integer: the number written in decimal.
    pub open spec fn integer(n: int) -> JsonValue {
        JsonValue::Number(signed_decimal(n))
    }

    /// The object without entries.
    pub open spec fn empty_object() -> JsonValue {
        JsonValue::Object(Seq::empty())
    }

    /// The object with one more entry, `key: value`, at its end. A value that
    /// is no object stays as it is.
    pub open spec fn with(self, key: Seq<char>, value: JsonValue) -> JsonValue {
        match self {
            JsonValue::Object(entries) => JsonValue::Object(entries.push(entry(key, value))),
            other => other,
        }
    }
}

impl Clone for Json {
    /// A copy of this tree.
    fn clone(&self) -> (copy: Json)
        ensures
            copy@ == self@,
        decreases self,
    {
        match self {
            Json::Null => Json::Null,
            Json::Bool(b) => Json::Bool(*b),
            Json::Number(text) => Json::Number(text.clone()),
            Json::String(s) => Json::String(s.clone()),
            Json::Array(items) => {
                let mut copies: Vec<Json> = Vec::new();
                let mut i: usize = 0;
                while i < items.len()
                    invariant
                        i <= items.len(),
                        copies@.len() == i,
                        forall|k: int| 0 <= k < i ==> copies@[k]@ == items@[k]@,
                        self is Array,
                        self->Array_0 == *items,
                    decreases items.len() - i,
                {
                    let copy = items[i].clone();
                    copies.push(copy);
                    i = i + 1;
                }
                proof {
                    lemma_array_view(*items);
                    lemma_array_view(copies);
                    assert(values_of(copies@) =~= values_of(items@));
                }
                Json::Array(copies)
            },
            Json::Object(members) => {
                let mut copies: Vec<JsonMember> = Vec::new();
                let mut i: usize = 0;
                while i < members.len()
                    invariant
                        i <= members.len(),
                        copies@.len() == i,
                        forall|k: int| 0 <= k < i ==> copies@[k]@ == members@[k]@,
                        self is Object,
                        self->Object_0 == *members,
                    decreases members.len() - i,
                {
                    let value = members[i].value.clone();
                    copies.push(JsonMember { key: members[i].key.clone(), value });
                    i = i + 1;
                }
                proof {
                    lemma_object_view(*members);
                    lemma_object_view(copies);
                    assert(entries_of(copies@) =~= entries_of(members@));
                }
                Json::Object(copies)
            },
        }
    }
}

impl Clone for JsonMember {
    fn clone(&self) -> (copy: JsonMember)
        ensures
            copy@ == self@,
    {
        JsonMember { key: self.key.clone(), value: self.value.clone() }
    }
}

impl JsonMember {
    /// The entry `key: value`.
    pub fn new(key: &str, value: Json) -> (member: JsonMember)
        ensures
            member@ == entry(key@, value@),
    {
        JsonMember { key: key.to_owned(), value }
    }
}

impl Json {
    /// The string `text`.
    pub fn string(text: &str) -> (tree: Json)
        ensures
            tree@ == JsonValue::String(text@),
    {
        Json::String(text.to_owned())
    }

    /// The integer `n`.
    pub fn integer(n: i64) -> (tree: Json)
        ensures
            tree@ == JsonValue::integer(n as int),
    {
        Json::Number(signed_decimal_string(n))
    }

    /// The array that holds `item` and nothing else.
    pub fn array_of(item: Json) -> (tree: Json)
        ensures
            tree@ == JsonValue::Array(seq![item@]),
    {
        let mut items: Vec<Json> = Vec::new();
        items.push(item);
        assert(values_of(items@) =~= seq![item@]);
        Json::array(items)
    }

    /// The array of `items`.
    pub fn array(items: Vec<Json>) -> (tree: Json)
        ensures
            tree@ == JsonValue::Array(values_of(items@)),
    {
        proof {
            lemma_array_view(items);
        }
        Json::Array(items)
    }

    /// The object with the entries `members`, in this order.
    pub fn object(members: Vec<JsonMember>) -> (tree: Json)
        ensures
            tree@ == JsonValue::Object(entries_of(members@)),
    {
        proof {
            lemma_object_view(members);
        }
        Json::Object(members)
    }

    /// The member `key` of an object, as `serde_json::Value::get` reads it:
    /// nothing for a missing key, and nothing for a value that is no object.
    pub fn get(&self, key: &str) -> (found: Option<&Json>)
        ensures
            match found {
                Some(member) => self@.get(key@) == Some(member@),
                None => self@.get(key@) is None,
            },
    {
        match self {
            Json::Object(members) => {
                proof {
                    lemma_object_view(*members);
                }
                let ghost entries = entries_of(members@);
                let mut i: usize = members.len();
                assert(entries.take(i as int) == entries);
                while i > 0
                    invariant
                        i <= members.len(),
                        entries == entries_of(members@),
                        self@ == JsonValue::Object(entries),
                        lookup(entries, key@) == lookup(entries.take(i as int), key@),
                    decreases i,
                {
                    assert(entries.take(i as int).drop_last() == entries.take(i as int - 1));
                    i = i - 1;
                    if str_eq(members[i].key.as_str(), key) {
                        return Some(&members[i].value);
                    }
                }
                None
            },
            _ => None,
        }
    }

    /// The text of a string value.
    pub fn as_str(&self) -> (text: Option<&str>)
        ensures
            match text {
                Some(s) => self@.as_str() == Some(s@),
                None => self@.as_str() is None,
            },
    {
        match self {
            Json::String(s) => Some(s.as_str()),
            _ => None,
        }
    }

    /// The items of an array value.
    pub fn as_array(&self) -> (items: Option<&Vec<Json>>)
        ensures
            match items {
                Some(v) => self@.as_array() == Some(values_of(v@)),
                None => self@.as_array() is None,
            },
    {
        match self {
            Json::Array(items) => {
                proof {
                    lemma_array_view(*items);
                }
                Some(items)
            },
            _ => None,
        }
    }
}

/// An object in the making: entries are added one after the other.
pub struct ObjectBuilder {
    members: Vec<JsonMember>,
}

impl View for ObjectBuilder {
    type V = JsonValue;

    /// The object made so far.
    closed spec fn view(&self) -> JsonValue {
        JsonValue::Object(entries_of(self.members@))
    }
}

impl ObjectBuilder {
    /// An object without entries.
    pub fn new() -> (builder: ObjectBuilder)
        ensures
            builder@ == JsonValue::empty_object(),
    {
        let builder = ObjectBuilder { members: Vec::new() };
        assert(entries_of(builder.members@) =~= Seq::<Entry>::empty());
        builder
    }

    /// The object with one more entry at its end.
    pub fn with(self, key: &str, value: Json) -> (builder: ObjectBuilder)
        ensures
            builder@ == self@.with(key@, value@),
    {
        let mut members = self.members;
        members.push(JsonMember::new(key, value));
        let builder = ObjectBuilder { members };
        assert(entries_of(builder.members@) =~= entries_of(self.members@).push(
            entry(key@, value@),
        ));
        builder
    }

    /// The object that was made.
    pub fn build(self) -> (tree: Json)
        ensures
            tree@ == self@,
    {
        Json::object(self.members)
    }
}

/// The value type of `serde_json`, as it passes between that crate's parser
/// and printer and the two conversions below.
#[verifier::external_type_specification]
#[verifier::external_body]
pub struct ExValue(serde_json::Value);

/// What a `serde_json::Value` holds, as a tree: a number as the text that
/// `serde_json::Number` displays itself as, an object's entries in the order
/// in which `serde_json::Map` hands them out.
pub uninterp spec fn value_tree(value: Value) -> JsonValue;

/// What the `serde_json::Value` holds that is built from `tree`: a number as
/// `serde_json` reads its text, and `null` where it reads none in it; of an
/// object's entries the last for each key.
pub uninterp spec fn built_tree(tree: JsonValue) -> JsonValue;

/// What `serde_json::from_str` reads `text` as, where it reads all of it as
/// one JSON value; `None` where it reports an error.
pub uninterp spec fn parsed_text(text: Seq<char>) -> Option<JsonValue>;

/// What `serde_json::from_slice` reads `bytes` as; `None` where it reports an
/// error.
pub uninterp spec fn parsed_bytes(bytes: Seq<u8>) -> Option<JsonValue>;

/// The one-line text that `serde_json::to_string` writes for a value that
/// holds `tree`, or the message of the error it reports.
pub uninterp spec fn compact_text(tree: JsonValue) -> Result<Seq<char>, Seq<char>>;

/// The indented text that `serde_json::to_string_pretty` writes for a value
/// that holds `tree`, or the message of the error it reports.
pub uninterp spec fn pretty_text(tree: JsonValue) -> Result<Seq<char>, Seq<char>>;

/// What an optional `serde_json::Value` holds.
pub open spec fn option_tree(value: Option<Value>) -> Option<JsonValue> {
    match value {
        Some(v) => Some(value_tree(v)),
        None => None,
    }
}

/// The one-line text of a tree: that of the value that is built from it.
pub open spec fn text_of(tree: JsonValue) -> Result<Seq<char>, Seq<char>> {
    compact_text(built_tree(tree))
}

/// The indented text of a tree: that of the value that is built from it.
pub open spec fn pretty_text_of(tree: JsonValue) -> Result<Seq<char>, Seq<char>> {
    pretty_text(built_tree(tree))
}

/// Rebuilds a `serde_json::Value` as a tree, variant by variant. A number
/// becomes the text that `serde_json::Number` displays itself as; an object's
/// entries come in the order in which `serde_json::Map` hands them out. The
/// result is given the name [`value_tree`].
#[verifier::external_body]
fn tree_of(value: Value) -> (tree: Json)
    ensures
        tree@ == value_tree(value),
{
    match value {
        Value::Null => Json::Null,
        Value::Bool(b) => Json::Bool(b),
        Value::Number(n) => Json::Number(n.to_string()),
        Value::String(s) => Json::String(s),
        Value::Array(items) => Json::Array(items.into_iter().map(tree_of).collect()),
        Value::Object(map) => Json::Object(
            map.into_iter().map(|(key, value)| JsonMember { key, value: tree_of(value) }).collect(),
        ),
    }
}

/// Rebuilds a tree as a `serde_json::Value`, variant by variant. A number is
/// read back by `serde_json::from_str` as a `serde_json::Number`, and becomes
/// `null` where that fails; an object's entries are inserted into a
/// `serde_json::Map` in their order, so the last of two equal keys stays. What
/// the result holds is given the name [`built_tree`].
#[verifier::external_body]
fn value_of(tree: &Json) -> (value: Value)
    ensures
        value_tree(value) == built_tree(tree@),
{
    match tree {
        Json::Null => Value::Null,
        Json::Bool(b) => Value::Bool(*b),
        Json::Number(text) => serde_json::from_str(text).map_or(Value::Null, Value::Number),
        Json::String(s) => Value::String(s.clone()),
        Json::Array(items) => Value::Array(items.iter().map(value_of).collect()),
        Json::Object(members) => Value::Object(
            members.iter().map(|m| (m.key.clone(), value_of(&m.value))).collect(),
        ),
    }
}

/// `serde_json::from_str`, asked for a `serde_json::Value`: the value it
/// reads, or nothing where it reports an error. What the result holds is given
/// the name [`parsed_text`].
#[verifier::external_body]
fn read_text(text: &str) -> (value: Option<Value>)
    ensures
        option_tree(value) == parsed_text(text@),
{
    serde_json::from_str(text).ok()
}

/// `serde_json::from_slice`, asked for a `serde_json::Value`: the value it
/// reads, or nothing where it reports an error. What the result holds is given
/// the name [`parsed_bytes`].
#[verifier::external_body]
fn read_bytes(bytes: &[u8]) -> (value: Option<Value>)
    ensures
        option_tree(value) == parsed_bytes(bytes@),
{
    serde_json::from_slice(bytes).ok()
}

/// `serde_json::to_string`: the text it writes for the value, or the message
/// of its error. The result is given the name [`compact_text`].
#[verifier::external_body]
fn write_compact(value: &Value) -> (text: Result<String, String>)
    ensures
        result_text(text) == compact_text(value_tree(*value)),
{
    serde_json::to_string(value).map_err(|e| e.to_string())
}

/// `serde_json::to_string_pretty`: the text it writes for the value, or the
/// message of its error. The result is given the name [`pretty_text`].
#[verifier::external_body]
fn write_pretty(value: &Value) -> (text: Result<String, String>)
    ensures
        result_text(text) == pretty_text(value_tree(*value)),
{
    serde_json::to_string_pretty(value).map_err(|e| e.to_string())
}

impl Json {
    /// Reads `text` as one JSON value; nothing where the text is no JSON or
    /// holds more than one value.
    pub fn parse(text: &str) -> (tree: Option<Json>)
        ensures
            option_value(tree) == parsed_text(text@),
    {
        match read_text(text) {
            Some(value) => Some(tree_of(value)),
            None => None,
        }
    }

    /// Reads `bytes` as one JSON value in UTF-8.
    pub fn parse_bytes(bytes: &[u8]) -> (tree: Option<Json>)
        ensures
            option_value(tree) == parsed_bytes(bytes@),
    {
        match read_bytes(bytes) {
            Some(value) => Some(tree_of(value)),
            None => None,
        }
    }

    /// Writes the tree on one line, as `serde_json` writes it: the entries
    /// of an object in the order of their keys, and a number whose text is no
    /// JSON number as `null`.
    pub fn to_text(&self) -> (text: Result<String, String>)
        ensures
            result_text(text) == text_of(self@),
    {
        let value = value_of(self);
        write_compact(&value)
    }

    /// Writes the tree over several lines, indented by two spaces for each
    /// level.
    pub fn to_pretty_text(&self) -> (text: Result<String, String>)
        ensures
            result_text(text) == pretty_text_of(self@),
    {
        let value = value_of(self);
        write_pretty(&value)
    }
}

} // verus!
