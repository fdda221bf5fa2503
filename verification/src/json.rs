//! JSON documents as plain values, and the calls that read and write JSON text.
//!
//! The text is read and written by `serde_json`, built with its
//! `preserve_order` feature, so that the members of an object keep the order
//! in which they stand in the text or were put into the document.

use serde_json::Value;
use vstd::prelude::*;
use vstd::string::*;
use crate::text::same_text;

verus! {

/// A JSON number: a whole number from 0 to 2^64 - 1, or else the number's
/// decimal text (a negative number, a fraction, an exponent).
#[derive(Debug, PartialEq, Eq)]
pub enum JsonNumber {
    Unsigned(u64),
    Decimal(String),
}

/// A JSON document. The members of an object are held in order.
#[derive(Debug, PartialEq, Eq)]
pub enum Json {
    Null,
    Bool(bool),
    Number(JsonNumber),
    Text(String),
    List(Vec<Json>),
    Record(Vec<(String, Json)>),
}

/// A JSON number as a mathematical value.
pub enum NumberView {
    Unsigned(nat),
    Decimal(Seq<char>),
}

/// A JSON document as a mathematical value.
pub enum JsonView {
    Null,
    Bool(bool),
    Number(NumberView),
    Text(Seq<char>),
    List(Seq<JsonView>),
    Record(Seq<(Seq<char>, JsonView)>),
}

impl View for JsonNumber {
    type V = NumberView;

    open spec fn view(&self) -> NumberView {
        match self {
            JsonNumber::Unsigned(n) => NumberView::Unsigned(*n as nat),
            JsonNumber::Decimal(t) => NumberView::Decimal(t@),
        }
    }
}

impl JsonNumber {
    /// A copy of the number.
    pub fn duplicate(&self) -> (copy: JsonNumber)
        ensures
            copy@ == self@,
    {
        match self {
            JsonNumber::Unsigned(n) => JsonNumber::Unsigned(*n),
            JsonNumber::Decimal(text) => JsonNumber::Decimal(text.clone()),
        }
    }
}

impl Json {
    /// The document as a mathematical value.
    pub open spec fn model(self) -> JsonView
        decreases self,
    {
        match self {
            Json::Null => JsonView::Null,
            Json::Bool(b) => JsonView::Bool(b),
            Json::Number(n) => JsonView::Number(n@),
            Json::Text(t) => JsonView::Text(t@),
            Json::List(items) => JsonView::List(
                Seq::new(
                    items.len() as nat,
                    |i: int|
                        if 0 <= i < items.len() {
                            items[i].model()
                        } else {
                            JsonView::Null
                        },
                ),
            ),
            Json::Record(entries) => JsonView::Record(
                Seq::new(
                    entries.len() as nat,
                    |i: int|
                        if 0 <= i < entries.len() {
                            (entries[i].0@, entries[i].1.model())
                        } else {
                            (Seq::empty(), JsonView::Null)
                        },
                ),
            ),
        }
    }
}

impl View for Json {
    type V = JsonView;

    open spec fn view(&self) -> JsonView {
        self.model()
    }
}

/// The views of the items of an array.
pub open spec fn items_view(items: Seq<Json>) -> Seq<JsonView> {
    Seq::new(items.len(), |i: int| items[i]@)
}

/// The views of the members of an object.
pub open spec fn entries_view(entries: Seq<(String, Json)>) -> Seq<(Seq<char>, JsonView)> {
    Seq::new(entries.len(), |i: int| (entries[i].0@, entries[i].1@))
}

/// An array's view holds the views of its items.
pub proof fn lemma_list_view(items: Vec<Json>)
    ensures
        Json::List(items)@ == JsonView::List(items_view(items@)),
{
    assert(Json::List(items)@->List_0 =~= items_view(items@));
}

/// An object's view holds the views of its members.
pub proof fn lemma_record_view(entries: Vec<(String, Json)>)
    ensures
        Json::Record(entries)@ == JsonView::Record(entries_view(entries@)),
{
    assert(Json::Record(entries)@->Record_0 =~= entries_view(entries@));
}

/// The value of the first member with the given key.
pub open spec fn member(entries: Seq<(Seq<char>, JsonView)>, key: Seq<char>) -> Option<JsonView>
    decreases entries.len(),
{
    if entries.len() == 0 {
        None
    } else if entries[0].0 == key {
        Some(entries[0].1)
    } else {
        member(entries.drop_first(), key)
    }
}

/// No two members have the same key.
pub open spec fn distinct_keys(entries: Seq<(Seq<char>, JsonView)>) -> bool {
    forall|i: int, j: int|
        0 <= i < j < entries.len() ==> (#[trigger] entries[i]).0 != (#[trigger] entries[j]).0
}

impl JsonView {
    /// The member of an object with the given key; nothing for a document
    /// that is no object or has no such member.
    pub open spec fn get(self, key: Seq<char>) -> Option<JsonView> {
        match self {
            JsonView::Record(entries) => member(entries, key),
            _ => None,
        }
    }

    /// A document that is written as it stands: every number in it is a whole
    /// number, and no object in it has two members with the same key.
    pub open spec fn is_plain(self) -> bool
        decreases self,
    {
        match self {
            JsonView::Number(n) => n is Unsigned,
            JsonView::List(items) => forall|i: int|
                0 <= i < items.len() ==> (#[trigger] items[i]).is_plain(),
            JsonView::Record(entries) => distinct_keys(entries) && forall|i: int|
                0 <= i < entries.len() ==> (#[trigger] entries[i]).1.is_plain(),
            _ => true,
        }
    }
}

/// `serde_json::Value`, of which nothing is known here but its name.
#[verifier::external_type_specification]
#[verifier::external_body]
pub struct ExValue(serde_json::Value);

/// `serde_json::Error`, of which nothing is known here but its name.
#[verifier::external_type_specification]
#[verifier::external_body]
pub struct ExError(serde_json::Error);

/// What `serde_json::from_str` makes of a text: the document it holds, or the
/// message of the error that says why it holds none.
pub uninterp spec fn parsed(text: Seq<char>) -> Result<JsonView, Seq<char>>;

/// The JSON text that `serde_json::to_string` writes for a document.
pub uninterp spec fn rendered(doc: JsonView) -> Seq<char>;

/// The document that a `serde_json::Value` holds.
pub uninterp spec fn value_view(value: serde_json::Value) -> JsonView;

/// The message that a `serde_json::Error` displays.
pub uninterp spec fn error_detail(error: serde_json::Error) -> Seq<char>;

/// `serde_json::from_str` at the type `serde_json::Value`. The contract only
/// names what comes back: the value or the error that belongs to the text.
#[verifier::external_body]
fn from_text(text: &str) -> (r: Result<serde_json::Value, serde_json::Error>)
    ensures
        match r {
            Ok(value) => parsed(text@) == Ok::<JsonView, Seq<char>>(value_view(value)),
            Err(error) => parsed(text@) == Err::<JsonView, Seq<char>>(error_detail(error)),
        },
{
    serde_json::from_str::<Value>(text)
}

/// Turns a `serde_json::Value` into a document, variant by variant. A number
/// for which `Number::as_u64` has a value is kept as that value, any other as
/// the text that `Number` displays. The members of an object come in the
/// order in which the map hands them out. This is what `value_view` stands for.
#[verifier::external_body]
fn lift(value: serde_json::Value) -> (doc: Json)
    ensures
        doc@ == value_view(value),
{
    match value {
        Value::Null => Json::Null,
        Value::Bool(b) => Json::Bool(b),
        Value::Number(n) => Json::Number(match n.as_u64() {
            Some(u) => JsonNumber::Unsigned(u),
            None => JsonNumber::Decimal(n.to_string()),
        }),
        Value::String(s) => Json::Text(s),
        Value::Array(items) => Json::List(items.into_iter().map(lift).collect()),
        Value::Object(map) => Json::Record(
            map.into_iter().map(|(k, v)| (k, lift(v))).collect(),
        ),
    }
}

/// The `Display` text of a `serde_json::Error`.
#[verifier::external_body]
fn error_message(error: &serde_json::Error) -> (message: String)
    ensures
        message@ == error_detail(*error),
{
    error.to_string()
}

/// Turns a document into a `serde_json::Value`, variant by variant. A decimal
/// number is read by `Number::from_str`, which may fail, and the members of an
/// object are put into a map one after the other, where a repeated key keeps
/// its first place and its last value. So the contract speaks of plain
/// documents only: for those no step fails, and the value holds the document.
#[verifier::external_body]
fn lower(doc: &Json) -> (r: Result<serde_json::Value, serde_json::Error>)
    ensures
        doc@.is_plain() ==> r is Ok,
        doc@.is_plain() ==> (r matches Ok(value) ==> value_view(value) == doc@),
{
    Ok(match doc {
        Json::Null => Value::Null,
        Json::Bool(b) => Value::Bool(*b),
        Json::Number(JsonNumber::Unsigned(n)) => Value::from(*n),
        Json::Number(JsonNumber::Decimal(t)) => Value::Number(t.parse()?),
        Json::Text(t) => Value::String(t.clone()),
        Json::List(items) => Value::Array(items.iter().map(lower).collect::<Result<_, _>>()?),
        Json::Record(entries) => Value::Object(
            entries.iter().map(|(k, v)| Ok((k.clone(), lower(v)?))).collect::<Result<
                _,
                serde_json::Error,
            >>()?,
        ),
    })
}

/// `serde_json::to_string` on a `serde_json::Value`. The contract names the
/// text that comes back, and says that one does: the serializer fails only
/// where its writer fails or where a map has a key that is no string, and
/// here it writes into a `Vec<u8>` and the keys of a `Value` are strings.
#[verifier::external_body]
fn to_text(value: &serde_json::Value) -> (r: Result<String, serde_json::Error>)
    ensures
        r is Ok,
        r matches Ok(text) ==> text@ == rendered(value_view(*value)),
{
    serde_json::to_string(value)
}

/// Reads a JSON text: the document, or the message that says why the text
/// holds none.
pub fn parse(text: &str) -> (r: Result<Json, String>)
    ensures
        match r {
            Ok(doc) => parsed(text@) == Ok::<JsonView, Seq<char>>(doc@),
            Err(detail) => parsed(text@) == Err::<JsonView, Seq<char>>(detail@),
        },
{
    match from_text(text) {
        Ok(value) => Ok(lift(value)),
        Err(error) => Err(error_message(&error)),
    }
}

/// Writes a plain document as JSON text. Writing does not fail; were the
/// JSON library to report an error all the same, its message is handed on.
pub(crate) fn render(doc: &Json) -> (r: Result<String, String>)
    requires
        doc@.is_plain(),
    ensures
        r matches Ok(text) && text@ == rendered(doc@),
{
    match lower(doc) {
        Ok(value) => match to_text(&value) {
            Ok(text) => Ok(text),
            Err(error) => Err(error_message(&error)),
        },
        Err(error) => Err(error_message(&error)),
    }
}

impl Json {
    /// The member of an object with the given key: the first, if the key is
    /// repeated.
    pub fn get(&self, key: &str) -> (r: Option<&Json>)
        ensures
            match r {
                Some(value) => self@.get(key@) == Some(value@),
                None => self@.get(key@) is None,
            },
    {
        match self {
            Json::Record(entries) => {
                proof {
                    lemma_record_view(*entries);
                }
                let ghost all = entries_view(entries@);
                let mut i: usize = 0;
                assert(all.skip(0) =~= all);
                while i < entries.len()
                    invariant
                        i <= entries.len(),
                        all == entries_view(entries@),
                        self@ == JsonView::Record(all),
                        member(all, key@) == member(all.skip(i as int), key@),
                    decreases entries.len() - i,
                {
                    let ghost rest = all.skip(i as int);
                    proof {
                        assert(rest[0] == all[i as int]);
                        assert(rest.drop_first() =~= all.skip(i + 1));
                    }
                    if same_text(entries[i].0.as_str(), key) {
                        return Some(&entries[i].1);
                    }
                    i = i + 1;
                }
                None
            },
            _ => None,
        }
    }
}

} // verus!
