//! The JSON that control messages and registry requests are made of: reading the
//! fields of an object, and writing an object out of fields.

use serde_json::{Map as JsonMap, Value};
use vstd::prelude::*;

use crate::text::{opt_str, opt_text, same_text, texts};

verus! {

/// A JSON value, in the forms in which the handlers read it.
pub struct JsonValue {
    /// The value, where it is a string.
    pub text: Option<String>,
    /// The value, where it is an array: each element, where that is a string.
    pub items: Option<Vec<Option<String>>>,
    /// The value as JSON text, whatever it is.
    pub raw: String,
}

#[verifier::ext_equal]
pub struct JsonValueView {
    pub text: Option<Seq<char>>,
    pub items: Option<Seq<Option<Seq<char>>>>,
    pub raw: Seq<char>,
}

/// The elements of an array of optional strings.
pub open spec fn items_view(items: Option<Vec<Option<String>>>) -> Option<
    Seq<Option<Seq<char>>>,
> {
    match items {
        Some(v) => Some(v@.map_values(|s: Option<String>| opt_text(s))),
        None => None,
    }
}

impl View for JsonValue {
    type V = JsonValueView;

    open spec fn view(&self) -> JsonValueView {
        JsonValueView {
            text: opt_text(self.text),
            items: items_view(self.items),
            raw: self.raw@,
        }
    }
}

/// One field of a JSON object.
pub struct JsonField {
    pub key: String,
    pub value: JsonValue,
}

#[verifier::ext_equal]
pub struct JsonFieldView {
    pub key: Seq<char>,
    pub value: JsonValueView,
}

impl View for JsonField {
    type V = JsonFieldView;

    open spec fn view(&self) -> JsonFieldView {
        JsonFieldView { key: self.key@, value: self.value@ }
    }
}

/// The fields, each by its view.
pub open spec fn fields_view(fields: Seq<JsonField>) -> Seq<JsonFieldView> {
    fields.map_values(|f: JsonField| f@)
}

/// The fields, where there are any, each by its view.
pub open spec fn opt_fields(fields: Option<Vec<JsonField>>) -> Option<Seq<JsonFieldView>> {
    match fields {
        Some(v) => Some(fields_view(v@)),
        None => None,
    }
}

/// A JSON text that has been read: its value, and the fields where that is an object.
pub struct JsonDoc {
    pub value: JsonValue,
    pub fields: Vec<JsonField>,
}

#[verifier::ext_equal]
pub struct JsonDocView {
    pub value: JsonValueView,
    pub fields: Seq<JsonFieldView>,
}

impl View for JsonDoc {
    type V = JsonDocView;

    open spec fn view(&self) -> JsonDocView {
        JsonDocView { value: self.value@, fields: fields_view(self.fields@) }
    }
}

/// What was read, where it was JSON, by its view.
pub open spec fn opt_doc(doc: Option<JsonDoc>) -> Option<JsonDocView> {
    match doc {
        Some(d) => Some(d@),
        None => None,
    }
}

/// What a text is when it is read as JSON; `None` where it is no JSON.
pub uninterp spec fn json_doc(text: Seq<char>) -> Option<JsonDocView>;

/// The JSON value that a text is; `None` where it is no JSON.
pub open spec fn json_value(text: Seq<char>) -> Option<JsonValueView> {
    match json_doc(text) {
        Some(d) => Some(d.value),
        None => None,
    }
}

/// The fields of the JSON object that a text is; no fields where it is JSON but no
/// object; `None` where it is no JSON.
pub open spec fn json_fields(text: Seq<char>) -> Option<Seq<JsonFieldView>> {
    match json_doc(text) {
        Some(d) => Some(d.fields),
        None => None,
    }
}

/// The text of the JSON object with the given fields.
pub uninterp spec fn json_text(fields: Seq<(Seq<char>, ItemView)>) -> Seq<char>;

/// The first field with the given key.
pub open spec fn field(fields: Seq<JsonFieldView>, key: Seq<char>) -> Option<JsonFieldView>
    decreases fields.len(),
{
    if fields.len() == 0 {
        None
    } else if fields[0].key == key {
        Some(fields[0])
    } else {
        field(fields.skip(1), key)
    }
}

/// The string under a key, where there is one.
pub open spec fn text_field(fields: Seq<JsonFieldView>, key: Seq<char>) -> Option<Seq<char>> {
    match field(fields, key) {
        Some(f) => f.value.text,
        None => None,
    }
}

/// The array under a key, where there is one.
pub open spec fn items_field(fields: Seq<JsonFieldView>, key: Seq<char>) -> Option<
    Seq<Option<Seq<char>>>,
> {
    match field(fields, key) {
        Some(f) => f.value.items,
        None => None,
    }
}

/// A value to write.
pub enum Item {
    Null,
    Text(String),
    Texts(Vec<String>),
    Number(u64),
    Flag(bool),
    /// A value that is JSON text already.
    Raw(String),
}

#[verifier::ext_equal]
pub enum ItemView {
    Null,
    Text(Seq<char>),
    Texts(Seq<Seq<char>>),
    Number(u64),
    Flag(bool),
    Raw(Seq<char>),
}

impl View for Item {
    type V = ItemView;

    open spec fn view(&self) -> ItemView {
        match self {
            Item::Null => ItemView::Null,
            Item::Text(s) => ItemView::Text(s@),
            Item::Texts(v) => ItemView::Texts(texts(v@)),
            Item::Number(n) => ItemView::Number(*n),
            Item::Flag(b) => ItemView::Flag(*b),
            Item::Raw(s) => ItemView::Raw(s@),
        }
    }
}

/// The fields to write, each by its view.
pub open spec fn out_view(fields: Seq<(String, Item)>) -> Seq<(Seq<char>, ItemView)> {
    fields.map_values(|f: (String, Item)| (f.0@, f.1@))
}

/// A text or nothing, as a value to write.
pub open spec fn opt_item(s: Option<Seq<char>>) -> ItemView {
    match s {
        Some(t) => ItemView::Text(t),
        None => ItemView::Null,
    }
}

/// Whether every value that is given as JSON text is JSON.
pub open spec fn raws_are_json(fields: Seq<(Seq<char>, ItemView)>) -> bool {
    forall|i: int|
        0 <= i < fields.len() ==> (#[trigger] fields[i].1 matches ItemView::Raw(t) ==> json_fields(
            t,
        ) is Some)
}

/// Whether no key occurs twice.
pub open spec fn distinct_keys(fields: Seq<(Seq<char>, ItemView)>) -> bool {
    forall|i: int, j: int|
        0 <= i < j < fields.len() ==> (#[trigger] fields[i]).0 != (#[trigger] fields[j]).0
}

/// Whether a JSON text is a string or an array of strings.
pub open spec fn is_flat(text: Seq<char>) -> bool {
    json_value(text) matches Some(v) && (v.text is Some || (v.items matches Some(l) && forall|i: int|
        0 <= i < l.len() ==> (#[trigger] l[i]) is Some))
}

/// Whether every value that is given as JSON text is a string or an array of strings.
pub open spec fn raws_are_flat(fields: Seq<(Seq<char>, ItemView)>) -> bool {
    forall|i: int|
        0 <= i < fields.len() ==> (#[trigger] fields[i].1 matches ItemView::Raw(t) ==> is_flat(t))
}

/// Whether no key occurs twice and no value is given as JSON text.
pub open spec fn plain_fields(fields: Seq<(Seq<char>, ItemView)>) -> bool {
    &&& distinct_keys(fields)
    &&& forall|i: int| 0 <= i < fields.len() ==> !((#[trigger] fields[i]).1 is Raw)
}

/// What a reader finds in place of a value. A list of texts is found as such, and its
/// JSON text reads as that list again. Of a value that was given as JSON text, the reader
/// finds what its printed form reads as: the same string, or an array with the same
/// strings.
pub open spec fn reads_as(v: JsonValueView, item: ItemView) -> bool {
    match item {
        ItemView::Null => v.text is None && v.items is None && v.raw == "null"@,
        ItemView::Text(s) => v.text == Some(s) && v.items is None,
        ItemView::Texts(l) => {
            &&& v.text is None
            &&& v.items == Some(l.map_values(|s: Seq<char>| Some(s)))
            &&& json_value(v.raw) == Some(v)
        },
        ItemView::Number(_) => v.text is None && v.items is None,
        ItemView::Flag(_) => v.text is None && v.items is None,
        ItemView::Raw(t) => {
            &&& json_value(t) matches Some(w)
            &&& json_value(w.raw) == Some(v)
            &&& v.text == w.text
            &&& v.items == w.items
        },
    }
}

/// Whether the fields read give back each of the fields written.
pub open spec fn reads_back(
    read: Option<Seq<JsonFieldView>>,
    written: Seq<(Seq<char>, ItemView)>,
) -> bool {
    &&& read is Some
    &&& forall|i: int|
        0 <= i < written.len() ==> (field(read->0, (#[trigger] written[i]).0) matches Some(f)
            && reads_as(f.value, written[i].1))
}

/// `serde_json::from_str` into a `serde_json::Value`: that value, and its fields where it
/// is an object, as its `Map` lists them. The result is a function of the text.
#[verifier::external_body]
fn parse_json(text: &str) -> (r: Option<JsonDoc>)
    ensures
        opt_doc(r) == json_doc(text@),
{
    let root: Value = serde_json::from_str(text).ok()?;
    let one = |v: &Value| v.as_str().map(String::from);
    let forms = |v: &Value| JsonValue {
        text: one(v),
        items: v.as_array().map(|a| a.iter().map(one).collect()),
        raw: v.to_string(),
    };
    let mut fields = Vec::new();
    if let Value::Object(m) = &root {
        for (key, v) in m {
            fields.push(JsonField { key: key.clone(), value: forms(v) });
        }
    }
    Some(JsonDoc { value: forms(&root), fields })
}

/// The fields of the JSON object that a text is.
pub fn parse_fields(text: &str) -> (r: Option<Vec<JsonField>>)
    ensures
        opt_fields(r) == json_fields(text@),
{
    match parse_json(text) {
        Some(doc) => Some(doc.fields),
        None => None,
    }
}

/// `to_string` of a `serde_json::Value` object with the given fields; a value that
/// is JSON text is parsed with `serde_json::from_str`. There is a result exactly
/// where each such text is JSON, and it is a function of the fields. Where no key
/// occurs twice, and the result reads as JSON at all, reading it gives each field back.
/// It does read as JSON where each such text is a string or an array of strings. Of others
/// this is not claimed: a value that is nested as deep as the parser allows is one level
/// too deep within an object.
#[verifier::external_body]
pub(crate) fn object_text(fields: &Vec<(String, Item)>) -> (r: Option<String>)
    ensures
        r is Some == raws_are_json(out_view(fields@)),
        r matches Some(s) ==> s@ == json_text(out_view(fields@)),
        r matches Some(s) ==> (raws_are_flat(out_view(fields@)) ==> json_doc(s@) is Some),
        r matches Some(s) ==> (distinct_keys(out_view(fields@)) && json_doc(s@) is Some
            ==> reads_back(json_fields(s@), out_view(fields@))),
{
    let mut m = JsonMap::new();
    for (k, item) in fields {
        let v = match item {
            Item::Null => Value::Null,
            Item::Text(s) => Value::String(s.clone()),
            Item::Texts(v) => Value::from(v.clone()),
            Item::Number(n) => Value::from(*n),
            Item::Flag(b) => Value::Bool(*b),
            Item::Raw(t) => serde_json::from_str(t).ok()?,
        };
        m.insert(k.clone(), v);
    }
    Some(Value::Object(m).to_string())
}

/// The first field with the given key.
pub fn find_field<'a>(fields: &'a Vec<JsonField>, key: &str) -> (r: Option<&'a JsonField>)
    ensures
        match r {
            Some(f) => field(fields_view(fields@), key@) == Some(f@),
            None => field(fields_view(fields@), key@) is None,
        },
{
    let ghost all = fields_view(fields@);
    let mut i: usize = 0;
    assert(all.skip(0) =~= all);
    while i < fields.len()
        invariant
            i <= fields.len(),
            all == fields_view(fields@),
            field(all, key@) == field(all.skip(i as int), key@),
        decreases fields.len() - i,
    {
        assert(all.skip(i as int)[0] == fields@[i as int]@);
        assert(all.skip(i as int).skip(1) =~= all.skip(i + 1));
        if same_text(fields[i].key.as_str(), key) {
            return Some(&fields[i]);
        }
        i = i + 1;
    }
    None
}

/// Add a field to write.
pub fn add_field(fields: &mut Vec<(String, Item)>, key: &str, item: Item)
    ensures
        out_view(final(fields)@) == out_view(old(fields)@).push((key@, item@)),
{
    fields.push((key.to_owned(), item));
    assert(out_view(fields@) =~= out_view(old(fields)@).push((key@, item@)));
}

/// A text or nothing, as a value to write.
pub fn opt_text_item(s: Option<&str>) -> (r: Item)
    ensures
        r@ == opt_item(opt_str(s)),
{
    match s {
        Some(t) => Item::Text(t.to_owned()),
        None => Item::Null,
    }
}

} // verus!
