//! JSON documents as plain values.
//!
//! Reading JSON text is left to `serde_json`; what it finds is handed on as a
//! [`Json`], which the library can take apart.

use vstd::prelude::*;

verus! {

/// A JSON value. A number is kept as its text.
#[derive(Debug)]
pub enum Json {
    Null,
    Bool(bool),
    Number(String),
    Text(String),
    Array(Vec<Json>),
    Object(Vec<Member>),
}

/// A field of a JSON object.
#[derive(Debug)]
pub struct Member {
    pub name: String,
    pub value: Json,
}

/// What a [`Json`] holds.
pub enum JsonView {
    Null,
    Bool(bool),
    Number(Seq<char>),
    Text(Seq<char>),
    Array(Seq<JsonView>),
    Object(Seq<MemberView>),
}

/// What a [`Member`] holds.
pub struct MemberView {
    pub name: Seq<char>,
    pub value: JsonView,
}

impl View for Json {
    type V = JsonView;

    open spec fn view(&self) -> JsonView
        decreases self,
    {
        match self {
            Json::Null => JsonView::Null,
            Json::Bool(b) => JsonView::Bool(*b),
            Json::Number(text) => JsonView::Number(text@),
            Json::Text(text) => JsonView::Text(text@),
            Json::Array(items) => JsonView::Array(
                Seq::new(
                    items@.len(),
                    |i: int|
                        if 0 <= i < items@.len() {
                            items@[i]@
                        } else {
                            JsonView::Null
                        },
                ),
            ),
            Json::Object(fields) => JsonView::Object(
                Seq::new(
                    fields@.len(),
                    |i: int|
                        if 0 <= i < fields@.len() {
                            MemberView { name: fields@[i].name@, value: fields@[i].value@ }
                        } else {
                            MemberView { name: Seq::empty(), value: JsonView::Null }
                        },
                ),
            ),
        }
    }
}

/// The place of the last field among the first `n` of `fields` that is
/// called `name`.
pub open spec fn find_field(fields: Seq<MemberView>, name: Seq<char>, n: int) -> Option<int>
    decreases n,
{
    if n <= 0 || n > fields.len() {
        None
    } else if fields[n - 1].name == name {
        Some(n - 1)
    } else {
        find_field(fields, name, n - 1)
    }
}

/// The value of the field of `fields` that is called `name`; of the last
/// one, where several are.
pub open spec fn member(fields: Seq<MemberView>, name: Seq<char>) -> Option<JsonView> {
    match find_field(fields, name, fields.len() as int) {
        Some(at) => Some(fields[at].value),
        None => None,
    }
}

/// The document that `serde_json` reads from `text`, if `text` is JSON.
pub uninterp spec fn json_parsed(text: Seq<char>) -> Option<JsonView>;

/// Makes `serde_json::Value` known to the verifier, as a type of which
/// nothing is seen.
#[verifier::external_type_specification]
#[verifier::external_body]
pub struct ExJsonValue(serde_json::Value);

/// Makes `serde_json::Error` known to the verifier, as a type of which
/// nothing is seen.
#[verifier::external_type_specification]
#[verifier::external_body]
pub struct ExJsonError(serde_json::Error);

/// Turns a `serde_json::Value` into a [`Json`], variant by variant, with a
/// number as the text that `serde_json` prints for it. Trusted: only
/// [`parse`] calls it, and the contract there speaks of both together.
#[verifier::external_body]
fn json_of_value(value: serde_json::Value) -> Json {
    match value {
        serde_json::Value::Null => Json::Null,
        serde_json::Value::Bool(b) => Json::Bool(b),
        serde_json::Value::Number(n) => Json::Number(n.to_string()),
        serde_json::Value::String(s) => Json::Text(s),
        serde_json::Value::Array(a) => Json::Array(a.into_iter().map(json_of_value).collect()),
        serde_json::Value::Object(o) => Json::Object(
            o.into_iter().map(|(k, v)| Member { name: k, value: json_of_value(v) }).collect(),
        ),
    }
}

/// Calls `serde_json::from_str` for a `serde_json::Value`. Trusted: whether
/// `text` is JSON and what document it holds depend on `text` alone. Of
/// object fields with one name `serde_json` keeps the last.
#[verifier::external_body]
fn parse(text: &str) -> (parsed: Result<Json, serde_json::Error>)
    ensures
        match parsed {
            Ok(json) => json_parsed(text@) == Some(json@),
            Err(_) => json_parsed(text@) is None,
        },
{
    serde_json::from_str::<serde_json::Value>(text).map(json_of_value)
}

/// What the view of an object holds, field by field.
pub proof fn lemma_object_view(json: Json)
    requires
        json is Object,
    ensures
        json@ is Object,
        json@->Object_0.len() == json->Object_0@.len(),
        forall|i: int|
            0 <= i < json->Object_0@.len() ==> (#[trigger] json@->Object_0[i]) == (MemberView {
                name: json->Object_0@[i].name@,
                value: json->Object_0@[i].value@,
            }),
{
}

/// What the view of an array holds, item by item.
pub proof fn lemma_array_view(json: Json)
    requires
        json is Array,
    ensures
        json@ is Array,
        json@->Array_0.len() == json->Array_0@.len(),
        forall|i: int|
            0 <= i < json->Array_0@.len() ==> (#[trigger] json@->Array_0[i])
                == json->Array_0@[i]@,
{
}

impl Json {
    /// Reads a JSON document from `text`.
    pub fn from_text(text: &str) -> (json: Option<Json>)
        ensures
            match json {
                Some(json) => json_parsed(text@) == Some(json@),
                None => json_parsed(text@) is None,
            },
    {
        match parse(text) {
            Ok(json) => Some(json),
            Err(_) => None,
        }
    }

    /// The place of the field called `name`, where this is an object that
    /// has one.
    pub fn field_index(&self, name: &str) -> (place: Option<usize>)
        ensures
            match place {
                Some(at) => {
                    &&& self matches Json::Object(fields)
                    &&& self@ matches JsonView::Object(views)
                    &&& at < fields@.len()
                    &&& find_field(views, name@, views.len() as int) == Some(at as int)
                    &&& member(views, name@) == Some(fields@[at as int].value@)
                },
                None => self@ matches JsonView::Object(views) ==> member(views, name@) is None,
            },
    {
        match self {
            Json::Object(fields) => {
                let wanted = name.to_owned();
                let ghost views = self@->Object_0;
                proof {
                    lemma_object_view(*self);
                }
                let mut i: usize = fields.len();
                while i > 0
                    invariant
                        i <= fields.len(),
                        wanted@ == name@,
                        self@ == JsonView::Object(views),
                        views.len() == fields@.len(),
                        forall|j: int|
                            0 <= j < views.len() ==> (#[trigger] views[j]) == (MemberView {
                                name: fields@[j].name@,
                                value: fields@[j].value@,
                            }),
                        find_field(views, name@, views.len() as int) == find_field(
                            views,
                            name@,
                            i as int,
                        ),
                    decreases i,
                {
                    i -= 1;
                    if fields[i].name == wanted {
                        return Some(i);
                    }
                }
                None
            },
            _ => None,
        }
    }
}

} // verus!
