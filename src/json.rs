//! JSON documents as trees, and the reading of a JSON text into one.
use vstd::prelude::*;

verus! {

/// A JSON document. A number keeps the text that denotes it; an object keeps
/// its members in order, as (key, value) pairs.
#[derive(Debug)]
pub enum Json {
    Null,
    Bool(bool),
    Number(String),
    Str(String),
    Array(Vec<Json>),
    Object(Vec<(String, Json)>),
}

/// The mathematical value of a `Json`.
pub enum JsonModel {
    Null,
    Bool(bool),
    Number(Seq<char>),
    Str(Seq<char>),
    Array(Seq<JsonModel>),
    Object(Seq<(Seq<char>, JsonModel)>),
}

/// The model of a `Json`, node for node.
pub open spec fn json_view(j: Json) -> JsonModel
    decreases j,
{
    match j {
        Json::Null => JsonModel::Null,
        Json::Bool(b) => JsonModel::Bool(b),
        Json::Number(t) => JsonModel::Number(t@),
        Json::Str(s) => JsonModel::Str(s@),
        Json::Array(items) => JsonModel::Array(
            Seq::new(
                items.len() as nat,
                |i: int|
                    if 0 <= i < items.len() {
                        json_view(items[i])
                    } else {
                        JsonModel::Null
                    },
            ),
        ),
        Json::Object(members) => JsonModel::Object(
            Seq::new(
                members.len() as nat,
                |i: int|
                    if 0 <= i < members.len() {
                        (members[i].0@, json_view(members[i].1))
                    } else {
                        (Seq::empty(), JsonModel::Null)
                    },
            ),
        ),
    }
}

impl View for Json {
    type V = JsonModel;

    open spec fn view(&self) -> JsonModel {
        json_view(*self)
    }
}

/// The members of an object, as the object's model holds them.
pub open spec fn members_view(members: Seq<(String, Json)>) -> Seq<(Seq<char>, JsonModel)> {
    Seq::new(members.len(), |i: int| (members[i].0@, members[i].1@))
}

/// The value of the first member of `members` whose key is `key`.
pub open spec fn field(members: Seq<(Seq<char>, JsonModel)>, key: Seq<char>) -> Option<JsonModel>
    decreases members.len(),
{
    if members.len() == 0 {
        None
    } else if members[0].0 == key {
        Some(members[0].1)
    } else {
        field(members.drop_first(), key)
    }
}

/// The document that serde_json reads from a text; `None` where the text is
/// not JSON.
pub uninterp spec fn json_text(text: Seq<char>) -> Option<JsonModel>;

/// The model of a value that may be absent.
pub open spec fn opt_model(v: Option<&Json>) -> Option<JsonModel> {
    match v {
        Some(j) => Some(j@),
        None => None,
    }
}

/// The model of an array holds the models of its elements.
pub proof fn lemma_array_view(items: &Vec<Json>)
    ensures
        Json::Array(*items)@ == JsonModel::Array(items@.map_values(|j: Json| j@)),
{
    let m = Json::Array(*items)@;
    assert(m is Array);
    assert(m->Array_0 =~= items@.map_values(|j: Json| j@));
}

/// The model of an object holds its keys and the models of its values.
pub proof fn lemma_object_view(members: &Vec<(String, Json)>)
    ensures
        Json::Object(*members)@ == JsonModel::Object(members_view(members@)),
{
    let m = Json::Object(*members)@;
    assert(m is Object);
    assert(m->Object_0 =~= members_view(members@));
}

/// Looks up the first member of an object whose key is `key`.
pub fn member<'a>(members: &'a Vec<(String, Json)>, key: &str) -> (r: Option<&'a Json>)
    ensures
        match r {
            Some(v) => field(members_view(members@), key@) == Some(v@),
            None => field(members_view(members@), key@) is None,
        },
{
    let ghost all = members_view(members@);
    let wanted = String::from_str(key);
    let mut i: usize = 0;
    assert(all.subrange(0, all.len() as int) =~= all);
    while i < members.len()
        invariant
            i <= members.len(),
            all == members_view(members@),
            wanted@ == key@,
            field(all, key@) == field(all.subrange(i as int, all.len() as int), key@),
        decreases members.len() - i,
    {
        let ghost rest = all.subrange(i as int, all.len() as int);
        if members[i].0 == wanted {
            return Some(&members[i].1);
        }
        assert(rest.drop_first() =~= all.subrange(i + 1, all.len() as int));
        i = i + 1;
    }
    None
}

/// Declares serde_json's document type, which only the reading of a text
/// below handles.
#[verifier::external_type_specification]
#[verifier::external_body]
pub struct ExValue(serde_json::Value);

/// Turns a document that serde_json read into a `Json`, node for node; a
/// number becomes the text that serde_json prints for it.
#[verifier::external_body]
fn tree_of(v: serde_json::Value) -> Json {
    match v {
        serde_json::Value::Null => Json::Null,
        serde_json::Value::Bool(b) => Json::Bool(b),
        serde_json::Value::Number(n) => Json::Number(n.to_string()),
        serde_json::Value::String(s) => Json::Str(s),
        serde_json::Value::Array(a) => Json::Array(a.into_iter().map(tree_of).collect()),
        serde_json::Value::Object(m) => Json::Object(
            m.into_iter().map(|(k, x)| (k, tree_of(x))).collect(),
        ),
    }
}

/// Relies on serde_json::from_str into serde_json::Value: the document it
/// reads, or its refusal, depends on the text alone.
#[verifier::external_body]
pub(crate) fn parse_json(text: &str) -> (r: Option<Json>)
    ensures
        match r {
            Some(j) => json_text(text@) == Some(j@),
            None => json_text(text@) is None,
        },
{
    match serde_json::from_str::<serde_json::Value>(text) {
        Ok(v) => Some(tree_of(v)),
        Err(_) => None,
    }
}

} // verus!
