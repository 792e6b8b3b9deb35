//! JSON values as the normalizer reads them, and their mathematical model.

use vstd::prelude::*;

verus! {

/// A JSON value. A number is held by its text; an object by its fields in
/// the order in which they are walked.
#[derive(Debug)]
pub enum Json {
    Null,
    Bool(bool),
    Number(String),
    Str(String),
    Array(Vec<Json>),
    Object(Vec<(String, Json)>),
}

/// The model of a JSON value: the same tree over sequences.
pub enum JsonModel {
    Null,
    Bool(bool),
    Number(Seq<char>),
    Str(Seq<char>),
    Array(Seq<JsonModel>),
    Object(Seq<(Seq<char>, JsonModel)>),
}

impl View for Json {
    type V = JsonModel;

    open spec fn view(&self) -> JsonModel
        decreases self,
    {
        match self {
            Json::Null => JsonModel::Null,
            Json::Bool(b) => JsonModel::Bool(*b),
            Json::Number(text) => JsonModel::Number(text@),
            Json::Str(text) => JsonModel::Str(text@),
            Json::Array(items) => JsonModel::Array(items_model(items@)),
            Json::Object(fields) => JsonModel::Object(fields_model(fields@)),
        }
    }
}

/// The models of the elements of an array, in order.
pub open spec fn items_model(items: Seq<Json>) -> Seq<JsonModel>
    decreases items,
{
    Seq::new(
        items.len(),
        |i: int|
            if 0 <= i < items.len() {
                items[i].view()
            } else {
                JsonModel::Null
            },
    )
}

/// The models of the fields of an object, in order.
pub open spec fn fields_model(fields: Seq<(String, Json)>) -> Seq<(Seq<char>, JsonModel)>
    decreases fields,
{
    Seq::new(
        fields.len(),
        |i: int|
            if 0 <= i < fields.len() {
                (fields[i].0@, fields[i].1.view())
            } else {
                (Seq::empty(), JsonModel::Null)
            },
    )
}

/// The position of the first field named `key`, if there is one.
pub open spec fn field_position(fields: Seq<(Seq<char>, JsonModel)>, key: Seq<char>) -> Option<int>
    decreases fields.len(),
{
    if fields.len() == 0 {
        None
    } else if fields[0].0 == key {
        Some(0)
    } else {
        match field_position(fields.skip(1), key) {
            Some(i) => Some(i + 1),
            None => None,
        }
    }
}

/// What `field_position` finds is the first field of that name.
pub proof fn field_position_is_first(fields: Seq<(Seq<char>, JsonModel)>, key: Seq<char>)
    ensures
        match field_position(fields, key) {
            Some(i) => 0 <= i < fields.len() && fields[i].0 == key && forall|k: int|
                0 <= k < i ==> fields[k].0 != key,
            None => forall|k: int| 0 <= k < fields.len() ==> fields[k].0 != key,
        },
    decreases fields.len(),
{
    if fields.len() > 0 && fields[0].0 != key {
        let rest = fields.skip(1);
        field_position_is_first(rest, key);
        assert(forall|k: int| 1 <= k < fields.len() ==> fields[k] == rest[k - 1]);
    }
}

/// Finds the first field named `key`.
pub fn find_field(fields: &Vec<(String, Json)>, key: &str) -> (found: Option<usize>)
    ensures
        match found {
            Some(i) => i < fields.len() && field_position(fields_model(fields@), key@) == Some(
                i as int,
            ),
            None => field_position(fields_model(fields@), key@).is_none(),
        },
{
    let wanted = String::from_str(key);
    let ghost model = fields_model(fields@);
    let mut i: usize = 0;
    while i < fields.len()
        invariant
            i <= fields.len(),
            wanted@ == key@,
            model == fields_model(fields@),
            forall|k: int| 0 <= k < i ==> model[k].0 != key@,
        decreases fields.len() - i,
    {
        if fields[i].0 == wanted {
            proof {
                field_position_is_first(model, key@);
                assert(model[i as int].0 == fields@[i as int].0@);
            }
            return Some(i);
        }
        i += 1;
    }
    proof {
        field_position_is_first(model, key@);
    }
    None
}

impl Json {
    /// A copy of the value.
    pub fn duplicate(&self) -> (copy: Json)
        ensures
            copy@ == self@,
        decreases self,
    {
        match self {
            Json::Null => Json::Null,
            Json::Bool(b) => Json::Bool(*b),
            Json::Number(text) => Json::Number(text.clone()),
            Json::Str(text) => Json::Str(text.clone()),
            Json::Array(items) => Json::Array(duplicate_items(items)),
            Json::Object(fields) => Json::Object(duplicate_fields(fields)),
        }
    }
}

/// A copy of the elements of an array.
pub fn duplicate_items(items: &Vec<Json>) -> (copy: Vec<Json>)
    ensures
        items_model(copy@) == items_model(items@),
    decreases items,
{
    let mut copy: Vec<Json> = Vec::new();
    let mut i: usize = 0;
    while i < items.len()
        invariant
            i <= items.len(),
            copy@.len() == i,
            forall|k: int| 0 <= k < i ==> (#[trigger] copy@[k])@ == items@[k]@,
        decreases items.len() - i,
    {
        copy.push(items[i].duplicate());
        i += 1;
    }
    assert(items_model(copy@) =~= items_model(items@));
    copy
}

/// A copy of the fields of an object.
pub fn duplicate_fields(fields: &Vec<(String, Json)>) -> (copy: Vec<(String, Json)>)
    ensures
        fields_model(copy@) == fields_model(fields@),
    decreases fields,
{
    let mut copy: Vec<(String, Json)> = Vec::new();
    let mut i: usize = 0;
    while i < fields.len()
        invariant
            i <= fields.len(),
            copy@.len() == i,
            forall|k: int|
                0 <= k < i ==> (#[trigger] copy@[k]).0@ == fields@[k].0@ && copy@[k].1@
                    == fields@[k].1@,
        decreases fields.len() - i,
    {
        copy.push((fields[i].0.clone(), fields[i].1.duplicate()));
        i += 1;
    }
    assert(fields_model(copy@) =~= fields_model(fields@));
    copy
}

} // verus!
