//! The annotated-document normalizer: strips matcher and generator markers
//! from a JSON body and records where they stood.

use vstd::prelude::*;
use crate::json::{
    duplicate_fields, field_position, fields_model, find_field, items_model, Json, JsonModel,
};
use crate::outside::{
    add_body_generator, add_rule, body_category, category_rules, generator_defined,
    generator_from, generator_of_value, generator_table, integration_rule, json_of_value, parse_value,
    parsed_json, rendered_json, rule_of_value, stored_form, value_model, value_of_json,
    value_text, with_rule,
};
use crate::path::{field_path, field_segment, index_path, index_segment, root, root_path};
use pact_matching::models::generators::{Generator, Generators};
use pact_matching::models::matchingrules::{Category, MatchingRule};
use serde_json::Value;

verus! {

/// The field that marks an object as a matcher specification.
pub open spec fn matcher_key() -> Seq<char> {
    "pact:matcher:type"@
}

/// The field that names the generator of a matcher specification.
pub open spec fn generator_key() -> Seq<char> {
    "pact:generator:type"@
}

/// The field that holds the example value of a matcher specification.
pub open spec fn value_key() -> Seq<char> {
    "value"@
}

/// Whether the fields are those of a matcher specification.
pub open spec fn is_marker(fields: Seq<(Seq<char>, JsonModel)>) -> bool {
    field_position(fields, matcher_key()).is_some()
}

/// The document with every matcher specification replaced by its example
/// value (null where it has none), to any depth.
pub open spec fn normalized(j: JsonModel) -> JsonModel
    decreases j,
{
    match j {
        JsonModel::Object(fields) => if is_marker(fields) {
            match field_position(fields, value_key()) {
                Some(i) => if 0 <= i < fields.len() {
                    normalized(fields[i].1)
                } else {
                    JsonModel::Null
                },
                None => JsonModel::Null,
            }
        } else {
            JsonModel::Object(
                Seq::new(
                    fields.len(),
                    |i: int|
                        if 0 <= i < fields.len() {
                            (fields[i].0, normalized(fields[i].1))
                        } else {
                            (Seq::empty(), JsonModel::Null)
                        },
                ),
            )
        },
        JsonModel::Array(items) => JsonModel::Array(
            Seq::new(
                items.len(),
                |i: int|
                    if 0 <= i < items.len() {
                        normalized(items[i])
                    } else {
                        JsonModel::Null
                    },
            ),
        ),
        _ => j,
    }
}

/// One addition to the side tables: a rule or a generator at a path.
pub enum Entry {
    Rule(Seq<char>, MatchingRule),
    Generator(Seq<char>, Generator),
}

/// The text of a JSON value used as a tag: a string's content, else the
/// value's JSON text.
pub open spec fn text_of(j: JsonModel) -> Seq<char> {
    match j {
        JsonModel::Str(s) => s,
        _ => rendered_json(stored_form(j)),
    }
}

/// The rule that a matcher specification describes, if it describes one.
pub open spec fn marker_rule(fields: Seq<(Seq<char>, JsonModel)>) -> Option<MatchingRule> {
    integration_rule(stored_form(JsonModel::Object(fields)))
}

/// The generator that a matcher specification describes: none without a
/// generator tag, with a tag that is not recognised, or with the tag
/// `ProviderState` and no expression.
pub open spec fn marker_generator(fields: Seq<(Seq<char>, JsonModel)>) -> Option<Generator> {
    match field_position(fields, generator_key()) {
        Some(g) => {
            let kind = text_of(fields[g].1);
            let stored = stored_form(JsonModel::Object(fields));
            if generator_defined(kind, stored) {
                generator_from(kind, stored)
            } else {
                None
            }
        },
        None => None,
    }
}

/// What a matcher specification at `path` adds by itself: its rule, then its
/// generator, each if there is one.
pub open spec fn marker_entries(fields: Seq<(Seq<char>, JsonModel)>, path: Seq<char>) -> Seq<
    Entry,
> {
    let first = match marker_rule(fields) {
        Some(rule) => Seq::<Entry>::empty().push(Entry::Rule(path, rule)),
        None => Seq::<Entry>::empty(),
    };
    match marker_generator(fields) {
        Some(generator) => first.push(Entry::Generator(path, generator)),
        None => first,
    }
}

/// The additions that the document at `path` makes to the side tables, in
/// the order of a depth-first walk that visits a node before its children.
pub open spec fn entries(j: JsonModel, path: Seq<char>, type_matcher: bool) -> Seq<Entry>
    decreases j, 0nat,
{
    match j {
        JsonModel::Object(fields) => if is_marker(fields) {
            marker_entries(fields, path) + (match field_position(fields, value_key()) {
                Some(i) => if 0 <= i < fields.len() {
                    entries(fields[i].1, path, true)
                } else {
                    Seq::empty()
                },
                None => Seq::empty(),
            })
        } else {
            field_entries(fields, path, type_matcher, fields.len())
        },
        JsonModel::Array(items) => item_entries(items, path, type_matcher, items.len()),
        _ => Seq::empty(),
    }
}

/// The additions made by the first `n` fields of a plain object at `path`.
pub open spec fn field_entries(
    fields: Seq<(Seq<char>, JsonModel)>,
    path: Seq<char>,
    type_matcher: bool,
    n: nat,
) -> Seq<Entry>
    decreases fields, n,
{
    if n == 0 || n > fields.len() {
        Seq::empty()
    } else {
        field_entries(fields, path, type_matcher, (n - 1) as nat) + entries(
            fields[n - 1].1,
            field_path(path, fields[n - 1].0, type_matcher),
            false,
        )
    }
}

/// The additions made by the first `n` elements of an array at `path`.
pub open spec fn item_entries(
    items: Seq<JsonModel>,
    path: Seq<char>,
    type_matcher: bool,
    n: nat,
) -> Seq<Entry>
    decreases items, n,
{
    if n == 0 || n > items.len() {
        Seq::empty()
    } else {
        item_entries(items, path, type_matcher, (n - 1) as nat) + entries(
            items[n - 1],
            index_path(path, (n - 1) as nat, type_matcher),
            false,
        )
    }
}

/// A rule table after a sequence of additions.
pub open spec fn apply_rules(
    table: Map<Seq<char>, (Set<MatchingRule>, bool)>,
    added: Seq<Entry>,
) -> Map<Seq<char>, (Set<MatchingRule>, bool)>
    decreases added.len(),
{
    if added.len() == 0 {
        table
    } else {
        let before = apply_rules(table, added.drop_last());
        match added.last() {
            Entry::Rule(path, rule) => with_rule(before, path, rule),
            Entry::Generator(_, _) => before,
        }
    }
}

/// A generator table after a sequence of additions, which go to the
/// category of bodies: a later generator at a path replaces an earlier one.
pub open spec fn apply_generators(
    table: Map<(Seq<char>, Seq<char>), Generator>,
    added: Seq<Entry>,
) -> Map<(Seq<char>, Seq<char>), Generator>
    decreases added.len(),
{
    if added.len() == 0 {
        table
    } else {
        let before = apply_generators(table, added.drop_last());
        match added.last() {
            Entry::Rule(_, _) => before,
            Entry::Generator(path, generator) => before.insert((body_category(), path), generator),
        }
    }
}

/// Adding `a` and then `b` is adding `a + b`.
pub proof fn apply_concat(
    rules: Map<Seq<char>, (Set<MatchingRule>, bool)>,
    generators: Map<(Seq<char>, Seq<char>), Generator>,
    a: Seq<Entry>,
    b: Seq<Entry>,
)
    ensures
        apply_rules(rules, a + b) == apply_rules(apply_rules(rules, a), b),
        apply_generators(generators, a + b) == apply_generators(
            apply_generators(generators, a),
            b,
        ),
    decreases b.len(),
{
    if b.len() == 0 {
        assert(a + b =~= a);
    } else {
        apply_concat(rules, generators, a, b.drop_last());
        assert((a + b).drop_last() =~= a + b.drop_last());
        assert((a + b).last() == b.last());
    }
}

/// The tables after the additions of one matcher specification.
pub proof fn apply_marker(
    rules: Map<Seq<char>, (Set<MatchingRule>, bool)>,
    generators: Map<(Seq<char>, Seq<char>), Generator>,
    fields: Seq<(Seq<char>, JsonModel)>,
    path: Seq<char>,
)
    ensures
        apply_rules(rules, marker_entries(fields, path)) == (match marker_rule(fields) {
            Some(rule) => with_rule(rules, path, rule),
            None => rules,
        }),
        apply_generators(generators, marker_entries(fields, path)) == (match marker_generator(
            fields,
        ) {
            Some(generator) => generators.insert((body_category(), path), generator),
            None => generators,
        }),
{
    let none = Seq::<Entry>::empty();
    let first = match marker_rule(fields) {
        Some(rule) => none.push(Entry::Rule(path, rule)),
        None => none,
    };
    assert(apply_rules(rules, none) == rules);
    assert(apply_generators(generators, none) == generators);
    if let Some(rule) = marker_rule(fields) {
        assert(first.drop_last() =~= none);
        assert(apply_rules(rules, first) == with_rule(rules, path, rule));
        assert(apply_generators(generators, first) == generators);
    }
    if let Some(generator) = marker_generator(fields) {
        let both = first.push(Entry::Generator(path, generator));
        assert(both.drop_last() =~= first);
        assert(apply_rules(rules, both) == apply_rules(rules, first));
        assert(apply_generators(generators, both) == apply_generators(generators, first).insert(
            (body_category(), path),
            generator,
        ));
    }
}

/// Reads the rule of a matcher specification from its fields. The outcome is
/// `None` where the fields describe no recognised rule.
pub fn extract_rule(fields: &Vec<(String, Json)>) -> (rule: Option<MatchingRule>)
    ensures
        rule == marker_rule(fields_model(fields@)),
{
    let node = Json::Object(duplicate_fields(fields));
    let stored = value_of_json(&node);
    rule_of_value(&stored)
}

/// The text of a JSON value used as a tag.
pub fn tag_text(j: &Json) -> (text: String)
    ensures
        text@ == text_of(j@),
{
    match j {
        Json::Str(s) => s.clone(),
        _ => {
            let stored = value_of_json(j);
            value_text(&stored)
        },
    }
}

/// Whether a generator can be read for this tag from a stored object.
fn generator_ready(kind: &String, stored: &Value) -> (ready: bool)
    ensures
        ready == generator_defined(kind@, value_model(*stored)),
{
    let provider = String::from_str("ProviderState");
    if *kind == provider {
        match json_of_value(stored) {
            Json::Object(fields) => find_field(&fields, "expression").is_some(),
            _ => false,
        }
    } else {
        true
    }
}

/// Reads the generator of a matcher specification from its fields. The
/// outcome is `None` where there is no generator tag or no recognised
/// generator.
pub fn extract_generator(fields: &Vec<(String, Json)>) -> (generator: Option<Generator>)
    ensures
        generator == marker_generator(fields_model(fields@)),
{
    match find_field(fields, "pact:generator:type") {
        Some(g) => {
            let kind = tag_text(&fields[g].1);
            let node = Json::Object(duplicate_fields(fields));
            let stored = value_of_json(&node);
            assert(fields_model(fields@)[g as int].1 == fields@[g as int].1@);
            if generator_ready(&kind, &stored) {
                generator_of_value(&kind, &stored)
            } else {
                None
            }
        },
        None => None,
    }
}


/// Normalizes one JSON value at `path`: returns the value without its
/// matcher specifications and adds their rules and generators to the tables.
pub fn process_value(
    value: &Json,
    matching_rules: &mut Category,
    generators: &mut Generators,
    path: &String,
    type_matcher: bool,
) -> (out: Json)
    ensures
        out@ == normalized(value@),
        category_rules(*final(matching_rules)) == apply_rules(
            category_rules(*old(matching_rules)),
            entries(value@, path@, type_matcher),
        ),
        generator_table(*final(generators)) == apply_generators(
            generator_table(*old(generators)),
            entries(value@, path@, type_matcher),
        ),
    decreases value,
{
    match value {
        Json::Object(fields) => process_object(fields, matching_rules, generators, path, type_matcher),
        Json::Array(items) => process_array(items, matching_rules, generators, path, type_matcher),
        _ => value.duplicate(),
    }
}

/// Normalizes the elements of an array at `path`. Each element stands at the
/// path extended by its index, or by the wildcard under a type matcher.
pub fn process_array(
    array: &Vec<Json>,
    matching_rules: &mut Category,
    generators: &mut Generators,
    path: &String,
    type_matcher: bool,
) -> (out: Json)
    ensures
        out@ == normalized(JsonModel::Array(items_model(array@))),
        category_rules(*final(matching_rules)) == apply_rules(
            category_rules(*old(matching_rules)),
            entries(JsonModel::Array(items_model(array@)), path@, type_matcher),
        ),
        generator_table(*final(generators)) == apply_generators(
            generator_table(*old(generators)),
            entries(JsonModel::Array(items_model(array@)), path@, type_matcher),
        ),
    decreases array,
{
    let ghost model = items_model(array@);
    let ghost rules0 = category_rules(*matching_rules);
    let ghost generators0 = generator_table(*generators);
    let mut result: Vec<Json> = Vec::new();
    let mut i: usize = 0;
    while i < array.len()
        invariant
            i <= array.len(),
            model == items_model(array@),
            result@.len() == i,
            forall|k: int| 0 <= k < i ==> (#[trigger] result@[k])@ == normalized(model[k]),
            category_rules(*matching_rules) == apply_rules(
                rules0,
                item_entries(model, path@, type_matcher, i as nat),
            ),
            generator_table(*generators) == apply_generators(
                generators0,
                item_entries(model, path@, type_matcher, i as nat),
            ),
        decreases array.len() - i,
    {
        let updated_path = index_segment(path, i, type_matcher);
        let item = process_value(&array[i], matching_rules, generators, &updated_path, false);
        proof {
            assert(model[i as int] == array@[i as int]@);
            apply_concat(
                rules0,
                generators0,
                item_entries(model, path@, type_matcher, i as nat),
                entries(model[i as int], updated_path@, false),
            );
        }
        result.push(item);
        i += 1;
    }
    let out = Json::Array(result);
    proof {
        assert(out@->Array_0 =~= normalized(JsonModel::Array(model))->Array_0);
    }
    out
}

/// Normalizes an object at `path`. A matcher specification gives its rule
/// and generator to the tables and is replaced by its normalized example
/// value, which stands under a type matcher; a plain object is rebuilt from
/// its normalized fields.
pub fn process_object(
    obj: &Vec<(String, Json)>,
    matching_rules: &mut Category,
    generators: &mut Generators,
    path: &String,
    type_matcher: bool,
) -> (out: Json)
    ensures
        out@ == normalized(JsonModel::Object(fields_model(obj@))),
        category_rules(*final(matching_rules)) == apply_rules(
            category_rules(*old(matching_rules)),
            entries(JsonModel::Object(fields_model(obj@)), path@, type_matcher),
        ),
        generator_table(*final(generators)) == apply_generators(
            generator_table(*old(generators)),
            entries(JsonModel::Object(fields_model(obj@)), path@, type_matcher),
        ),
    decreases obj,
{
    let ghost model = fields_model(obj@);
    let ghost rules0 = category_rules(*matching_rules);
    let ghost generators0 = generator_table(*generators);
    if find_field(obj, "pact:matcher:type").is_some() {
        match extract_rule(obj) {
            Some(rule) => add_rule(matching_rules, path, rule),
            None => {},
        }
        match extract_generator(obj) {
            Some(generator) => add_body_generator(generators, path, generator),
            None => {},
        }
        proof {
            apply_marker(rules0, generators0, model, path@);
        }
        match find_field(obj, "value") {
            Some(v) => {
                proof {
                    assert(model[v as int].1 == obj@[v as int].1@);
                    apply_concat(
                        rules0,
                        generators0,
                        marker_entries(model, path@),
                        entries(model[v as int].1, path@, true),
                    );
                }
                process_value(&obj[v].1, matching_rules, generators, path, true)
            },
            None => {
                proof {
                    assert(marker_entries(model, path@) + Seq::<Entry>::empty() =~= marker_entries(
                        model,
                        path@,
                    ));
                }
                Json::Null
            },
        }
    } else {
        let mut result: Vec<(String, Json)> = Vec::new();
        let mut i: usize = 0;
        while i < obj.len()
            invariant
                i <= obj.len(),
                model == fields_model(obj@),
                result@.len() == i,
                forall|k: int|
                    0 <= k < i ==> (#[trigger] result@[k]).0@ == model[k].0 && result@[k].1@
                        == normalized(model[k].1),
                category_rules(*matching_rules) == apply_rules(
                    rules0,
                    field_entries(model, path@, type_matcher, i as nat),
                ),
                generator_table(*generators) == apply_generators(
                    generators0,
                    field_entries(model, path@, type_matcher, i as nat),
                ),
            decreases obj.len() - i,
        {
            let updated_path = field_segment(path, &obj[i].0, type_matcher);
            let item = process_value(&obj[i].1, matching_rules, generators, &updated_path, false);
            proof {
                assert(model[i as int].1 == obj@[i as int].1@);
                assert(model[i as int].0 == obj@[i as int].0@);
                apply_concat(
                    rules0,
                    generators0,
                    field_entries(model, path@, type_matcher, i as nat),
                    entries(model[i as int].1, updated_path@, false),
                );
            }
            result.push((obj[i].0.clone(), item));
            i += 1;
        }
        let out = Json::Object(result);
        proof {
            assert(out@->Object_0 =~= normalized(JsonModel::Object(model))->Object_0);
        }
        out
    }
}


/// The text that normalizing a JSON body gives: the compact text of the
/// normalized document where the body is a JSON object or array, else the
/// body itself.
pub open spec fn json_output(body: Seq<char>) -> Seq<char> {
    match parsed_json(body) {
        Some(j) => if j is Object || j is Array {
            rendered_json(stored_form(normalized(j)))
        } else {
            body
        },
        None => body,
    }
}

/// The additions that normalizing a JSON body makes to the side tables:
/// those of its document from the root path, none where it is no JSON.
pub open spec fn json_entries(body: Seq<char>) -> Seq<Entry> {
    match parsed_json(body) {
        Some(j) => entries(j, root_path(), false),
        None => Seq::empty(),
    }
}

/// Normalizes a JSON body given as text. A body that is no JSON document, or
/// whose document is a scalar or null, comes back as it is and adds nothing.
pub fn process_json(body: String, matching_rules: &mut Category, generators: &mut Generators) -> (out:
    String)
    ensures
        out@ == json_output(body@),
        category_rules(*final(matching_rules)) == apply_rules(
            category_rules(*old(matching_rules)),
            json_entries(body@),
        ),
        generator_table(*final(generators)) == apply_generators(
            generator_table(*old(generators)),
            json_entries(body@),
        ),
{
    match parse_value(body.as_str()) {
        Some(value) => {
            let json = json_of_value(&value);
            let start = root();
            match json {
                Json::Object(fields) => {
                    let clean = process_object(&fields, matching_rules, generators, &start, false);
                    value_text(&value_of_json(&clean))
                },
                Json::Array(items) => {
                    let clean = process_array(&items, matching_rules, generators, &start, false);
                    value_text(&value_of_json(&clean))
                },
                _ => body,
            }
        },
        None => body,
    }
}

/// The kind of content that a body was declared to hold.
#[derive(Clone, Copy, Debug, PartialEq, Eq, Structural)]
pub enum DetectedContentType {
    Json,
    Xml,
    Text,
}

/// A request or response body: absent, present but empty, or present with
/// its bytes.
#[derive(Debug)]
pub enum OptionalBody {
    Missing,
    Empty,
    Present(Vec<u8>),
}

/// The text that is attached for a body of a declared content type.
pub open spec fn attached_text(body: Seq<char>, content_type: DetectedContentType) -> Seq<char> {
    if content_type == DetectedContentType::Json {
        json_output(body)
    } else {
        body
    }
}

/// The additions that attaching a body of a declared content type makes.
pub open spec fn attached_entries(body: Seq<char>, content_type: DetectedContentType) -> Seq<
    Entry,
> {
    if content_type == DetectedContentType::Json {
        json_entries(body)
    } else {
        Seq::empty()
    }
}

/// Prepares a body for attachment: a JSON body is normalized, any other is
/// taken verbatim. An empty text gives the empty body, any other text the
/// body of its UTF-8 bytes.
pub fn process_body(
    body: String,
    content_type: DetectedContentType,
    matching_rules: &mut Category,
    generators: &mut Generators,
) -> (out: OptionalBody)
    ensures
        attached_text(body@, content_type).len() == 0 ==> out is Empty,
        attached_text(body@, content_type).len() != 0 ==> out is Present && out->Present_0@
            == vstd::utf8::encode_utf8(attached_text(body@, content_type)),
        category_rules(*final(matching_rules)) == apply_rules(
            category_rules(*old(matching_rules)),
            attached_entries(body@, content_type),
        ),
        generator_table(*final(generators)) == apply_generators(
            generator_table(*old(generators)),
            attached_entries(body@, content_type),
        ),
{
    let processed_body = match content_type {
        DetectedContentType::Json => process_json(body, matching_rules, generators),
        _ => body,
    };
    if processed_body.as_str().is_empty() {
        OptionalBody::Empty
    } else {
        OptionalBody::Present(processed_body.as_str().as_bytes_vec())
    }
}

} // verus!
