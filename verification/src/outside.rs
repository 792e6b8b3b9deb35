//! The calls into `serde_json`, `pact_matching` and `uuid`. Each item here
//! is believed, not proved: its contract says what the outside code does.

use vstd::prelude::*;
use crate::json::{field_position, Json, JsonModel};
use crate::normalizer::{DetectedContentType, OptionalBody};
use pact_matching::models::HttpPart;
use pact_matching::models::generators::{Generator, GeneratorCategory, Generators};
use pact_matching::models::matchingrules::{Category, MatchingRule, RuleLogic};
use serde_json::Value;

verus! {

/// `serde_json::Value`, carried through as an opaque value.
#[verifier::external_type_specification]
#[verifier::external_body]
pub struct ExValue(serde_json::Value);

/// `pact_matching`'s matching rule, carried through as an opaque value.
#[verifier::external_type_specification]
#[verifier::external_body]
pub struct ExMatchingRule(pact_matching::models::matchingrules::MatchingRule);

/// `pact_matching`'s generator descriptor, carried through as an opaque value.
#[verifier::external_type_specification]
#[verifier::external_body]
pub struct ExGenerator(pact_matching::models::generators::Generator);

/// `pact_matching`'s table of matching rules of one category.
#[verifier::external_type_specification]
#[verifier::external_body]
pub struct ExCategory(pact_matching::models::matchingrules::Category);

/// `pact_matching`'s table of generators.
#[verifier::external_type_specification]
#[verifier::external_body]
pub struct ExGenerators(pact_matching::models::generators::Generators);

/// The JSON tree that a `serde_json::Value` holds, fields in the order in
/// which its map walks them.
pub uninterp spec fn value_model(v: Value) -> JsonModel;

/// The tree held by the `serde_json::Value` that is built from a tree: the
/// map of an object keeps one field per name, in the map's own order, and a
/// number is read from its text.
pub uninterp spec fn stored_form(j: JsonModel) -> JsonModel;

/// What `serde_json::from_str` reads from a text, `None` where it reports an
/// error.
pub uninterp spec fn parsed_json(text: Seq<char>) -> Option<JsonModel>;

/// The compact text that `serde_json::Value::to_string` writes for a tree.
pub uninterp spec fn rendered_json(j: JsonModel) -> Seq<char>;

/// The rule that `MatchingRule::from_integration_json` reads from the fields
/// of an object, `None` where they describe none.
pub uninterp spec fn integration_rule(j: JsonModel) -> Option<MatchingRule>;

/// The generator that `Generator::from_map` reads for a type tag from the
/// fields of an object, `None` where the tag is not recognised.
pub uninterp spec fn generator_from(kind: Seq<char>, j: JsonModel) -> Option<Generator>;

/// The rules that a category holds, by path: the set of rules at the path,
/// and whether all of them must match (the logic `And`) rather than any.
pub uninterp spec fn category_rules(c: Category) -> Map<Seq<char>, (Set<MatchingRule>, bool)>;

/// The generators that a table holds, by the lower-case name of their
/// category (`body`, `path`) and their key within it.
pub uninterp spec fn generator_table(g: Generators) -> Map<(Seq<char>, Seq<char>), Generator>;

/// The name of the category of body generators.
pub open spec fn body_category() -> Seq<char> {
    "body"@
}

/// The name of the category of path generators.
pub open spec fn path_category() -> Seq<char> {
    "path"@
}

/// The rule table without rules.
pub open spec fn no_rules() -> Map<Seq<char>, (Set<MatchingRule>, bool)> {
    Map::empty()
}

/// The generator table without generators.
pub open spec fn no_generators() -> Map<(Seq<char>, Seq<char>), Generator> {
    Map::empty()
}

/// A rule table after one more rule was added at `path` with the logic
/// `And`: the set of rules at that path gains the rule; a path that had no
/// rules gets the logic `And`, any other keeps its own.
pub open spec fn with_rule(
    table: Map<Seq<char>, (Set<MatchingRule>, bool)>,
    path: Seq<char>,
    rule: MatchingRule,
) -> Map<Seq<char>, (Set<MatchingRule>, bool)> {
    let before = if table.dom().contains(path) {
        table[path]
    } else {
        (Set::empty(), true)
    };
    table.insert(path, (before.0.insert(rule), before.1))
}

/// Calls `serde_json::from_str` for a `Value`. The result is `None` exactly
/// where the text is no JSON document; else it holds the tree that was read.
#[verifier::external_body]
pub(crate) fn parse_value(text: &str) -> (r: Option<Value>)
    ensures
        match r {
            Some(v) => parsed_json(text@) == Some(value_model(v)),
            None => parsed_json(text@).is_none(),
        },
{
    serde_json::from_str::<Value>(text).ok()
}

/// Calls `Value::to_string`, which writes the value as compact JSON text.
#[verifier::external_body]
pub(crate) fn value_text(v: &Value) -> (r: String)
    ensures
        r@ == rendered_json(value_model(*v)),
{
    v.to_string()
}

/// Reads a `serde_json::Value` variant by variant into a `Json`: a number by
/// the text that `Number::to_string` writes, an object by walking its map.
#[verifier::external_body]
pub(crate) fn json_of_value(v: &Value) -> (r: Json)
    ensures
        r@ == value_model(*v),
{
    match v {
        Value::Null => Json::Null,
        Value::Bool(b) => Json::Bool(*b),
        Value::Number(n) => Json::Number(n.to_string()),
        Value::String(s) => Json::Str(s.clone()),
        Value::Array(a) => Json::Array(a.iter().map(json_of_value).collect()),
        Value::Object(m) => Json::Object(m.iter().map(|(k, x)| (k.clone(), json_of_value(x))).collect()),
    }
}

/// Builds the `serde_json::Value` of a `Json`: a number through
/// `Number::from_str` (null where the text is no number), an object through
/// the map's `FromIterator`.
#[verifier::external_body]
pub(crate) fn value_of_json(j: &Json) -> (r: Value)
    ensures
        value_model(r) == stored_form(j@),
{
    match j {
        Json::Null => Value::Null,
        Json::Bool(b) => Value::Bool(*b),
        Json::Number(t) => t.parse::<serde_json::Number>().map(Value::Number).unwrap_or(Value::Null),
        Json::Str(s) => Value::String(s.clone()),
        Json::Array(a) => Value::Array(a.iter().map(value_of_json).collect()),
        Json::Object(f) => Value::Object(f.iter().map(|(k, x)| (k.clone(), value_of_json(x))).collect()),
    }
}

/// Calls `MatchingRule::from_integration_json` on the map of an object
/// value; on any other value there is no map and no rule.
#[verifier::external_body]
pub(crate) fn rule_of_value(v: &Value) -> (r: Option<MatchingRule>)
    ensures
        r == integration_rule(value_model(*v)),
{
    v.as_object().and_then(MatchingRule::from_integration_json)
}

/// Whether `Generator::from_map` returns for this tag and these fields: for
/// the tag `ProviderState` it needs a field `expression`.
pub open spec fn generator_defined(kind: Seq<char>, j: JsonModel) -> bool {
    kind == "ProviderState"@ ==> (j is Object && field_position(
        j->Object_0,
        "expression"@,
    ).is_some())
}

/// Calls `Generator::from_map` with a type tag on the map of an object
/// value; on any other value there is no map and no generator.
#[verifier::external_body]
pub(crate) fn generator_of_value(kind: &String, v: &Value) -> (r: Option<Generator>)
    requires
        generator_defined(kind@, value_model(*v)),
    ensures
        r == generator_from(kind@, value_model(*v)),
{
    v.as_object().and_then(|m| Generator::from_map(kind, m))
}

/// Calls `Category::add_rule` with the logic `And`: the set of rules at the
/// path gains the rule, a new rule list gets that logic, and no other path
/// changes.
#[verifier::external_body]
pub(crate) fn add_rule(category: &mut Category, path: &String, rule: MatchingRule)
    ensures
        category_rules(*final(category)) == with_rule(category_rules(*old(category)), path@, rule),
{
    category.add_rule(path, rule, &RuleLogic::And)
}

/// Calls `Generators::add_generator_with_subcategory` for the category of
/// bodies: the generator at the path is set, replacing an earlier one, and
/// no other entry changes.
#[verifier::external_body]
pub(crate) fn add_body_generator(generators: &mut Generators, path: &String, generator: Generator)
    ensures
        generator_table(*final(generators)) == generator_table(*old(generators)).insert(
            (body_category(), path@),
            generator,
        ),
{
    generators.add_generator_with_subcategory(&GeneratorCategory::BODY, path, generator)
}


/// Calls `Generators::add_generator` for the category of paths, which keeps
/// its one generator under the empty key: that entry is set, and no other
/// entry changes.
#[verifier::external_body]
pub(crate) fn add_path_generator(generators: &mut Generators, generator: Generator)
    ensures
        generator_table(*final(generators)) == generator_table(*old(generators)).insert(
            (path_category(), Seq::<char>::empty()),
            generator,
        ),
{
    generators.add_generator(&GeneratorCategory::PATH, generator)
}

/// Calls `Category::default`: a category of the given name without rules.
#[verifier::external_body]
pub(crate) fn empty_category(name: &str) -> (category: Category)
    ensures
        category_rules(category) == no_rules(),
{
    Category::default(name)
}

/// Calls `Generators::default`: a table without generators.
#[verifier::external_body]
pub(crate) fn empty_generators() -> (generators: Generators)
    ensures
        generator_table(generators) == no_generators(),
{
    Generators::default()
}

/// Calls `Uuid::new_v4().simple().to_string()`: a random token, written as
/// 32 hexadecimal digits.
#[verifier::external_body]
pub(crate) fn new_session_id() -> (id: String)
    ensures
        id@.len() == 32,
{
    uuid::Uuid::new_v4().simple().to_string()
}

/// Calls `HttpPart::content_type_enum` on a `pact_matching` request that
/// holds these headers and this body: the general content type, from the
/// content-type header or else from the look of the body. Nothing is claimed
/// of the result: of two such headers that differ only in case, the hash
/// map's order decides which is read.
#[verifier::external_body]
pub(crate) fn detect_content_type(
    headers: &Option<Vec<(String, Vec<String>)>>,
    body: &OptionalBody,
) -> (kind: DetectedContentType) {
    let part = pact_matching::models::Request {
        headers: headers.as_ref().map(|h| h.iter().cloned().collect()),
        body: match body {
            OptionalBody::Missing => pact_matching::models::OptionalBody::Missing,
            OptionalBody::Empty => pact_matching::models::OptionalBody::Empty,
            OptionalBody::Present(bytes) => pact_matching::models::OptionalBody::Present(bytes.clone()),
        },
        ..Default::default()
    };
    match part.content_type_enum() {
        pact_matching::models::DetectedContentType::Json => DetectedContentType::Json,
        pact_matching::models::DetectedContentType::Xml => DetectedContentType::Xml,
        pact_matching::models::DetectedContentType::Text => DetectedContentType::Text,
    }
}

} // verus!
