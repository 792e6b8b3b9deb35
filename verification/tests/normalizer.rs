use pact_matching::models::generators::{Generator, GeneratorCategory, Generators};
use pact_matching::models::matchingrules::{Category, MatchingRule, RuleLogic};
use pact_native::json::{find_field, Json};
use pact_native::normalizer::{
    extract_generator, extract_rule, process_array, process_body, process_json, process_object,
    process_value, tag_text, DetectedContentType, OptionalBody,
};

fn tables() -> (Category, Generators) {
    (Category::default("body"), Generators::default())
}

fn text(s: &str) -> String {
    s.to_string()
}

fn rules_at(category: &Category, path: &str) -> Vec<MatchingRule> {
    match category.rules.get(path) {
        Some(list) => list.rules.iter().cloned().collect(),
        None => Vec::new(),
    }
}

fn body_generator(generators: &Generators, path: &str) -> Option<Generator> {
    generators
        .categories
        .get(&GeneratorCategory::BODY)
        .and_then(|by_path| by_path.get(path).cloned())
}

fn type_marker(value: Json) -> Json {
    Json::Object(vec![
        (text("pact:matcher:type"), Json::Str(text("type"))),
        (text("value"), value),
    ])
}

#[test]
fn document_without_markers_is_unchanged() {
    let (mut rules, mut generators) = tables();
    let body = text(r#"{"a":1,"b":[true,null,"s",{"c":2.5}],"d":{"e":"f"}}"#);
    let out = process_json(body.clone(), &mut rules, &mut generators);
    assert_eq!(out, body);
    assert!(rules.rules.is_empty());
    assert!(generators.categories.is_empty());
}

#[test]
fn whitespace_is_the_only_change_without_markers() {
    let (mut rules, mut generators) = tables();
    let out = process_json(text("{ \"a\" : [ 1 , 2 ] }"), &mut rules, &mut generators);
    assert_eq!(out, r#"{"a":[1,2]}"#);
    assert!(rules.rules.is_empty());
    assert!(generators.categories.is_empty());
}

#[test]
fn single_marker_gives_its_value_and_one_rule() {
    let (mut rules, mut generators) = tables();
    let body = text(r#"{"foo":{"pact:matcher:type":"type","value":"x"}}"#);
    let out = process_json(body, &mut rules, &mut generators);
    assert_eq!(out, r#"{"foo":"x"}"#);
    assert_eq!(rules.rules.len(), 1);
    assert_eq!(rules_at(&rules, "$.foo"), vec![MatchingRule::Type]);
    assert!(generators.categories.is_empty());
}

#[test]
fn marker_around_an_array_gives_one_rule_not_one_per_element() {
    let (mut rules, mut generators) = tables();
    let body = text(r#"{"items":{"pact:matcher:type":"type","value":[1,2,3]}}"#);
    let out = process_json(body, &mut rules, &mut generators);
    assert_eq!(out, r#"{"items":[1,2,3]}"#);
    assert_eq!(rules.rules.len(), 1);
    assert_eq!(rules_at(&rules, "$.items"), vec![MatchingRule::Type]);
}

#[test]
fn markers_in_the_elements_of_a_type_matcher_share_the_wildcard_path() {
    let (mut rules, mut generators) = tables();
    let element = r#"{"pact:matcher:type":"integer","value":1}"#;
    let body = format!(
        r#"{{"items":{{"pact:matcher:type":"type","min":1,"value":[{e},{e},{e}]}}}}"#,
        e = element
    );
    let out = process_json(body, &mut rules, &mut generators);
    assert_eq!(out, r#"{"items":[1,1,1]}"#);
    assert_eq!(rules.rules.len(), 2);
    assert_eq!(rules_at(&rules, "$.items"), vec![MatchingRule::MinType(1)]);
    assert_eq!(rules_at(&rules, "$.items[*]"), vec![MatchingRule::Integer]);
}

#[test]
fn fields_of_a_type_matcher_share_the_wildcard_path() {
    let (mut rules, mut generators) = tables();
    let body = text(
        r#"{"m":{"pact:matcher:type":"type","value":{"a":{"pact:matcher:type":"number","value":1},"b":{"pact:matcher:type":"number","value":2}}}}"#,
    );
    let out = process_json(body, &mut rules, &mut generators);
    assert_eq!(out, r#"{"m":{"a":1,"b":2}}"#);
    assert_eq!(rules.rules.len(), 2);
    assert_eq!(rules_at(&rules, "$.m"), vec![MatchingRule::Type]);
    assert_eq!(rules_at(&rules, "$.m.*"), vec![MatchingRule::Number]);
}

#[test]
fn paths_name_fields_and_indices() {
    let (mut rules, mut generators) = tables();
    let body = text(
        r#"[{"a":[0,{"pact:matcher:type":"regex","regex":"\\d+","value":"12"}]},{"pact:matcher:type":"equality","value":true}]"#,
    );
    let out = process_json(body, &mut rules, &mut generators);
    assert_eq!(out, r#"[{"a":[0,"12"]},true]"#);
    assert_eq!(rules.rules.len(), 2);
    assert_eq!(rules_at(&rules, "$[0].a[1]"), vec![MatchingRule::Regex(text("\\d+"))]);
    assert_eq!(rules_at(&rules, "$[1]"), vec![MatchingRule::Equality]);
}

#[test]
fn index_above_nine_is_written_in_decimal() {
    let (mut rules, mut generators) = tables();
    let mut items: Vec<Json> = Vec::new();
    for n in 0..12 {
        items.push(Json::Number(n.to_string()));
    }
    items.push(type_marker(Json::Str(text("x"))));
    let out = process_array(&items, &mut rules, &mut generators, &text("$"), false);
    match out {
        Json::Array(clean) => {
            assert_eq!(clean.len(), 13);
            assert!(matches!(&clean[12], Json::Str(s) if s == "x"));
        }
        other => panic!("not an array: {:?}", other),
    }
    assert_eq!(rules.rules.len(), 1);
    assert_eq!(rules_at(&rules, "$[12]"), vec![MatchingRule::Type]);
}

#[test]
fn normalizing_the_output_again_changes_nothing() {
    let (mut rules, mut generators) = tables();
    let body = text(
        r#"{"id":{"pact:matcher:type":"type","pact:generator:type":"Uuid","value":"abc"},"n":[{"pact:matcher:type":"integer","value":7}]}"#,
    );
    let once = process_json(body, &mut rules, &mut generators);
    assert_eq!(once, r#"{"id":"abc","n":[7]}"#);
    let (mut rules2, mut generators2) = tables();
    let twice = process_json(once.clone(), &mut rules2, &mut generators2);
    assert_eq!(twice, once);
    assert!(rules2.rules.is_empty());
    assert!(generators2.categories.is_empty());
}

#[test]
fn generator_is_registered_for_the_body_at_the_marker_path() {
    let (mut rules, mut generators) = tables();
    let body = text(
        r#"{"id":{"pact:matcher:type":"regex","regex":"[a-f]+","pact:generator:type":"Regex","value":"abc"}}"#,
    );
    let out = process_json(body, &mut rules, &mut generators);
    assert_eq!(out, r#"{"id":"abc"}"#);
    assert_eq!(rules_at(&rules, "$.id"), vec![MatchingRule::Regex(text("[a-f]+"))]);
    assert_eq!(generators.categories.len(), 1);
    assert_eq!(body_generator(&generators, "$.id"), Some(Generator::Regex(text("[a-f]+"))));
}

#[test]
fn unrecognised_rule_still_gives_the_value() {
    let (mut rules, mut generators) = tables();
    let body = text(r#"{"foo":{"pact:matcher:type":"no-such-rule","value":[1,{"a":2}]}}"#);
    let out = process_json(body, &mut rules, &mut generators);
    assert_eq!(out, r#"{"foo":[1,{"a":2}]}"#);
    assert!(rules.rules.is_empty());
    assert!(generators.categories.is_empty());
}

#[test]
fn unrecognised_generator_is_skipped() {
    let (mut rules, mut generators) = tables();
    let body = text(
        r#"{"foo":{"pact:matcher:type":"type","pact:generator:type":"NoSuch","value":1}}"#,
    );
    let out = process_json(body, &mut rules, &mut generators);
    assert_eq!(out, r#"{"foo":1}"#);
    assert_eq!(rules_at(&rules, "$.foo"), vec![MatchingRule::Type]);
    assert!(body_generator(&generators, "$.foo").is_none());
}

#[test]
fn provider_state_generator_without_expression_is_skipped() {
    let (mut rules, mut generators) = tables();
    let body = text(
        r#"{"foo":{"pact:matcher:type":"type","pact:generator:type":"ProviderState","value":1}}"#,
    );
    let out = process_json(body, &mut rules, &mut generators);
    assert_eq!(out, r#"{"foo":1}"#);
    assert!(body_generator(&generators, "$.foo").is_none());
}

#[test]
fn provider_state_generator_with_expression_is_registered() {
    let (mut rules, mut generators) = tables();
    let body = text(
        r#"{"foo":{"pact:matcher:type":"type","pact:generator:type":"ProviderState","expression":"${id}","value":1}}"#,
    );
    let out = process_json(body, &mut rules, &mut generators);
    assert_eq!(out, r#"{"foo":1}"#);
    assert_eq!(
        body_generator(&generators, "$.foo"),
        Some(Generator::ProviderStateGenerator(text("${id}")))
    );
}

#[test]
fn marker_without_value_gives_null() {
    let (mut rules, mut generators) = tables();
    let body = text(r#"{"foo":{"pact:matcher:type":"type"},"bar":1}"#);
    let out = process_json(body, &mut rules, &mut generators);
    assert_eq!(out, r#"{"bar":1,"foo":null}"#);
    assert_eq!(rules_at(&rules, "$.foo"), vec![MatchingRule::Type]);
}

#[test]
fn marker_at_the_root_stands_at_the_root_path() {
    let (mut rules, mut generators) = tables();
    let body = text(r#"{"pact:matcher:type":"type","value":{"a":1}}"#);
    let out = process_json(body, &mut rules, &mut generators);
    assert_eq!(out, r#"{"a":1}"#);
    assert_eq!(rules_at(&rules, "$"), vec![MatchingRule::Type]);
}

#[test]
fn unparsable_body_passes_through() {
    let (mut rules, mut generators) = tables();
    let body = text("{not json");
    let out = process_json(body.clone(), &mut rules, &mut generators);
    assert_eq!(out, body);
    assert!(rules.rules.is_empty());
    assert!(generators.categories.is_empty());
}

#[test]
fn scalar_body_passes_through_as_written() {
    let (mut rules, mut generators) = tables();
    let out = process_json(text("  42 "), &mut rules, &mut generators);
    assert_eq!(out, "  42 ");
    let out = process_json(text("\"s\""), &mut rules, &mut generators);
    assert_eq!(out, "\"s\"");
    assert!(rules.rules.is_empty());
}

#[test]
fn two_rules_at_one_path_are_both_kept() {
    let (mut rules, mut generators) = tables();
    let inner = type_marker(Json::Str(text("x")));
    let outer = Json::Object(vec![
        (text("pact:matcher:type"), Json::Str(text("integer"))),
        (text("value"), inner),
    ]);
    let out = process_value(&outer, &mut rules, &mut generators, &text("$.p"), false);
    assert!(matches!(out, Json::Str(ref s) if s == "x"));
    assert_eq!(rules.rules.len(), 1);
    assert_eq!(rules_at(&rules, "$.p"), vec![MatchingRule::Type, MatchingRule::Integer]);
}

#[test]
fn plain_object_under_a_type_matcher_uses_the_wildcard() {
    let (mut rules, mut generators) = tables();
    let fields = vec![
        (text("a"), type_marker(Json::Bool(true))),
        (text("b"), Json::Null),
    ];
    let out = process_object(&fields, &mut rules, &mut generators, &text("$.x"), true);
    match out {
        Json::Object(clean) => {
            assert_eq!(clean.len(), 2);
            assert_eq!(clean[0].0, "a");
            assert!(matches!(clean[0].1, Json::Bool(true)));
            assert_eq!(clean[1].0, "b");
            assert!(matches!(clean[1].1, Json::Null));
        }
        other => panic!("not an object: {:?}", other),
    }
    assert_eq!(rules_at(&rules, "$.x.*"), vec![MatchingRule::Type]);
}

#[test]
fn array_under_a_type_matcher_uses_the_wildcard() {
    let (mut rules, mut generators) = tables();
    let items = vec![type_marker(Json::Number(text("1")))];
    let out = process_array(&items, &mut rules, &mut generators, &text("$.x"), true);
    assert!(matches!(out, Json::Array(ref clean) if clean.len() == 1));
    assert_eq!(rules_at(&rules, "$.x[*]"), vec![MatchingRule::Type]);
}

#[test]
fn rule_outcome_is_typed() {
    let fields = vec![
        (text("pact:matcher:type"), Json::Str(text("regex"))),
        (text("regex"), Json::Str(text("a+"))),
    ];
    assert_eq!(extract_rule(&fields), Some(MatchingRule::Regex(text("a+"))));
    let fields = vec![(text("pact:matcher:type"), Json::Str(text("regex")))];
    assert_eq!(extract_rule(&fields), None);
    let fields = vec![
        (text("pact:matcher:type"), Json::Str(text("type"))),
        (text("min"), Json::Number(text("2"))),
        (text("max"), Json::Number(text("5"))),
    ];
    assert_eq!(extract_rule(&fields), Some(MatchingRule::MinMaxType(2, 5)));
    assert_eq!(extract_rule(&Vec::new()), None);
}

#[test]
fn generator_outcome_is_typed() {
    let fields = vec![
        (text("pact:generator:type"), Json::Str(text("RandomInt"))),
        (text("min"), Json::Number(text("3"))),
        (text("max"), Json::Number(text("9"))),
    ];
    assert_eq!(extract_generator(&fields), Some(Generator::RandomInt(3, 9)));
    let fields = vec![(text("pact:generator:type"), Json::Str(text("Uuid")))];
    assert_eq!(extract_generator(&fields), Some(Generator::Uuid));
    let fields = vec![(text("min"), Json::Number(text("3")))];
    assert_eq!(extract_generator(&fields), None);
    let fields = vec![(text("pact:generator:type"), Json::Str(text("ProviderState")))];
    assert_eq!(extract_generator(&fields), None);
}

#[test]
fn json_body_is_normalized_and_other_bodies_are_verbatim() {
    let (mut rules, mut generators) = tables();
    let marked = r#"{"foo":{"pact:matcher:type":"type","value":"x"}}"#;
    let out = process_body(text(marked), DetectedContentType::Json, &mut rules, &mut generators);
    assert!(matches!(out, OptionalBody::Present(ref bytes) if bytes == br#"{"foo":"x"}"#));
    assert_eq!(rules.rules.len(), 1);

    let (mut rules, mut generators) = tables();
    let out = process_body(text(marked), DetectedContentType::Text, &mut rules, &mut generators);
    assert!(matches!(out, OptionalBody::Present(ref bytes) if bytes == marked.as_bytes()));
    assert!(rules.rules.is_empty());

    let out = process_body(text("<a/>"), DetectedContentType::Xml, &mut rules, &mut generators);
    assert!(matches!(out, OptionalBody::Present(ref bytes) if bytes == b"<a/>"));
    assert!(rules.rules.is_empty());
}

#[test]
fn empty_body_is_present_but_empty() {
    let (mut rules, mut generators) = tables();
    let out = process_body(text(""), DetectedContentType::Json, &mut rules, &mut generators);
    assert!(matches!(out, OptionalBody::Empty));
    let out = process_body(text(""), DetectedContentType::Text, &mut rules, &mut generators);
    assert!(matches!(out, OptionalBody::Empty));
}

#[test]
fn rules_are_combined_by_and() {
    let (mut rules, mut generators) = tables();
    let body = text(r#"{"foo":{"pact:matcher:type":"type","value":"x"}}"#);
    process_json(body, &mut rules, &mut generators);
    assert_eq!(rules.rules["$.foo"].rule_logic, RuleLogic::And);
}

#[test]
fn rules_are_added_to_those_already_in_the_table() {
    let (mut rules, mut generators) = tables();
    rules.add_rule("$.foo", MatchingRule::Integer, &RuleLogic::Or);
    rules.add_rule("$.other", MatchingRule::Null, &RuleLogic::And);
    generators.add_generator_with_subcategory(&GeneratorCategory::BODY, "$.foo", Generator::RandomBoolean);
    let body = text(r#"{"foo":{"pact:matcher:type":"type","pact:generator:type":"Uuid","value":"x"}}"#);
    process_json(body, &mut rules, &mut generators);
    assert_eq!(rules.rules.len(), 2);
    assert_eq!(rules_at(&rules, "$.foo"), vec![MatchingRule::Type, MatchingRule::Integer]);
    assert_eq!(rules.rules["$.foo"].rule_logic, RuleLogic::Or);
    assert_eq!(rules_at(&rules, "$.other"), vec![MatchingRule::Null]);
    assert_eq!(body_generator(&generators, "$.foo"), Some(Generator::Uuid));
}

#[test]
fn number_text_is_kept_as_written_by_the_parser() {
    let (mut rules, mut generators) = tables();
    let body = text(r#"[1, -2, 3.5, 1e3, 18446744073709551615]"#);
    let out = process_json(body, &mut rules, &mut generators);
    assert_eq!(out, "[1,-2,3.5,1000.0,18446744073709551615]");
}

#[test]
fn copy_of_a_value_is_the_same_value() {
    let value = Json::Object(vec![
        (text("a"), Json::Array(vec![Json::Null, Json::Bool(false), Json::Number(text("7"))])),
        (text("b"), Json::Str(text("s"))),
    ]);
    let copy = value.duplicate();
    assert_eq!(format!("{:?}", copy), format!("{:?}", value));
}

#[test]
fn first_field_of_a_name_is_found() {
    let fields = vec![
        (text("a"), Json::Null),
        (text("value"), Json::Bool(true)),
        (text("value"), Json::Bool(false)),
    ];
    assert_eq!(find_field(&fields, "value"), Some(1));
    assert_eq!(find_field(&fields, "a"), Some(0));
    assert_eq!(find_field(&fields, "b"), None);
    assert_eq!(find_field(&Vec::new(), "a"), None);
}

#[test]
fn tag_is_the_string_or_the_json_text() {
    assert_eq!(tag_text(&Json::Str(text("Uuid"))), "Uuid");
    assert_eq!(tag_text(&Json::Number(text("5"))), "5");
    assert_eq!(tag_text(&Json::Bool(true)), "true");
    assert_eq!(tag_text(&Json::Array(vec![Json::Null])), "[null]");
}
