//! What holds of the normalizer on every document.

use vstd::prelude::*;
use crate::json::JsonModel;
use crate::json::field_position;
use crate::normalizer::{
    apply_generators, apply_rules, entries, field_entries, is_marker, item_entries,
    marker_entries, marker_rule, normalized, value_key, Entry,
};
use crate::normalizer::{json_entries, json_output};
use crate::outside::{no_rules, parsed_json, rendered_json, stored_form, with_rule};
use crate::path::{field_path, index_path, root_path};
use pact_matching::models::generators::Generator;
use pact_matching::models::matchingrules::MatchingRule;

verus! {

/// Whether a document holds no matcher specification at any depth.
pub open spec fn marker_free(j: JsonModel) -> bool
    decreases j,
{
    match j {
        JsonModel::Object(fields) => !is_marker(fields) && forall|i: int|
            0 <= i < fields.len() ==> marker_free(#[trigger] fields[i].1),
        JsonModel::Array(items) => forall|i: int|
            0 <= i < items.len() ==> marker_free(#[trigger] items[i]),
        _ => true,
    }
}

/// A document without matcher specifications normalizes to itself.
pub proof fn marker_free_normalized(j: JsonModel)
    requires
        marker_free(j),
    ensures
        normalized(j) == j,
    decreases j,
{
    match j {
        JsonModel::Object(fields) => {
            assert forall|i: int| 0 <= i < fields.len() implies normalized(fields[i].1)
                == fields[i].1 by {
                marker_free_normalized(fields[i].1);
            }
            assert(normalized(j)->Object_0 =~= fields);
        },
        JsonModel::Array(items) => {
            assert forall|i: int| 0 <= i < items.len() implies normalized(items[i])
                == items[i] by {
                marker_free_normalized(items[i]);
            }
            assert(normalized(j)->Array_0 =~= items);
        },
        _ => {},
    }
}

/// A document without matcher specifications adds nothing to the tables.
pub proof fn marker_free_entries(j: JsonModel, path: Seq<char>, type_matcher: bool)
    requires
        marker_free(j),
    ensures
        entries(j, path, type_matcher) == Seq::<Entry>::empty(),
    decreases j, 0nat,
{
    match j {
        JsonModel::Object(fields) => {
            marker_free_field_entries(fields, path, type_matcher, fields.len());
        },
        JsonModel::Array(items) => {
            marker_free_item_entries(items, path, type_matcher, items.len());
        },
        _ => {},
    }
}

proof fn marker_free_field_entries(
    fields: Seq<(Seq<char>, JsonModel)>,
    path: Seq<char>,
    type_matcher: bool,
    n: nat,
)
    requires
        forall|i: int| 0 <= i < fields.len() ==> marker_free(#[trigger] fields[i].1),
    ensures
        field_entries(fields, path, type_matcher, n) == Seq::<Entry>::empty(),
    decreases fields, n,
{
    if n != 0 && n <= fields.len() {
        marker_free_field_entries(fields, path, type_matcher, (n - 1) as nat);
        marker_free_entries(
            fields[n - 1].1,
            crate::path::field_path(path, fields[n - 1].0, type_matcher),
            false,
        );
        assert(Seq::<Entry>::empty() + Seq::<Entry>::empty() =~= Seq::<Entry>::empty());
    }
}

proof fn marker_free_item_entries(
    items: Seq<JsonModel>,
    path: Seq<char>,
    type_matcher: bool,
    n: nat,
)
    requires
        forall|i: int| 0 <= i < items.len() ==> marker_free(#[trigger] items[i]),
    ensures
        item_entries(items, path, type_matcher, n) == Seq::<Entry>::empty(),
    decreases items, n,
{
    if n != 0 && n <= items.len() {
        marker_free_item_entries(items, path, type_matcher, (n - 1) as nat);
        marker_free_entries(
            items[n - 1],
            crate::path::index_path(path, (n - 1) as nat, type_matcher),
            false,
        );
        assert(Seq::<Entry>::empty() + Seq::<Entry>::empty() =~= Seq::<Entry>::empty());
    }
}

/// Normalizing a document without matcher specifications changes nothing:
/// the document comes out as it went in, and both side tables stay as they
/// were, from whatever path and under whatever ancestor the walk starts.
pub proof fn marker_free_is_unchanged(
    j: JsonModel,
    path: Seq<char>,
    type_matcher: bool,
    rules: Map<Seq<char>, (Set<MatchingRule>, bool)>,
    generators: Map<(Seq<char>, Seq<char>), Generator>,
)
    requires
        marker_free(j),
    ensures
        normalized(j) == j,
        apply_rules(rules, entries(j, path, type_matcher)) == rules,
        apply_generators(generators, entries(j, path, type_matcher)) == generators,
{
    marker_free_normalized(j);
    marker_free_entries(j, path, type_matcher);
}

/// What the normalizer returns holds no matcher specification.
pub proof fn normalized_is_marker_free(j: JsonModel)
    ensures
        marker_free(normalized(j)),
    decreases j,
{
    match j {
        JsonModel::Object(fields) => {
            if is_marker(fields) {
                match crate::json::field_position(fields, crate::normalizer::value_key()) {
                    Some(i) => {
                        if 0 <= i < fields.len() {
                            normalized_is_marker_free(fields[i].1);
                        }
                    },
                    None => {},
                }
            } else {
                let out = normalized(j)->Object_0;
                assert forall|i: int| 0 <= i < out.len() implies marker_free(
                    #[trigger] out[i].1,
                ) by {
                    normalized_is_marker_free(fields[i].1);
                }
                same_names_same_marker(fields, out);
            }
        },
        JsonModel::Array(items) => {
            let out = normalized(j)->Array_0;
            assert forall|i: int| 0 <= i < out.len() implies marker_free(#[trigger] out[i]) by {
                normalized_is_marker_free(items[i]);
            }
        },
        _ => {},
    }
}

/// Two objects with the same field names in the same order are both matcher
/// specifications or both not.
proof fn same_names_same_marker(
    a: Seq<(Seq<char>, JsonModel)>,
    b: Seq<(Seq<char>, JsonModel)>,
)
    requires
        a.len() == b.len(),
        forall|i: int| 0 <= i < a.len() ==> a[i].0 == b[i].0,
    ensures
        is_marker(a) == is_marker(b),
{
    let key = crate::normalizer::matcher_key();
    crate::json::field_position_is_first(a, key);
    crate::json::field_position_is_first(b, key);
}

/// Normalizing is idempotent: on what the normalizer returned, a second run
/// returns the same document and leaves both side tables as they were.
pub proof fn normalizing_twice_is_a_noop(
    j: JsonModel,
    path: Seq<char>,
    type_matcher: bool,
    rules: Map<Seq<char>, (Set<MatchingRule>, bool)>,
    generators: Map<(Seq<char>, Seq<char>), Generator>,
)
    ensures
        normalized(normalized(j)) == normalized(j),
        apply_rules(rules, entries(normalized(j), path, type_matcher)) == rules,
        apply_generators(generators, entries(normalized(j), path, type_matcher)) == generators,
{
    normalized_is_marker_free(j);
    marker_free_is_unchanged(normalized(j), path, type_matcher, rules, generators);
}

/// The additions of the first `n` fields of an object whose field `k` holds
/// a matcher specification around a value without further specifications,
/// and whose other fields hold none: nothing before field `k`, and from then
/// on what that one specification describes, at the path of its field.
proof fn one_marker_field_entries(
    outer: Seq<(Seq<char>, JsonModel)>,
    k: int,
    fields: Seq<(Seq<char>, JsonModel)>,
    path: Seq<char>,
    type_matcher: bool,
    n: nat,
)
    requires
        0 <= k < outer.len(),
        n <= outer.len(),
        outer[k].1 == JsonModel::Object(fields),
        forall|i: int| 0 <= i < outer.len() && i != k ==> marker_free(#[trigger] outer[i].1),
        is_marker(fields),
        field_position(fields, value_key()).is_some(),
        marker_free(fields[field_position(fields, value_key()).unwrap()].1),
    ensures
        field_entries(outer, path, type_matcher, n) == (if n <= k {
            Seq::<Entry>::empty()
        } else {
            marker_entries(fields, field_path(path, outer[k].0, type_matcher))
        }),
    decreases n,
{
    if n > 0 {
        one_marker_field_entries(outer, k, fields, path, type_matcher, (n - 1) as nat);
        let here = field_path(path, outer[n - 1].0, type_matcher);
        let before = field_entries(outer, path, type_matcher, (n - 1) as nat);
        if n - 1 == k {
            crate::json::field_position_is_first(fields, value_key());
            let value = fields[field_position(fields, value_key()).unwrap()].1;
            marker_free_entries(value, here, true);
            assert(entries(outer[k].1, here, false) =~= marker_entries(fields, here));
            assert(before + marker_entries(fields, here) =~= marker_entries(fields, here));
        } else {
            marker_free_entries(outer[n - 1].1, here, false);
            assert(before + Seq::<Entry>::empty() =~= before);
        }
    }
}

/// A document with exactly one matcher specification, the value of one
/// field of the root object, around a value without further specifications:
/// the normalized document holds that value in place of the specification
/// and is otherwise as it was, and the tables gain what the specification
/// describes, at the path of that field and nowhere else. With a recognised
/// rule, a rule table that was empty then holds that one rule at that one
/// path, to be combined by `And`, however many elements or fields the value
/// has.
pub proof fn one_marker_gives_one_entry(
    outer: Seq<(Seq<char>, JsonModel)>,
    k: int,
    fields: Seq<(Seq<char>, JsonModel)>,
    value: JsonModel,
)
    requires
        !is_marker(outer),
        0 <= k < outer.len(),
        outer[k].1 == JsonModel::Object(fields),
        forall|i: int| 0 <= i < outer.len() && i != k ==> marker_free(#[trigger] outer[i].1),
        is_marker(fields),
        field_position(fields, value_key()).is_some(),
        value == fields[field_position(fields, value_key()).unwrap()].1,
        marker_free(value),
    ensures
        normalized(JsonModel::Object(outer)) == JsonModel::Object(
            outer.update(k, (outer[k].0, value)),
        ),
        entries(JsonModel::Object(outer), root_path(), false) == marker_entries(
            fields,
            field_path(root_path(), outer[k].0, false),
        ),
        apply_rules(no_rules(), entries(JsonModel::Object(outer), root_path(), false)) == (
        match marker_rule(fields) {
            Some(rule) => no_rules().insert(
                field_path(root_path(), outer[k].0, false),
                (set![rule], true),
            ),
            None => no_rules(),
        }),
{
    let path = field_path(root_path(), outer[k].0, false);
    crate::json::field_position_is_first(fields, value_key());
    marker_free_normalized(value);
    assert(normalized(outer[k].1) == value);
    assert forall|i: int| 0 <= i < outer.len() && i != k implies normalized(outer[i].1)
        == outer[i].1 by {
        marker_free_normalized(outer[i].1);
    }
    assert(normalized(JsonModel::Object(outer))->Object_0 =~= outer.update(
        k,
        (outer[k].0, value),
    ));
    one_marker_field_entries(outer, k, fields, root_path(), false, outer.len());
    crate::normalizer::apply_marker(no_rules(), crate::outside::no_generators(), fields, path);
    if let Some(rule) = marker_rule(fields) {
        assert(Set::<MatchingRule>::empty().insert(rule) =~= set![rule]);
    }
}

/// A JSON body whose document holds no matcher specification comes out as
/// the compact text of the same document, or as it is where the document is
/// a scalar or null, and adds nothing to the side tables.
pub proof fn body_without_markers(
    body: Seq<char>,
    rules: Map<Seq<char>, (Set<MatchingRule>, bool)>,
    generators: Map<(Seq<char>, Seq<char>), Generator>,
)
    requires
        parsed_json(body).is_some(),
        marker_free(parsed_json(body).unwrap()),
    ensures
        json_output(body) == (if parsed_json(body).unwrap() is Object || parsed_json(
            body,
        ).unwrap() is Array {
            rendered_json(stored_form(parsed_json(body).unwrap()))
        } else {
            body
        }),
        apply_rules(rules, json_entries(body)) == rules,
        apply_generators(generators, json_entries(body)) == generators,
{
    marker_free_is_unchanged(parsed_json(body).unwrap(), root_path(), false, rules, generators);
}

/// Under a type matcher every element of an array has the same path, and
/// so has every field of an object: what their matcher specifications add
/// goes to one path, not to one per element.
pub proof fn wildcard_segment_is_shared(
    path: Seq<char>,
    i: nat,
    j: nat,
    first: Seq<char>,
    second: Seq<char>,
)
    ensures
        index_path(path, i, true) == index_path(path, j, true),
        field_path(path, first, true) == field_path(path, second, true),
{
}

/// Adding a rule to a path that already holds it leaves the table as it
/// was: equal rules of several elements make one entry.
pub proof fn same_rule_twice_is_once(
    rules: Map<Seq<char>, (Set<MatchingRule>, bool)>,
    path: Seq<char>,
    rule: MatchingRule,
)
    ensures
        with_rule(with_rule(rules, path, rule), path, rule) == with_rule(rules, path, rule),
{
    let once = with_rule(rules, path, rule);
    assert(once[path].0.insert(rule) =~= once[path].0);
    assert(with_rule(once, path, rule) =~= once);
}

} // verus!
