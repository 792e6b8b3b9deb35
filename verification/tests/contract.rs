use pact_matching::models::generators::{Generator, GeneratorCategory};
use pact_matching::models::matchingrules::MatchingRule;
use pact_native::contract::{
    Pact, PathDetails, ProviderState, Request, RequestDetails, Response, ResponseDetails,
};
use pact_native::json::Json;
use pact_native::normalizer::{DetectedContentType, OptionalBody};

fn text(s: &str) -> String {
    s.to_string()
}

fn no_request_details() -> RequestDetails {
    RequestDetails { method: None, path: None, query: None, headers: None }
}

fn json_headers() -> Vec<(String, Vec<String>)> {
    vec![(text("Content-Type"), vec![text("application/json")])]
}

#[test]
fn new_pact_has_no_interactions() {
    let pact = Pact::new(text("consumer"), text("provider"));
    assert_eq!(pact.consumer, "consumer");
    assert_eq!(pact.provider, "provider");
    assert!(pact.interactions.is_empty());
}

#[test]
fn default_request_and_response() {
    let request = Request::new();
    assert_eq!(request.method, "GET");
    assert_eq!(request.path, "/");
    assert!(request.query.is_none());
    assert!(request.headers.is_none());
    assert!(matches!(request.body, OptionalBody::Missing));
    assert_eq!(request.body_rules.name, "body");
    assert!(request.body_rules.rules.is_empty());
    assert_eq!(request.path_rules.name, "path");
    assert!(request.path_rules.rules.is_empty());
    assert!(request.generators.categories.is_empty());
    let response = Response::new();
    assert_eq!(response.status, 200);
    assert!(response.headers.is_none());
    assert!(matches!(response.body, OptionalBody::Missing));
    assert!(response.body_rules.rules.is_empty());
    assert!(response.generators.categories.is_empty());
}

#[test]
fn interaction_is_appended_with_defaults() {
    let mut pact = Pact::new(text("c"), text("p"));
    pact.add_interaction(text("a request"), vec![ProviderState { name: text("state one") }]);
    pact.add_interaction(text("another"), Vec::new());
    assert_eq!(pact.interactions.len(), 2);
    assert_eq!(pact.interactions[0].description, "a request");
    assert_eq!(pact.interactions[0].provider_states.len(), 1);
    assert_eq!(pact.interactions[0].provider_states[0].name, "state one");
    assert!(pact.interactions[1].provider_states.is_empty());
    assert_eq!(pact.interactions[1].description, "another");
    assert_eq!(pact.interactions[1].request.method, "GET");
    assert_eq!(pact.interactions[1].response.status, 200);
}

#[test]
fn request_without_an_interaction_changes_nothing() {
    let mut pact = Pact::new(text("c"), text("p"));
    let details = RequestDetails { method: Some(text("POST")), ..no_request_details() };
    pact.add_request(details, Some(text("{}")));
    assert!(pact.interactions.is_empty());
    pact.add_response(ResponseDetails { status: Some(404), headers: None }, None);
    assert!(pact.interactions.is_empty());
}

#[test]
fn request_goes_to_the_interaction_added_last() {
    let mut pact = Pact::new(text("c"), text("p"));
    pact.add_interaction(text("first"), Vec::new());
    pact.add_interaction(text("second"), Vec::new());
    let details = RequestDetails {
        method: Some(text("GET")),
        path: Some(PathDetails { value: text("/x"), matcher: None }),
        query: Some(vec![(text("q"), vec![text("1"), text("2")])]),
        headers: None,
    };
    pact.add_request(details, None);
    pact.add_response(ResponseDetails { status: Some(201), headers: Some(json_headers()) }, None);
    assert_eq!(pact.interactions[0].request.path, "/");
    assert_eq!(pact.interactions[0].response.status, 200);
    let last = &pact.interactions[1];
    assert_eq!(last.description, "second");
    assert_eq!(last.request.method, "GET");
    assert_eq!(last.request.path, "/x");
    assert_eq!(last.request.query, Some(vec![(text("q"), vec![text("1"), text("2")])]));
    assert!(last.request.headers.is_none());
    assert!(matches!(last.request.body, OptionalBody::Missing));
    assert_eq!(last.response.status, 201);
    assert_eq!(last.response.headers, Some(json_headers()));
}

#[test]
fn absent_details_leave_the_request_as_it_is() {
    let mut request = Request::new();
    let details = RequestDetails {
        method: Some(text("PUT")),
        path: Some(PathDetails { value: text("/a"), matcher: None }),
        query: None,
        headers: Some(json_headers()),
    };
    request.attach(details, None);
    request.attach(no_request_details(), None);
    assert_eq!(request.method, "PUT");
    assert_eq!(request.path, "/a");
    assert_eq!(request.headers, Some(json_headers()));
}

#[test]
fn path_matcher_gives_a_path_rule_and_generator() {
    let mut request = Request::new();
    let fields = vec![
        (text("pact:matcher:type"), Json::Str(text("regex"))),
        (text("regex"), Json::Str(text("/x/\\d+"))),
        (text("pact:generator:type"), Json::Str(text("Regex"))),
        (text("value"), Json::Str(text("/x/1"))),
    ];
    let details = RequestDetails {
        path: Some(PathDetails { value: text("/x/1"), matcher: Some(fields) }),
        ..no_request_details()
    };
    request.attach(details, None);
    assert_eq!(request.path, "/x/1");
    let rules: Vec<MatchingRule> = request.path_rules.rules[""].rules.iter().cloned().collect();
    assert_eq!(rules, vec![MatchingRule::Regex(text("/x/\\d+"))]);
    assert_eq!(request.path_rules.rules.len(), 1);
    assert!(request.body_rules.rules.is_empty());
    let by_key = &request.generators.categories[&GeneratorCategory::PATH];
    assert_eq!(by_key.get(""), Some(&Generator::Regex(text("/x/\\d+"))));
    assert_eq!(request.generators.categories.len(), 1);
}

#[test]
fn json_body_is_normalized_when_the_headers_say_json() {
    let mut request = Request::new();
    let details = RequestDetails { headers: Some(json_headers()), ..no_request_details() };
    let body = text(r#"{"foo":{"pact:matcher:type":"type","pact:generator:type":"Uuid","value":"x"}}"#);
    request.attach(details, Some(body));
    assert!(matches!(request.body, OptionalBody::Present(ref bytes) if bytes == br#"{"foo":"x"}"#));
    assert_eq!(request.body_rules.rules.len(), 1);
    assert!(request.body_rules.rules.contains_key("$.foo"));
    let by_path = &request.generators.categories[&GeneratorCategory::BODY];
    assert_eq!(by_path.get("$.foo"), Some(&Generator::Uuid));
    assert!(request.path_rules.rules.is_empty());
}

#[test]
fn body_is_verbatim_when_the_headers_say_text() {
    let mut response = Response::new();
    let headers = vec![(text("Content-Type"), vec![text("text/plain")])];
    let body = text(r#"{"foo":{"pact:matcher:type":"type","value":"x"}}"#);
    response.attach(ResponseDetails { status: None, headers: Some(headers) }, Some(body.clone()));
    assert!(matches!(response.body, OptionalBody::Present(ref bytes) if bytes == body.as_bytes()));
    assert!(response.body_rules.rules.is_empty());
    assert_eq!(response.status, 200);
}

#[test]
fn body_as_a_given_content_type() {
    let mut response = Response::new();
    let body = text(r#"[{"pact:matcher:type":"integer","value":3}]"#);
    response.attach_as(
        ResponseDetails { status: Some(202), headers: None },
        Some(body.clone()),
        DetectedContentType::Json,
    );
    assert!(matches!(response.body, OptionalBody::Present(ref bytes) if bytes == b"[3]"));
    assert!(response.body_rules.rules.contains_key("$[0]"));
    assert_eq!(response.status, 202);

    let mut pact = Pact::new(text("c"), text("p"));
    pact.add_interaction(text("i"), Vec::new());
    pact.add_request_as(no_request_details(), Some(body.clone()), DetectedContentType::Xml);
    pact.add_response_as(
        ResponseDetails { status: None, headers: None },
        Some(text("")),
        DetectedContentType::Json,
    );
    let last = &pact.interactions[0];
    assert!(matches!(last.request.body, OptionalBody::Present(ref bytes) if bytes == body.as_bytes()));
    assert!(last.request.body_rules.rules.is_empty());
    assert!(matches!(last.response.body, OptionalBody::Empty));
}
