//! The contract model: a pact between a consumer and a provider, built up
//! interaction by interaction.

use vstd::prelude::*;
use crate::json::{fields_model, Json};
use crate::normalizer::{
    apply_generators, apply_rules, attached_entries, attached_text, extract_generator,
    extract_rule, marker_generator, marker_rule, process_body, DetectedContentType, OptionalBody,
};
use crate::outside::{
    add_path_generator, add_rule, category_rules, detect_content_type, empty_category,
    empty_generators,
    generator_table, no_generators, no_rules, path_category, with_rule,
};
use pact_matching::models::generators::{Generator, Generators};
use pact_matching::models::matchingrules::{Category, MatchingRule};

verus! {

/// Header or query values by name, in the order given.
pub type Multimap = Vec<(String, Vec<String>)>;

/// An expected request.
pub struct Request {
    pub method: String,
    pub path: String,
    pub query: Option<Multimap>,
    pub headers: Option<Multimap>,
    pub body: OptionalBody,
    /// The matching rules of the category `body`.
    pub body_rules: Category,
    /// The matching rules of the category `path`.
    pub path_rules: Category,
    pub generators: Generators,
}

/// An expected response.
pub struct Response {
    pub status: u16,
    pub headers: Option<Multimap>,
    pub body: OptionalBody,
    /// The matching rules of the category `body`.
    pub body_rules: Category,
    pub generators: Generators,
}

/// A state that the provider must be in for an interaction.
pub struct ProviderState {
    pub name: String,
}

/// One expected exchange and the provider states it needs.
pub struct Interaction {
    pub description: String,
    pub provider_states: Vec<ProviderState>,
    pub request: Request,
    pub response: Response,
}

/// The expected interactions between a consumer and a provider.
pub struct Pact {
    pub consumer: String,
    pub provider: String,
    pub interactions: Vec<Interaction>,
}

/// The path of a request as the caller gives it: its text, and for a path
/// given as a matcher specification the fields of that specification.
pub struct PathDetails {
    pub value: String,
    pub matcher: Option<Vec<(String, Json)>>,
}

/// What a caller supplies of a request; an absent part leaves the request's
/// own as it is.
pub struct RequestDetails {
    pub method: Option<String>,
    pub path: Option<PathDetails>,
    pub query: Option<Multimap>,
    pub headers: Option<Multimap>,
}

/// What a caller supplies of a response; an absent part leaves the
/// response's own as it is.
pub struct ResponseDetails {
    pub status: Option<u16>,
    pub headers: Option<Multimap>,
}

/// The rule that a path given as a matcher specification carries.
pub open spec fn path_rule(path: Option<PathDetails>) -> Option<MatchingRule> {
    match path {
        Some(PathDetails { value: _, matcher: Some(fields) }) => marker_rule(
            fields_model(fields@),
        ),
        _ => None,
    }
}

/// The generator that a path given as a matcher specification carries.
pub open spec fn path_generator(path: Option<PathDetails>) -> Option<Generator> {
    match path {
        Some(PathDetails { value: _, matcher: Some(fields) }) => marker_generator(
            fields_model(fields@),
        ),
        _ => None,
    }
}

/// Whether a body after attachment is the one that a text gives: the empty
/// body for the empty text, else the body of the text's UTF-8 bytes.
pub open spec fn body_holds(body: OptionalBody, text: Seq<char>) -> bool {
    if text.len() == 0 {
        body is Empty
    } else {
        body is Present && body->Present_0@ == vstd::utf8::encode_utf8(text)
    }
}

/// Whether `after` is `before` with the supplied request details attached.
/// The rule of a path matcher goes to the path rules under the empty key,
/// its generator to the path generators; then a supplied body is prepared
/// according to the content type and attached.
pub open spec fn request_attached(
    before: Request,
    details: RequestDetails,
    body: Option<String>,
    content_type: DetectedContentType,
    after: Request,
) -> bool {
    let path_generators = match path_generator(details.path) {
        Some(generator) => generator_table(before.generators).insert(
            (path_category(), Seq::<char>::empty()),
            generator,
        ),
        None => generator_table(before.generators),
    };
    &&& after.method == (match details.method {
        Some(method) => method,
        None => before.method,
    })
    &&& after.path == (match details.path {
        Some(path) => path.value,
        None => before.path,
    })
    &&& after.query == (match details.query {
        Some(query) => Some(query),
        None => before.query,
    })
    &&& after.headers == (match details.headers {
        Some(headers) => Some(headers),
        None => before.headers,
    })
    &&& category_rules(after.path_rules) == (match path_rule(details.path) {
        Some(rule) => with_rule(category_rules(before.path_rules), Seq::<char>::empty(), rule),
        None => category_rules(before.path_rules),
    })
    &&& match body {
        Some(text) => {
            &&& body_holds(after.body, attached_text(text@, content_type))
            &&& category_rules(after.body_rules) == apply_rules(
                category_rules(before.body_rules),
                attached_entries(text@, content_type),
            )
            &&& generator_table(after.generators) == apply_generators(
                path_generators,
                attached_entries(text@, content_type),
            )
        },
        None => {
            &&& after.body == before.body
            &&& category_rules(after.body_rules) == category_rules(before.body_rules)
            &&& generator_table(after.generators) == path_generators
        },
    }
}

/// Whether `after` is `before` with the supplied response details attached.
pub open spec fn response_attached(
    before: Response,
    details: ResponseDetails,
    body: Option<String>,
    content_type: DetectedContentType,
    after: Response,
) -> bool {
    &&& after.status == (match details.status {
        Some(status) => status,
        None => before.status,
    })
    &&& after.headers == (match details.headers {
        Some(headers) => Some(headers),
        None => before.headers,
    })
    &&& match body {
        Some(text) => {
            &&& body_holds(after.body, attached_text(text@, content_type))
            &&& category_rules(after.body_rules) == apply_rules(
                category_rules(before.body_rules),
                attached_entries(text@, content_type),
            )
            &&& generator_table(after.generators) == apply_generators(
                generator_table(before.generators),
                attached_entries(text@, content_type),
            )
        },
        None => {
            &&& after.body == before.body
            &&& category_rules(after.body_rules) == category_rules(before.body_rules)
            &&& generator_table(after.generators) == generator_table(before.generators)
        },
    }
}

/// Whether a request is the one that every interaction starts with.
pub open spec fn is_default_request(request: Request) -> bool {
    &&& request.method@ == "GET"@
    &&& request.path@ == "/"@
    &&& request.query.is_none()
    &&& request.headers.is_none()
    &&& request.body is Missing
    &&& category_rules(request.body_rules) == no_rules()
    &&& category_rules(request.path_rules) == no_rules()
    &&& generator_table(request.generators) == no_generators()
}

/// Whether a response is the one that every interaction starts with.
pub open spec fn is_default_response(response: Response) -> bool {
    &&& response.status == 200
    &&& response.headers.is_none()
    &&& response.body is Missing
    &&& category_rules(response.body_rules) == no_rules()
    &&& generator_table(response.generators) == no_generators()
}

impl Request {
    /// The request that every interaction starts with: `GET /` without
    /// query, headers, body, rules or generators.
    pub fn new() -> (request: Request)
        ensures
            is_default_request(request),
    {
        Request {
            method: String::from_str("GET"),
            path: String::from_str("/"),
            query: None,
            headers: None,
            body: OptionalBody::Missing,
            body_rules: empty_category("body"),
            path_rules: empty_category("path"),
            generators: empty_generators(),
        }
    }

    /// Attaches what the caller supplies of the request. The content type
    /// of a supplied body is detected from the headers after attachment and
    /// the body before it; the request is then the one that `attach_as`
    /// gives for that content type.
    pub fn attach(&mut self, details: RequestDetails, body: Option<String>)
        ensures
            exists|content_type: DetectedContentType| #[trigger]
                request_attached(*old(self), details, body, content_type, *final(self)),
    {
        let content_type = if details.headers.is_some() {
            detect_content_type(&details.headers, &self.body)
        } else {
            detect_content_type(&self.headers, &self.body)
        };
        self.attach_as(details, body, content_type);
    }

    /// Attaches what the caller supplies of the request, a supplied body as
    /// one of the given content type.
    pub fn attach_as(
        &mut self,
        details: RequestDetails,
        body: Option<String>,
        content_type: DetectedContentType,
    )
        ensures
            request_attached(*old(self), details, body, content_type, *final(self)),
    {
        let RequestDetails { method, path, query, headers } = details;
        match method {
            Some(method) => {
                self.method = method;
            },
            None => {},
        }
        match path {
            Some(PathDetails { value, matcher }) => {
                self.path = value;
                match matcher {
                    Some(fields) => {
                        match extract_rule(&fields) {
                            Some(rule) => add_rule(&mut self.path_rules, &String::new(), rule),
                            None => {},
                        }
                        match extract_generator(&fields) {
                            Some(generator) => add_path_generator(&mut self.generators, generator),
                            None => {},
                        }
                    },
                    None => {},
                }
            },
            None => {},
        }
        match query {
            Some(query) => {
                self.query = Some(query);
            },
            None => {},
        }
        match headers {
            Some(headers) => {
                self.headers = Some(headers);
            },
            None => {},
        }
        match body {
            Some(text) => {
                self.body = process_body(text, content_type, &mut self.body_rules, &mut self.generators);
            },
            None => {},
        }
    }
}

impl Response {
    /// The response that every interaction starts with: status 200 without
    /// headers, body, rules or generators.
    pub fn new() -> (response: Response)
        ensures
            is_default_response(response),
    {
        Response {
            status: 200,
            headers: None,
            body: OptionalBody::Missing,
            body_rules: empty_category("body"),
            generators: empty_generators(),
        }
    }

    /// Attaches what the caller supplies of the response. The content type
    /// of a supplied body is detected from the headers after attachment and
    /// the body before it; the response is then the one that `attach_as`
    /// gives for that content type.
    pub fn attach(&mut self, details: ResponseDetails, body: Option<String>)
        ensures
            exists|content_type: DetectedContentType| #[trigger]
                response_attached(*old(self), details, body, content_type, *final(self)),
    {
        let content_type = if details.headers.is_some() {
            detect_content_type(&details.headers, &self.body)
        } else {
            detect_content_type(&self.headers, &self.body)
        };
        self.attach_as(details, body, content_type);
    }

    /// Attaches what the caller supplies of the response, a supplied body as
    /// one of the given content type.
    pub fn attach_as(
        &mut self,
        details: ResponseDetails,
        body: Option<String>,
        content_type: DetectedContentType,
    )
        ensures
            response_attached(*old(self), details, body, content_type, *final(self)),
    {
        let ResponseDetails { status, headers } = details;
        match status {
            Some(status) => {
                self.status = status;
            },
            None => {},
        }
        match headers {
            Some(headers) => {
                self.headers = Some(headers);
            },
            None => {},
        }
        match body {
            Some(text) => {
                self.body = process_body(text, content_type, &mut self.body_rules, &mut self.generators);
            },
            None => {},
        }
    }
}

impl Pact {
    /// The pact between a consumer and a provider, without interactions.
    pub fn new(consumer: String, provider: String) -> (pact: Pact)
        ensures
            pact.consumer == consumer,
            pact.provider == provider,
            pact.interactions@.len() == 0,
    {
        Pact { consumer, provider, interactions: Vec::new() }
    }

    /// Appends an interaction with the given description and provider
    /// states, and with the default request and response.
    pub fn add_interaction(&mut self, description: String, provider_states: Vec<ProviderState>)
        ensures
            final(self).consumer == old(self).consumer,
            final(self).provider == old(self).provider,
            final(self).interactions@.len() == old(self).interactions@.len() + 1,
            final(self).interactions@.drop_last() == old(self).interactions@,
            final(self).interactions@.last().description == description,
            final(self).interactions@.last().provider_states == provider_states,
            is_default_request(final(self).interactions@.last().request),
            is_default_response(final(self).interactions@.last().response),
    {
        let interaction = Interaction {
            description,
            provider_states,
            request: Request::new(),
            response: Response::new(),
        };
        self.interactions.push(interaction);
        proof {
            assert(self.interactions@.drop_last() =~= old(self).interactions@);
        }
    }

    /// Attaches request details to the interaction added last, a supplied body
    /// as one of the content type detected for it. Without an interaction
    /// nothing changes.
    pub fn add_request(
        &mut self,
        details: RequestDetails,
        body: Option<String>,
    )
        ensures
            final(self).consumer == old(self).consumer,
            final(self).provider == old(self).provider,
            final(self).interactions@.len() == old(self).interactions@.len(),
            old(self).interactions@.len() > 0 ==> {
                let before = old(self).interactions@.last();
                let after = final(self).interactions@.last();
                &&& final(self).interactions@.drop_last() == old(self).interactions@.drop_last()
                &&& after.description == before.description
                &&& after.provider_states == before.provider_states
                &&& after.response == before.response
                &&& exists|content_type: DetectedContentType| #[trigger]
                    request_attached(before.request, details, body, content_type, after.request)
            },
    {
        match self.interactions.pop() {
            Some(last) => {
                let Interaction { description, provider_states, request, response } = last;
                let mut request = request;
                request.attach(details, body);
                self.interactions.push(Interaction { description, provider_states, request, response });
                proof {
                    assert(self.interactions@.drop_last() =~= old(self).interactions@.drop_last());
                }
            },
            None => {},
        }
    }

    /// Attaches request details to the interaction added last, a supplied body
    /// as one of the given content type. Without an interaction nothing
    /// changes.
    pub fn add_request_as(
        &mut self,
        details: RequestDetails,
        body: Option<String>,
        content_type: DetectedContentType,
    )
        ensures
            final(self).consumer == old(self).consumer,
            final(self).provider == old(self).provider,
            final(self).interactions@.len() == old(self).interactions@.len(),
            old(self).interactions@.len() > 0 ==> {
                let before = old(self).interactions@.last();
                let after = final(self).interactions@.last();
                &&& final(self).interactions@.drop_last() == old(self).interactions@.drop_last()
                &&& after.description == before.description
                &&& after.provider_states == before.provider_states
                &&& after.response == before.response
                &&& request_attached(before.request, details, body, content_type, after.request)
            },
    {
        match self.interactions.pop() {
            Some(last) => {
                let Interaction { description, provider_states, request, response } = last;
                let mut request = request;
                request.attach_as(details, body, content_type);
                self.interactions.push(Interaction { description, provider_states, request, response });
                proof {
                    assert(self.interactions@.drop_last() =~= old(self).interactions@.drop_last());
                }
            },
            None => {},
        }
    }

    /// Attaches response details to the interaction added last, a supplied body
    /// as one of the content type detected for it. Without an interaction
    /// nothing changes.
    pub fn add_response(
        &mut self,
        details: ResponseDetails,
        body: Option<String>,
    )
        ensures
            final(self).consumer == old(self).consumer,
            final(self).provider == old(self).provider,
            final(self).interactions@.len() == old(self).interactions@.len(),
            old(self).interactions@.len() > 0 ==> {
                let before = old(self).interactions@.last();
                let after = final(self).interactions@.last();
                &&& final(self).interactions@.drop_last() == old(self).interactions@.drop_last()
                &&& after.description == before.description
                &&& after.provider_states == before.provider_states
                &&& after.request == before.request
                &&& exists|content_type: DetectedContentType| #[trigger]
                    response_attached(before.response, details, body, content_type, after.response)
            },
    {
        match self.interactions.pop() {
            Some(last) => {
                let Interaction { description, provider_states, request, response } = last;
                let mut response = response;
                response.attach(details, body);
                self.interactions.push(Interaction { description, provider_states, request, response });
                proof {
                    assert(self.interactions@.drop_last() =~= old(self).interactions@.drop_last());
                }
            },
            None => {},
        }
    }

    /// Attaches response details to the interaction added last, a supplied body
    /// as one of the given content type. Without an interaction nothing
    /// changes.
    pub fn add_response_as(
        &mut self,
        details: ResponseDetails,
        body: Option<String>,
        content_type: DetectedContentType,
    )
        ensures
            final(self).consumer == old(self).consumer,
            final(self).provider == old(self).provider,
            final(self).interactions@.len() == old(self).interactions@.len(),
            old(self).interactions@.len() > 0 ==> {
                let before = old(self).interactions@.last();
                let after = final(self).interactions@.last();
                &&& final(self).interactions@.drop_last() == old(self).interactions@.drop_last()
                &&& after.description == before.description
                &&& after.provider_states == before.provider_states
                &&& after.request == before.request
                &&& response_attached(before.response, details, body, content_type, after.response)
            },
    {
        match self.interactions.pop() {
            Some(last) => {
                let Interaction { description, provider_states, request, response } = last;
                let mut response = response;
                response.attach_as(details, body, content_type);
                self.interactions.push(Interaction { description, provider_states, request, response });
                proof {
                    assert(self.interactions@.drop_last() =~= old(self).interactions@.drop_last());
                }
            },
            None => {},
        }
    }
}

} // verus!
