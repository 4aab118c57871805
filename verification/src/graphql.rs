//! GraphQL requests (the JSON body sent to the endpoint) and responses
//! (the `data` and `errors` members of the reply).

use vstd::prelude::*;

use crate::formatter::{
    compact_json_text, json_array, json_array_texts, json_compact, json_member, json_member_text,
    json_parses, json_string_literal, json_string_text, parses_as_json, pretty_or_raw, pretty_print,
};
use crate::headers::{insert_entry, HeaderList};
use crate::http::{opt_view, status_text, status_text_of};
use crate::utils::{add_raw_headers, headers_from_lines};

verus! {

/// A GraphQL request ready to be serialised as JSON and POSTed. The
/// variables are kept as the JSON text they were given in.
pub struct GraphqlQuery {
    pub url: String,
    pub query: String,
    pub variables: Option<String>,
    pub operation_name: Option<String>,
    pub headers: HeaderList,
}

/// Why the JSON body of a query cannot be produced.
#[derive(Debug)]
pub enum BodyError {
    /// The variables are not JSON.
    InvalidVariables,
}

/// The JSON request body for a query: its `query`, then `variables` when
/// there are some, then `operationName` when there is one, in serde_json's
/// compact layout. `None` when a piece cannot be produced.
pub open spec fn body_json(
    query: Seq<char>,
    variables: Option<Seq<char>>,
    operation: Option<Seq<char>>,
) -> Option<Seq<char>> {
    let q = json_string_text(query);
    let v = match variables {
        Some(t) => match compact_json_text(t) {
            Some(c) => Some(",\"variables\":"@ + c),
            None => None,
        },
        None => Some(Seq::<char>::empty()),
    };
    let o = match operation {
        Some(t) => match json_string_text(t) {
            Some(c) => Some(",\"operationName\":"@ + c),
            None => None,
        },
        None => Some(Seq::<char>::empty()),
    };
    match (q, v, o) {
        (Some(q), Some(v), Some(o)) => Some("{\"query\":"@ + q + v + o + "}"@),
        _ => None,
    }
}

impl GraphqlQuery {
    /// Build a new GraphQL query for the given endpoint.
    pub fn new(url: &str, query: &str) -> (r: Self)
        ensures
            r.url@ == url@,
            r.query@ == query@,
            r.variables is None,
            r.operation_name is None,
            r.headers@ == Seq::<(Seq<char>, Seq<char>)>::empty(),
    {
        GraphqlQuery {
            url: url.to_owned(),
            query: query.to_owned(),
            variables: None,
            operation_name: None,
            headers: HeaderList::new(),
        }
    }

    /// Attach JSON variables, given as JSON text.
    pub fn with_variables(self, vars: &str) -> (r: Self)
        ensures
            r.url == self.url,
            r.query == self.query,
            opt_view(r.variables) == Some(vars@),
            r.operation_name == self.operation_name,
            r.headers == self.headers,
    {
        let mut s = self;
        s.variables = Some(vars.to_owned());
        s
    }

    /// Attach an operation name.
    pub fn with_operation(self, op: &str) -> (r: Self)
        ensures
            r.url == self.url,
            r.query == self.query,
            r.variables == self.variables,
            opt_view(r.operation_name) == Some(op@),
            r.headers == self.headers,
    {
        let mut s = self;
        s.operation_name = Some(op.to_owned());
        s
    }

    /// Add a request header.
    pub fn with_header(self, key: &str, value: &str) -> (r: Self)
        ensures
            r.url == self.url,
            r.query == self.query,
            r.variables == self.variables,
            r.operation_name == self.operation_name,
            r.headers@ == insert_entry(self.headers@, key@, value@),
    {
        let mut s = self;
        s.headers.insert(key.to_owned(), value.to_owned());
        s
    }

    /// Serialise this query into the standard GraphQL JSON request body.
    /// It fails only when the variables are not JSON.
    pub fn to_body_json(&self) -> (r: Result<String, BodyError>)
        ensures
            r is Ok <==> (self.variables matches Some(v) ==> parses_as_json(v@)),
            match r {
                Ok(t) => body_json(self.query@, opt_view(self.variables), opt_view(
                    self.operation_name,
                )) == Some(t@),
                Err(e) => {
                    &&& body_json(self.query@, opt_view(self.variables), opt_view(
                        self.operation_name,
                    )) is None
                    &&& e is InvalidVariables
                },
            },
    {
        let mut out = String::new();
        out.append("{\"query\":");
        let q = json_string_literal(self.query.as_str());
        out.append(q.as_str());
        if let Some(v) = &self.variables {
            match json_compact(v.as_str()) {
                Some(c) => {
                    out.append(",\"variables\":");
                    out.append(c.as_str());
                },
                None => {
                    return Err(BodyError::InvalidVariables);
                },
            }
        }
        if let Some(op) = &self.operation_name {
            let c = json_string_literal(op.as_str());
            out.append(",\"operationName\":");
            out.append(c.as_str());
        }
        out.append("}");
        proof {
            let v = match opt_view(self.variables) {
                Some(t) => ",\"variables\":"@ + compact_json_text(t).unwrap(),
                None => Seq::<char>::empty(),
            };
            let o = match opt_view(self.operation_name) {
                Some(t) => ",\"operationName\":"@ + json_string_text(t).unwrap(),
                None => Seq::<char>::empty(),
            };
            assert(out@ =~= "{\"query\":"@ + q@ + v + o + "}"@);
        }
        Ok(out)
    }
}

/// The query the GraphQL command line describes, and whether the given
/// variables were ignored because they are not JSON.
pub struct CliQuery {
    pub query: GraphqlQuery,
    pub variables_ignored: bool,
}

/// Builds the GraphQL query of the command line: variables only when they
/// are JSON, the operation name when given, each well-formed `Key: Value`
/// header in order.
pub fn query_from_cli(
    url: &str,
    query: &str,
    variables: &Option<String>,
    operation: &Option<String>,
    raw_headers: &Vec<String>,
) -> (r: CliQuery)
    ensures
        r.query.url@ == url@,
        r.query.query@ == query@,
        opt_view(r.query.variables) == match opt_view(*variables) {
            Some(v) => if parses_as_json(v) {
                Some(v)
            } else {
                None
            },
            None => None,
        },
        r.variables_ignored == (variables matches Some(v) && !parses_as_json(v@)),
        opt_view(r.query.operation_name) == opt_view(*operation),
        r.query.headers@ == headers_from_lines(raw_headers@.map_values(|s: String| s@), seq![]),
{
    let mut q = GraphqlQuery::new(url, query);
    let mut ignored = false;
    if let Some(v) = variables {
        if json_parses(v.as_str()) {
            q.variables = Some(v.clone());
        } else {
            ignored = true;
        }
    }
    if let Some(op) = operation {
        q.operation_name = Some(op.clone());
    }
    let _ = add_raw_headers(&mut q.headers, raw_headers);
    CliQuery { query: q, variables_ignored: ignored }
}

/// Result of a GraphQL HTTP round-trip. `data` is the JSON text of the
/// reply's `data` member and `errors` the JSON text of each element of its
/// `errors` array.
pub struct GraphqlResponse {
    pub status: u16,
    pub status_text: String,
    pub data: Option<String>,
    pub errors: Option<Vec<String>>,
    pub raw_body: String,
    pub duration_ms: u128,
}

/// The `errors` elements of a reply body, when its `errors` member is an
/// array.
pub open spec fn errors_of(raw: Seq<char>) -> Option<Seq<Seq<char>>> {
    match json_member_text(raw, "errors"@) {
        Some(t) => json_array_texts(t),
        None => None,
    }
}

/// The characters of optional lists of strings.
pub open spec fn opt_list_view(o: Option<Vec<String>>) -> Option<Seq<Seq<char>>> {
    match o {
        Some(v) => Some(v@.map_values(|s: String| s@)),
        None => None,
    }
}

impl GraphqlResponse {
    /// Reads a reply: its status, its body's `data` member and the elements
    /// of its `errors` array.
    pub fn from_parts(status: u16, raw_body: String, duration_ms: u128) -> (r: Self)
        ensures
            r.status == status,
            r.status_text@ == status_text_of(status),
            opt_view(r.data) == json_member_text(raw_body@, "data"@),
            opt_list_view(r.errors) == errors_of(raw_body@),
            r.raw_body == raw_body,
            r.duration_ms == duration_ms,
    {
        let data = json_member(raw_body.as_str(), "data");
        let errors = match json_member(raw_body.as_str(), "errors") {
            Some(t) => json_array(t.as_str()),
            None => None,
        };
        GraphqlResponse {
            status,
            status_text: status_text(status),
            data,
            errors,
            raw_body,
            duration_ms,
        }
    }

    /// True when the GraphQL `errors` array is present and non-empty.
    pub fn has_errors(&self) -> (r: bool)
        ensures
            r == (self.errors matches Some(e) && e@.len() > 0),
    {
        match &self.errors {
            Some(e) => e.len() > 0,
            None => false,
        }
    }

    /// Pretty-print the full response body JSON.
    pub fn pretty_body(&self) -> (r: String)
        ensures
            r@ == pretty_or_raw(self.raw_body@),
    {
        pretty_print(self.raw_body.as_str())
    }
}

} // verus!
