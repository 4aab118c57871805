//! The command line: the commands the program accepts and the HTTP request
//! each HTTP command describes.

use vstd::prelude::*;

use crate::http::{add_default_content_type, opt_view, with_default_content_type, HttpRequest};
use crate::utils::{add_raw_headers, headers_from_lines, malformed_lines};

verus! {

/// reqly — a terminal-based HTTP API client.
pub struct Cli {
    pub command: Option<Commands>,
}

/// The subcommands; without one the interactive interface starts.
pub enum Commands {
    /// Send a GET request.
    Get { url: String, headers: Vec<String> },
    /// Send a POST request.
    Post { url: String, headers: Vec<String>, body: Option<String> },
    /// Send a PUT request.
    Put { url: String, headers: Vec<String>, body: Option<String> },
    /// Send a PATCH request.
    Patch { url: String, headers: Vec<String>, body: Option<String> },
    /// Send a DELETE request.
    Delete { url: String, headers: Vec<String>, body: Option<String> },
    /// Send a HEAD request.
    Head { url: String, headers: Vec<String> },
    /// Send an OPTIONS request.
    Options { url: String, headers: Vec<String> },
    /// Send a GraphQL query.
    Graphql {
        url: String,
        query: String,
        variables: Option<String>,
        operation: Option<String>,
        headers: Vec<String>,
    },
    /// Open an interactive WebSocket session.
    Ws { url: String, headers: Vec<String>, json: bool, ping: bool },
}

/// Parsed request parameters ready for use.
pub struct ParsedRequest {
    pub method: String,
    pub url: String,
    pub headers: Vec<String>,
    pub body: Option<String>,
}

/// `p` holds the given method name and the command's own fields.
pub open spec fn parsed_as(
    p: ParsedRequest,
    method: Seq<char>,
    url: String,
    headers: Vec<String>,
    body: Option<String>,
) -> bool {
    p.method@ == method && p.url == url && p.headers == headers && p.body == body
}

/// The raw headers of a parsed request, by their characters.
pub open spec fn raw_lines(v: Vec<String>) -> Seq<Seq<char>> {
    v@.map_values(|s: String| s@)
}

/// The HTTP request a command line describes, and the raw headers that
/// were skipped because they are not `Key: Value`.
pub struct CliRequest {
    pub request: HttpRequest,
    pub skipped_headers: Vec<String>,
}

impl ParsedRequest {
    /// The parameters of an HTTP command; `None` for the GraphQL and
    /// WebSocket commands.
    pub fn from_command(command: Commands) -> (r: Option<Self>)
        ensures
            match command {
                Commands::Get { url, headers } => r matches Some(p) && parsed_as(
                    p,
                    "GET"@,
                    url,
                    headers,
                    None,
                ),
                Commands::Post { url, headers, body } => r matches Some(p) && parsed_as(
                    p,
                    "POST"@,
                    url,
                    headers,
                    body,
                ),
                Commands::Put { url, headers, body } => r matches Some(p) && parsed_as(
                    p,
                    "PUT"@,
                    url,
                    headers,
                    body,
                ),
                Commands::Patch { url, headers, body } => r matches Some(p) && parsed_as(
                    p,
                    "PATCH"@,
                    url,
                    headers,
                    body,
                ),
                Commands::Delete { url, headers, body } => r matches Some(p) && parsed_as(
                    p,
                    "DELETE"@,
                    url,
                    headers,
                    body,
                ),
                Commands::Head { url, headers } => r matches Some(p) && parsed_as(
                    p,
                    "HEAD"@,
                    url,
                    headers,
                    None,
                ),
                Commands::Options { url, headers } => r matches Some(p) && parsed_as(
                    p,
                    "OPTIONS"@,
                    url,
                    headers,
                    None,
                ),
                Commands::Graphql { .. } => r is None,
                Commands::Ws { .. } => r is None,
            },
    {
        match command {
            Commands::Get { url, headers } => Some(
                ParsedRequest { method: "GET".to_owned(), url, headers, body: None },
            ),
            Commands::Post { url, headers, body } => Some(
                ParsedRequest { method: "POST".to_owned(), url, headers, body },
            ),
            Commands::Put { url, headers, body } => Some(
                ParsedRequest { method: "PUT".to_owned(), url, headers, body },
            ),
            Commands::Patch { url, headers, body } => Some(
                ParsedRequest { method: "PATCH".to_owned(), url, headers, body },
            ),
            Commands::Delete { url, headers, body } => Some(
                ParsedRequest { method: "DELETE".to_owned(), url, headers, body },
            ),
            Commands::Head { url, headers } => Some(
                ParsedRequest { method: "HEAD".to_owned(), url, headers, body: None },
            ),
            Commands::Options { url, headers } => Some(
                ParsedRequest { method: "OPTIONS".to_owned(), url, headers, body: None },
            ),
            Commands::Graphql { .. } => None,
            Commands::Ws { .. } => None,
        }
    }

    /// The request these parameters describe: the method and URL as
    /// given, each well-formed `Key: Value` header in order (later ones win),
    /// the body, and `Content-Type: application/json` when there is a body
    /// and no header named exactly `content-type`. Malformed headers are
    /// reported back, in order.
    pub fn to_request(&self) -> (r: CliRequest)
        ensures
            r.request.method@ == self.method@,
            r.request.url@ == self.url@,
            opt_view(r.request.body) == opt_view(self.body),
            r.request.headers@ == with_default_content_type(
                headers_from_lines(raw_lines(self.headers), seq![]),
                self.body is Some,
            ),
            raw_lines(r.skipped_headers) == malformed_lines(raw_lines(self.headers)),
    {
        let mut request = HttpRequest::new(self.method.as_str(), self.url.as_str());
        let skipped_headers = add_raw_headers(&mut request.headers, &self.headers);
        match &self.body {
            Some(b) => {
                request.body = Some(b.clone());
            },
            None => {},
        }
        add_default_content_type(&mut request);
        CliRequest { request, skipped_headers }
    }
}

/// How the command line colours a status code.
pub enum StatusClass {
    Success,
    Warning,
    Failure,
}

/// The colour class of an HTTP status on the command line: below 300
/// success, below 500 warning, otherwise failure.
pub fn http_status_class(status: u16) -> (r: StatusClass)
    ensures
        r is Success <==> status < 300,
        r is Warning <==> 300 <= status < 500,
        r is Failure <==> status >= 500,
{
    if status < 300 {
        StatusClass::Success
    } else if status < 500 {
        StatusClass::Warning
    } else {
        StatusClass::Failure
    }
}

/// The two-colour class of a status (GraphQL command line, response pane):
/// below 300 success, otherwise failure.
pub fn pass_fail_status_class(status: u16) -> (r: StatusClass)
    ensures
        r is Success <==> status < 300,
        r is Failure <==> status >= 300,
{
    if status < 300 {
        StatusClass::Success
    } else {
        StatusClass::Failure
    }
}

} // verus!
