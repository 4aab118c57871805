//! HTTP request and response models, the checks a request must pass before
//! it is sent, and the assembly of a response from what came back.

use vstd::prelude::*;
use vstd::utf8::encode_utf8;

use crate::formatter::{pretty_or_raw, pretty_print};
use crate::headers::{has_name, insert_entry, lookup, HeaderList, HeaderSeq};
use crate::text::{
    contains_seq, contains_str, decimal, lines, lines_of, push_decimal, trim, trim_string,
};
use crate::utils::{add_raw_headers, headers_from_lines};

verus! {

// ─── Request ─────────────────────────────────────────────────────────────────

/// Represents a single HTTP request to be sent.
pub struct HttpRequest {
    pub method: String,
    pub url: String,
    pub headers: HeaderList,
    pub body: Option<String>,
}

/// The characters of an optional string.
pub open spec fn opt_view(o: Option<String>) -> Option<Seq<char>> {
    match o {
        Some(s) => Some(s@),
        None => None,
    }
}

impl HttpRequest {
    /// A request with the given method and URL, no headers and no body.
    pub fn new(method: &str, url: &str) -> (r: Self)
        ensures
            r.method@ == method@,
            r.url@ == url@,
            r.headers@ == Seq::<(Seq<char>, Seq<char>)>::empty(),
            r.body is None,
    {
        HttpRequest {
            method: method.to_owned(),
            url: url.to_owned(),
            headers: HeaderList::new(),
            body: None,
        }
    }

    /// The same request with `value` stored under header `key`.
    pub fn with_header(self, key: &str, value: &str) -> (r: Self)
        ensures
            r.method == self.method,
            r.url == self.url,
            r.headers@ == insert_entry(self.headers@, key@, value@),
            r.body == self.body,
    {
        let mut s = self;
        s.headers.insert(key.to_owned(), value.to_owned());
        s
    }

    /// The same request with `body` as its body.
    pub fn with_body(self, body: &str) -> (r: Self)
        ensures
            r.method == self.method,
            r.url == self.url,
            r.headers == self.headers,
            opt_view(r.body) == Some(body@),
    {
        let mut s = self;
        s.body = Some(body.to_owned());
        s
    }
}

/// The headers after the JSON default: when a body is sent and no header is
/// named exactly `content-type`, `Content-Type: application/json` is added.
pub open spec fn with_default_content_type(h: HeaderSeq, has_body: bool) -> HeaderSeq {
    if has_body && !has_name(h, "content-type"@) {
        insert_entry(h, "Content-Type"@, "application/json"@)
    } else {
        h
    }
}

/// Adds `Content-Type: application/json` when the request has a body and no
/// header named exactly `content-type`.
pub fn add_default_content_type(req: &mut HttpRequest)
    ensures
        final(req).method == old(req).method,
        final(req).url == old(req).url,
        final(req).body == old(req).body,
        final(req).headers@ == with_default_content_type(old(req).headers@, old(req).body is Some),
{
    if req.body.is_some() && !req.headers.contains_key("content-type") {
        req.headers.insert("Content-Type".to_owned(), "application/json".to_owned());
    }
}

/// The header table that the request form's raw header text yields: each
/// line is trimmed and parsed, well-formed ones are stored in order.
pub open spec fn form_headers(headers_raw: Seq<char>) -> HeaderSeq {
    headers_from_lines(lines_of(headers_raw).map_values(|l: Seq<char>| trim(l)), seq![])
}

/// What the request form sends, given its method, URL, raw header text and
/// raw body: nothing when the trimmed URL is empty.
pub open spec fn form_request_ok(url: Seq<char>) -> bool {
    trim(url).len() > 0
}

/// `req` is what the form sends: its method, the trimmed URL, the trimmed
/// body when it is not blank, and the headers of the well-formed lines with
/// the JSON content type added when there is a body.
pub open spec fn is_form_request(
    req: HttpRequest,
    method: Seq<char>,
    url: Seq<char>,
    headers_raw: Seq<char>,
    body_raw: Seq<char>,
) -> bool {
    &&& req.method@ == method
    &&& req.url@ == trim(url)
    &&& opt_view(req.body) == if trim(body_raw).len() > 0 {
        Some(trim(body_raw))
    } else {
        None
    }
    &&& req.headers@ == with_default_content_type(
        form_headers(headers_raw),
        trim(body_raw).len() > 0,
    )
}

/// Builds the request the interactive form describes: the trimmed URL, one
/// header per well-formed line of `headers_raw`, the trimmed body when it is
/// not blank (with the JSON content type by default). `None` when the URL
/// is blank.
pub fn request_from_form(method: &str, url: &str, headers_raw: &str, body_raw: &str) -> (r: Option<
    HttpRequest,
>)
    ensures
        r is Some <==> form_request_ok(url@),
        r matches Some(req) ==> is_form_request(req, method@, url@, headers_raw@, body_raw@),
{
    let url_t = trim_string(url);
    if url_t.as_str().is_empty() {
        return None;
    }
    let mut req = HttpRequest::new(method, url_t.as_str());
    let raw_lines = lines(headers_raw);
    let mut trimmed: Vec<String> = Vec::new();
    let mut i: usize = 0;
    while i < raw_lines.len()
        invariant
            i <= raw_lines@.len(),
            raw_lines@.len() == lines_of(headers_raw@).len(),
            forall|j: int| 0 <= j < raw_lines@.len() ==> #[trigger] raw_lines@[j]@ == lines_of(
                headers_raw@,
            )[j],
            trimmed@.len() == i,
            forall|j: int| 0 <= j < i ==> #[trigger] trimmed@[j]@ == trim(raw_lines@[j]@),
        decreases raw_lines@.len() - i,
    {
        trimmed.push(trim_string(raw_lines[i].as_str()));
        i += 1;
    }
    assert(trimmed@.map_values(|s: String| s@) =~= lines_of(headers_raw@).map_values(
        |l: Seq<char>| trim(l),
    ));
    let _ = add_raw_headers(&mut req.headers, &trimmed);
    let body_t = trim_string(body_raw);
    if !body_t.as_str().is_empty() {
        req.body = Some(body_t);
        add_default_content_type(&mut req);
    }
    Some(req)
}

// ─── Checks before sending ───────────────────────────────────────────────────

/// A `tchar` of RFC 9110: the bytes allowed in methods and header names.
pub open spec fn is_tchar(b: u8) -> bool {
    ||| (48 <= b && b <= 57)
    ||| (97 <= b && b <= 122)
    ||| (65 <= b && b <= 90)
    ||| b == 33 || (35 <= b && b <= 39) || b == 42 || b == 43 || b == 45 || b == 46
    ||| b == 94 || b == 95 || b == 96 || b == 124 || b == 126
}

/// Whether `reqwest::Method::from_str` accepts `s`: a non-empty token.
pub open spec fn method_ok(s: Seq<char>) -> bool {
    let b = encode_utf8(s);
    b.len() > 0 && forall|i: int| 0 <= i < b.len() ==> is_tchar(#[trigger] b[i])
}

/// Whether `reqwest::header::HeaderName::from_str` accepts `s`: a token of
/// 1 to 65535 bytes (upper-case letters are accepted and normalised).
pub open spec fn header_name_ok(s: Seq<char>) -> bool {
    let b = encode_utf8(s);
    1 <= b.len() <= 65535 && forall|i: int| 0 <= i < b.len() ==> is_tchar(#[trigger] b[i])
}

/// Whether `reqwest::header::HeaderValue::from_str` accepts `s`: every byte
/// is a tab or at least 32 and not 127.
pub open spec fn header_value_ok(s: Seq<char>) -> bool {
    let b = encode_utf8(s);
    forall|i: int| 0 <= i < b.len() ==> (#[trigger] b[i] >= 32 && b[i] != 127) || b[i] == 9
}

/// `reqwest::Method::from_str(s).is_ok()`.
#[verifier::external_body]
fn method_accepted(s: &str) -> (r: bool)
    ensures
        r == method_ok(s@),
{
    <reqwest::Method as std::str::FromStr>::from_str(s).is_ok()
}

/// `reqwest::header::HeaderName::from_str(s).is_ok()`.
#[verifier::external_body]
fn header_name_accepted(s: &str) -> (r: bool)
    ensures
        r == header_name_ok(s@),
{
    <reqwest::header::HeaderName as std::str::FromStr>::from_str(s).is_ok()
}

/// `reqwest::header::HeaderValue::from_str(s).is_ok()`.
#[verifier::external_body]
fn header_value_accepted(s: &str) -> (r: bool)
    ensures
        r == header_value_ok(s@),
{
    reqwest::header::HeaderValue::from_str(s).is_ok()
}

/// Why a request cannot be sent.
#[derive(Debug)]
pub enum RequestError {
    /// The method is not an HTTP token.
    UnknownMethod(String),
    /// A header name (given) is not an HTTP token.
    InvalidHeaderName(String),
    /// The value of the header with the given name has forbidden bytes.
    InvalidHeaderValue(String),
}

/// The abstract form of a `RequestError`.
pub enum RequestFault {
    UnknownMethod(Seq<char>),
    InvalidHeaderName(Seq<char>),
    InvalidHeaderValue(Seq<char>),
}

impl RequestError {
    pub open spec fn fault(self) -> RequestFault {
        match self {
            RequestError::UnknownMethod(m) => RequestFault::UnknownMethod(m@),
            RequestError::InvalidHeaderName(n) => RequestFault::InvalidHeaderName(n@),
            RequestError::InvalidHeaderValue(n) => RequestFault::InvalidHeaderValue(n@),
        }
    }

    /// The message shown for the error.
    pub fn message(&self) -> (r: String)
        ensures
            r@ == fault_message(self.fault()),
    {
        let mut s = String::new();
        match self {
            RequestError::UnknownMethod(m) => {
                s.append("Unknown HTTP method: ");
                s.append(m.as_str());
            },
            RequestError::InvalidHeaderName(n) => {
                s.append("Invalid header name: ");
                s.append(n.as_str());
            },
            RequestError::InvalidHeaderValue(n) => {
                s.append("Invalid header value for ");
                s.append(n.as_str());
            },
        }
        s
    }
}

/// The text of each fault.
pub open spec fn fault_message(f: RequestFault) -> Seq<char> {
    match f {
        RequestFault::UnknownMethod(m) => "Unknown HTTP method: "@ + m,
        RequestFault::InvalidHeaderName(n) => "Invalid header name: "@ + n,
        RequestFault::InvalidHeaderValue(n) => "Invalid header value for "@ + n,
    }
}

/// The first fault among the headers, taken in order, the name of an entry
/// checked before its value.
pub open spec fn header_fault(s: HeaderSeq) -> Option<RequestFault>
    decreases s.len(),
{
    if s.len() == 0 {
        None
    } else if !header_name_ok(s[0].0) {
        Some(RequestFault::InvalidHeaderName(s[0].0))
    } else if !header_value_ok(s[0].1) {
        Some(RequestFault::InvalidHeaderValue(s[0].0))
    } else {
        header_fault(s.drop_first())
    }
}

/// The first fault of a request: its method, then its headers.
pub open spec fn request_fault(method: Seq<char>, headers: HeaderSeq) -> Option<RequestFault> {
    if !method_ok(method) {
        Some(RequestFault::UnknownMethod(method))
    } else {
        header_fault(headers)
    }
}

/// Checks every header name and value, in order, as the HTTP client does
/// before sending.
pub fn check_headers(headers: &HeaderList) -> (r: Result<(), RequestError>)
    ensures
        match r {
            Ok(()) => header_fault(headers@) is None,
            Err(e) => header_fault(headers@) == Some(e.fault()),
        },
{
    let entries = headers.entries();
    let ghost s = headers@;
    let mut i: usize = 0;
    assert(s.skip(0) =~= s);
    while i < entries.len()
        invariant
            entries@.map_values(|e: (String, String)| (e.0@, e.1@)) == s,
            s == headers@,
            i <= entries@.len(),
            header_fault(s) == header_fault(s.skip(i as int)),
        decreases entries@.len() - i,
    {
        let ghost rest = s.skip(i as int);
        assert(rest[0] == (entries@[i as int].0@, entries@[i as int].1@));
        assert(rest.drop_first() =~= s.skip(i + 1));
        if !header_name_accepted(entries[i].0.as_str()) {
            let name = entries[i].0.clone();
            assert(header_fault(rest) == Some(RequestFault::InvalidHeaderName(name@)));
            return Err(RequestError::InvalidHeaderName(name));
        }
        if !header_value_accepted(entries[i].1.as_str()) {
            let name = entries[i].0.clone();
            assert(header_fault(rest) == Some(RequestFault::InvalidHeaderValue(name@)));
            return Err(RequestError::InvalidHeaderValue(name));
        }
        i += 1;
    }
    assert(s.skip(i as int) =~= Seq::<(Seq<char>, Seq<char>)>::empty());
    Ok(())
}

/// Checks a request as the HTTP client does before sending it: the method
/// must be a token, then every header name and value must be acceptable.
pub fn check_request(req: &HttpRequest) -> (r: Result<(), RequestError>)
    ensures
        match r {
            Ok(()) => request_fault(req.method@, req.headers@) is None,
            Err(e) => request_fault(req.method@, req.headers@) == Some(e.fault()),
        },
{
    if !method_accepted(req.method.as_str()) {
        return Err(RequestError::UnknownMethod(req.method.clone()));
    }
    check_headers(&req.headers)
}

/// Every entry of the table has an acceptable name and value.
pub open spec fn entry_ok(e: (Seq<char>, Seq<char>)) -> bool {
    header_name_ok(e.0) && header_value_ok(e.1)
}

/// What the header check finds: nothing exactly when every entry is
/// acceptable; otherwise the first entry that is not, reported by its name,
/// as a bad name when its name is bad and else as a bad value.
proof fn lemma_header_fault(s: HeaderSeq)
    ensures
        header_fault(s) is None <==> forall|i: int| 0 <= i < s.len() ==> #[trigger] entry_ok(s[i]),
        header_fault(s) is Some ==> exists|i: int|
            0 <= i < s.len() && !#[trigger] entry_ok(s[i]) && (forall|j: int|
                0 <= j < i ==> entry_ok(s[j])) && (header_fault(s) == if !header_name_ok(s[i].0) {
                Some(RequestFault::InvalidHeaderName(s[i].0))
            } else {
                Some(RequestFault::InvalidHeaderValue(s[i].0))
            }),
    decreases s.len(),
{
    if s.len() > 0 {
        let rest = s.drop_first();
        lemma_header_fault(rest);
        if !entry_ok(s[0]) {
            assert(!entry_ok(s[0]) && (forall|j: int| 0 <= j < 0 ==> entry_ok(s[j])));
        } else {
            assert forall|i: int| 0 < i < s.len() implies s[i] == rest[i - 1] by {}
            if header_fault(rest) is None {
                assert forall|i: int| 0 <= i < s.len() implies #[trigger] entry_ok(s[i]) by {
                    if i > 0 {
                        assert(entry_ok(rest[i - 1]));
                    }
                }
            } else {
                let i = choose|i: int|
                    0 <= i < rest.len() && !#[trigger] entry_ok(rest[i]) && (forall|j: int|
                        0 <= j < i ==> entry_ok(rest[j])) && (header_fault(rest) == if !header_name_ok(
                        rest[i].0,
                    ) {
                        Some(RequestFault::InvalidHeaderName(rest[i].0))
                    } else {
                        Some(RequestFault::InvalidHeaderValue(rest[i].0))
                    });
                assert(s[i + 1] == rest[i]);
                assert forall|j: int| 0 <= j < i + 1 implies entry_ok(s[j]) by {
                    if j > 0 {
                        assert(s[j] == rest[j - 1]);
                    }
                }
                assert(!entry_ok(s[i + 1]));
            }
        }
    }
}

/// The check before sending: a request passes exactly when its method is
/// a token and every header entry has an acceptable name and value. A bad
/// method is reported first, by the method; otherwise the report names the
/// first bad entry, as a bad name when its name is bad and else as a bad
/// value, every entry before it being acceptable.
pub proof fn law_request_check(method: Seq<char>, h: HeaderSeq)
    ensures
        request_fault(method, h) is None <==> (method_ok(method) && forall|i: int|
            0 <= i < h.len() ==> header_name_ok(#[trigger] h[i].0) && header_value_ok(h[i].1)),
        !method_ok(method) ==> request_fault(method, h) == Some(RequestFault::UnknownMethod(method)),
        method_ok(method) && request_fault(method, h) is Some ==> exists|i: int|
            0 <= i < h.len() && (forall|j: int|
                0 <= j < i ==> header_name_ok(#[trigger] h[j].0) && header_value_ok(h[j].1)) && (
            if !header_name_ok(h[i].0) {
                request_fault(method, h) == Some(RequestFault::InvalidHeaderName(h[i].0))
            } else {
                !header_value_ok(h[i].1) && request_fault(method, h) == Some(
                    RequestFault::InvalidHeaderValue(h[i].0),
                )
            }),
{
    lemma_header_fault(h);
    if method_ok(method) {
        if header_fault(h) is None {
            assert forall|i: int| 0 <= i < h.len() implies header_name_ok(#[trigger] h[i].0)
                && header_value_ok(h[i].1) by {
                assert(entry_ok(h[i]));
            }
        } else {
            let i = choose|i: int|
                0 <= i < h.len() && !#[trigger] entry_ok(h[i]) && (forall|j: int|
                    0 <= j < i ==> entry_ok(h[j])) && (header_fault(h) == if !header_name_ok(h[i].0) {
                    Some(RequestFault::InvalidHeaderName(h[i].0))
                } else {
                    Some(RequestFault::InvalidHeaderValue(h[i].0))
                });
            assert forall|j: int| 0 <= j < i implies header_name_ok(#[trigger] h[j].0)
                && header_value_ok(h[j].1) by {
                assert(entry_ok(h[j]));
            }
            assert(!entry_ok(h[i]));
            assert(!(forall|i: int| 0 <= i < h.len() ==> header_name_ok(#[trigger] h[i].0)
                && header_value_ok(h[i].1)));
        }
    }
}

// ─── Response ────────────────────────────────────────────────────────────────

/// Represents a received HTTP response.
pub struct HttpResponse {
    pub status: u16,
    pub status_text: String,
    pub headers: HeaderList,
    pub body: String,
    pub duration_ms: u128,
}

/// The response declares a JSON body: its `content-type` header (name
/// matched exactly) contains `application/json`.
pub open spec fn declares_json(headers: HeaderSeq) -> bool {
    match lookup(headers, "content-type"@) {
        Some(v) => contains_seq(v, "application/json"@),
        None => false,
    }
}

/// The canonical reason phrase `reqwest::StatusCode` gives for a status
/// code, when the code is valid and has one.
pub uninterp spec fn canonical_reason_text(code: u16) -> Option<Seq<char>>;

/// What `str::to_lowercase` returns for `s`.
pub uninterp spec fn lowercase_text(s: Seq<char>) -> Seq<char>;

/// `reqwest::StatusCode::from_u16(code)` then `canonical_reason`.
#[verifier::external_body]
fn canonical_reason(code: u16) -> (r: Option<String>)
    ensures
        opt_view(r) == canonical_reason_text(code),
{
    reqwest::StatusCode::from_u16(code).ok().and_then(|s| s.canonical_reason()).map(
        |t| t.to_string(),
    )
}

/// `str::to_lowercase`.
#[verifier::external_body]
fn to_lowercase(s: &str) -> (r: String)
    ensures
        r@ == lowercase_text(s@),
{
    s.to_lowercase()
}

/// The status line text of a code: its canonical reason, or `Unknown`.
pub open spec fn status_text_of(code: u16) -> Seq<char> {
    match canonical_reason_text(code) {
        Some(t) => t,
        None => "Unknown"@,
    }
}

/// The status text shown for a code: its canonical reason, or `Unknown`.
pub fn status_text(code: u16) -> (r: String)
    ensures
        r@ == status_text_of(code),
{
    match canonical_reason(code) {
        Some(t) => t,
        None => "Unknown".to_owned(),
    }
}

/// The response header table built from the received headers: entries
/// whose value is not text are dropped, names are lower-cased, and a later
/// entry replaces an earlier one of the same name.
pub open spec fn received_headers(raw: Seq<(Seq<char>, Option<Seq<char>>)>) -> HeaderSeq
    decreases raw.len(),
{
    if raw.len() == 0 {
        seq![]
    } else {
        let prev = received_headers(raw.drop_last());
        match raw.last().1 {
            Some(v) => insert_entry(prev, lowercase_text(raw.last().0), v),
            None => prev,
        }
    }
}

/// The abstract form of received headers.
pub open spec fn raw_view(raw: Seq<(String, Option<String>)>) -> Seq<(Seq<char>, Option<Seq<char>>)> {
    raw.map_values(|e: (String, Option<String>)| (e.0@, opt_view(e.1)))
}

impl HttpResponse {
    /// Whether the response declares a JSON body.
    pub fn is_json(&self) -> (r: bool)
        ensures
            r == declares_json(self.headers@),
    {
        match self.headers.get("content-type") {
            Some(v) => contains_str(v.as_str(), "application/json"),
            None => false,
        }
    }

    /// Assembles a response from what came back: the status code, each
    /// received header (its value `None` when it is not text), the body
    /// text and the elapsed time.
    pub fn from_parts(
        status: u16,
        raw_headers: &Vec<(String, Option<String>)>,
        body: String,
        duration_ms: u128,
    ) -> (r: Self)
        ensures
            r.status == status,
            r.status_text@ == status_text_of(status),
            r.headers@ == received_headers(raw_view(raw_headers@)),
            r.body == body,
            r.duration_ms == duration_ms,
    {
        let mut headers = HeaderList::new();
        let ghost raw = raw_view(raw_headers@);
        let mut i: usize = 0;
        assert(raw.take(0) =~= Seq::<(Seq<char>, Option<Seq<char>>)>::empty());
        while i < raw_headers.len()
            invariant
                i <= raw_headers@.len(),
                raw == raw_view(raw_headers@),
                headers@ == received_headers(raw.take(i as int)),
            decreases raw_headers@.len() - i,
        {
            assert(raw.take(i + 1).drop_last() =~= raw.take(i as int));
            assert(raw.take(i + 1).last() == raw[i as int]);
            match &raw_headers[i].1 {
                Some(v) => {
                    let name = to_lowercase(raw_headers[i].0.as_str());
                    headers.insert(name, v.clone());
                },
                None => {},
            }
            i += 1;
        }
        assert(raw.take(raw_headers@.len() as int) =~= raw);
        HttpResponse { status, status_text: status_text(status), headers, body, duration_ms }
    }

    /// The body as shown: pretty-printed when the response declares JSON.
    pub fn display_body(&self) -> (r: String)
        ensures
            r@ == if declares_json(self.headers@) {
                pretty_or_raw(self.body@)
            } else {
                self.body@
            },
    {
        if self.is_json() {
            pretty_print(self.body.as_str())
        } else {
            self.body.clone()
        }
    }
}

/// The status line printed for a response: the code and its reason.
pub fn status_line(status: u16, status_text: &str) -> (r: String)
    ensures
        r@ == decimal(status as nat) + " "@ + status_text@,
{
    let mut s = String::new();
    push_decimal(&mut s, status as u128);
    s.append(" ");
    s.append(status_text);
    s
}

} // verus!
