//! Error types, and the translation of HTTP error responses into them.

use vstd::prelude::*;
use vstd::string::StrSliceExecFns;
use vstd::string::StringExecFns;

verus! {

/// Errors that can arise when talking to the API.
#[derive(Debug)]
pub enum Error {
    /// The API returned an error response.
    Api { code: String, message: String, status: u16 },
    /// Network or HTTP error.
    Network(String),
    /// Authentication error.
    Auth(String),
    /// A required environment variable was not found.
    EnvVar(String),
    /// JSON decoding error.
    Json(String),
    /// URL parsing error.
    Url(String),
    /// Event-stream error.
    Sse(String),
}

/// API error response from the server.
#[derive(Debug, Clone)]
#[non_exhaustive]
pub struct ApiErrorResponse {
    pub error: ApiErrorDetail,
}

/// Detail of an API error.
#[derive(Debug, Clone)]
#[non_exhaustive]
pub struct ApiErrorDetail {
    pub code: String,
    pub message: String,
}

/// The ASCII whitespace characters stripped before sniffing for HTML.
pub open spec fn spec_ws_char(c: char) -> bool {
    c == ' ' || c == '\t' || c == '\n' || c == '\r' || c == '\u{b}' || c == '\u{c}'
}

/// Index of the first character of `s` at or after `i` that is not whitespace
/// (or `s.len()` when only whitespace follows).
pub open spec fn first_non_ws(s: Seq<char>, i: int) -> int
    decreases s.len() - i when 0 <= i <= s.len()
{
    if i >= s.len() {
        i
    } else if !spec_ws_char(s[i]) {
        i
    } else {
        first_non_ws(s, i + 1)
    }
}

/// `p` occurs in `s` starting at position `i`.
pub open spec fn starts_with_at(s: Seq<char>, p: Seq<char>, i: int) -> bool {
    0 <= i && i + p.len() <= s.len() && forall|j: int| 0 <= j < p.len() ==> s[i + j] == p[j]
}

/// The body looks like an HTML response: after leading ASCII whitespace it
/// begins with an HTML document marker.
pub open spec fn spec_is_html(s: Seq<char>) -> bool {
    let i = first_non_ws(s, 0);
    starts_with_at(s, "<!DOCTYPE"@, i) || starts_with_at(s, "<html"@, i) || starts_with_at(
        s,
        "<HTML"@,
        i,
    )
}

fn is_ws_char(c: char) -> (r: bool)
    ensures
        r == spec_ws_char(c),
{
    c == ' ' || c == '\t' || c == '\n' || c == '\r' || c == '\u{b}' || c == '\u{c}'
}

fn starts_with_from(s: &str, i: usize, p: &str) -> (r: bool)
    requires
        i <= s@.len(),
    ensures
        r == starts_with_at(s@, p@, i as int),
{
    let n = s.unicode_len();
    let m = p.unicode_len();
    if m > n - i {
        return false;
    }
    for j in 0..m
        invariant
            n == s@.len(),
            m == p@.len(),
            i + m <= n,
            forall|k: int| 0 <= k < j ==> s@[i + k] == p@[k],
    {
        if s.get_char(i + j) != p.get_char(j) {
            return false;
        }
    }
    true
}

/// Check whether the body looks like an HTML response.
pub fn is_html_response(body: &str) -> (r: bool)
    ensures
        r == spec_is_html(body@),
{
    let n = body.unicode_len();
    let mut i: usize = 0;
    while i < n && is_ws_char(body.get_char(i))
        invariant
            0 <= i <= n,
            n == body@.len(),
            first_non_ws(body@, 0) == first_non_ws(body@, i as int),
        decreases n - i,
    {
        i += 1;
    }
    starts_with_from(body, i, "<!DOCTYPE") || starts_with_from(body, i, "<html")
        || starts_with_from(body, i, "<HTML")
}

/// The decimal digit character for `d`.
pub open spec fn spec_digit_char(d: int) -> char {
    if d == 0 {
        '0'
    } else if d == 1 {
        '1'
    } else if d == 2 {
        '2'
    } else if d == 3 {
        '3'
    } else if d == 4 {
        '4'
    } else if d == 5 {
        '5'
    } else if d == 6 {
        '6'
    } else if d == 7 {
        '7'
    } else if d == 8 {
        '8'
    } else {
        '9'
    }
}

/// The decimal rendering of `n`, most significant digit first, no sign and
/// no leading zeros (except for `n == 0` itself).
pub open spec fn spec_dec(n: int) -> Seq<char>
    decreases n,
{
    if n < 10 {
        seq![spec_digit_char(n)]
    } else {
        spec_dec(n / 10).push(spec_digit_char(n % 10))
    }
}

fn digit_str(d: u64) -> (r: String)
    requires
        d < 10,
    ensures
        r@ =~= seq![spec_digit_char(d as int)],
{
    let s: &str = match d {
        0 => "0",
        1 => "1",
        2 => "2",
        3 => "3",
        4 => "4",
        5 => "5",
        6 => "6",
        7 => "7",
        8 => "8",
        _ => "9",
    };
    proof {
        reveal_strlit("0");
        reveal_strlit("1");
        reveal_strlit("2");
        reveal_strlit("3");
        reveal_strlit("4");
        reveal_strlit("5");
        reveal_strlit("6");
        reveal_strlit("7");
        reveal_strlit("8");
        reveal_strlit("9");
    }
    s.to_owned()
}

/// Render `n` in decimal.
pub fn u64_to_dec_string(n: u64) -> (r: String)
    ensures
        r@ == spec_dec(n as int),
    decreases n,
{
    if n < 10 {
        digit_str(n)
    } else {
        let mut s = u64_to_dec_string(n / 10);
        let d = digit_str(n % 10);
        s.append(d.as_str());
        proof {
            assert(s@ =~= spec_dec(n as int / 10).push(spec_digit_char(n as int % 10)));
        }
        s
    }
}

/// What a JSON API-error body `{"error": {"code": .., "message": ..}}` holds:
/// the code and message strings, or nothing when the body is not of that shape.
pub uninterp spec fn api_error_of(s: Seq<char>) -> Option<(Seq<char>, Seq<char>)>;

/// Relies on serde_json::from_str and Value::{get, as_str}: parses the body as
/// JSON and extracts the `error.code` and `error.message` strings.
#[verifier::external_body]
fn parse_api_error_body(body: &str) -> (r: Option<ApiErrorResponse>)
    ensures
        match r {
            Some(resp) => api_error_of(body@) == Some((resp.error.code@, resp.error.message@)),
            None => api_error_of(body@) is None,
        },
{
    let v: serde_json::Value = serde_json::from_str(body).ok()?;
    let e = v.get("error")?;
    let code = e.get("code")?.as_str()?.to_string();
    let message = e.get("message")?.as_str()?.to_string();
    Some(ApiErrorResponse { error: ApiErrorDetail { code, message } })
}

impl Error {
    /// The one-line rendering of an error, variant label first.
    pub open spec fn spec_description(self) -> Seq<char> {
        match self {
            Error::Api { code, message, status } => "API error: "@ + code@ + " - "@ + message@,
            Error::Network(m) => "Network error: "@ + m@,
            Error::Auth(m) => "Authentication error: "@ + m@,
            Error::EnvVar(m) => "Environment variable not found: "@ + m@,
            Error::Json(m) => "JSON error: "@ + m@,
            Error::Url(m) => "URL error: "@ + m@,
            Error::Sse(m) => "SSE error: "@ + m@,
        }
    }

    /// Render the error as a single line for display or logging.
    pub fn describe(&self) -> (r: String)
        ensures
            r@ == self.spec_description(),
    {
        match self {
            Error::Api { code, message, status: _ } => {
                let mut s = "API error: ".to_owned();
                s.append(code.as_str());
                s.append(" - ");
                s.append(message.as_str());
                s
            },
            Error::Network(m) => {
                let mut s = "Network error: ".to_owned();
                s.append(m.as_str());
                s
            },
            Error::Auth(m) => {
                let mut s = "Authentication error: ".to_owned();
                s.append(m.as_str());
                s
            },
            Error::EnvVar(m) => {
                let mut s = "Environment variable not found: ".to_owned();
                s.append(m.as_str());
                s
            },
            Error::Json(m) => {
                let mut s = "JSON error: ".to_owned();
                s.append(m.as_str());
                s
            },
            Error::Url(m) => {
                let mut s = "URL error: ".to_owned();
                s.append(m.as_str());
                s
            },
            Error::Sse(m) => {
                let mut s = "SSE error: ".to_owned();
                s.append(m.as_str());
                s
            },
        }
    }

    /// Translate a non-success HTTP response into an `Api` error: the code and
    /// message from the body when it is a structured API error; otherwise code
    /// `unknown`, with HTML bodies reduced to `HTTP <status>`.
    pub fn from_api_response(status: u16, body: &str) -> (r: Error)
        ensures
            match api_error_of(body@) {
                Some((code, message)) => (r matches Error::Api { code: c, message: m, status: st }
                    && c@ == code && m@ == message && st == status),
                None => (r matches Error::Api { code: c, message: m, status: st } && c@
                    == "unknown"@ && st == status && m@ == if spec_is_html(body@) {
                    "HTTP "@ + spec_dec(status as int)
                } else {
                    body@
                }),
            },
    {
        if let Some(resp) = parse_api_error_body(body) {
            Error::Api { code: resp.error.code, message: resp.error.message, status }
        } else {
            let message = if is_html_response(body) {
                let mut m = "HTTP ".to_owned();
                let digits = u64_to_dec_string(status as u64);
                m.append(digits.as_str());
                m
            } else {
                body.to_owned()
            };
            Error::Api { code: "unknown".to_owned(), message, status }
        }
    }
}

} // verus!
