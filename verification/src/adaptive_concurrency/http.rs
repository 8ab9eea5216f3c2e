//! HTTP values that the policies and the clients reason about.

use crate::text::decimal;
use crate::text::decimal_text;
use crate::text::number_in;
use crate::text::parse_number;
use vstd::prelude::*;
use vstd::string::*;

verus! {

/// 409 Conflict.
pub const CONFLICT: u16 = 409;

/// 429 Too Many Requests.
pub const TOO_MANY_REQUESTS: u16 = 429;

/// 500 Internal Server Error.
pub const INTERNAL_SERVER_ERROR: u16 = 500;

/// 503 Service Unavailable.
pub const SERVICE_UNAVAILABLE: u16 = 503;

/// The reason phrase of a status code, as `http::StatusCode::canonical_reason` gives it.
pub uninterp spec fn reason_phrase(code: u16) -> Option<Seq<char>>;

/// Whether a number is a status code: it has three digits.
pub open spec fn is_status(code: u16) -> bool {
    100 <= code <= 999
}

/// Whether a status code reports success.
pub open spec fn success_code(code: u16) -> bool {
    200 <= code <= 299
}

/// Whether a status code reports an error of the client.
pub open spec fn client_error_code(code: u16) -> bool {
    400 <= code <= 499
}

/// Whether a status code reports an error of the server.
pub open spec fn server_error_code(code: u16) -> bool {
    500 <= code <= 599
}

/// A status code as it is shown: its number, a space and its reason phrase.
pub open spec fn status_line(code: u16) -> Seq<char> {
    decimal(code as nat) + " "@ + match reason_phrase(code) {
        Some(phrase) => phrase,
        None => "<unknown status code>"@,
    }
}

/// `http::StatusCode::from_u16`, and `as_u16` on what it gives: a number from 100 to 999 is a
/// status code and keeps its value, any other is refused.
#[verifier::external_body]
fn parse_status(src: u16) -> (r: Option<u16>)
    ensures
        r == (if is_status(src) {
            Some(src)
        } else {
            None
        }),
{
    match http::StatusCode::from_u16(src) {
        Ok(status) => Some(status.as_u16()),
        Err(_) => None,
    }
}

/// The `Display` text of `http::StatusCode`: the number in decimal, a space, and the canonical
/// reason, for which `<unknown status code>` stands where there is none.
#[verifier::external_body]
fn display_status(code: u16) -> (r: String)
    requires
        is_status(code),
    ensures
        r@ == decimal(code as nat) + " "@ + (match reason_phrase(code) {
            Some(phrase) => phrase,
            None => "<unknown status code>"@,
        }),
{
    http::StatusCode::from_u16(code).unwrap().to_string()
}

/// A number that is no status code.
#[derive(Clone, Copy, Debug, PartialEq, Eq)]
pub struct InvalidStatusCode;

/// An HTTP status code, a number from 100 to 999. Its view is that number.
#[derive(Clone, Copy, Debug, PartialEq, Eq, Structural)]
pub struct StatusCode {
    code: u16,
}

impl View for StatusCode {
    type V = u16;

    closed spec fn view(&self) -> u16 {
        self.code
    }
}

impl StatusCode {
    #[verifier::type_invariant]
    spec fn in_range(self) -> bool {
        is_status(self.code)
    }

    /// The status code of a number, where it is one.
    pub fn from_u16(src: u16) -> (r: Result<StatusCode, InvalidStatusCode>)
        ensures
            match r {
                Ok(status) => is_status(src) && status@ == src,
                Err(_) => !is_status(src),
            },
    {
        match parse_status(src) {
            Some(code) => Ok(StatusCode { code }),
            None => Err(InvalidStatusCode),
        }
    }

    /// The number of this status code.
    pub fn as_u16(&self) -> (r: u16)
        ensures
            r == self@,
            is_status(r),
    {
        proof {
            use_type_invariant(self);
        }
        self.code
    }

    /// Whether the code is within 200-299.
    pub fn is_success(&self) -> (r: bool)
        ensures
            r == success_code(self@),
    {
        200 <= self.code && self.code <= 299
    }

    /// Whether the code is within 400-499.
    pub fn is_client_error(&self) -> (r: bool)
        ensures
            r == client_error_code(self@),
    {
        400 <= self.code && self.code <= 499
    }

    /// Whether the code is within 500-599.
    pub fn is_server_error(&self) -> (r: bool)
        ensures
            r == server_error_code(self@),
    {
        500 <= self.code && self.code <= 599
    }

    /// The code and its reason phrase.
    pub fn to_string(&self) -> (r: String)
        ensures
            r@ == status_line(self@),
    {
        proof {
            use_type_invariant(self);
        }
        display_status(self.code)
    }
}

/// What goes wrong with an HTTP call. An underlying error is held as its text.
#[derive(Debug, PartialEq, Eq)]
pub enum HttpError {
    /// The request did not reach the server (network, DNS).
    Transport { source: String },
    /// The request was malformed before it was sent.
    InvalidRequest { details: String },
    /// The server answered with a status that is no success.
    ServerError { status: u16, body: String },
    /// The call took too long.
    Timeout,
    /// The request could not be built.
    BuildRequest { details: String },
    /// Any other error of the client.
    ClientError { source: String },
}

impl HttpError {
    /// The text that describes this error.
    pub open spec fn text(&self) -> Seq<char> {
        match self {
            HttpError::Transport { source } => "HTTP transport error: "@ + source@,
            HttpError::InvalidRequest { details } => "Invalid HTTP request: "@ + details@,
            HttpError::ServerError { status, body } => "HTTP server error response (status "@
                + decimal(*status as nat) + "): "@ + body@,
            HttpError::Timeout => "HTTP request timed out"@,
            HttpError::BuildRequest { details } => "Failed to build HTTP request: "@ + details@,
            HttpError::ClientError { source } => "Generic HTTP client error: "@ + source@,
        }
    }

    /// Whether the error by itself calls for a retry. None does: a retry logic has the say.
    pub fn is_retriable(&self) -> (r: bool)
        ensures
            r == false,
    {
        false
    }

    /// Describes this error.
    pub fn to_string(&self) -> (r: String)
        ensures
            r@ == self.text(),
    {
        match self {
            HttpError::Transport { source } => String::from_str("HTTP transport error: ").concat(
                source,
            ),
            HttpError::InvalidRequest { details } => String::from_str(
                "Invalid HTTP request: ",
            ).concat(details),
            HttpError::ServerError { status, body } => {
                let mut r = String::from_str("HTTP server error response (status ");
                r.append(decimal_text(*status).as_str());
                r.append("): ");
                r.append(body);
                r
            },
            HttpError::Timeout => String::from_str("HTTP request timed out"),
            HttpError::BuildRequest { details } => String::from_str(
                "Failed to build HTTP request: ",
            ).concat(details),
            HttpError::ClientError { source } => String::from_str(
                "Generic HTTP client error: ",
            ).concat(source),
        }
    }
}

/// What the retry logic reads of an HTTP response: its status, and how many requests the header
/// `x-ratelimit-remaining` says are left, where it says so.
#[derive(Clone, Copy, Debug, PartialEq, Eq)]
pub struct HttpResponse {
    pub status: StatusCode,
    pub ratelimit_remaining: Option<u64>,
}

impl HttpResponse {
    /// A response with the given status, and with the text of the header `x-ratelimit-remaining`
    /// where there is one.
    pub fn new(status: StatusCode, ratelimit_remaining: Option<&str>) -> (r: HttpResponse)
        ensures
            r.status == status,
            r.ratelimit_remaining == match ratelimit_remaining {
                Some(text) => number_in(text@),
                None => None,
            },
    {
        let ratelimit_remaining = match ratelimit_remaining {
            Some(text) => parse_number(text),
            None => None,
        };
        HttpResponse { status, ratelimit_remaining }
    }
}

} // verus!
