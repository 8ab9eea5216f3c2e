//! What a retry logic answers, and the default logic over HTTP errors.

use crate::adaptive_concurrency::http::client_error_code;
use crate::adaptive_concurrency::http::is_status;
use crate::adaptive_concurrency::http::server_error_code;
use crate::adaptive_concurrency::http::status_line;
use crate::adaptive_concurrency::http::HttpError;
use crate::adaptive_concurrency::http::StatusCode;
use crate::adaptive_concurrency::http::SERVICE_UNAVAILABLE;
use crate::adaptive_concurrency::http::TOO_MANY_REQUESTS;
use crate::text::decimal;
use crate::text::decimal_text;
use std::borrow::Cow;
use vstd::prelude::*;
use vstd::string::*;

verus! {

/// What to do with a finished request.
#[derive(Debug)]
pub enum RetryAction {
    /// The request should be retried, with a reason.
    Retry(Cow<'static, str>),
    /// The request should not be retried, with a reason.
    DontRetry(Cow<'static, str>),
    /// The request should not be retried: it was successful.
    Successful,
}

/// A [`RetryAction`] with its reason as plain text.
pub enum RetryActionView {
    Retry(Seq<char>),
    DontRetry(Seq<char>),
    Successful,
}

impl View for RetryAction {
    type V = RetryActionView;

    open spec fn view(&self) -> RetryActionView {
        match self {
            RetryAction::Retry(reason) => RetryActionView::Retry(reason@),
            RetryAction::DontRetry(reason) => RetryActionView::DontRetry(reason@),
            RetryAction::Successful => RetryActionView::Successful,
        }
    }
}

impl RetryAction {
    /// Whether the request should be retried.
    pub fn is_retryable(&self) -> (r: bool)
        ensures
            r == (self@ is Retry),
    {
        matches!(self, RetryAction::Retry(_))
    }

    /// Whether the request failed and should not be retried.
    pub fn is_not_retryable(&self) -> (r: bool)
        ensures
            r == (self@ is DontRetry),
    {
        matches!(self, RetryAction::DontRetry(_))
    }

    /// Whether the request was successful.
    pub fn is_successful(&self) -> (r: bool)
        ensures
            r == (self@ is Successful),
    {
        matches!(self, RetryAction::Successful)
    }
}

/// Decides which requests are retried. An implementer says which errors are retriable and whether
/// a response needs another try.
pub trait RetryLogic: Clone + Send + Sync + 'static {
    /// The errors of the service.
    type Error;

    /// The responses of the service.
    type Response;

    /// Whether an error should lead to a retry.
    fn is_retriable_error(&self, error: &Self::Error) -> bool;

    /// What to do with a response. Unless an implementer says otherwise, every response is a
    /// success.
    fn should_retry_response(&self, _response: &Self::Response) -> (r: RetryAction)
        default_ensures
            r@ is Successful,
    {
        RetryAction::Successful
    }
}

/// How the delay before a retry is randomised.
#[derive(Clone, Copy, Debug, PartialEq, Eq, Structural)]
pub enum JitterMode {
    /// No jitter: the delay is the one that the backoff strategy computes.
    NoJitter,
    /// Full jitter: the delay is anywhere from 0 up to the one that the backoff strategy computes.
    /// Many clients that recover from one failure then do not all come back at once.
    Full,
}

impl Default for JitterMode {
    fn default() -> (r: JitterMode)
        ensures
            r is Full,
    {
        JitterMode::Full
    }
}

/// The retry logic for services whose failures are [`HttpError`]s, whether they arrive as errors
/// or as responses.
#[derive(Clone, Copy, Debug, Default)]
pub struct DefaultReqwestRetryLogic;

/// Whether the default logic retries a failure with this status: 429 and 5xx.
pub open spec fn backpressure_code(code: u16) -> bool {
    code == TOO_MANY_REQUESTS || server_error_code(code)
}

/// Whether the default logic retries this error.
pub open spec fn default_retriable(error: HttpError) -> bool {
    match error {
        HttpError::Transport { .. } => true,
        HttpError::Timeout => true,
        HttpError::ServerError { status, .. } => backpressure_code(status),
        _ => false,
    }
}

/// What the default logic answers to a failed response.
pub open spec fn default_action(error: HttpError) -> RetryActionView {
    match error {
        HttpError::Transport { .. } => RetryActionView::Retry("Transport error"@),
        HttpError::Timeout => RetryActionView::Retry("Request timed out"@),
        HttpError::ServerError { status, body } => if backpressure_code(status) {
            RetryActionView::Retry(
                "Server error status "@ + status_line(status) + ": "@ + body@,
            )
        } else if client_error_code(status) {
            RetryActionView::DontRetry(
                "Client error status "@ + status_line(status) + ": "@ + body@,
            )
        } else if is_status(status) {
            RetryActionView::DontRetry(
                "Unexpected status "@ + status_line(status) + ": "@ + body@,
            )
        } else {
            RetryActionView::DontRetry("Invalid status code "@ + decimal(status as nat))
        },
        HttpError::BuildRequest { details } => RetryActionView::DontRetry(
            "Request build error: "@ + details@,
        ),
        HttpError::InvalidRequest { details } => RetryActionView::DontRetry(
            "Invalid request: "@ + details@,
        ),
        HttpError::ClientError { source } => RetryActionView::DontRetry(
            "Client error: "@ + source@,
        ),
    }
}

fn status_reason(prefix: &str, status: &StatusCode, body: &str) -> (r: Cow<'static, str>)
    ensures
        r@ == prefix@ + status_line(status@) + ": "@ + body@,
{
    let mut r = String::from_str(prefix);
    r.append(status.to_string().as_str());
    r.append(": ");
    r.append(body);
    Cow::Owned(r)
}

fn reason(prefix: &str, details: &str) -> (r: Cow<'static, str>)
    ensures
        r@ == prefix@ + details@,
{
    Cow::Owned(String::from_str(prefix).concat(details))
}

impl RetryLogic for DefaultReqwestRetryLogic {
    type Error = HttpError;

    type Response = HttpError;

    /// Network errors, timeouts, 429 and 5xx are retried. What went wrong before the request was
    /// sent, or on the client's side, is not.
    fn is_retriable_error(&self, error: &HttpError) -> (r: bool)
        ensures
            r == default_retriable(*error),
    {
        match error {
            HttpError::Transport { .. } => true,
            HttpError::Timeout => true,
            HttpError::ServerError { status, .. } => match StatusCode::from_u16(*status) {
                Ok(status) => status.is_server_error() || status.as_u16() == TOO_MANY_REQUESTS,
                Err(_) => false,
            },
            HttpError::BuildRequest { .. } => false,
            HttpError::InvalidRequest { .. } => false,
            HttpError::ClientError { .. } => false,
        }
    }

    fn should_retry_response(&self, error: &HttpError) -> (r: RetryAction)
        ensures
            r@ == default_action(*error),
    {
        match error {
            HttpError::Transport { .. } => RetryAction::Retry(Cow::Borrowed("Transport error")),
            HttpError::Timeout => RetryAction::Retry(Cow::Borrowed("Request timed out")),
            HttpError::ServerError { status, body } => match StatusCode::from_u16(*status) {
                Ok(status) => if status.as_u16() == TOO_MANY_REQUESTS || status.as_u16()
                    == SERVICE_UNAVAILABLE || status.is_server_error() {
                    RetryAction::Retry(status_reason("Server error status ", &status, body))
                } else if status.is_client_error() {
                    RetryAction::DontRetry(status_reason("Client error status ", &status, body))
                } else {
                    RetryAction::DontRetry(status_reason("Unexpected status ", &status, body))
                },
                Err(_) => RetryAction::DontRetry(
                    reason("Invalid status code ", decimal_text(*status).as_str()),
                ),
            },
            HttpError::BuildRequest { details } => RetryAction::DontRetry(
                reason("Request build error: ", details),
            ),
            HttpError::InvalidRequest { details } => RetryAction::DontRetry(
                reason("Invalid request: ", details),
            ),
            HttpError::ClientError { source } => RetryAction::DontRetry(
                reason("Client error: ", source),
            ),
        }
    }
}

/// The default logic gives one answer to a failure, whether it arrives as an error or as a
/// response, and takes no failure for a success.
pub proof fn law_answers_agree(error: HttpError)
    ensures
        default_action(error) is Retry <==> default_retriable(error),
        default_action(error) is DontRetry <==> !default_retriable(error),
{
}

} // verus!
