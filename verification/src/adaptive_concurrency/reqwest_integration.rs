//! The decisions in one call through an HTTP client.
//!
//! A call starts with the URI of a request. Then the client either answers or fails. An answer
//! that is no success is read to its end and becomes an error.

use crate::adaptive_concurrency::http::client_error_code;
use crate::adaptive_concurrency::http::status_line;
use crate::adaptive_concurrency::http::success_code;
use crate::adaptive_concurrency::http::HttpError;
use crate::adaptive_concurrency::http::HttpResponse;
use crate::adaptive_concurrency::http::StatusCode;
use crate::adaptive_concurrency::http::SERVICE_UNAVAILABLE;
use crate::adaptive_concurrency::http::TOO_MANY_REQUESTS;
use crate::adaptive_concurrency::request::parse_url;
use crate::adaptive_concurrency::request::status_message;
use crate::adaptive_concurrency::request::text_of;
use crate::adaptive_concurrency::request::texts_of;
use crate::adaptive_concurrency::request::url_parsed;
use crate::adaptive_concurrency::retries::logic::default_retriable;
use crate::adaptive_concurrency::retries::logic::backpressure_code;
use crate::adaptive_concurrency::retries::logic::RetryAction;
use crate::adaptive_concurrency::retries::logic::RetryActionView;
use crate::adaptive_concurrency::retries::logic::RetryLogic;
use vstd::prelude::*;
use vstd::string::*;

verus! {

/// What to do next in a call.
#[derive(Debug)]
pub enum CallStep {
    /// Send the request to this URL.
    Send { url: String },
    /// Read the body of an answer that is no success.
    ReadErrorBody { status: StatusCode },
    /// Hand on the answer.
    Accept,
    /// The call failed.
    Fail { error: HttpError },
}

/// Whether a step is the one that a call to `uri` starts with, for what parsing it gave.
pub open spec fn is_first_step(
    uri: Seq<char>,
    parsed: Result<Seq<char>, Seq<char>>,
    step: CallStep,
) -> bool {
    match parsed {
        Ok(url) => step matches CallStep::Send { url: u } && u@ == url,
        Err(reason) => step matches CallStep::Fail { error: HttpError::InvalidRequest { details } }
            && details@ == "Invalid URL '"@ + uri + "': "@ + reason,
    }
}

/// The first step of a call, for what parsing its URI gave.
pub fn first_step(uri: &str, parsed: Result<String, String>) -> (r: CallStep)
    ensures
        is_first_step(uri@, texts_of(parsed), r),
{
    match parsed {
        Ok(url) => CallStep::Send { url },
        Err(reason) => {
            let mut details = String::from_str("Invalid URL '");
            details.append(uri);
            details.append("': ");
            details.append(reason.as_str());
            CallStep::Fail { error: HttpError::InvalidRequest { details } }
        },
    }
}

/// The first step of a call: the request is sent, unless its URI is no URL.
pub fn start_call(uri: &str) -> (r: CallStep)
    ensures
        is_first_step(uri@, url_parsed(uri@), r),
{
    first_step(uri, parse_url(uri))
}

/// The step after an answer: a success is handed on, any other answer is read to its end.
pub fn after_answer(status: StatusCode) -> (r: CallStep)
    ensures
        if success_code(status@) {
            r is Accept
        } else {
            r matches CallStep::ReadErrorBody { status: s } && s == status
        },
{
    if status.is_success() {
        CallStep::Accept
    } else {
        CallStep::ReadErrorBody { status }
    }
}

/// The step after the body of an answer that is no success, where it could be read.
pub fn after_error_body(status: StatusCode, body: Option<String>) -> (r: CallStep)
    ensures
        r matches CallStep::Fail { error: HttpError::ServerError { status: code, body: text } }
            && code == status@ && text@ == match text_of(body) {
            Some(read) => read,
            None => "Could not read error body"@,
        },
{
    let body = match body {
        Some(read) => read,
        None => String::from_str("Could not read error body"),
    };
    CallStep::Fail { error: HttpError::ServerError { status: status.as_u16(), body } }
}

/// The step after the client failed: a timeout, a connection that was not made, or anything else.
pub fn after_failure(is_timeout: bool, is_connect: bool, source: String) -> (r: CallStep)
    ensures
        if is_timeout {
            r matches CallStep::Fail { error: HttpError::Timeout }
        } else if is_connect {
            r == (CallStep::Fail { error: HttpError::Transport { source } })
        } else {
            r == (CallStep::Fail { error: HttpError::ClientError { source } })
        },
{
    let error = if is_timeout {
        HttpError::Timeout
    } else if is_connect {
        HttpError::Transport { source }
    } else {
        HttpError::ClientError { source }
    };
    CallStep::Fail { error }
}

/// The retry logic for services that answer with [`HttpResponse`]s and fail with [`HttpError`]s.
#[derive(Clone, Copy, Debug, Default)]
pub struct DefaultReqwestRetryLogic;

/// Whether a response says that no further request is allowed.
pub open spec fn limit_reached(response: HttpResponse) -> bool {
    response.ratelimit_remaining == Some(0u64)
}

/// Whether a response signals that its server is overloaded: by a status of 429 or 5xx, or by the
/// header `x-ratelimit-remaining: 0`.
pub open spec fn signals_backpressure(response: HttpResponse) -> bool {
    backpressure_code(response.status@) || limit_reached(response)
}

/// What the logic answers to a status.
pub open spec fn status_action(code: u16) -> RetryActionView {
    if success_code(code) {
        RetryActionView::Successful
    } else if backpressure_code(code) {
        RetryActionView::Retry("Server responded with status "@ + status_line(code))
    } else if client_error_code(code) {
        RetryActionView::DontRetry("Server responded with client error status "@ + status_line(code))
    } else {
        RetryActionView::DontRetry("Server responded with unhandled status "@ + status_line(code))
    }
}

/// What the logic answers to a response.
pub open spec fn response_action(response: HttpResponse) -> RetryActionView {
    if limit_reached(response) && !backpressure_code(response.status@) {
        RetryActionView::Retry("Rate limit reached with status "@ + status_line(response.status@))
    } else {
        status_action(response.status@)
    }
}

impl RetryLogic for DefaultReqwestRetryLogic {
    type Error = HttpError;

    type Response = HttpResponse;

    fn is_retriable_error(&self, error: &HttpError) -> (r: bool)
        ensures
            r == default_retriable(*error),
    {
        match error {
            HttpError::Transport { .. } => true,
            HttpError::Timeout => true,
            HttpError::ServerError { status, .. } => match StatusCode::from_u16(*status) {
                Ok(status) => status.is_server_error() || status.as_u16() == TOO_MANY_REQUESTS,
                Err(_) => false,
            },
            HttpError::BuildRequest { .. } => false,
            HttpError::InvalidRequest { .. } => false,
            HttpError::ClientError { .. } => false,
        }
    }

    fn should_retry_response(&self, response: &HttpResponse) -> (r: RetryAction)
        ensures
            r@ == response_action(*response),
            r@ is Retry <==> signals_backpressure(*response),
            !signals_backpressure(*response) ==> r@ == status_action(response.status@),
    {
        let status = response.status;
        if status.as_u16() == TOO_MANY_REQUESTS || status.as_u16() == SERVICE_UNAVAILABLE
            || status.is_server_error() {
            return RetryAction::Retry(status_message("Server responded with status ", &status));
        }
        if let Some(remaining) = response.ratelimit_remaining {
            if remaining == 0 {
                return RetryAction::Retry(
                    status_message("Rate limit reached with status ", &status),
                );
            }
        }
        if status.is_success() {
            RetryAction::Successful
        } else if status.is_client_error() {
            RetryAction::DontRetry(
                status_message("Server responded with client error status ", &status),
            )
        } else {
            RetryAction::DontRetry(
                status_message("Server responded with unhandled status ", &status),
            )
        }
    }
}

/// An answer that is no success is retried as an answer exactly where it is retried as the error
/// that it becomes, unless its header says that no further request is allowed: the error does not
/// hold the header.
pub proof fn law_answer_and_its_error_agree(response: HttpResponse, body: String)
    requires
        !success_code(response.status@),
        !limit_reached(response),
    ensures
        response_action(response) is Retry <==> default_retriable(
            HttpError::ServerError { status: response.status@, body },
        ),
{
}

/// Exactly the answers that signal an overloaded server are retried: 429, 5xx, and any with the
/// header `x-ratelimit-remaining: 0`. Of the others, exactly those from 200 to 299 are successes.
pub proof fn law_backpressure_is_retried(response: HttpResponse)
    ensures
        response_action(response) is Retry <==> signals_backpressure(response),
        response_action(response) is Successful <==> success_code(response.status@)
            && !signals_backpressure(response),
{
}

} // verus!
