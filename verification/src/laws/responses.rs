//! Laws of statuses, errors and the retry logics.

use crate::adaptive_concurrency::http::reason_phrase;
use crate::adaptive_concurrency::http::HttpError;
use crate::adaptive_concurrency::http::HttpResponse;
use crate::adaptive_concurrency::http::InvalidStatusCode;
use crate::adaptive_concurrency::http::StatusCode;
use crate::adaptive_concurrency::reqwest_integration;
use crate::adaptive_concurrency::retries;
use crate::adaptive_concurrency::retries::JitterMode;
use crate::adaptive_concurrency::retries::RetryAction;
use crate::adaptive_concurrency::retries::RetryLogic;
use crate::gemini_client::GeminiRetryLogic;
use crate::openai_client::ClientRetryLogic;
use crate::text::decimal;
use crate::text::decimal_text;
use crate::text::parse_number;
use vstd::prelude::*;

verus! {

/// The numbers from 100 to 999 are the status codes, and each keeps its number.
pub proof fn law_status_keeps_its_number(
    src: u16,
    r: Result<StatusCode, InvalidStatusCode>,
    back: u16,
)
    requires
        call_ensures(StatusCode::from_u16, (src,), r),
        r matches Ok(status) ==> call_ensures(StatusCode::as_u16, (&status,), back),
    ensures
        r is Ok <==> 100 <= src <= 999,
        r is Ok ==> back == src,
{
}

/// A status is a success from 200 to 299, an error of the client from 400 to 499, and one of the
/// server from 500 to 599.
pub proof fn law_status_classes(
    status: StatusCode,
    code: u16,
    success: bool,
    client: bool,
    server: bool,
)
    requires
        call_ensures(StatusCode::as_u16, (&status,), code),
        call_ensures(StatusCode::is_success, (&status,), success),
        call_ensures(StatusCode::is_client_error, (&status,), client),
        call_ensures(StatusCode::is_server_error, (&status,), server),
    ensures
        status@ == code,
        success <==> code / 100 == 2,
        client <==> code / 100 == 4,
        server <==> code / 100 == 5,
{
}

/// A status is shown as its three digits, a space and its reason.
pub proof fn law_status_line(status: StatusCode, code: u16, line: String)
    requires
        call_ensures(StatusCode::as_u16, (&status,), code),
        call_ensures(StatusCode::to_string, (&status,), line),
    ensures
        line@ == seq![
            ((48 + code / 100) as u32) as char,
            ((48 + code / 10 % 10) as u32) as char,
            ((48 + code % 10) as u32) as char,
        ] + " "@ + match reason_phrase(code) {
            Some(phrase) => phrase,
            None => "<unknown status code>"@,
        },
{
    reveal_with_fuel(decimal, 4);
    let m = code as nat;
    assert(m / 10 / 10 == m / 100);
    assert(decimal(m) =~= seq![
        ((48 + code / 100) as u32) as char,
        ((48 + code / 10 % 10) as u32) as char,
        ((48 + code % 10) as u32) as char,
    ]);
}

/// An HTTP error is described by its kind and, in full, by what it holds.
pub proof fn law_http_error_text(error: HttpError, number: String, r: String)
    requires
        call_ensures(HttpError::to_string, (&error,), r),
        error matches HttpError::ServerError { status, .. } ==> call_ensures(
            decimal_text,
            (status,),
            number,
        ),
    ensures
        match error {
            HttpError::Transport { source } => r@ == "HTTP transport error: "@ + source@,
            HttpError::InvalidRequest { details } => r@ == "Invalid HTTP request: "@ + details@,
            HttpError::ServerError { body, .. } => r@ == "HTTP server error response (status "@
                + number@ + "): "@ + body@,
            HttpError::Timeout => r@ == "HTTP request timed out"@,
            HttpError::BuildRequest { details } => r@ == "Failed to build HTTP request: "@
                + details@,
            HttpError::ClientError { source } => r@ == "Generic HTTP client error: "@ + source@,
        },
{
}

/// No HTTP error calls for a retry by itself.
pub proof fn law_no_error_is_retriable_by_itself(error: HttpError, r: bool)
    requires
        call_ensures(HttpError::is_retriable, (&error,), r),
    ensures
        !r,
{
}

/// A response keeps its status, and the number in its header where there is one.
pub proof fn law_response_keeps_status_and_number(
    status: StatusCode,
    header: Option<&str>,
    parsed: Option<u64>,
    r: HttpResponse,
)
    requires
        call_ensures(HttpResponse::new, (status, header), r),
        header matches Some(text) ==> call_ensures(parse_number, (text,), parsed),
    ensures
        r.status == status,
        header is Some ==> r.ratelimit_remaining == parsed,
        header is None ==> r.ratelimit_remaining is None,
{
}

/// The three actions are told apart.
pub proof fn law_actions_are_told_apart(
    action: RetryAction,
    retryable: bool,
    refused: bool,
    successful: bool,
)
    requires
        call_ensures(RetryAction::is_retryable, (&action,), retryable),
        call_ensures(RetryAction::is_not_retryable, (&action,), refused),
        call_ensures(RetryAction::is_successful, (&action,), successful),
    ensures
        retryable <==> action is Retry,
        refused <==> action is DontRetry,
        successful <==> action is Successful,
{
}

/// Jitter is full unless another mode is set.
pub proof fn law_full_jitter_by_default(r: JitterMode)
    requires
        call_ensures(JitterMode::default, (), r),
    ensures
        r is Full,
{
}

/// Over responses, the default logic retries 429, 5xx, and whatever has no request left in its
/// header; and nothing else. Of the rest it takes 200 to 299 for successes and refuses the others.
pub proof fn law_default_logic_on_responses(
    logic: reqwest_integration::DefaultReqwestRetryLogic,
    response: HttpResponse,
    line: String,
    r: RetryAction,
)
    requires
        call_ensures(
            reqwest_integration::DefaultReqwestRetryLogic::should_retry_response,
            (&logic, &response),
            r,
        ),
        call_ensures(StatusCode::to_string, (&response.status,), line),
    ensures
        ({
            let code = response.status@;
            let overloaded = code == 429 || code / 100 == 5;
            let spent = match response.ratelimit_remaining {
                Some(remaining) => remaining < 1,
                None => false,
            };
            if overloaded {
                r matches RetryAction::Retry(why) && why@ == "Server responded with status "@
                    + line@
            } else if spent {
                r matches RetryAction::Retry(why) && why@ == "Rate limit reached with status "@
                    + line@
            } else if code / 100 == 2 {
                r is Successful
            } else if code / 100 == 4 {
                r matches RetryAction::DontRetry(why) && why@
                    == "Server responded with client error status "@ + line@
            } else {
                r matches RetryAction::DontRetry(why) && why@
                    == "Server responded with unhandled status "@ + line@
            }
        }),
{
}

/// The default logics retry an error of the network, a timeout, and a status of 429 or 5xx, and no
/// other error.
pub proof fn law_default_logics_on_errors(
    by_response: reqwest_integration::DefaultReqwestRetryLogic,
    by_error: retries::DefaultReqwestRetryLogic,
    error: HttpError,
    a: bool,
    b: bool,
)
    requires
        call_ensures(
            reqwest_integration::DefaultReqwestRetryLogic::is_retriable_error,
            (&by_response, &error),
            a,
        ),
        call_ensures(
            retries::DefaultReqwestRetryLogic::is_retriable_error,
            (&by_error, &error),
            b,
        ),
    ensures
        a == b,
        match error {
            HttpError::Transport { .. } => a,
            HttpError::Timeout => a,
            HttpError::ServerError { status, .. } => a <==> status == 429 || status / 100 == 5,
            HttpError::InvalidRequest { .. } => !a,
            HttpError::BuildRequest { .. } => !a,
            HttpError::ClientError { .. } => !a,
        },
{
}

/// Over failures, the default logic says why it retries or refuses, and quotes what the failure
/// holds in full.
pub proof fn law_default_logic_on_failures(
    logic: retries::DefaultReqwestRetryLogic,
    error: HttpError,
    status: StatusCode,
    line: String,
    number: String,
    r: RetryAction,
)
    requires
        call_ensures(
            retries::DefaultReqwestRetryLogic::should_retry_response,
            (&logic, &error),
            r,
        ),
        call_ensures(StatusCode::to_string, (&status,), line),
        error matches HttpError::ServerError { status: code, .. } ==> {
            &&& 100 <= code <= 999 ==> status@ == code
            &&& call_ensures(decimal_text, (code,), number)
        },
    ensures
        match error {
            HttpError::Transport { .. } => r matches RetryAction::Retry(why) && why@
                == "Transport error"@,
            HttpError::Timeout => r matches RetryAction::Retry(why) && why@
                == "Request timed out"@,
            HttpError::ServerError { status: code, body } => if code == 429 || code / 100 == 5 {
                r matches RetryAction::Retry(why) && why@ == "Server error status "@ + line@ + ": "@
                    + body@
            } else if code / 100 == 4 {
                r matches RetryAction::DontRetry(why) && why@ == "Client error status "@ + line@
                    + ": "@ + body@
            } else if 100 <= code <= 999 {
                r matches RetryAction::DontRetry(why) && why@ == "Unexpected status "@ + line@
                    + ": "@ + body@
            } else {
                r matches RetryAction::DontRetry(why) && why@ == "Invalid status code "@ + number@
            },
            HttpError::BuildRequest { details } => r matches RetryAction::DontRetry(why) && why@
                == "Request build error: "@ + details@,
            HttpError::InvalidRequest { details } => r matches RetryAction::DontRetry(why) && why@
                == "Invalid request: "@ + details@,
            HttpError::ClientError { source } => r matches RetryAction::DontRetry(why) && why@
                == "Client error: "@ + source@,
        },
{
}

/// The Gemini logic retries 429 and 5xx, takes 200 to 299 for successes and refuses the others,
/// whatever else a response holds.
pub proof fn law_gemini_logic_on_responses(
    logic: GeminiRetryLogic,
    response: HttpResponse,
    line: String,
    r: RetryAction,
)
    requires
        call_ensures(GeminiRetryLogic::should_retry_response, (&logic, &response), r),
        call_ensures(StatusCode::to_string, (&response.status,), line),
    ensures
        ({
            let code = response.status@;
            if code / 100 == 2 {
                r is Successful
            } else if code == 429 || code / 100 == 5 {
                r matches RetryAction::Retry(why) && why@ == "Server responded with status "@
                    + line@
            } else {
                r matches RetryAction::DontRetry(why) && why@
                    == "Server responded with non-retriable status "@ + line@
            }
        }),
{
}

/// The Gemini logic retries an error of the network and a timeout, and no other error.
pub proof fn law_gemini_logic_on_errors(logic: GeminiRetryLogic, error: HttpError, r: bool)
    requires
        call_ensures(GeminiRetryLogic::is_retriable_error, (&logic, &error), r),
    ensures
        match error {
            HttpError::Transport { .. } => r,
            HttpError::Timeout => r,
            HttpError::ServerError { .. } => !r,
            HttpError::InvalidRequest { .. } => !r,
            HttpError::BuildRequest { .. } => !r,
            HttpError::ClientError { .. } => !r,
        },
{
}

/// The OpenAI logic retries 409, 429 and 5xx, takes 200 to 299 for successes and refuses the others,
/// whatever else a response holds.
pub proof fn law_openai_logic_on_responses(
    logic: ClientRetryLogic,
    response: HttpResponse,
    line: String,
    r: RetryAction,
)
    requires
        call_ensures(ClientRetryLogic::should_retry_response, (&logic, &response), r),
        call_ensures(StatusCode::to_string, (&response.status,), line),
    ensures
        ({
            let code = response.status@;
            if code / 100 == 2 {
                r is Successful
            } else if code == 409 || code == 429 || code / 100 == 5 {
                r matches RetryAction::Retry(why) && why@ == "Server responded with status "@
                    + line@
            } else {
                r matches RetryAction::DontRetry(why) && why@
                    == "Server responded with non-retriable status "@ + line@
            }
        }),
{
}

/// The OpenAI logic retries an error of the network, a timeout, a status of 409, 429 or 5xx, and a
/// number that is no status; and no other error.
pub proof fn law_openai_logic_on_errors(logic: ClientRetryLogic, error: HttpError, r: bool)
    requires
        call_ensures(ClientRetryLogic::is_retriable_error, (&logic, &error), r),
    ensures
        match error {
            HttpError::Transport { .. } => r,
            HttpError::Timeout => r,
            HttpError::ServerError { status, .. } => r <==> status == 409 || status == 429
                || status / 100 == 5 || status < 100 || status > 999,
            HttpError::InvalidRequest { .. } => !r,
            HttpError::BuildRequest { .. } => !r,
            HttpError::ClientError { .. } => !r,
        },
{
}

} // verus!
