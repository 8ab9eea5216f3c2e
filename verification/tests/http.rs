use rate_limiter_aimd::adaptive_concurrency::http::{
    HttpError, HttpResponse, InvalidStatusCode, StatusCode,
};
use rate_limiter_aimd::adaptive_concurrency::reqwest_integration::{
    after_answer, after_error_body, after_failure, first_step, start_call, CallStep,
};
use rate_limiter_aimd::adaptive_concurrency::{reqwest_integration, retries};
use rate_limiter_aimd::adaptive_concurrency::retries::{JitterMode, RetryAction, RetryLogic};

fn status(code: u16) -> StatusCode {
    StatusCode::from_u16(code).unwrap()
}

fn server_error(status: u16) -> HttpError {
    HttpError::ServerError { status, body: "why".to_string() }
}

fn retry_reason(action: RetryAction) -> String {
    match action {
        RetryAction::Retry(reason) => reason.into_owned(),
        _ => panic!("no retry"),
    }
}

fn refusal_reason(action: RetryAction) -> String {
    match action {
        RetryAction::DontRetry(reason) => reason.into_owned(),
        _ => panic!("no refusal"),
    }
}

#[test]
fn status_codes_have_three_digits() {
    assert_eq!(StatusCode::from_u16(99), Err(InvalidStatusCode));
    assert_eq!(StatusCode::from_u16(1000), Err(InvalidStatusCode));
    assert_eq!(status(100).as_u16(), 100);
    assert_eq!(status(999).as_u16(), 999);
}

#[test]
fn status_classes_are_ranges() {
    for code in 100..1000 {
        assert_eq!(status(code).is_success(), (200..300).contains(&code));
        assert_eq!(status(code).is_client_error(), (400..500).contains(&code));
        assert_eq!(status(code).is_server_error(), (500..600).contains(&code));
    }
}

#[test]
fn status_is_shown_with_its_reason() {
    assert_eq!(status(500).to_string(), "500 Internal Server Error");
    assert_eq!(status(429).to_string(), "429 Too Many Requests");
    assert_eq!(status(599).to_string(), "599 <unknown status code>");
    for code in 100..1000 {
        let outside = http::StatusCode::from_u16(code).unwrap();
        let phrase = outside.canonical_reason().unwrap_or("<unknown status code>");
        assert_eq!(status(code).to_string(), format!("{} {}", code, phrase));
    }
}

#[test]
fn http_errors_are_described() {
    let text = |s: &str| s.to_string();
    assert_eq!(HttpError::Transport { source: text("dns") }.to_string(), "HTTP transport error: dns");
    assert_eq!(HttpError::InvalidRequest { details: text("x") }.to_string(), "Invalid HTTP request: x");
    assert_eq!(server_error(503).to_string(), "HTTP server error response (status 503): why");
    assert_eq!(server_error(0).to_string(), "HTTP server error response (status 0): why");
    assert_eq!(server_error(65535).to_string(), "HTTP server error response (status 65535): why");
    assert_eq!(HttpError::Timeout.to_string(), "HTTP request timed out");
    assert_eq!(HttpError::BuildRequest { details: text("y") }.to_string(), "Failed to build HTTP request: y");
    assert_eq!(HttpError::ClientError { source: text("z") }.to_string(), "Generic HTTP client error: z");
}

#[test]
fn no_http_error_is_retriable_by_itself() {
    assert!(!HttpError::Timeout.is_retriable());
    assert!(!server_error(500).is_retriable());
}

#[test]
fn default_jitter_is_full() {
    assert_eq!(JitterMode::default(), JitterMode::Full);
}

#[test]
fn actions_are_told_apart() {
    let retry = RetryAction::Retry("a".into());
    assert!(retry.is_retryable() && !retry.is_not_retryable() && !retry.is_successful());
    let refusal = RetryAction::DontRetry("a".into());
    assert!(!refusal.is_retryable() && refusal.is_not_retryable() && !refusal.is_successful());
    let success = RetryAction::Successful;
    assert!(!success.is_retryable() && !success.is_not_retryable() && success.is_successful());
}

#[test]
fn default_logic_judges_errors() {
    let logic = retries::DefaultReqwestRetryLogic;
    assert!(logic.is_retriable_error(&HttpError::Timeout));
    assert!(logic.is_retriable_error(&HttpError::Transport { source: String::new() }));
    for code in [429, 500, 503, 599] {
        assert!(logic.is_retriable_error(&server_error(code)));
    }
    for code in [0, 99, 200, 301, 400, 404, 409, 600, 1000] {
        assert!(!logic.is_retriable_error(&server_error(code)));
    }
    assert!(!logic.is_retriable_error(&HttpError::BuildRequest { details: String::new() }));
    assert!(!logic.is_retriable_error(&HttpError::InvalidRequest { details: String::new() }));
    assert!(!logic.is_retriable_error(&HttpError::ClientError { source: String::new() }));
}

#[test]
fn default_logic_answers_failures() {
    let logic = retries::DefaultReqwestRetryLogic;
    let text = |s: &str| s.to_string();
    let answer = |error: HttpError| logic.should_retry_response(&error);
    assert_eq!(retry_reason(answer(HttpError::Transport { source: text("x") })), "Transport error");
    assert_eq!(retry_reason(answer(HttpError::Timeout)), "Request timed out");
    assert_eq!(
        retry_reason(answer(server_error(503))),
        "Server error status 503 Service Unavailable: why"
    );
    assert_eq!(
        retry_reason(answer(server_error(429))),
        "Server error status 429 Too Many Requests: why"
    );
    assert_eq!(
        refusal_reason(answer(server_error(404))),
        "Client error status 404 Not Found: why"
    );
    assert_eq!(refusal_reason(answer(server_error(302))), "Unexpected status 302 Found: why");
    assert_eq!(refusal_reason(answer(server_error(99))), "Invalid status code 99");
    assert_eq!(
        refusal_reason(answer(HttpError::BuildRequest { details: text("b") })),
        "Request build error: b"
    );
    assert_eq!(
        refusal_reason(answer(HttpError::InvalidRequest { details: text("i") })),
        "Invalid request: i"
    );
    assert_eq!(
        refusal_reason(answer(HttpError::ClientError { source: text("c") })),
        "Client error: c"
    );
}

#[test]
fn default_logic_answers_alike_to_errors_and_responses() {
    let logic = retries::DefaultReqwestRetryLogic;
    for code in 0..1100 {
        let error = server_error(code);
        assert_eq!(
            logic.is_retriable_error(&error),
            logic.should_retry_response(&error).is_retryable()
        );
    }
}

#[test]
fn response_logic_answers_statuses() {
    let logic = reqwest_integration::DefaultReqwestRetryLogic;
    let answer = |code: u16| logic.should_retry_response(&HttpResponse::new(status(code), None));
    assert!(answer(200).is_successful());
    assert!(answer(299).is_successful());
    assert_eq!(retry_reason(answer(429)), "Server responded with status 429 Too Many Requests");
    assert_eq!(retry_reason(answer(500)), "Server responded with status 500 Internal Server Error");
    assert_eq!(
        refusal_reason(answer(404)),
        "Server responded with client error status 404 Not Found"
    );
    assert_eq!(refusal_reason(answer(302)), "Server responded with unhandled status 302 Found");
    assert!(logic.is_retriable_error(&server_error(500)));
    assert!(!logic.is_retriable_error(&server_error(404)));
}

#[test]
fn answer_and_its_error_are_judged_alike() {
    let logic = reqwest_integration::DefaultReqwestRetryLogic;
    for code in (100..1000).filter(|code| !(200..300).contains(code)) {
        let answer = HttpResponse::new(status(code), None);
        assert_eq!(
            logic.should_retry_response(&answer).is_retryable(),
            logic.is_retriable_error(&server_error(code))
        );
    }
}

#[test]
fn call_starts_with_the_parsed_url() {
    match start_call("HTTPS://Example.com") {
        CallStep::Send { url } => assert_eq!(url, "https://example.com/"),
        step => panic!("{:?}", step),
    }
    match first_step("given", Ok("parsed".to_string())) {
        CallStep::Send { url } => assert_eq!(url, "parsed"),
        step => panic!("{:?}", step),
    }
}

#[test]
fn call_to_no_url_fails() {
    match start_call("nowhere") {
        CallStep::Fail { error } => assert_eq!(
            error,
            HttpError::InvalidRequest {
                details: "Invalid URL 'nowhere': relative URL without a base".to_string()
            }
        ),
        step => panic!("{:?}", step),
    }
}

#[test]
fn call_accepts_a_success() {
    assert!(matches!(after_answer(status(204)), CallStep::Accept));
    match after_answer(status(304)) {
        CallStep::ReadErrorBody { status } => assert_eq!(status.as_u16(), 304),
        step => panic!("{:?}", step),
    }
}

#[test]
fn call_reports_the_body_of_an_error() {
    match after_error_body(status(502), Some("bad".to_string())) {
        CallStep::Fail { error } => {
            assert_eq!(error, HttpError::ServerError { status: 502, body: "bad".to_string() })
        }
        step => panic!("{:?}", step),
    }
    match after_error_body(status(502), None) {
        CallStep::Fail { error } => assert_eq!(
            error,
            HttpError::ServerError { status: 502, body: "Could not read error body".to_string() }
        ),
        step => panic!("{:?}", step),
    }
}

#[test]
fn call_tells_failures_apart() {
    let failed = |is_timeout, is_connect| match after_failure(is_timeout, is_connect, "e".to_string()) {
        CallStep::Fail { error } => error,
        step => panic!("{:?}", step),
    };
    assert_eq!(failed(true, true), HttpError::Timeout);
    assert_eq!(failed(true, false), HttpError::Timeout);
    assert_eq!(failed(false, true), HttpError::Transport { source: "e".to_string() });
    assert_eq!(failed(false, false), HttpError::ClientError { source: "e".to_string() });
}

#[test]
fn backpressure_is_retried() {
    let logic = reqwest_integration::DefaultReqwestRetryLogic;
    for code in 100..1000 {
        let action = logic.should_retry_response(&HttpResponse::new(status(code), None));
        assert_eq!(action.is_retryable(), code == 429 || (500..600).contains(&code));
        assert_eq!(action.is_successful(), (200..300).contains(&code));
    }
}

#[test]
fn reached_rate_limit_is_backpressure() {
    let logic = reqwest_integration::DefaultReqwestRetryLogic;
    let answer = |code: u16, remaining: &str| {
        logic.should_retry_response(&HttpResponse::new(status(code), Some(remaining)))
    };
    assert!(answer(200, "0").is_retryable());
    assert_eq!(retry_reason(answer(200, "0")), "Rate limit reached with status 200 OK");
    assert_eq!(retry_reason(answer(403, "0")), "Rate limit reached with status 403 Forbidden");
    assert_eq!(
        retry_reason(answer(429, "0")),
        "Server responded with status 429 Too Many Requests"
    );
    for remaining in ["1", "10", "", "none", "-0", "0x"] {
        assert!(answer(200, remaining).is_successful());
        assert!(answer(403, remaining).is_not_retryable());
        assert!(answer(500, remaining).is_retryable());
    }
    let response = HttpResponse { status: status(204), ratelimit_remaining: Some(0) };
    assert!(logic.should_retry_response(&response).is_retryable());
}

#[test]
fn rate_limit_header_is_a_number() {
    let remaining = |text: &str| HttpResponse::new(status(200), Some(text)).ratelimit_remaining;
    assert_eq!(remaining("0"), Some(0));
    assert_eq!(remaining("00"), Some(0));
    assert_eq!(remaining("59"), Some(59));
    assert_eq!(remaining("18446744073709551615"), Some(u64::MAX));
    assert_eq!(remaining("18446744073709551616"), None);
    assert_eq!(remaining("184467440737095516150"), None);
    assert_eq!(remaining(""), None);
    assert_eq!(remaining("1a"), None);
    assert_eq!(HttpResponse::new(status(200), None).ratelimit_remaining, None);
}
