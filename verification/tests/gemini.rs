use rate_limiter_aimd::adaptive_concurrency::http::{HttpError, HttpResponse, StatusCode};
use rate_limiter_aimd::adaptive_concurrency::request::{can_extend, kept_chars, Answer};
use rate_limiter_aimd::adaptive_concurrency::retries::{RetryAction, RetryLogic};
use rate_limiter_aimd::duration::Duration;
use rate_limiter_aimd::gemini_client::{
    endpoint_of, failure_message, json_post_of, Candidate, Content, GeminiClient, GeminiClientConfig,
    GeminiClientError, GeminiRetryLogic, GenerateContentResponse, GenerationConfig,
    GoogleApiError, Part,
};

fn config(base_url: &str) -> GeminiClientConfig {
    GeminiClientConfig {
        api_key: "k&1".to_string(),
        base_url: base_url.to_string(),
        ..GeminiClientConfig::default()
    }
}

fn client(base_url: &str) -> GeminiClient {
    GeminiClient::new(config(base_url)).unwrap()
}

fn default_client() -> GeminiClient {
    client(&GeminiClientConfig::default().base_url)
}

fn status(code: u16) -> StatusCode {
    StatusCode::from_u16(code).unwrap()
}

fn content(texts: &[Option<&str>]) -> Candidate {
    let parts = texts.iter().map(|text| Part { text: text.map(|t| t.to_string()) }).collect();
    Candidate {
        content: Some(Content { parts: Some(parts), role: Some("model".to_string()) }),
        finish_reason: None,
        safety_ratings: None,
    }
}

fn response(candidates: Option<Vec<Candidate>>) -> GenerateContentResponse {
    GenerateContentResponse { candidates, prompt_feedback: None }
}

fn answer(code: u16, body: &[u8]) -> Result<Answer<Vec<u8>>, String> {
    Ok(Answer { status: status(code), body: Ok(body.to_vec()) })
}

fn outcome(answer: Result<Answer<Vec<u8>>, String>) -> Result<GenerateContentResponse, GeminiClientError> {
    GeminiClient::content_response(
        answer,
        |bytes| {
            if bytes == b"good" {
                Ok(response(Some(vec![content(&[Some("read")])])))
            } else {
                Err("bad json".to_string())
            }
        },
        |bytes| {
            if bytes == b"report" {
                Some(GoogleApiError { code: 403, message: "denied".to_string() })
            } else {
                None
            }
        },
    )
}

#[test]
fn gemini_defaults() {
    let config = GeminiClientConfig::default();
    assert_eq!(config.api_key, "");
    assert_eq!(config.base_url, "https://generativelanguage.googleapis.com/v1beta/models");
    assert_eq!(config.default_model, "gemini-pro");
    assert_eq!(config.user_agent.as_deref(), Some("gemini_client/0.1.0"));
    assert_eq!(config.adaptive_concurrency.get_max_concurrency_limit(), 200);
    assert_eq!(config.retry_max_attempts, 5);
    assert_eq!(config.retry_initial_backoff_ms, 200);
    assert_eq!(config.retry_exp_base, 2);
    assert_eq!(config.retry_max_single_delay_secs, 30);
    let generation = GenerationConfig::default();
    assert!(generation.top_k.is_none() && generation.stop_sequences.is_none());
}

#[test]
fn gemini_client_needs_a_key() {
    let error = GeminiClient::new(GeminiClientConfig::default()).unwrap_err();
    assert_eq!(error.to_string(), "Initialization error: API key cannot be empty");
}

#[test]
fn gemini_client_settings() {
    let client = default_client();
    assert_eq!(client.http_client.timeout, Duration::from_secs(90));
    assert_eq!(client.http_client.connect_timeout, Duration::from_secs(10));
    assert_eq!(client.http_client.user_agent.as_deref(), Some("gemini_client/0.1.0"));
    let quiet = GeminiClientConfig { user_agent: None, ..config("https://a.example") };
    let user_agent = GeminiClient::new(quiet).unwrap().http_client.user_agent;
    assert_eq!(user_agent.as_deref(), Some("gemini_client/0.1.0"));
    let named = GeminiClientConfig { user_agent: Some("me".to_string()), ..config("https://a.example") };
    assert_eq!(GeminiClient::new(named).unwrap().http_client.user_agent.as_deref(), Some("me"));
}

#[test]
fn gemini_policy_delays() {
    let mut policy = default_client().retry_policy;
    for due in [200, 400, 800, 1600] {
        let retry = policy.retry(Err(&HttpError::Timeout), |m| m as u64).unwrap();
        assert_eq!(retry.delay, Duration::from_millis(due));
        policy = retry.policy_state_after_delay;
    }
    assert!(policy.retry(Err(&HttpError::Timeout), |m| m as u64).is_none());
}

#[test]
fn endpoint_holds_model_and_key() {
    assert_eq!(
        default_client().build_url_for_model("gemini-pro").unwrap(),
        "https://generativelanguage.googleapis.com/v1beta/models/gemini-pro:generateContent?key=k%261"
    );
    assert_eq!(
        client("https://a.example/?x=1").build_url_for_model("a/b c").unwrap(),
        "https://a.example/a%2Fb%20c:generateContent?x=1&key=k%261"
    );
}

#[test]
fn endpoint_needs_a_url() {
    let error = client("nowhere").build_url_for_model("m").unwrap_err();
    assert_eq!(error.to_string(), "URL parsing error: relative URL without a base");
    assert!(matches!(error, GeminiClientError::UrlParse { .. }));
}

#[test]
fn endpoint_needs_path_segments() {
    let error = client("mailto:a@b.example").build_url_for_model("m").unwrap_err();
    assert_eq!(
        error.to_string(),
        "Base URL does not support path segments: mailto:a@b.example"
    );
}

#[test]
fn endpoint_for_given_results() {
    let text = |s: &str| s.to_string();
    assert_eq!(endpoint_of("b", Ok(text("p")), Some(text("e"))).unwrap(), "e");
    assert!(matches!(
        endpoint_of("b", Ok(text("p")), None),
        Err(GeminiClientError::BaseUrlCannotHavePathSegments { url }) if url == "b"
    ));
    assert!(matches!(
        endpoint_of("b", Err(text("w")), Some(text("e"))),
        Err(GeminiClientError::UrlParse { source }) if source == "w"
    ));
}

#[test]
fn content_is_posted_as_json() {
    let request = default_client().content_request("m", Ok(b"{}".to_vec())).unwrap();
    assert_eq!(request.method, "POST");
    assert_eq!(
        request.uri,
        "https://generativelanguage.googleapis.com/v1beta/models/m:generateContent?key=k%261"
    );
    assert_eq!(
        request.headers,
        vec![("Content-Type".to_string(), "application/json".to_string())]
    );
    assert_eq!(request.body, Some(b"{}".to_vec()));
    let by_default = default_client().content_request_with_defaults(Ok(Vec::new())).unwrap();
    assert_eq!(
        by_default.uri,
        "https://generativelanguage.googleapis.com/v1beta/models/gemini-pro:generateContent?key=k%261"
    );
}

#[test]
fn uri_is_shown_without_its_fragment() {
    let request = client("https://a.example/x#part").content_request("m", Ok(Vec::new())).unwrap();
    assert_eq!(request.uri, "https://a.example/x/m:generateContent?key=k%261");
}

#[test]
fn content_request_errors_in_order() {
    let broken = || Err("not json".to_string());
    let error = client("nowhere").content_request("m", broken()).unwrap_err();
    assert!(matches!(error, GeminiClientError::UrlParse { .. }));
    let error = client("mailto:a@b.example").content_request("m", broken()).unwrap_err();
    assert!(matches!(error, GeminiClientError::BaseUrlCannotHavePathSegments { .. }));
    let long = "m".repeat(70_000);
    let error = default_client().content_request(&long, broken()).unwrap_err();
    assert_eq!(error.to_string(), "Failed to serialize JSON request: not json");
    let error = default_client().content_request(&long, Ok(Vec::new())).unwrap_err();
    assert_eq!(error.to_string(), "HTTP request construction error: uri too long");
    assert!(matches!(
        json_post_of(Err("w".to_string()), Vec::new()),
        Err(GeminiClientError::RequestConstruction { source }) if source == "w"
    ));
    assert_eq!(json_post_of(Ok("u".to_string()), Vec::new()).unwrap().uri, "u");
}

#[test]
fn success_is_read_as_content() {
    let read = outcome(answer(200, b"good")).unwrap();
    assert_eq!(GeminiClient::text_of_response(read).unwrap(), "read");
    let error = outcome(answer(200, b"report")).unwrap_err();
    assert_eq!(error.to_string(), "Failed to deserialize JSON response: bad json");
}

#[test]
fn failures_before_the_body() {
    let error = outcome(Err("closed".to_string())).unwrap_err();
    assert_eq!(error.to_string(), "Error from adaptive concurrency limiter: closed");
    let unread = Ok(Answer { status: status(200), body: Err("cut off".to_string()) });
    assert_eq!(outcome(unread).unwrap_err().to_string(), "Reqwest client error: cut off");
}

#[test]
fn reported_error_is_taken_over() {
    let error = outcome(answer(400, b"report")).unwrap_err();
    assert_eq!(error.to_string(), "API error: 403 - denied");
}

#[test]
fn unreported_error_quotes_the_body() {
    match outcome(answer(400, b"good")).unwrap_err() {
        GeminiClientError::ApiError { code, message } => {
            assert_eq!(code, 400);
            assert_eq!(message, "Gemini API request failed with status 400 Bad Request: good");
        }
        error => panic!("{:?}", error),
    }
}

#[test]
fn body_that_is_no_text_is_replaced() {
    match GeminiClient::api_error(status(500), None, &vec![b'a', 0xff, b'b']) {
        GeminiClientError::ApiError { code, message } => {
            assert_eq!(code, 500);
            assert_eq!(
                message,
                "Gemini API request failed with status 500 Internal Server Error: a\u{fffd}b"
            );
        }
        error => panic!("{:?}", error),
    }
}

#[test]
fn prompt_becomes_one_user_part() {
    let request = GeminiClient::user_prompt_request("hi".to_string());
    assert_eq!(request.contents.len(), 1);
    assert_eq!(request.contents[0].role.as_deref(), Some("user"));
    let parts = request.contents[0].parts.as_ref().unwrap();
    assert_eq!(parts.len(), 1);
    assert_eq!(parts[0].text.as_deref(), Some("hi"));
    assert!(request.generation_config.is_none() && request.safety_settings.is_none());
}

#[test]
fn first_part_of_first_candidate() {
    let both = response(Some(vec![content(&[Some("a"), Some("b")]), content(&[Some("c")])]));
    assert_eq!(GeminiClient::text_of_response(both).unwrap(), "a");
}

#[test]
fn missing_text_is_no_content() {
    let empty = Candidate { content: None, finish_reason: None, safety_ratings: None };
    let partless = Candidate {
        content: Some(Content { parts: None, role: None }),
        finish_reason: None,
        safety_ratings: None,
    };
    for candidates in [
        None,
        Some(vec![]),
        Some(vec![empty]),
        Some(vec![partless]),
        Some(vec![content(&[])]),
        Some(vec![content(&[None]), content(&[Some("late")])]),
    ] {
        let error = GeminiClient::text_of_response(response(candidates)).unwrap_err();
        assert_eq!(error.to_string(), "No content returned from API");
    }
}

#[test]
fn gemini_http_error_is_described() {
    let error = GeminiClientError::Http { source: HttpError::Timeout };
    assert_eq!(error.to_string(), "HTTP error: HTTP request timed out");
}

#[test]
fn gemini_logic() {
    let logic = GeminiRetryLogic;
    let answer = |code: u16| logic.should_retry_response(&HttpResponse::new(status(code), None));
    assert!(answer(200).is_successful());
    match answer(503) {
        RetryAction::Retry(reason) => {
            assert_eq!(reason, "Server responded with status 503 Service Unavailable")
        }
        action => panic!("{:?}", action),
    }
    match answer(403) {
        RetryAction::DontRetry(reason) => {
            assert_eq!(reason, "Server responded with non-retriable status 403 Forbidden")
        }
        action => panic!("{:?}", action),
    }
    assert!(answer(429).is_retryable() && answer(500).is_retryable());
    assert!(logic.is_retriable_error(&HttpError::Timeout));
    assert!(logic.is_retriable_error(&HttpError::Transport { source: String::new() }));
    let server = HttpError::ServerError { status: 500, body: String::new() };
    assert!(!logic.is_retriable_error(&server));
}

#[test]
fn gemini_delays_reach_the_longest() {
    let config = GeminiClientConfig { retry_max_attempts: 10, ..config("https://a.example") };
    let mut policy = GeminiClient::new(config).unwrap().retry_policy;
    for due in [200, 400, 800, 1600, 3200, 6400, 12_800, 25_600, 30_000] {
        let retry = policy.retry(Err(&HttpError::Timeout), |m| m as u64).unwrap();
        assert_eq!(retry.delay, Duration::from_millis(due));
        policy = retry.policy_state_after_delay;
    }
    assert!(policy.retry(Err(&HttpError::Timeout), |m| m as u64).is_none());
}

#[test]
fn whether_an_endpoint_fits() {
    assert!(default_client().can_build_url("gemini-pro"));
    assert!(default_client().can_build_url(&"m".repeat(0x0200_0000)));
    assert!(client("nowhere").can_build_url("m"));
    assert!(client("mailto:a@b.example").can_build_url("m"));
    assert!(can_extend(0, 357_913_939));
    assert!(!can_extend(0, 357_913_940));
    assert!(can_extend(0xFFFF_FFFF - 28, 1));
    assert!(!can_extend(0xFFFF_FFFF - 27, 1));
    assert!(!can_extend(0, u128::MAX));
}

#[test]
fn failure_quotes_status_and_body() {
    assert_eq!(
        failure_message("418 I'm a teapot", "short"),
        "Gemini API request failed with status 418 I'm a teapot: short"
    );
}

#[test]
fn tabs_and_line_ends_are_dropped_from_the_model() {
    let model = format!("a{}b\r\n", "\t".repeat(100_000));
    let url = "https://a.example/ab:generateContent?key=k%261";
    assert_eq!(client("https://a.example").build_url_for_model(&model).unwrap(), url);
    let request = client("https://a.example").content_request(&model, Ok(Vec::new())).unwrap();
    assert_eq!(request.uri, url);
    assert_eq!(kept_chars(&model), 2);
    assert_eq!(kept_chars(""), 0);
    assert_eq!(kept_chars("\t\n\r"), 0);
    assert_eq!(kept_chars("a \u{e9}"), 3);
}

#[test]
fn missing_path_segments_come_before_the_body() {
    let error = client("mailto:a@b.example").content_request("m", Err("x".to_string()));
    assert!(matches!(error, Err(GeminiClientError::BaseUrlCannotHavePathSegments { .. })));
}
