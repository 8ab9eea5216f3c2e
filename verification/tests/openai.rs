use rate_limiter_aimd::adaptive_concurrency::http::{HttpError, HttpResponse, StatusCode};
use rate_limiter_aimd::adaptive_concurrency::request::Answer;
use rate_limiter_aimd::adaptive_concurrency::retries::{RetryAction, RetryLogic};
use rate_limiter_aimd::duration::Duration;
use rate_limiter_aimd::openai_client::{
    ChatCompletionResponse, ChatMessage, ClientRetryLogic, OpenAIClient, OpenAIClientConfig,
    OpenAIClientError,
};

fn config() -> OpenAIClientConfig {
    OpenAIClientConfig { api_key: "secret".to_string(), ..OpenAIClientConfig::default() }
}

fn client(config: OpenAIClientConfig) -> OpenAIClient {
    OpenAIClient::new(config).unwrap()
}

fn status(code: u16) -> StatusCode {
    StatusCode::from_u16(code).unwrap()
}

fn completion() -> ChatCompletionResponse {
    ChatCompletionResponse {
        id: "1".to_string(),
        choices: Vec::new(),
        created: 5,
        model: "m".to_string(),
        system_fingerprint: None,
        object: "chat.completion".to_string(),
        usage: None,
    }
}

fn outcome(answer: Result<Answer<String>, String>) -> Result<ChatCompletionResponse, OpenAIClientError> {
    OpenAIClient::chat_response(answer, |body| {
        if body == "good" {
            Ok(completion())
        } else {
            Err("bad json".to_string())
        }
    })
}

fn answer(code: u16, body: &str) -> Result<Answer<String>, String> {
    Ok(Answer { status: status(code), body: Ok(body.to_string()) })
}

#[test]
fn openai_defaults() {
    let config = OpenAIClientConfig::default();
    assert_eq!(config.api_key, "");
    assert_eq!(config.base_url, "https://api.openai.com");
    assert_eq!(config.default_model, "gpt-3.5-turbo");
    let limits = config.adaptive_concurrency;
    assert_eq!(limits.get_initial_concurrency(), 2);
    assert_eq!(limits.get_max_concurrency_limit(), 8);
    assert_eq!(f64::from_bits(limits.get_decrease_ratio().bits), 0.75);
    assert_eq!(f64::from_bits(limits.get_rtt_deviation_scale().bits), 1.25);
    assert_eq!(f64::from_bits(limits.get_ewma_alpha().bits), 0.3);
    assert_eq!(config.retry_max_attempts, 10);
    assert_eq!(config.retry_initial_backoff_ms, 1000);
    assert_eq!(config.retry_exp_base, 2);
    assert_eq!(config.retry_max_single_delay_secs, 60);
    assert_eq!(config.user_agent.as_deref(), Some("rust-openai-client-aimd/0.1.0"));
}

#[test]
fn openai_client_needs_a_key() {
    let error = OpenAIClient::new(OpenAIClientConfig::default()).unwrap_err();
    assert_eq!(
        error.to_string(),
        "OpenAI Client Initialization Error: API key cannot be empty"
    );
    assert!(error.source().is_none());
}

#[test]
fn openai_client_settings() {
    let client = client(config());
    assert_eq!(client.http_client.timeout, Duration::from_secs(90));
    assert_eq!(client.http_client.connect_timeout, Duration::from_secs(10));
    assert!(client.http_client.user_agent.is_none());
}

#[test]
fn openai_policy_delays() {
    let mut policy = client(config()).retry_policy;
    for due in [1, 2, 4, 8, 16, 32, 60, 60, 60] {
        let retry = policy.retry(Err(&HttpError::Timeout), |m| m as u64).unwrap();
        assert_eq!(retry.delay, Duration::from_secs(due));
        policy = retry.policy_state_after_delay;
    }
    assert!(policy.retry(Err(&HttpError::Timeout), |m| m as u64).is_none());
}

#[test]
fn exponential_base_sets_the_growth() {
    let config = OpenAIClientConfig { retry_exp_base: 3, ..config() };
    let mut policy = client(config).retry_policy;
    for due in [1, 3, 9, 27, 60] {
        let retry = policy.retry(Err(&HttpError::Timeout), |m| m as u64).unwrap();
        assert_eq!(retry.delay, Duration::from_secs(due));
        policy = retry.policy_state_after_delay;
    }
}

#[test]
fn endpoint_follows_the_base_url() {
    assert_eq!(
        client(config()).chat_completions_url,
        "https://api.openai.com/v1/chat/completions"
    );
    let slashes = OpenAIClientConfig { base_url: "https://a.example/x//".to_string(), ..config() };
    assert_eq!(client(slashes).chat_completions_url, "https://a.example/x/v1/chat/completions");
}

#[test]
fn conversation_is_posted_as_json() {
    let request = client(config()).chat_request(Ok(b"{}".to_vec())).unwrap();
    assert_eq!(request.method, "POST");
    assert_eq!(request.uri, "https://api.openai.com/v1/chat/completions");
    let header = |name: &str, value: &str| (name.to_string(), value.to_string());
    assert_eq!(
        request.headers,
        vec![
            header("Authorization", "Bearer secret"),
            header("Content-Type", "application/json"),
            header("user-agent", "rust-openai-client-aimd/0.1.0"),
        ]
    );
    assert_eq!(request.body, Some(b"{}".to_vec()));
    let quiet = OpenAIClientConfig { user_agent: None, ..config() };
    assert_eq!(client(quiet).chat_request(Ok(Vec::new())).unwrap().headers.len(), 2);
}

#[test]
fn chat_request_errors_in_order() {
    let broken = OpenAIClientConfig {
        api_key: "a\nb".to_string(),
        base_url: "https://a b".to_string(),
        user_agent: Some("a\u{7f}b".to_string()),
        ..config()
    };
    let error = client(broken.clone()).chat_request(Err("not json".to_string())).unwrap_err();
    assert_eq!(error.to_string(), "JSON serialization error: not json");
    assert_eq!(error.source().map(|s| s.as_str()), Some("not json"));
    let error = client(broken.clone()).chat_request(Ok(Vec::new())).unwrap_err();
    assert_eq!(
        error.to_string(),
        "Failed to build request: Invalid User-Agent: failed to parse header value"
    );
    let named = OpenAIClientConfig { user_agent: Some("me".to_string()), ..broken };
    let error = client(named.clone()).chat_request(Ok(Vec::new())).unwrap_err();
    assert_eq!(error.to_string(), "Failed to build request: invalid uri character");
    let reachable = OpenAIClientConfig { base_url: "https://a.example".to_string(), ..named };
    let error = client(reachable).chat_request(Ok(Vec::new())).unwrap_err();
    assert_eq!(error.to_string(), "Failed to build request: failed to parse header value");
}

#[test]
fn header_values_may_hold_tabs_and_text_beyond_ascii() {
    for agent in ["a\tb", "caf\u{e9}", ""] {
        let named = OpenAIClientConfig { user_agent: Some(agent.to_string()), ..config() };
        let request = client(named).chat_request(Ok(Vec::new())).unwrap();
        assert_eq!(request.headers[2].1, agent);
    }
    for agent in ["a\u{0}", "a\u{1f}", "\u{7f}", "a\r\n"] {
        let named = OpenAIClientConfig { user_agent: Some(agent.to_string()), ..config() };
        assert!(client(named).chat_request(Ok(Vec::new())).is_err());
    }
}

#[test]
fn chat_request_for_a_given_parse() {
    let client = client(config());
    assert_eq!(client.chat_request_to(Ok("u".to_string()), Ok(Vec::new())).unwrap().uri, "u");
    let error = client.chat_request_to(Err("w".to_string()), Ok(Vec::new())).unwrap_err();
    assert_eq!(error.to_string(), "Failed to build request: w");
}

#[test]
fn success_is_read_as_completion() {
    assert_eq!(outcome(answer(200, "good")).unwrap().id, "1");
    let error = outcome(answer(201, "bad")).unwrap_err();
    assert_eq!(
        error.to_string(),
        "Failed to deserialize OpenAI response (status 201): bad json. Body: bad"
    );
    assert_eq!(error.source().map(|s| s.as_str()), Some("bad json"));
}

#[test]
fn described_body_is_cut() {
    let body = "\u{e9}".repeat(150);
    let error = outcome(answer(200, &body)).unwrap_err();
    let expected = format!(
        "Failed to deserialize OpenAI response (status 200): bad json. Body: {:.100}",
        body
    );
    assert_eq!(error.to_string(), expected);
}

#[test]
fn failures_of_the_service() {
    let error = outcome(Err("closed".to_string())).unwrap_err();
    assert_eq!(error.to_string(), "Underlying service error");
    assert!(error.source().is_none());
    let unread = Ok(Answer { status: status(200), body: Err("cut off".to_string()) });
    assert_eq!(
        outcome(unread).unwrap_err().to_string(),
        "OpenAI API Error (status 200): Failed to read response body: cut off"
    );
    assert_eq!(
        outcome(answer(401, "good")).unwrap_err().to_string(),
        "OpenAI API Error (status 401): good"
    );
    assert_eq!(
        OpenAIClientError::StreamUnsupported.to_string(),
        "Streaming is not supported by this method"
    );
}

#[test]
fn messages_go_to_the_default_model() {
    let message = ChatMessage { role: "user".to_string(), content: "hi".to_string() };
    let request = client(config()).messages_request(vec![message]);
    assert_eq!(request.model, "gpt-3.5-turbo");
    assert_eq!(request.messages.len(), 1);
    assert_eq!(request.messages[0].content, "hi");
    assert!(request.temperature.is_none() && request.max_tokens.is_none());
}

#[test]
fn openai_logic_judges_errors() {
    let logic = ClientRetryLogic;
    let server = |status| HttpError::ServerError { status, body: String::new() };
    for code in [409, 429, 500, 503, 599, 99, 1000] {
        assert!(logic.is_retriable_error(&server(code)));
    }
    for code in [100, 200, 400, 404, 600, 999] {
        assert!(!logic.is_retriable_error(&server(code)));
    }
    assert!(logic.is_retriable_error(&HttpError::Timeout));
    assert!(logic.is_retriable_error(&HttpError::Transport { source: String::new() }));
    assert!(!logic.is_retriable_error(&HttpError::ClientError { source: String::new() }));
    assert!(!logic.is_retriable_error(&HttpError::BuildRequest { details: String::new() }));
    assert!(!logic.is_retriable_error(&HttpError::InvalidRequest { details: String::new() }));
}

#[test]
fn openai_logic_answers_statuses() {
    let logic = ClientRetryLogic;
    let answer = |code: u16| logic.should_retry_response(&HttpResponse::new(status(code), None));
    assert!(answer(200).is_successful());
    match answer(409) {
        RetryAction::Retry(reason) => {
            assert_eq!(reason, "Server responded with status 409 Conflict")
        }
        action => panic!("{:?}", action),
    }
    match answer(401) {
        RetryAction::DontRetry(reason) => {
            assert_eq!(reason, "Server responded with non-retriable status 401 Unauthorized")
        }
        action => panic!("{:?}", action),
    }
    for code in (100..1000).filter(|code| !(200..300).contains(code)) {
        let error = HttpError::ServerError { status: code, body: String::new() };
        assert_eq!(answer(code).is_retryable(), logic.is_retriable_error(&error));
    }
}
