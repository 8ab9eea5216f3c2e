//! A client of the OpenAI API, but for the sending.

use crate::adaptive_concurrency::http::is_status;
use crate::adaptive_concurrency::http::status_line;
use crate::adaptive_concurrency::http::success_code;
use crate::adaptive_concurrency::http::HttpError;
use crate::adaptive_concurrency::http::HttpResponse;
use crate::adaptive_concurrency::http::StatusCode;
use crate::adaptive_concurrency::http::CONFLICT;
use crate::adaptive_concurrency::http::INTERNAL_SERVER_ERROR;
use crate::adaptive_concurrency::http::SERVICE_UNAVAILABLE;
use crate::adaptive_concurrency::http::TOO_MANY_REQUESTS;
use crate::adaptive_concurrency::request::header_texts;
use crate::adaptive_concurrency::request::header_value_error;
use crate::adaptive_concurrency::request::is_header_text;
use crate::adaptive_concurrency::request::parse_uri;
use crate::adaptive_concurrency::request::status_message;
use crate::adaptive_concurrency::request::text_of;
use crate::adaptive_concurrency::request::texts_of;
use crate::adaptive_concurrency::request::uri_parsed;
use crate::adaptive_concurrency::request::Answer;
use crate::adaptive_concurrency::request::HttpClientSettings;
use crate::adaptive_concurrency::request::HttpRequest;
use crate::adaptive_concurrency::retries::exponential::law_delays_grow_from_the_start;
use crate::adaptive_concurrency::retries::exponential::law_each_retry_uses_one_attempt;
use crate::adaptive_concurrency::retries::exponential::law_no_retry_waits_over_the_limit;
use crate::adaptive_concurrency::retries::exponential::limited;
use crate::adaptive_concurrency::retries::exponential::power;
use crate::adaptive_concurrency::retries::exponential::retries_among;
use crate::adaptive_concurrency::retries::exponential::saturated;
use crate::adaptive_concurrency::retries::exponential::BackoffModel;
use crate::adaptive_concurrency::retries::exponential::ExponentialModel;
use crate::adaptive_concurrency::retries::logic::backpressure_code;
use crate::adaptive_concurrency::retries::logic::RetryActionView;
use crate::adaptive_concurrency::retries::ExponentialBackoff;
use crate::adaptive_concurrency::retries::ExponentialBackoffPolicy;
use crate::adaptive_concurrency::retries::JitterMode;
use crate::adaptive_concurrency::retries::RetryAction;
use crate::adaptive_concurrency::retries::RetryLogic;
use crate::adaptive_concurrency::settings::SettingsModel;
use crate::adaptive_concurrency::AdaptiveConcurrencySettings;
use crate::bits::DoubleBits;
use crate::bits::SingleBits;
use crate::duration::millis_span;
use crate::duration::secs_span;
use crate::duration::whole_millis;
use crate::duration::Duration;
use crate::text::decimal;
use crate::text::decimal_text;
use crate::text::first_chars;
use crate::text::take_chars;
use crate::text::trim_end;
use crate::text::trimmed_end;
use vstd::prelude::*;
use vstd::string::*;

verus! {

/// The ratio 0.75.
pub const THREE_QUARTERS: u64 = 0x3FE8_0000_0000_0000;

/// The number 1.25.
pub const ONE_AND_A_QUARTER: u64 = 0x3FF4_0000_0000_0000;

/// The ratio 0.3.
pub const THREE_TENTHS: u64 = 0x3FD3_3333_3333_3333;

/// What goes wrong in the client. An underlying error is held as its text.
#[derive(Debug)]
pub enum OpenAIClientError {
    /// The client could not be set up.
    Initialization(String),
    /// The HTTP request could not be built.
    RequestBuild(String),
    /// The request could not be written as JSON.
    Serialization(String),
    /// The service under the client failed.
    ServiceError,
    /// The API refused the request, or its answer could not be read.
    ApiError { status: u16, error_body: String },
    /// The answer is not the JSON that was expected.
    ResponseDeserialization { status: u16, body_text: String, source: String },
    /// Streaming is not supported.
    StreamUnsupported,
}

impl OpenAIClientError {
    /// The text that describes this error. Of the body of an answer it quotes 100 characters.
    pub open spec fn text(&self) -> Seq<char> {
        match self {
            OpenAIClientError::Initialization(reason) => "OpenAI Client Initialization Error: "@
                + reason@,
            OpenAIClientError::RequestBuild(reason) => "Failed to build request: "@ + reason@,
            OpenAIClientError::Serialization(source) => "JSON serialization error: "@ + source@,
            OpenAIClientError::ServiceError => "Underlying service error"@,
            OpenAIClientError::ApiError { status, error_body } => "OpenAI API Error (status "@
                + decimal(*status as nat) + "): "@ + error_body@,
            OpenAIClientError::ResponseDeserialization { status, body_text, source } =>
                "Failed to deserialize OpenAI response (status "@ + decimal(*status as nat) + "): "@
                + source@ + ". Body: "@ + first_chars(body_text@, 100),
            OpenAIClientError::StreamUnsupported => "Streaming is not supported by this method"@,
        }
    }

    /// Describes this error.
    pub fn to_string(&self) -> (r: String)
        ensures
            r@ == self.text(),
    {
        match self {
            OpenAIClientError::Initialization(reason) => String::from_str(
                "OpenAI Client Initialization Error: ",
            ).concat(reason),
            OpenAIClientError::RequestBuild(reason) => String::from_str(
                "Failed to build request: ",
            ).concat(reason),
            OpenAIClientError::Serialization(source) => String::from_str(
                "JSON serialization error: ",
            ).concat(source),
            OpenAIClientError::ServiceError => String::from_str("Underlying service error"),
            OpenAIClientError::ApiError { status, error_body } => {
                let mut r = String::from_str("OpenAI API Error (status ");
                r.append(decimal_text(*status).as_str());
                r.append("): ");
                r.append(error_body);
                r
            },
            OpenAIClientError::ResponseDeserialization { status, body_text, source } => {
                let mut r = String::from_str("Failed to deserialize OpenAI response (status ");
                r.append(decimal_text(*status).as_str());
                r.append("): ");
                r.append(source);
                r.append(". Body: ");
                r.append(take_chars(body_text, 100).as_str());
                r
            },
            OpenAIClientError::StreamUnsupported => String::from_str(
                "Streaming is not supported by this method",
            ),
        }
    }

    /// The underlying error, where there is one: that of writing or reading JSON.
    pub fn source(&self) -> (r: Option<&String>)
        ensures
            r == match self {
                OpenAIClientError::Serialization(source) => Some(source),
                OpenAIClientError::ResponseDeserialization { source, .. } => Some(source),
                _ => None,
            },
    {
        match self {
            OpenAIClientError::Serialization(source) => Some(source),
            OpenAIClientError::ResponseDeserialization { source, .. } => Some(source),
            _ => None,
        }
    }
}

/// How a client is set up.
#[derive(Clone, Debug)]
pub struct OpenAIClientConfig {
    pub api_key: String,
    pub base_url: String,
    pub default_model: String,
    pub adaptive_concurrency: AdaptiveConcurrencySettings,
    pub retry_max_attempts: usize,
    pub retry_initial_backoff_ms: u64,
    pub retry_exp_base: u64,
    pub retry_max_single_delay_secs: u64,
    pub user_agent: Option<String>,
}

impl OpenAIClientConfig {
    /// How requests are retried: from the initial delay on, each delay is the exponential base times
    /// the one before, up to the longest; with full jitter, and with five minutes in all for
    /// whoever asks.
    pub open spec fn retries(&self) -> ExponentialModel {
        ExponentialModel::fresh(
            self.retry_max_attempts as nat,
            BackoffModel::starting(
                self.retry_initial_backoff_ms as nat,
                self.retry_exp_base as nat,
                1,
                Some(secs_span(self.retry_max_single_delay_secs as nat)),
            ),
            JitterMode::Full,
            Some(secs_span(300)),
        )
    }
}

impl Default for OpenAIClientConfig {
    fn default() -> (r: OpenAIClientConfig)
        ensures
            r.api_key@.len() == 0,
            r.base_url@ == "https://api.openai.com"@,
            r.default_model@ == "gpt-3.5-turbo"@,
            r.adaptive_concurrency@ == (SettingsModel {
                initial_concurrency: 2,
                decrease_ratio: DoubleBits { bits: THREE_QUARTERS },
                ewma_alpha: DoubleBits { bits: THREE_TENTHS },
                rtt_deviation_scale: DoubleBits { bits: ONE_AND_A_QUARTER },
                max_concurrency_limit: 8,
            }),
            r.retry_max_attempts == 10,
            r.retry_initial_backoff_ms == 1000,
            r.retry_exp_base == 2,
            r.retry_max_single_delay_secs == 60,
            text_of(r.user_agent) == Some("rust-openai-client-aimd/0.1.0"@),
    {
        OpenAIClientConfig {
            api_key: String::new(),
            base_url: String::from_str("https://api.openai.com"),
            default_model: String::from_str("gpt-3.5-turbo"),
            adaptive_concurrency: AdaptiveConcurrencySettings::builder().initial_concurrency(
                2,
            ).max_concurrency_limit(8).decrease_ratio(
                DoubleBits { bits: THREE_QUARTERS },
            ).rtt_deviation_scale(DoubleBits { bits: ONE_AND_A_QUARTER }).ewma_alpha(
                DoubleBits { bits: THREE_TENTHS },
            ).build(),
            retry_max_attempts: 10,
            retry_initial_backoff_ms: 1000,
            retry_exp_base: 2,
            retry_max_single_delay_secs: 60,
            user_agent: Some(String::from_str("rust-openai-client-aimd/0.1.0")),
        }
    }
}

/// The retry logic of the OpenAI API.
#[derive(Clone, Copy, Debug, Default)]
pub struct ClientRetryLogic;

/// Whether the logic retries a failure with this status: 409, 429 and 5xx.
pub open spec fn is_transient(code: u16) -> bool {
    code == CONFLICT || backpressure_code(code)
}

/// Whether the logic retries this error. A number that is no status code counts as 500.
pub open spec fn client_retriable(error: HttpError) -> bool {
    match error {
        HttpError::Transport { .. } => true,
        HttpError::Timeout => true,
        HttpError::ServerError { status, .. } => !is_status(status) || is_transient(status),
        _ => false,
    }
}

/// What the logic answers to a status.
pub open spec fn client_action(code: u16) -> RetryActionView {
    if success_code(code) {
        RetryActionView::Successful
    } else if is_transient(code) {
        RetryActionView::Retry("Server responded with status "@ + status_line(code))
    } else {
        RetryActionView::DontRetry("Server responded with non-retriable status "@ + status_line(code))
    }
}

impl RetryLogic for ClientRetryLogic {
    type Error = HttpError;

    type Response = HttpResponse;

    fn is_retriable_error(&self, error: &HttpError) -> (r: bool)
        ensures
            r == client_retriable(*error),
    {
        match error {
            HttpError::Transport { .. } => true,
            HttpError::Timeout => true,
            HttpError::ServerError { status, .. } => {
                let code: u16 = match StatusCode::from_u16(*status) {
                    Ok(status) => status.as_u16(),
                    Err(_) => INTERNAL_SERVER_ERROR,
                };
                (500 <= code && code <= 599) || code == TOO_MANY_REQUESTS || code == CONFLICT
            },
            _ => false,
        }
    }

    fn should_retry_response(&self, response: &HttpResponse) -> (r: RetryAction)
        ensures
            r@ == client_action(response.status@),
    {
        let status = response.status;
        if status.is_success() {
            RetryAction::Successful
        } else if status.as_u16() == TOO_MANY_REQUESTS || status.as_u16() == SERVICE_UNAVAILABLE
            || status.as_u16() == CONFLICT || status.is_server_error() {
            RetryAction::Retry(status_message("Server responded with status ", &status))
        } else {
            RetryAction::DontRetry(
                status_message("Server responded with non-retriable status ", &status),
            )
        }
    }
}

/// One message of a conversation.
#[derive(Clone, Debug)]
pub struct ChatMessage {
    pub role: String,
    pub content: String,
}

/// A request to complete a conversation.
#[derive(Clone, Debug)]
pub struct ChatCompletionRequest {
    pub model: String,
    pub messages: Vec<ChatMessage>,
    pub temperature: Option<SingleBits>,
    pub max_tokens: Option<u32>,
}

/// One completion.
#[derive(Clone, Debug)]
pub struct ChatCompletionChoice {
    pub index: u32,
    pub message: ChatMessage,
    pub finish_reason: String,
}

/// How many tokens a completion took.
#[derive(Clone, Copy, Debug)]
pub struct Usage {
    pub prompt_tokens: u32,
    pub completion_tokens: Option<u32>,
    pub total_tokens: u32,
}

/// The answer to a request to complete a conversation.
#[derive(Clone, Debug)]
pub struct ChatCompletionResponse {
    pub id: String,
    pub choices: Vec<ChatCompletionChoice>,
    pub created: u64,
    pub model: String,
    pub system_fingerprint: Option<String>,
    pub object: String,
    pub usage: Option<Usage>,
}

/// The headers of a request.
pub open spec fn chat_headers(
    api_key: Seq<char>,
    user_agent: Option<Seq<char>>,
) -> Seq<(Seq<char>, Seq<char>)> {
    let always = seq![
        ("Authorization"@, "Bearer "@ + api_key),
        ("Content-Type"@, "application/json"@),
    ];
    match user_agent {
        Some(agent) => always.push(("user-agent"@, agent)),
        None => always,
    }
}

/// Whether a request is the POST of a payload to complete a conversation.
pub open spec fn is_chat_post(
    request: HttpRequest,
    uri: Seq<char>,
    api_key: Seq<char>,
    user_agent: Option<Seq<char>>,
    payload: Vec<u8>,
) -> bool {
    &&& request.method@ == "POST"@
    &&& request.uri@ == uri
    &&& header_texts(request.headers@) == chat_headers(api_key, user_agent)
    &&& request.body == Some(payload)
}

/// The part of a client that is independent of how requests are sent.
#[derive(Debug)]
pub struct OpenAIClient {
    pub config: OpenAIClientConfig,
    pub retry_policy: ExponentialBackoffPolicy<ClientRetryLogic>,
    pub http_client: HttpClientSettings,
    pub chat_completions_url: String,
}

impl OpenAIClient {
    /// A client with the given configuration, which has to hold an API key.
    pub fn new(config: OpenAIClientConfig) -> (r: Result<OpenAIClient, OpenAIClientError>)
        ensures
            config.api_key@.len() == 0 ==> {
                &&& r matches Err(OpenAIClientError::Initialization(reason))
                &&& reason@ == "API key cannot be empty"@
            },
            config.api_key@.len() > 0 ==> {
                &&& r matches Ok(client)
                &&& client.config == config
                &&& client.chat_completions_url@ == trimmed_end(config.base_url@, '/')
                    + "/v1/chat/completions"@
                &&& client.retry_policy@ == config.retries()
                &&& client.http_client.timeout@ == secs_span(90)
                &&& client.http_client.connect_timeout@ == secs_span(10)
                &&& client.http_client.user_agent is None
            },
    {
        if config.api_key.as_str().is_empty() {
            return Err(
                OpenAIClientError::Initialization(String::from_str("API key cannot be empty")),
            );
        }
        let retry_policy = ExponentialBackoffPolicy::new(
            config.retry_max_attempts,
            ExponentialBackoff::starting_at(
                config.retry_initial_backoff_ms,
                config.retry_exp_base,
                Some(Duration::from_secs(config.retry_max_single_delay_secs)),
            ),
            ClientRetryLogic,
            JitterMode::Full,
            Some(Duration::from_secs(300)),
        );
        let chat_completions_url = trim_end(config.base_url.as_str(), '/').concat(
            "/v1/chat/completions",
        );
        Ok(
            OpenAIClient {
                config,
                retry_policy,
                http_client: HttpClientSettings {
                    timeout: Duration::from_secs(90),
                    connect_timeout: Duration::from_secs(10),
                    user_agent: None,
                },
                chat_completions_url,
            },
        )
    }

    /// Whether an outcome is that of a request to complete a conversation, for what parsing the
    /// endpoint gave. The payload comes first, then the user agent, the endpoint and the API key.
    pub open spec fn is_chat_request(
        &self,
        parsed: Result<Seq<char>, Seq<char>>,
        payload: Result<Vec<u8>, String>,
        outcome: Result<HttpRequest, OpenAIClientError>,
    ) -> bool {
        let user_agent = text_of(self.config.user_agent);
        match payload {
            Err(error) => outcome matches Err(OpenAIClientError::Serialization(source)) && source
                == error,
            Ok(payload) => if user_agent matches Some(agent) && !is_header_text(agent) {
                &&& outcome matches Err(OpenAIClientError::RequestBuild(reason))
                &&& reason@ == "Invalid User-Agent: "@ + "failed to parse header value"@
            } else {
                match parsed {
                    Err(why) => outcome matches Err(OpenAIClientError::RequestBuild(reason))
                        && reason@ == why,
                    Ok(uri) => if is_header_text("Bearer "@ + self.config.api_key@) {
                        &&& outcome matches Ok(request)
                        &&& is_chat_post(request, uri, self.config.api_key@, user_agent, payload)
                    } else {
                        &&& outcome matches Err(OpenAIClientError::RequestBuild(reason))
                        &&& reason@ == "failed to parse header value"@
                    },
                }
            },
        }
    }

    /// The request to complete a conversation, for what parsing the endpoint gave, and for its
    /// payload where it could be written as JSON.
    pub fn chat_request_to(
        &self,
        parsed: Result<String, String>,
        payload: Result<Vec<u8>, String>,
    ) -> (r: Result<HttpRequest, OpenAIClientError>)
        ensures
            self.is_chat_request(texts_of(parsed), payload, r),
    {
        let payload = match payload {
            Ok(payload) => payload,
            Err(source) => return Err(OpenAIClientError::Serialization(source)),
        };
        let mut headers: Vec<(String, String)> = Vec::new();
        let bearer = String::from_str("Bearer ").concat(self.config.api_key.as_str());
        let refused = header_value_error(bearer.as_str());
        headers.push((String::from_str("Authorization"), bearer));
        headers.push((String::from_str("Content-Type"), String::from_str("application/json")));
        if let Some(agent) = &self.config.user_agent {
            if let Some(reason) = header_value_error(agent.as_str()) {
                return Err(
                    OpenAIClientError::RequestBuild(
                        String::from_str("Invalid User-Agent: ").concat(reason.as_str()),
                    ),
                );
            }
            headers.push((String::from_str("user-agent"), agent.clone()));
        }
        assert(header_texts(headers@) =~= chat_headers(
            self.config.api_key@,
            text_of(self.config.user_agent),
        ));
        let uri = match parsed {
            Ok(uri) => uri,
            Err(reason) => return Err(OpenAIClientError::RequestBuild(reason)),
        };
        if let Some(reason) = refused {
            return Err(OpenAIClientError::RequestBuild(reason));
        }
        Ok(HttpRequest { method: String::from_str("POST"), uri, headers, body: Some(payload) })
    }

    /// The request to complete a conversation, for its payload where it could be written as JSON.
    pub fn chat_request(&self, payload: Result<Vec<u8>, String>) -> (r: Result<
        HttpRequest,
        OpenAIClientError,
    >)
        ensures
            self.is_chat_request(uri_parsed(self.chat_completions_url@), payload, r),
    {
        self.chat_request_to(parse_uri(self.chat_completions_url.as_str()), payload)
    }

    /// What the body of a success means, for what reading it as a completion gave.
    pub fn completion_of(
        status: StatusCode,
        body: String,
        read: Result<ChatCompletionResponse, String>,
    ) -> (r: Result<ChatCompletionResponse, OpenAIClientError>)
        ensures
            is_completion(status@, body, read, r),
    {
        match read {
            Ok(completion) => Ok(completion),
            Err(source) => Err(
                OpenAIClientError::ResponseDeserialization {
                    status: status.as_u16(),
                    body_text: body,
                    source,
                },
            ),
        }
    }

    /// What comes of a request, for the answer or the failure of the service. The body of a
    /// success is read as a completion, any other is the error that is reported.
    pub fn chat_response<P: Fn(&String) -> Result<ChatCompletionResponse, String>>(
        answer: Result<Answer<String>, String>,
        read_completion: P,
    ) -> (r: Result<ChatCompletionResponse, OpenAIClientError>)
        requires
            forall|body: &String| call_requires(read_completion, (body,)),
        ensures
            match answer {
                Err(_) => r matches Err(OpenAIClientError::ServiceError),
                Ok(answer) => match answer.body {
                    Err(error) => {
                        &&& r matches Err(OpenAIClientError::ApiError { status, error_body })
                        &&& status == answer.status@
                        &&& error_body@ == "Failed to read response body: "@ + error@
                    },
                    Ok(body) => if success_code(answer.status@) {
                        exists|read: Result<ChatCompletionResponse, String>|
                            {
                                &&& #[trigger] call_ensures(read_completion, (&body,), read)
                                &&& is_completion(answer.status@, body, read, r)
                            }
                    } else {
                        &&& r matches Err(OpenAIClientError::ApiError { status, error_body })
                        &&& status == answer.status@
                        &&& error_body == body
                    },
                },
            },
    {
        let answer = match answer {
            Ok(answer) => answer,
            Err(_) => return Err(OpenAIClientError::ServiceError),
        };
        let body = match answer.body {
            Ok(body) => body,
            Err(error) => return Err(
                OpenAIClientError::ApiError {
                    status: answer.status.as_u16(),
                    error_body: String::from_str("Failed to read response body: ").concat(
                        error.as_str(),
                    ),
                },
            ),
        };
        if answer.status.is_success() {
            let read = read_completion(&body);
            Self::completion_of(answer.status, body, read)
        } else {
            Err(OpenAIClientError::ApiError { status: answer.status.as_u16(), error_body: body })
        }
    }

    /// The request that asks the default model to complete a conversation.
    pub fn messages_request(&self, messages: Vec<ChatMessage>) -> (r: ChatCompletionRequest)
        ensures
            r.model == self.config.default_model,
            r.messages == messages,
            r.temperature is None,
            r.max_tokens is None,
    {
        ChatCompletionRequest {
            model: self.config.default_model.clone(),
            messages,
            temperature: None,
            max_tokens: None,
        }
    }
}

/// Whether an outcome is what the body of a success means, for what reading it gave.
pub open spec fn is_completion(
    code: u16,
    body: String,
    read: Result<ChatCompletionResponse, String>,
    outcome: Result<ChatCompletionResponse, OpenAIClientError>,
) -> bool {
    match read {
        Ok(completion) => outcome == Ok::<ChatCompletionResponse, OpenAIClientError>(completion),
        Err(error) => {
            &&& outcome matches Err(
                OpenAIClientError::ResponseDeserialization { status, body_text, source },
            )
            &&& status == code
            &&& body_text == body
            &&& source == error
        },
    }
}

/// An answer that is no success is retried as an answer exactly where it is retried as the error
/// that it becomes.
pub proof fn law_answer_and_its_error_agree(status: u16, body: String)
    requires
        is_status(status),
        !success_code(status),
    ensures
        client_action(status) is Retry <==> client_retriable(
            HttpError::ServerError { status, body },
        ),
{
}

/// The logic goes by the status alone. Every status that signals an overloaded server, 429 or 5xx,
/// is retried, and of the others only 409.
pub proof fn law_backpressure_is_retried(status: u16)
    ensures
        backpressure_code(status) ==> client_action(status) is Retry,
        client_action(status) is Retry ==> backpressure_code(status) || status == CONFLICT,
{
}

/// The retry after `n` others waits, before jitter, for the initial delay times the exponential base
/// to the power `n`, or for the longest delay where that is shorter. Left out is the base 0 with an
/// initial delay over the longest.
pub proof fn law_delays_grow_by_the_base(config: OpenAIClientConfig, n: nat)
    requires
        n <= retries_among(config.retry_max_attempts as nat),
        config.retry_exp_base > 0 || millis_span(config.retry_initial_backoff_ms as nat)
            <= secs_span(config.retry_max_single_delay_secs as nat),
    ensures
        config.retries().after(n).backoff.delay() == limited(
            millis_span(
                saturated(
                    config.retry_initial_backoff_ms as nat * power(
                        config.retry_exp_base as nat,
                        n,
                    ),
                ),
            ),
            Some(secs_span(config.retry_max_single_delay_secs as nat)),
        ),
{
    law_each_retry_uses_one_attempt(config.retries(), n);
    law_delays_grow_from_the_start(
        config.retry_initial_backoff_ms as nat,
        config.retry_exp_base as nat,
        1,
        Some(secs_span(config.retry_max_single_delay_secs as nat)),
        n,
    );
}

/// A client makes as many attempts as it is set to, the first one among them, and no retry waits
/// longer than the longest delay it is set to, where what is drawn is no more than the whole
/// milliseconds it is drawn for.
pub proof fn law_client_keeps_its_limits(config: OpenAIClientConfig, n: nat, random_millis: u64)
    requires
        n <= retries_among(config.retry_max_attempts as nat),
        random_millis <= whole_millis(config.retries().after(n).backoff.delay()),
    ensures
        ({
            let policy = config.retries().after(n);
            &&& policy.attempts_remaining == retries_among(config.retry_max_attempts as nat) - n
            &&& policy.jittered(policy.backoff.delay(), random_millis) <= secs_span(
                config.retry_max_single_delay_secs as nat,
            )
        }),
{
    law_each_retry_uses_one_attempt(config.retries(), n);
    law_no_retry_waits_over_the_limit(
        config.retries(),
        secs_span(config.retry_max_single_delay_secs as nat),
        n,
        random_millis,
    );
}

} // verus!
