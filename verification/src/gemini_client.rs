//! A client of the Gemini API, but for the sending.

use crate::adaptive_concurrency::http::status_line;
use crate::adaptive_concurrency::http::success_code;
use crate::adaptive_concurrency::http::HttpError;
use crate::adaptive_concurrency::http::HttpResponse;
use crate::adaptive_concurrency::http::StatusCode;
use crate::adaptive_concurrency::http::SERVICE_UNAVAILABLE;
use crate::adaptive_concurrency::http::TOO_MANY_REQUESTS;
use crate::adaptive_concurrency::request::can_extend;
use crate::adaptive_concurrency::request::extend_url;
use crate::adaptive_concurrency::request::extension_fits;
use crate::adaptive_concurrency::request::has_path_segments;
use crate::adaptive_concurrency::request::header_texts;
use crate::adaptive_concurrency::request::kept;
use crate::adaptive_concurrency::request::kept_chars;
use crate::adaptive_concurrency::request::parse_uri;
use crate::adaptive_concurrency::request::parse_url;
use crate::adaptive_concurrency::request::status_message;
use crate::adaptive_concurrency::request::text_of;
use crate::adaptive_concurrency::request::texts_of;
use crate::adaptive_concurrency::request::uri_parsed;
use crate::adaptive_concurrency::request::url_extended;
use crate::adaptive_concurrency::request::url_has_segments;
use crate::adaptive_concurrency::request::url_parsed;
use crate::adaptive_concurrency::request::Answer;
use crate::adaptive_concurrency::request::HttpClientSettings;
use crate::adaptive_concurrency::request::HttpRequest;
use crate::adaptive_concurrency::reqwest_integration::status_action;
use crate::adaptive_concurrency::reqwest_integration::DefaultReqwestRetryLogic;
use crate::adaptive_concurrency::retries::exponential::law_delays_grow_from_the_start;
use crate::adaptive_concurrency::retries::exponential::law_each_retry_uses_one_attempt;
use crate::adaptive_concurrency::retries::exponential::law_no_retry_waits_over_the_limit;
use crate::adaptive_concurrency::retries::exponential::limited;
use crate::adaptive_concurrency::retries::exponential::power;
use crate::adaptive_concurrency::retries::exponential::retries_among;
use crate::adaptive_concurrency::retries::exponential::saturated;
use crate::adaptive_concurrency::retries::exponential::BackoffModel;
use crate::adaptive_concurrency::retries::exponential::ExponentialModel;
use crate::adaptive_concurrency::retries::logic::backpressure_code;
use crate::adaptive_concurrency::retries::logic::RetryActionView;
use crate::adaptive_concurrency::retries::ExponentialBackoff;
use crate::adaptive_concurrency::retries::ExponentialBackoffPolicy;
use crate::adaptive_concurrency::retries::JitterMode;
use crate::adaptive_concurrency::retries::RetryAction;
use crate::adaptive_concurrency::retries::RetryLogic;
use crate::adaptive_concurrency::settings::SettingsModel;
use crate::adaptive_concurrency::AdaptiveConcurrencySettings;
use crate::bits::SingleBits;
use crate::duration::millis_span;
use crate::duration::secs_span;
use crate::duration::whole_millis;
use crate::duration::Duration;
use crate::text::decimal;
use crate::text::decimal_text;
use crate::text::lossy_text;
use crate::text::utf8_lossy;
use vstd::prelude::*;
use vstd::string::*;
use vstd::utf8::decode_utf8;
use vstd::utf8::valid_utf8;

verus! {

/// What goes wrong in the client. An underlying error is held as its text.
#[derive(Debug)]
#[allow(inconsistent_fields)]
pub enum GeminiClientError {
    /// The client could not be set up.
    Initialization { message: String },
    /// The HTTP request could not be built.
    RequestConstruction { source: String },
    /// The base URL is no URL.
    UrlParse { source: String },
    /// The answer could not be read.
    Reqwest { source: String },
    /// The service under the client failed.
    AdaptiveConcurrency { source: String },
    /// An HTTP error.
    Http { source: HttpError },
    /// The answer is not the JSON that was expected.
    JsonDeserialization { source: String },
    /// The request could not be written as JSON.
    JsonSerialization { source: String },
    /// The base URL has no path to append to.
    BaseUrlCannotHavePathSegments { url: String },
    /// The API refused the request.
    ApiError { code: u16, message: String },
    /// The answer holds no text.
    NoContent,
}

impl GeminiClientError {
    /// The text that describes this error.
    pub open spec fn text(&self) -> Seq<char> {
        match self {
            GeminiClientError::Initialization { message } => "Initialization error: "@ + message@,
            GeminiClientError::RequestConstruction { source } =>
                "HTTP request construction error: "@ + source@,
            GeminiClientError::UrlParse { source } => "URL parsing error: "@ + source@,
            GeminiClientError::Reqwest { source } => "Reqwest client error: "@ + source@,
            GeminiClientError::AdaptiveConcurrency { source } =>
                "Error from adaptive concurrency limiter: "@ + source@,
            GeminiClientError::Http { source } => "HTTP error: "@ + source.text(),
            GeminiClientError::JsonDeserialization { source } =>
                "Failed to deserialize JSON response: "@ + source@,
            GeminiClientError::JsonSerialization { source } =>
                "Failed to serialize JSON request: "@ + source@,
            GeminiClientError::BaseUrlCannotHavePathSegments { url } =>
                "Base URL does not support path segments: "@ + url@,
            GeminiClientError::ApiError { code, message } => "API error: "@ + decimal(*code as nat)
                + " - "@ + message@,
            GeminiClientError::NoContent => "No content returned from API"@,
        }
    }

    /// Describes this error.
    pub fn to_string(&self) -> (r: String)
        ensures
            r@ == self.text(),
    {
        match self {
            GeminiClientError::Initialization { message } => String::from_str(
                "Initialization error: ",
            ).concat(message),
            GeminiClientError::RequestConstruction { source } => String::from_str(
                "HTTP request construction error: ",
            ).concat(source),
            GeminiClientError::UrlParse { source } => String::from_str(
                "URL parsing error: ",
            ).concat(source),
            GeminiClientError::Reqwest { source } => String::from_str(
                "Reqwest client error: ",
            ).concat(source),
            GeminiClientError::AdaptiveConcurrency { source } => String::from_str(
                "Error from adaptive concurrency limiter: ",
            ).concat(source),
            GeminiClientError::Http { source } => String::from_str("HTTP error: ").concat(
                source.to_string().as_str(),
            ),
            GeminiClientError::JsonDeserialization { source } => String::from_str(
                "Failed to deserialize JSON response: ",
            ).concat(source),
            GeminiClientError::JsonSerialization { source } => String::from_str(
                "Failed to serialize JSON request: ",
            ).concat(source),
            GeminiClientError::BaseUrlCannotHavePathSegments { url } => String::from_str(
                "Base URL does not support path segments: ",
            ).concat(url),
            GeminiClientError::ApiError { code, message } => {
                let mut r = String::from_str("API error: ");
                r.append(decimal_text(*code).as_str());
                r.append(" - ");
                r.append(message);
                r
            },
            GeminiClientError::NoContent => String::from_str("No content returned from API"),
        }
    }
}

/// How a client is set up.
#[derive(Clone, Debug)]
pub struct GeminiClientConfig {
    pub api_key: String,
    pub base_url: String,
    pub default_model: String,
    pub user_agent: Option<String>,
    pub adaptive_concurrency: AdaptiveConcurrencySettings,
    pub retry_max_attempts: usize,
    pub retry_initial_backoff_ms: u64,
    pub retry_exp_base: u64,
    pub retry_max_single_delay_secs: u64,
}

impl GeminiClientConfig {
    /// How requests are retried: from the initial delay on, each delay is the exponential base times
    /// the one before, up to the longest; with full jitter, and without a bound on the total time.
    pub open spec fn retries(&self) -> ExponentialModel {
        ExponentialModel::fresh(
            self.retry_max_attempts as nat,
            BackoffModel::starting(
                self.retry_initial_backoff_ms as nat,
                self.retry_exp_base as nat,
                1,
                Some(secs_span(self.retry_max_single_delay_secs as nat)),
            ),
            JitterMode::Full,
            None,
        )
    }
}

impl Default for GeminiClientConfig {
    fn default() -> (r: GeminiClientConfig)
        ensures
            r.api_key@.len() == 0,
            r.base_url@ == "https://generativelanguage.googleapis.com/v1beta/models"@,
            r.default_model@ == "gemini-pro"@,
            text_of(r.user_agent) == Some("gemini_client/0.1.0"@),
            r.adaptive_concurrency@ == SettingsModel::defaults(),
            r.retry_max_attempts == 5,
            r.retry_initial_backoff_ms == 200,
            r.retry_exp_base == 2,
            r.retry_max_single_delay_secs == 30,
    {
        GeminiClientConfig {
            api_key: String::new(),
            base_url: String::from_str("https://generativelanguage.googleapis.com/v1beta/models"),
            default_model: String::from_str("gemini-pro"),
            user_agent: Some(String::from_str("gemini_client/0.1.0")),
            adaptive_concurrency: AdaptiveConcurrencySettings::default(),
            retry_max_attempts: 5,
            retry_initial_backoff_ms: 200,
            retry_exp_base: 2,
            retry_max_single_delay_secs: 30,
        }
    }
}

/// A request for generated content.
#[derive(Clone, Debug)]
pub struct GenerateContentRequest {
    pub contents: Vec<Content>,
    pub generation_config: Option<GenerationConfig>,
    pub safety_settings: Option<Vec<SafetySetting>>,
}

/// One turn of a conversation. The role is `user` or `model`.
#[derive(Clone, Debug)]
pub struct Content {
    pub parts: Option<Vec<Part>>,
    pub role: Option<String>,
}

/// A piece of a turn.
#[derive(Clone, Debug)]
pub struct Part {
    pub text: Option<String>,
}

/// How content is generated.
#[derive(Clone, Debug)]
pub struct GenerationConfig {
    pub temperature: Option<SingleBits>,
    pub top_k: Option<i32>,
    pub top_p: Option<SingleBits>,
    pub max_output_tokens: Option<i32>,
    pub stop_sequences: Option<Vec<String>>,
}

impl Default for GenerationConfig {
    fn default() -> (r: GenerationConfig)
        ensures
            r.temperature is None,
            r.top_k is None,
            r.top_p is None,
            r.max_output_tokens is None,
            r.stop_sequences is None,
    {
        GenerationConfig {
            temperature: None,
            top_k: None,
            top_p: None,
            max_output_tokens: None,
            stop_sequences: None,
        }
    }
}

/// What is blocked in one category.
#[derive(Clone, Debug)]
pub struct SafetySetting {
    pub category: HarmCategory,
    pub threshold: HarmBlockThreshold,
}

/// A category of harm.
#[derive(Clone, Copy, Debug, PartialEq, Eq, Hash, Structural)]
pub enum HarmCategory {
    HarmCategoryHarassment,
    HarmCategoryHateSpeech,
    HarmCategorySexuallyExplicit,
    HarmCategoryDangerousContent,
    HarmCategoryUnspecified,
}

/// From what probability of harm on content is blocked.
#[derive(Clone, Copy, Debug, PartialEq, Eq, Hash, Structural)]
pub enum HarmBlockThreshold {
    HarmBlockThresholdUnspecified,
    BlockLowAndAbove,
    BlockMediumAndAbove,
    BlockOnlyHigh,
    BlockNone,
}

/// The answer to a request for generated content.
#[derive(Clone, Debug)]
pub struct GenerateContentResponse {
    pub candidates: Option<Vec<Candidate>>,
    pub prompt_feedback: Option<PromptFeedback>,
}

/// One generated answer. The reason it ended is `STOP`, `MAX_TOKENS`, `SAFETY` or the like.
#[derive(Clone, Debug)]
pub struct Candidate {
    pub content: Option<Content>,
    pub finish_reason: Option<String>,
    pub safety_ratings: Option<Vec<SafetyRating>>,
}

/// How probable harm is in one category, from `NEGLIGIBLE` to `HIGH`.
#[derive(Clone, Debug)]
pub struct SafetyRating {
    pub category: HarmCategory,
    pub probability: String,
    pub blocked: Option<bool>,
}

/// What the API says of a prompt.
#[derive(Clone, Debug)]
pub struct PromptFeedback {
    pub block_reason: Option<String>,
    pub safety_ratings: Vec<SafetyRating>,
}

/// The error that the API reports in the body of an answer.
#[derive(Clone, Debug)]
pub struct GoogleApiError {
    pub code: u16,
    pub message: String,
}

/// The outcome of building an endpoint: what parsing the base URL gave, then what extending it
/// gave.
pub open spec fn is_endpoint(
    base_url: Seq<char>,
    parsed: Result<Seq<char>, Seq<char>>,
    extended: Option<Seq<char>>,
    outcome: Result<String, GeminiClientError>,
) -> bool {
    match parsed {
        Err(reason) => outcome matches Err(GeminiClientError::UrlParse { source }) && source@
            == reason,
        Ok(_) => match extended {
            None => outcome matches Err(GeminiClientError::BaseUrlCannotHavePathSegments { url })
                && url@ == base_url,
            Some(endpoint) => outcome matches Ok(url) && url@ == endpoint,
        },
    }
}

/// The outcome of building an endpoint, for what parsing the base URL and extending it gave.
pub fn endpoint_of(
    base_url: &str,
    parsed: Result<String, String>,
    extended: Option<String>,
) -> (r: Result<String, GeminiClientError>)
    ensures
        is_endpoint(base_url@, texts_of(parsed), text_of(extended), r),
{
    match parsed {
        Err(source) => Err(GeminiClientError::UrlParse { source }),
        Ok(_) => match extended {
            None => Err(
                GeminiClientError::BaseUrlCannotHavePathSegments { url: String::from_str(base_url) },
            ),
            Some(endpoint) => Ok(endpoint),
        },
    }
}

/// Whether a request is the POST of a JSON body to a URI.
pub open spec fn is_json_post(request: HttpRequest, uri: Seq<char>, body: Vec<u8>) -> bool {
    &&& request.method@ == "POST"@
    &&& request.uri@ == uri
    &&& header_texts(request.headers@) == seq![("Content-Type"@, "application/json"@)]
    &&& request.body == Some(body)
}

/// Whether an outcome is that of building the POST of a JSON body, for what parsing its URI gave.
pub open spec fn is_json_post_to(
    parsed: Result<Seq<char>, Seq<char>>,
    body: Vec<u8>,
    outcome: Result<HttpRequest, GeminiClientError>,
) -> bool {
    match parsed {
        Err(reason) => outcome matches Err(GeminiClientError::RequestConstruction { source })
            && source@ == reason,
        Ok(uri) => outcome matches Ok(request) && is_json_post(request, uri, body),
    }
}

/// The request that posts a JSON body, for what parsing its URI gave.
pub fn json_post_of(parsed: Result<String, String>, body: Vec<u8>) -> (r: Result<
    HttpRequest,
    GeminiClientError,
>)
    ensures
        is_json_post_to(texts_of(parsed), body, r),
{
    match parsed {
        Err(source) => Err(GeminiClientError::RequestConstruction { source }),
        Ok(uri) => {
            let mut headers: Vec<(String, String)> = Vec::new();
            headers.push((String::from_str("Content-Type"), String::from_str("application/json")));
            assert(header_texts(headers@) =~= seq![("Content-Type"@, "application/json"@)]);
            Ok(HttpRequest { method: String::from_str("POST"), uri, headers, body: Some(body) })
        },
    }
}

/// Whether an outcome is what the body of a success means, for what reading it gave.
pub open spec fn is_content(
    read: Result<GenerateContentResponse, String>,
    outcome: Result<GenerateContentResponse, GeminiClientError>,
) -> bool {
    match read {
        Ok(content) => outcome == Ok::<GenerateContentResponse, GeminiClientError>(content),
        Err(error) => outcome matches Err(GeminiClientError::JsonDeserialization { source })
            && source == error,
    }
}

/// The message for an answer that is no success and reports no error.
pub open spec fn failure_text(status: Seq<char>, body: Seq<char>) -> Seq<char> {
    "Gemini API request failed with status "@ + status + ": "@ + body
}

/// The message for an answer that is no success and reports no error, for its status and its body
/// as text.
pub fn failure_message(status: &str, body: &str) -> (r: String)
    ensures
        r@ == failure_text(status@, body@),
{
    let mut message = String::from_str("Gemini API request failed with status ");
    message.append(status);
    message.append(": ");
    message.append(body);
    message
}

/// Whether an error is the one for an answer that is no success. A body that is UTF-8 is quoted as
/// the text that it encodes.
pub open spec fn is_api_error(
    status: u16,
    reported: Option<GoogleApiError>,
    body: Seq<u8>,
    error: GeminiClientError,
) -> bool {
    &&& error matches GeminiClientError::ApiError { code, message }
    &&& match reported {
        Some(report) => code == report.code && message == report.message,
        None => {
            &&& code == status
            &&& message@ == failure_text(status_line(status), lossy_text(body))
            &&& valid_utf8(body) ==> lossy_text(body) == decode_utf8(body)
        },
    }
}

/// The part of a client that is independent of how requests are sent.
#[derive(Debug)]
pub struct GeminiClient {
    pub config: GeminiClientConfig,
    pub retry_policy: ExponentialBackoffPolicy<DefaultReqwestRetryLogic>,
    pub http_client: HttpClientSettings,
}

impl GeminiClient {
    /// A client with the given configuration, which has to hold an API key.
    pub fn new(config: GeminiClientConfig) -> (r: Result<GeminiClient, GeminiClientError>)
        ensures
            config.api_key@.len() == 0 ==> {
                &&& r matches Err(GeminiClientError::Initialization { message })
                &&& message@ == "API key cannot be empty"@
            },
            config.api_key@.len() > 0 ==> {
                &&& r matches Ok(client)
                &&& client.config == config
                &&& client.retry_policy@ == config.retries()
                &&& client.http_client.timeout@ == secs_span(90)
                &&& client.http_client.connect_timeout@ == secs_span(10)
                &&& text_of(client.http_client.user_agent) == Some(
                    match text_of(config.user_agent) {
                        Some(agent) => agent,
                        None => "gemini_client/0.1.0"@,
                    },
                )
            },
    {
        if config.api_key.as_str().is_empty() {
            return Err(
                GeminiClientError::Initialization {
                    message: String::from_str("API key cannot be empty"),
                },
            );
        }
        let user_agent = match &config.user_agent {
            Some(agent) => agent.clone(),
            None => String::from_str("gemini_client/0.1.0"),
        };
        let retry_policy = ExponentialBackoffPolicy::new(
            config.retry_max_attempts,
            ExponentialBackoff::starting_at(
                config.retry_initial_backoff_ms,
                config.retry_exp_base,
                Some(Duration::from_secs(config.retry_max_single_delay_secs)),
            ),
            DefaultReqwestRetryLogic,
            JitterMode::Full,
            None,
        );
        Ok(
            GeminiClient {
                config,
                retry_policy,
                http_client: HttpClientSettings {
                    timeout: Duration::from_secs(90),
                    connect_timeout: Duration::from_secs(10),
                    user_agent: Some(user_agent),
                },
            },
        )
    }

    /// Whether the endpoint of a model fits the URL that holds it, where the base URL can be
    /// extended.
    pub open spec fn endpoint_fits(&self, model: Seq<char>) -> bool {
        url_has_segments(self.config.base_url@) ==> (url_parsed(self.config.base_url@) matches Ok(
            url,
        ) ==> extension_fits(
            url.len(),
            kept(model + ":generateContent"@) + "key"@.len() + self.config.api_key@.len(),
        ))
    }

    /// Whether the endpoint of a model fits the URL that holds it, where the base URL can be
    /// extended.
    pub fn can_build_url(&self, model: &str) -> (r: bool)
        ensures
            r == self.endpoint_fits(model@),
    {
        proof {
            reveal_strlit("key");
        }
        let base_url = self.config.base_url.as_str();
        if !has_path_segments(base_url) {
            return true;
        }
        match parse_url(base_url) {
            Ok(url) => {
                let segment = String::from_str(model).concat(":generateContent");
                let segment_len: usize = kept_chars(segment.as_str());
                let key_len: usize = self.config.api_key.as_str().unicode_len();
                let added: u128 = segment_len as u128 + 3 + key_len as u128;
                can_extend(url.as_str().unicode_len(), added)
            },
            Err(_) => true,
        }
    }

    /// What extending the base URL by a model gives, where it has path segments: the model and the
    /// action become one more of them, the API key a query parameter.
    pub open spec fn extended(&self, model: Seq<char>) -> Option<Seq<char>> {
        if url_has_segments(self.config.base_url@) {
            Some(
                url_extended(
                    self.config.base_url@,
                    model + ":generateContent"@,
                    "key"@,
                    self.config.api_key@,
                ),
            )
        } else {
            None
        }
    }

    /// The URL at which a model generates content.
    pub fn build_url_for_model(&self, model: &str) -> (r: Result<String, GeminiClientError>)
        requires
            self.endpoint_fits(model@),
        ensures
            is_endpoint(
                self.config.base_url@,
                url_parsed(self.config.base_url@),
                self.extended(model@),
                r,
            ),
    {
        let base_url = self.config.base_url.as_str();
        let parsed = parse_url(base_url);
        let segment = String::from_str(model).concat(":generateContent");
        let extended = if has_path_segments(base_url) {
            Some(extend_url(base_url, segment.as_str(), "key", self.config.api_key.as_str()))
        } else {
            None
        };
        endpoint_of(base_url, parsed, extended)
    }

    /// Whether an outcome is that of a request for generated content. The endpoint comes first,
    /// then the body, then the request around them, which cannot hold an endpoint that is too long.
    pub open spec fn is_content_request(
        &self,
        model: Seq<char>,
        body: Result<Vec<u8>, String>,
        outcome: Result<HttpRequest, GeminiClientError>,
    ) -> bool {
        match url_parsed(self.config.base_url@) {
            Err(reason) => outcome matches Err(GeminiClientError::UrlParse { source }) && source@
                == reason,
            Ok(_) => match self.extended(model) {
                None => {
                    &&& outcome matches Err(
                        GeminiClientError::BaseUrlCannotHavePathSegments { url },
                    )
                    &&& url@ == self.config.base_url@
                },
                Some(url) => match body {
                    Err(error) => outcome matches Err(
                        GeminiClientError::JsonSerialization { source },
                    ) && source == error,
                    Ok(bytes) => if self.endpoint_fits(model) {
                        is_json_post_to(uri_parsed(url), bytes, outcome)
                    } else {
                        &&& outcome matches Err(GeminiClientError::RequestConstruction { source })
                        &&& source@ == "uri too long"@
                    },
                },
            },
        }
    }

    /// The request for generated content, for its body where it could be written as JSON.
    pub fn content_request(&self, model: &str, body: Result<Vec<u8>, String>) -> (r: Result<
        HttpRequest,
        GeminiClientError,
    >)
        ensures
            self.is_content_request(model@, body, r),
    {
        if !self.can_build_url(model) {
            return match body {
                Err(source) => Err(GeminiClientError::JsonSerialization { source }),
                Ok(_) => Err(
                    GeminiClientError::RequestConstruction {
                        source: String::from_str("uri too long"),
                    },
                ),
            };
        }
        let url = match self.build_url_for_model(model) {
            Ok(url) => url,
            Err(error) => return Err(error),
        };
        match body {
            Err(source) => Err(GeminiClientError::JsonSerialization { source }),
            Ok(bytes) => json_post_of(parse_uri(url.as_str()), bytes),
        }
    }

    /// The request for generated content from the default model.
    pub fn content_request_with_defaults(&self, body: Result<Vec<u8>, String>) -> (r: Result<
        HttpRequest,
        GeminiClientError,
    >)
        ensures
            self.is_content_request(self.config.default_model@, body, r),
    {
        self.content_request(self.config.default_model.as_str(), body)
    }

    /// What the body of a success means, for what reading it as content gave.
    pub fn content_of(read: Result<GenerateContentResponse, String>) -> (r: Result<
        GenerateContentResponse,
        GeminiClientError,
    >)
        ensures
            is_content(read, r),
    {
        match read {
            Ok(content) => Ok(content),
            Err(source) => Err(GeminiClientError::JsonDeserialization { source }),
        }
    }

    /// The error for an answer that is no success: the one that the API reports where the body
    /// holds one, else the status and the body.
    pub fn api_error(
        status: StatusCode,
        reported: Option<GoogleApiError>,
        body: &Vec<u8>,
    ) -> (r: GeminiClientError)
        ensures
            is_api_error(status@, reported, body@, r),
    {
        match reported {
            Some(error) => GeminiClientError::ApiError { code: error.code, message: error.message },
            None => {
                let message = failure_message(
                    status.to_string().as_str(),
                    utf8_lossy(body).as_str(),
                );
                GeminiClientError::ApiError { code: status.as_u16(), message }
            },
        }
    }

    /// What comes of a request, for the answer or the failure of the service. The body of a
    /// success is read as content, any other as a report of an error.
    pub fn content_response<
        P: Fn(&Vec<u8>) -> Result<GenerateContentResponse, String>,
        E: Fn(&Vec<u8>) -> Option<GoogleApiError>,
    >(answer: Result<Answer<Vec<u8>>, String>, read_content: P, read_error: E) -> (r: Result<
        GenerateContentResponse,
        GeminiClientError,
    >)
        requires
            forall|bytes: &Vec<u8>| call_requires(read_content, (bytes,)),
            forall|bytes: &Vec<u8>| call_requires(read_error, (bytes,)),
        ensures
            match answer {
                Err(error) => r matches Err(GeminiClientError::AdaptiveConcurrency { source })
                    && source == error,
                Ok(answer) => match answer.body {
                    Err(error) => r matches Err(GeminiClientError::Reqwest { source }) && source
                        == error,
                    Ok(bytes) => if success_code(answer.status@) {
                        exists|read: Result<GenerateContentResponse, String>|
                            {
                                &&& #[trigger] call_ensures(read_content, (&bytes,), read)
                                &&& is_content(read, r)
                            }
                    } else {
                        exists|reported: Option<GoogleApiError>|
                            {
                                &&& #[trigger] call_ensures(read_error, (&bytes,), reported)
                                &&& r matches Err(error)
                                &&& is_api_error(answer.status@, reported, bytes@, error)
                            }
                    },
                },
            },
    {
        let answer = match answer {
            Ok(answer) => answer,
            Err(source) => return Err(GeminiClientError::AdaptiveConcurrency { source }),
        };
        let bytes = match answer.body {
            Ok(bytes) => bytes,
            Err(source) => return Err(GeminiClientError::Reqwest { source }),
        };
        if answer.status.is_success() {
            Self::content_of(read_content(&bytes))
        } else {
            Err(Self::api_error(answer.status, read_error(&bytes), &bytes))
        }
    }

    /// The request that asks for an answer to one prompt of a user.
    pub fn user_prompt_request(prompt: String) -> (r: GenerateContentRequest)
        ensures
            r.contents@.len() == 1,
            r.contents@[0].parts matches Some(parts) && parts@ == seq![Part { text: Some(prompt) }],
            text_of(r.contents@[0].role) == Some("user"@),
            r.generation_config is None,
            r.safety_settings is None,
    {
        let mut parts: Vec<Part> = Vec::new();
        parts.push(Part { text: Some(prompt) });
        let mut contents: Vec<Content> = Vec::new();
        contents.push(Content { parts: Some(parts), role: Some(String::from_str("user")) });
        GenerateContentRequest { contents, generation_config: None, safety_settings: None }
    }

    /// The text of the first part of the first candidate, where there is one.
    pub open spec fn first_text(response: GenerateContentResponse) -> Option<String> {
        match response.candidates {
            Some(candidates) => if candidates@.len() == 0 {
                None
            } else {
                match candidates@[0].content {
                    Some(content) => match content.parts {
                        Some(parts) => if parts@.len() == 0 {
                            None
                        } else {
                            parts@[0].text
                        },
                        None => None,
                    },
                    None => None,
                }
            },
            None => None,
        }
    }

    /// The text of the first part of the first candidate.
    pub fn text_of_response(response: GenerateContentResponse) -> (r: Result<
        String,
        GeminiClientError,
    >)
        ensures
            match Self::first_text(response) {
                Some(text) => r == Ok::<String, GeminiClientError>(text),
                None => r matches Err(GeminiClientError::NoContent),
            },
    {
        if let Some(mut candidates) = response.candidates {
            if candidates.len() > 0 {
                if let Some(content) = candidates.remove(0).content {
                    if let Some(mut parts) = content.parts {
                        if parts.len() > 0 {
                            if let Some(text) = parts.remove(0).text {
                                return Ok(text);
                            }
                        }
                    }
                }
            }
        }
        Err(GeminiClientError::NoContent)
    }
}

/// The retry logic of the Gemini API.
#[derive(Clone, Copy, Debug, Default)]
pub struct GeminiRetryLogic;

/// What the logic answers to a status.
pub open spec fn gemini_action(code: u16) -> RetryActionView {
    if success_code(code) {
        RetryActionView::Successful
    } else if backpressure_code(code) {
        RetryActionView::Retry("Server responded with status "@ + status_line(code))
    } else {
        RetryActionView::DontRetry("Server responded with non-retriable status "@ + status_line(code))
    }
}

impl RetryLogic for GeminiRetryLogic {
    type Error = HttpError;

    type Response = HttpResponse;

    /// Network errors and timeouts are retried.
    fn is_retriable_error(&self, error: &HttpError) -> (r: bool)
        ensures
            r == (error is Transport || error is Timeout),
    {
        matches!(error, HttpError::Transport { .. } | HttpError::Timeout)
    }

    fn should_retry_response(&self, response: &HttpResponse) -> (r: RetryAction)
        ensures
            r@ == gemini_action(response.status@),
    {
        let status = response.status;
        if status.is_success() {
            RetryAction::Successful
        } else if status.as_u16() == TOO_MANY_REQUESTS || status.as_u16() == SERVICE_UNAVAILABLE
            || status.is_server_error() {
            RetryAction::Retry(status_message("Server responded with status ", &status))
        } else {
            RetryAction::DontRetry(
                status_message("Server responded with non-retriable status ", &status),
            )
        }
    }
}

/// The Gemini logic goes by the status alone. It takes for successes, and retries, the statuses that
/// the default logic takes for successes and retries.
pub proof fn law_gemini_agrees_with_default(status: u16)
    ensures
        gemini_action(status) is Successful <==> status_action(status) is Successful,
        gemini_action(status) is Retry <==> status_action(status) is Retry,
        gemini_action(status) is Retry <==> backpressure_code(status),
{
}

/// The retry after `n` others waits, before jitter, for the initial delay times the exponential base
/// to the power `n`, or for the longest delay where that is shorter. Left out is the base 0 with an
/// initial delay over the longest.
pub proof fn law_delays_grow_by_the_base(config: GeminiClientConfig, n: nat)
    requires
        n <= retries_among(config.retry_max_attempts as nat),
        config.retry_exp_base > 0 || millis_span(config.retry_initial_backoff_ms as nat)
            <= secs_span(config.retry_max_single_delay_secs as nat),
    ensures
        config.retries().after(n).backoff.delay() == limited(
            millis_span(
                saturated(
                    config.retry_initial_backoff_ms as nat * power(
                        config.retry_exp_base as nat,
                        n,
                    ),
                ),
            ),
            Some(secs_span(config.retry_max_single_delay_secs as nat)),
        ),
{
    law_each_retry_uses_one_attempt(config.retries(), n);
    law_delays_grow_from_the_start(
        config.retry_initial_backoff_ms as nat,
        config.retry_exp_base as nat,
        1,
        Some(secs_span(config.retry_max_single_delay_secs as nat)),
        n,
    );
}

/// A client makes as many attempts as it is set to, the first one among them, and no retry waits
/// longer than the longest delay it is set to, where what is drawn is no more than the whole
/// milliseconds it is drawn for.
pub proof fn law_client_keeps_its_limits(config: GeminiClientConfig, n: nat, random_millis: u64)
    requires
        n <= retries_among(config.retry_max_attempts as nat),
        random_millis <= whole_millis(config.retries().after(n).backoff.delay()),
    ensures
        ({
            let policy = config.retries().after(n);
            &&& policy.attempts_remaining == retries_among(config.retry_max_attempts as nat) - n
            &&& policy.jittered(policy.backoff.delay(), random_millis) <= secs_span(
                config.retry_max_single_delay_secs as nat,
            )
        }),
{
    law_each_retry_uses_one_attempt(config.retries(), n);
    law_no_retry_waits_over_the_limit(
        config.retries(),
        secs_span(config.retry_max_single_delay_secs as nat),
        n,
        random_millis,
    );
}

} // verus!
