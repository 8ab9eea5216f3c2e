//! Laws of the Gemini client.

use crate::adaptive_concurrency::http::HttpError;
use crate::adaptive_concurrency::http::StatusCode;
use crate::adaptive_concurrency::request::header_texts;
use crate::adaptive_concurrency::request::kept_chars;
use crate::adaptive_concurrency::request::uri_parsed;
use crate::adaptive_concurrency::request::url_extended;
use crate::adaptive_concurrency::request::url_has_segments;
use crate::adaptive_concurrency::request::url_parsed;
use crate::adaptive_concurrency::request::Answer;
use crate::adaptive_concurrency::request::HttpRequest;
use crate::gemini_client::endpoint_of;
use crate::gemini_client::failure_message;
use crate::gemini_client::is_content;
use crate::gemini_client::json_post_of;
use crate::gemini_client::GeminiClient;
use crate::gemini_client::GeminiClientConfig;
use crate::gemini_client::GeminiClientError;
use crate::gemini_client::GenerateContentRequest;
use crate::gemini_client::GenerateContentResponse;
use crate::gemini_client::GenerationConfig;
use crate::gemini_client::GoogleApiError;
use crate::text::decimal_text;
use crate::text::lossy_text;
use vstd::prelude::*;
use vstd::utf8::decode_utf8;
use vstd::utf8::valid_utf8;

verus! {

/// An error is described by its kind and, in full, by what it holds.
pub proof fn law_error_text(error: GeminiClientError, number: String, inner: String, r: String)
    requires
        call_ensures(GeminiClientError::to_string, (&error,), r),
        error matches GeminiClientError::ApiError { code, .. } ==> call_ensures(
            decimal_text,
            (code,),
            number,
        ),
        error matches GeminiClientError::Http { source } ==> call_ensures(
            HttpError::to_string,
            (&source,),
            inner,
        ),
    ensures
        match error {
            GeminiClientError::Initialization { message } => r@ == "Initialization error: "@
                + message@,
            GeminiClientError::RequestConstruction { source } => r@
                == "HTTP request construction error: "@ + source@,
            GeminiClientError::UrlParse { source } => r@ == "URL parsing error: "@ + source@,
            GeminiClientError::Reqwest { source } => r@ == "Reqwest client error: "@ + source@,
            GeminiClientError::AdaptiveConcurrency { source } => r@
                == "Error from adaptive concurrency limiter: "@ + source@,
            GeminiClientError::Http { .. } => r@ == "HTTP error: "@ + inner@,
            GeminiClientError::JsonDeserialization { source } => r@
                == "Failed to deserialize JSON response: "@ + source@,
            GeminiClientError::JsonSerialization { source } => r@
                == "Failed to serialize JSON request: "@ + source@,
            GeminiClientError::BaseUrlCannotHavePathSegments { url } => r@
                == "Base URL does not support path segments: "@ + url@,
            GeminiClientError::ApiError { message, .. } => r@ == "API error: "@ + number@ + " - "@
                + message@,
            GeminiClientError::NoContent => r@ == "No content returned from API"@,
        },
{
}

/// What a client is set to by default.
pub proof fn law_default_config(r: GeminiClientConfig)
    requires
        call_ensures(GeminiClientConfig::default, (), r),
    ensures
        r.api_key@ == Seq::<char>::empty(),
        r.base_url@ == "https://generativelanguage.googleapis.com/v1beta/models"@,
        r.default_model@ == "gemini-pro"@,
        r.user_agent matches Some(agent) && agent@ == "gemini_client/0.1.0"@,
        r.adaptive_concurrency@.initial_concurrency == 1,
        r.adaptive_concurrency@.max_concurrency_limit == 200,
        r.adaptive_concurrency@.decrease_ratio.bits == 0x3FEC_CCCC_CCCC_CCCD,
        r.adaptive_concurrency@.ewma_alpha.bits == 0x3FD9_9999_9999_999A,
        r.adaptive_concurrency@.rtt_deviation_scale.bits == 0x4004_0000_0000_0000,
        r.retry_max_attempts == 5,
        r.retry_initial_backoff_ms == 200,
        r.retry_exp_base == 2,
        r.retry_max_single_delay_secs == 30,
{
}

/// By default nothing of how content is generated is set.
pub proof fn law_default_generation(r: GenerationConfig)
    requires
        call_ensures(GenerationConfig::default, (), r),
    ensures
        r.temperature is None,
        r.top_k is None,
        r.top_p is None,
        r.max_output_tokens is None,
        r.stop_sequences is None,
{
}

/// A client needs an API key, and nothing else. It keeps its configuration, and retries as that
/// says: so many attempts in all, from the initial delay on, each delay the exponential base times
/// the one before, up to the longest, with full jitter.
pub proof fn law_client_is_set_up(
    config: GeminiClientConfig,
    r: Result<GeminiClient, GeminiClientError>,
)
    requires
        call_ensures(GeminiClient::new, (config,), r),
    ensures
        if config.api_key@ == Seq::<char>::empty() {
            r matches Err(GeminiClientError::Initialization { message }) && message@
                == "API key cannot be empty"@
        } else {
            &&& r matches Ok(client)
            &&& client.config == config
            &&& client.retry_policy@.attempts_remaining == (if config.retry_max_attempts == 0 {
                0int
            } else {
                config.retry_max_attempts - 1
            })
            &&& client.retry_policy@.backoff.start == config.retry_initial_backoff_ms
            &&& client.retry_policy@.backoff.current == config.retry_initial_backoff_ms
            &&& client.retry_policy@.backoff.base == config.retry_exp_base
            &&& client.retry_policy@.backoff.factor == 1
            &&& client.retry_policy@.backoff.max matches Some(limit)
            &&& limit == config.retry_max_single_delay_secs * 1_000_000_000
            &&& client.retry_policy@.mode is Full
            &&& client.retry_policy@.max_total is None
            &&& client.http_client.timeout@ == 90_000_000_000
            &&& client.http_client.connect_timeout@ == 10_000_000_000
            &&& client.http_client.user_agent matches Some(sent)
            &&& match config.user_agent {
                Some(agent) => sent@ == agent@,
                None => sent@ == "gemini_client/0.1.0"@,
            }
        },
{
    if config.api_key@.len() == 0 {
        assert(config.api_key@ =~= Seq::<char>::empty());
    }
}

/// An endpoint is what extending the base URL gave, where both steps gave something.
pub proof fn law_endpoint_follows_the_steps(
    base_url: &str,
    parsed: Result<String, String>,
    extended: Option<String>,
    r: Result<String, GeminiClientError>,
)
    requires
        call_ensures(endpoint_of, (base_url, parsed, extended), r),
    ensures
        match (parsed, extended) {
            (Err(why), _) => r matches Err(GeminiClientError::UrlParse { source }) && source@
                == why@,
            (Ok(_), None) => r matches Err(
                GeminiClientError::BaseUrlCannotHavePathSegments { url },
            ) && url@ == base_url@,
            (Ok(_), Some(endpoint)) => r matches Ok(url) && url@ == endpoint@,
        },
{
}

/// The endpoint of a model is the base URL with the whole model and the action for one more path
/// segment, and with the whole API key for a query parameter.
pub proof fn law_endpoint_holds_model_and_key(
    client: GeminiClient,
    model: &str,
    r: Result<String, GeminiClientError>,
)
    requires
        call_ensures(GeminiClient::build_url_for_model, (&client, model), r),
    ensures
        match url_parsed(client.config.base_url@) {
            Err(why) => r matches Err(GeminiClientError::UrlParse { source }) && source@ == why,
            Ok(_) => if url_has_segments(client.config.base_url@) {
                r matches Ok(url) && url@ == url_extended(
                    client.config.base_url@,
                    model@ + ":generateContent"@,
                    "key"@,
                    client.config.api_key@,
                )
            } else {
                r matches Err(GeminiClientError::BaseUrlCannotHavePathSegments { url }) && url@
                    == client.config.base_url@
            },
        },
{
}

/// An endpoint fits while the URL has room for 12 bytes for each character that is added, and 16
/// more.
pub proof fn law_endpoint_fits(
    client: GeminiClient,
    model: &str,
    segment: &str,
    kept: usize,
    r: bool,
)
    requires
        call_ensures(GeminiClient::can_build_url, (&client, model), r),
        segment@ == model@ + ":generateContent"@,
        call_ensures(kept_chars, (segment,), kept),
    ensures
        !url_has_segments(client.config.base_url@) ==> r,
        url_has_segments(client.config.base_url@) ==> (url_parsed(client.config.base_url@) matches Ok(
            url,
        ) ==> (r <==> url.len() + 12 * (kept + 3 + client.config.api_key@.len()) + 16
            < 0x1_0000_0000)),
{
    reveal_strlit("key");
}

/// The request around a body posts it, whole and as JSON, to the URI.
pub proof fn law_body_is_posted(
    parsed: Result<String, String>,
    body: Vec<u8>,
    r: Result<HttpRequest, GeminiClientError>,
)
    requires
        call_ensures(json_post_of, (parsed, body), r),
    ensures
        match parsed {
            Err(why) => r matches Err(GeminiClientError::RequestConstruction { source }) && source@
                == why@,
            Ok(uri) => {
                &&& r matches Ok(request)
                &&& request.method@ == "POST"@
                &&& request.uri@ == uri@
                &&& request.headers@.len() == 1
                &&& request.headers@[0].0@ == "Content-Type"@
                &&& request.headers@[0].1@ == "application/json"@
                &&& request.body matches Some(sent)
                &&& sent@ == body@
            },
        },
{
    if let (Ok(uri), Ok(request)) = (parsed, r) {
        let texts = header_texts(request.headers@);
        assert(texts.len() == 1);
        assert(texts[0] == ("Content-Type"@, "application/json"@));
    }
}

/// A request for content posts the whole body to the endpoint of the model. A base URL that is none,
/// or that has no path segments, comes before a body that could not be written, and that before an
/// endpoint that is no URI or too long.
pub proof fn law_content_is_requested(
    client: GeminiClient,
    model: &str,
    body: Result<Vec<u8>, String>,
    fits: bool,
    r: Result<HttpRequest, GeminiClientError>,
)
    requires
        call_ensures(GeminiClient::content_request, (&client, model, body), r),
        call_ensures(GeminiClient::can_build_url, (&client, model), fits),
    ensures
        match url_parsed(client.config.base_url@) {
            Err(why) => r matches Err(GeminiClientError::UrlParse { source }) && source@ == why,
            Ok(_) => if !url_has_segments(client.config.base_url@) {
                r matches Err(GeminiClientError::BaseUrlCannotHavePathSegments { url }) && url@
                    == client.config.base_url@
            } else {
                match body {
                    Err(why) => r matches Err(GeminiClientError::JsonSerialization { source })
                        && source@ == why@,
                    Ok(bytes) => if !fits {
                        r matches Err(GeminiClientError::RequestConstruction { source })
                            && source@ == "uri too long"@
                    } else {
                        match uri_parsed(
                            url_extended(
                                client.config.base_url@,
                                model@ + ":generateContent"@,
                                "key"@,
                                client.config.api_key@,
                            ),
                        ) {
                            Err(why) => r matches Err(
                                GeminiClientError::RequestConstruction { source },
                            ) && source@ == why,
                            Ok(uri) => {
                                &&& r matches Ok(request)
                                &&& request.method@ == "POST"@
                                &&& request.uri@ == uri
                                &&& request.headers@.len() == 1
                                &&& request.headers@[0].0@ == "Content-Type"@
                                &&& request.headers@[0].1@ == "application/json"@
                                &&& request.body matches Some(sent)
                                &&& sent@ == bytes@
                            },
                        }
                    },
                }
            },
        },
{
    if let Ok(request) = r {
        let texts = header_texts(request.headers@);
        assert(texts.len() == request.headers@.len());
        if texts.len() > 0 {
            assert(texts[0] == (request.headers@[0].0@, request.headers@[0].1@));
        }
    }
}

/// A request by default is the request for the default model.
pub proof fn law_default_model_is_requested(
    client: GeminiClient,
    model: &str,
    body: Result<Vec<u8>, String>,
    a: Result<HttpRequest, GeminiClientError>,
    b: Result<HttpRequest, GeminiClientError>,
)
    requires
        model@ == client.config.default_model@,
        call_ensures(GeminiClient::content_request, (&client, model, body), a),
        call_ensures(GeminiClient::content_request_with_defaults, (&client, body), b),
    ensures
        match (a, b) {
            (Ok(x), Ok(y)) => {
                &&& x.method@ == y.method@
                &&& x.uri@ == y.uri@
                &&& x.headers@.len() == y.headers@.len() == 1
                &&& x.headers@[0].0@ == y.headers@[0].0@
                &&& x.headers@[0].1@ == y.headers@[0].1@
                &&& x.body == y.body
            },
            (
                Err(GeminiClientError::UrlParse { source: x }),
                Err(GeminiClientError::UrlParse { source: y }),
            ) => x@ == y@,
            (
                Err(GeminiClientError::BaseUrlCannotHavePathSegments { url: x }),
                Err(GeminiClientError::BaseUrlCannotHavePathSegments { url: y }),
            ) => x@ == y@,
            (
                Err(GeminiClientError::JsonSerialization { source: x }),
                Err(GeminiClientError::JsonSerialization { source: y }),
            ) => x@ == y@,
            (
                Err(GeminiClientError::RequestConstruction { source: x }),
                Err(GeminiClientError::RequestConstruction { source: y }),
            ) => x@ == y@,
            _ => false,
        },
{
    if let (Ok(x), Ok(y)) = (a, b) {
        let p = header_texts(x.headers@);
        let q = header_texts(y.headers@);
        assert(p.len() == 1 && q.len() == 1);
        assert(p[0] == (x.headers@[0].0@, x.headers@[0].1@));
        assert(q[0] == (y.headers@[0].0@, y.headers@[0].1@));
    }
}

/// What was read as content is handed on, and why it could not be read is reported.
pub proof fn law_content_is_handed_on(
    read: Result<GenerateContentResponse, String>,
    r: Result<GenerateContentResponse, GeminiClientError>,
)
    requires
        call_ensures(GeminiClient::content_of, (read,), r),
    ensures
        match read {
            Ok(content) => r matches Ok(given) && given == content,
            Err(why) => r matches Err(GeminiClientError::JsonDeserialization { source })
                && source@ == why@,
        },
{
}

/// A failure quotes its status and its whole body.
pub proof fn law_failure_quotes_the_body(status: &str, body: &str, r: String)
    requires
        call_ensures(failure_message, (status, body), r),
    ensures
        r@ == "Gemini API request failed with status "@ + status@ + ": "@ + body@,
{
}

/// An answer that is no success becomes the error that the API reports, or else its own status with
/// its whole body as text.
pub proof fn law_api_error(
    status: StatusCode,
    reported: Option<GoogleApiError>,
    body: Vec<u8>,
    line: String,
    r: GeminiClientError,
)
    requires
        call_ensures(GeminiClient::api_error, (status, reported, &body), r),
        call_ensures(StatusCode::to_string, (&status,), line),
    ensures
        r matches GeminiClientError::ApiError { code, message } && match reported {
            Some(report) => code == report.code && message@ == report.message@,
            None => {
                &&& code == status@
                &&& message@ == "Gemini API request failed with status "@ + line@ + ": "@
                    + lossy_text(body@)
                &&& valid_utf8(body@) ==> message@ == "Gemini API request failed with status "@
                    + line@ + ": "@ + decode_utf8(body@)
            },
        },
{
}

/// A failure of the service and a body that could not be read are reported. The body of a success is
/// read as content, whole; that of any other answer is read as a report, whole, or quoted.
pub proof fn law_answer_is_read<
    P: Fn(&Vec<u8>) -> Result<GenerateContentResponse, String>,
    E: Fn(&Vec<u8>) -> Option<GoogleApiError>,
>(
    answer: Result<Answer<Vec<u8>>, String>,
    read_content: P,
    read_error: E,
    line: String,
    r: Result<GenerateContentResponse, GeminiClientError>,
)
    requires
        call_ensures(
            GeminiClient::content_response::<P, E>,
            (answer, read_content, read_error),
            r,
        ),
        answer matches Ok(given) ==> call_ensures(StatusCode::to_string, (&given.status,), line),
    ensures
        match answer {
            Err(why) => r matches Err(GeminiClientError::AdaptiveConcurrency { source }) && source@
                == why@,
            Ok(answer) => match answer.body {
                Err(why) => r matches Err(GeminiClientError::Reqwest { source }) && source@ == why@,
                Ok(bytes) => if 200 <= answer.status@ < 300 {
                    match r {
                        Ok(content) => call_ensures(read_content, (&bytes,), Ok(content)),
                        Err(error) => error matches GeminiClientError::JsonDeserialization {
                            source,
                        } && call_ensures(read_content, (&bytes,), Err(source)),
                    }
                } else {
                    &&& r matches Err(GeminiClientError::ApiError { code, message })
                    &&& exists|reported: Option<GoogleApiError>|
                        {
                            &&& #[trigger] call_ensures(read_error, (&bytes,), reported)
                            &&& match reported {
                                Some(report) => code == report.code && message@ == report.message@,
                                None => {
                                    &&& code == answer.status@
                                    &&& message@ == "Gemini API request failed with status "@
                                        + line@ + ": "@ + lossy_text(bytes@)
                                },
                            }
                        }
                },
            },
        },
{
    if let Ok(answer) = answer {
        if let Ok(bytes) = answer.body {
            if 200 <= answer.status@ < 300 {
                let read = choose|read: Result<GenerateContentResponse, String>|
                    {
                        &&& #[trigger] call_ensures(read_content, (&bytes,), read)
                        &&& is_content(read, r)
                    };
                assert(call_ensures(read_content, (&bytes,), read));
                match read {
                    Ok(content) => {
                        assert(r == Ok::<GenerateContentResponse, GeminiClientError>(content));
                    },
                    Err(why) => {},
                }
            }
        }
    }
}

/// A prompt is asked as it is, in one part of one turn of a user, with nothing else set.
pub proof fn law_prompt_is_asked(prompt: String, r: GenerateContentRequest)
    requires
        call_ensures(GeminiClient::user_prompt_request, (prompt,), r),
    ensures
        r.contents@.len() == 1,
        r.contents@[0].role matches Some(role) && role@ == "user"@,
        ({
            &&& r.contents@[0].parts matches Some(parts)
            &&& parts@.len() == 1
            &&& parts@[0].text matches Some(text)
            &&& text@ == prompt@
        }),
        r.generation_config is None,
        r.safety_settings is None,
{
}

/// The text of an answer is that of the first part of its first candidate, whatever else the answer
/// holds; and where any of these is missing there is no content.
pub proof fn law_first_text_is_given(
    response: GenerateContentResponse,
    r: Result<String, GeminiClientError>,
)
    requires
        call_ensures(GeminiClient::text_of_response, (response,), r),
    ensures
        match response.candidates {
            None => r matches Err(GeminiClientError::NoContent),
            Some(candidates) => if candidates@.len() == 0 {
                r matches Err(GeminiClientError::NoContent)
            } else {
                match candidates@[0].content {
                    None => r matches Err(GeminiClientError::NoContent),
                    Some(content) => match content.parts {
                        None => r matches Err(GeminiClientError::NoContent),
                        Some(parts) => if parts@.len() == 0 {
                            r matches Err(GeminiClientError::NoContent)
                        } else {
                            match parts@[0].text {
                                None => r matches Err(GeminiClientError::NoContent),
                                Some(text) => r matches Ok(given) && given@ == text@,
                            }
                        },
                    },
                }
            },
        },
{
}

} // verus!
