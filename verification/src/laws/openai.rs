//! Laws of the OpenAI client.

use crate::adaptive_concurrency::http::StatusCode;
use crate::adaptive_concurrency::request::header_texts;
use crate::adaptive_concurrency::request::is_header_char;
use crate::adaptive_concurrency::request::is_header_text;
use crate::adaptive_concurrency::request::uri_parsed;
use crate::adaptive_concurrency::request::Answer;
use crate::adaptive_concurrency::request::HttpRequest;
use crate::openai_client::is_completion;
use crate::openai_client::ChatCompletionRequest;
use crate::openai_client::ChatCompletionResponse;
use crate::openai_client::ChatMessage;
use crate::openai_client::OpenAIClient;
use crate::openai_client::OpenAIClientConfig;
use crate::openai_client::OpenAIClientError;
use crate::text::decimal_text;
use crate::text::trim_end;
use vstd::prelude::*;

verus! {

/// An error is described by its kind and by what it holds: in full, but for the body of an answer
/// that could not be read, of which no more than 100 characters are quoted.
pub proof fn law_error_text(error: OpenAIClientError, number: String, r: String)
    requires
        call_ensures(OpenAIClientError::to_string, (&error,), r),
        error matches OpenAIClientError::ApiError { status, .. } ==> call_ensures(
            decimal_text,
            (status,),
            number,
        ),
        error matches OpenAIClientError::ResponseDeserialization { status, .. } ==> call_ensures(
            decimal_text,
            (status,),
            number,
        ),
    ensures
        match error {
            OpenAIClientError::Initialization(why) => r@ == "OpenAI Client Initialization Error: "@
                + why@,
            OpenAIClientError::RequestBuild(why) => r@ == "Failed to build request: "@ + why@,
            OpenAIClientError::Serialization(why) => r@ == "JSON serialization error: "@ + why@,
            OpenAIClientError::ServiceError => r@ == "Underlying service error"@,
            OpenAIClientError::ApiError { error_body, .. } => r@ == "OpenAI API Error (status "@
                + number@ + "): "@ + error_body@,
            OpenAIClientError::ResponseDeserialization { body_text, source, .. } => r@
                == "Failed to deserialize OpenAI response (status "@ + number@ + "): "@ + source@
                + ". Body: "@ + (if body_text@.len() <= 100 {
                body_text@
            } else {
                body_text@.subrange(0, 100)
            }),
            OpenAIClientError::StreamUnsupported => r@
                == "Streaming is not supported by this method"@,
        },
{
}

/// An error has a cause where JSON could not be written or read, and it is that.
pub proof fn law_error_cause(error: OpenAIClientError, r: Option<&String>)
    requires
        call_ensures(OpenAIClientError::source, (&error,), r),
    ensures
        match error {
            OpenAIClientError::Serialization(why) => r matches Some(cause) && cause@ == why@,
            OpenAIClientError::ResponseDeserialization { source, .. } => r matches Some(cause)
                && cause@ == source@,
            OpenAIClientError::Initialization(_) => r is None,
            OpenAIClientError::RequestBuild(_) => r is None,
            OpenAIClientError::ServiceError => r is None,
            OpenAIClientError::ApiError { .. } => r is None,
            OpenAIClientError::StreamUnsupported => r is None,
        },
{
}

/// What a client is set to by default. The ratios are the bit patterns of 0.75, 0.3 and 1.25.
pub proof fn law_default_config(r: OpenAIClientConfig)
    requires
        call_ensures(OpenAIClientConfig::default, (), r),
    ensures
        r.api_key@ == Seq::<char>::empty(),
        r.base_url@ == "https://api.openai.com"@,
        r.default_model@ == "gpt-3.5-turbo"@,
        r.adaptive_concurrency@.initial_concurrency == 2,
        r.adaptive_concurrency@.max_concurrency_limit == 8,
        r.adaptive_concurrency@.decrease_ratio.bits == 0x3FE8_0000_0000_0000,
        r.adaptive_concurrency@.ewma_alpha.bits == 0x3FD3_3333_3333_3333,
        r.adaptive_concurrency@.rtt_deviation_scale.bits == 0x3FF4_0000_0000_0000,
        r.retry_max_attempts == 10,
        r.retry_initial_backoff_ms == 1000,
        r.retry_exp_base == 2,
        r.retry_max_single_delay_secs == 60,
        r.user_agent matches Some(agent) && agent@ == "rust-openai-client-aimd/0.1.0"@,
{
}

/// A client needs an API key, and nothing else. It keeps its configuration, asks at the path of chat
/// completions under its base URL, and retries as its configuration says: so many attempts in all,
/// from the initial delay on, each delay the exponential base times the one before, up to the
/// longest, with full jitter.
pub proof fn law_client_is_set_up(
    config: OpenAIClientConfig,
    base_url: &str,
    trimmed: String,
    r: Result<OpenAIClient, OpenAIClientError>,
)
    requires
        call_ensures(OpenAIClient::new, (config,), r),
        base_url@ == config.base_url@,
        call_ensures(trim_end, (base_url, '/'), trimmed),
    ensures
        if config.api_key@ == Seq::<char>::empty() {
            r matches Err(OpenAIClientError::Initialization(why)) && why@
                == "API key cannot be empty"@
        } else {
            &&& r matches Ok(client)
            &&& client.config == config
            &&& client.chat_completions_url@ == trimmed@ + "/v1/chat/completions"@
            &&& client.retry_policy@.attempts_remaining == (if config.retry_max_attempts == 0 {
                0int
            } else {
                config.retry_max_attempts - 1
            })
            &&& client.retry_policy@.backoff.start == config.retry_initial_backoff_ms
            &&& client.retry_policy@.backoff.current == config.retry_initial_backoff_ms
            &&& client.retry_policy@.backoff.base == config.retry_exp_base
            &&& client.retry_policy@.backoff.factor == 1
            &&& client.retry_policy@.backoff.max matches Some(limit)
            &&& limit == config.retry_max_single_delay_secs * 1_000_000_000
            &&& client.retry_policy@.mode is Full
            &&& client.retry_policy@.max_total matches Some(total)
            &&& total == 300_000_000_000
            &&& client.http_client.timeout@ == 90_000_000_000
            &&& client.http_client.connect_timeout@ == 10_000_000_000
            &&& client.http_client.user_agent is None
        },
{
    if config.api_key@.len() == 0 {
        assert(config.api_key@ =~= Seq::<char>::empty());
    }
}

/// Whether a text holds no control character of ASCII but tabs.
pub open spec fn is_plain(text: Seq<char>) -> bool {
    forall|i: int|
        0 <= i < text.len() ==> (#[trigger] text[i] == '\t' || (text[i] as u32 >= 32 && text[i] as u32
            != 127))
}

proof fn lemma_plain(text: Seq<char>)
    ensures
        is_header_text(text) <==> is_plain(text),
{
    if is_plain(text) {
        assert forall|i: int| 0 <= i < text.len() implies is_header_char(#[trigger] text[i]) by {}
    }
    if is_header_text(text) {
        assert forall|i: int| 0 <= i < text.len() implies (#[trigger] text[i] == '\t' || (
        text[i] as u32 >= 32 && text[i] as u32 != 127)) by {
            assert(is_header_char(text[i]));
        }
    }
}

proof fn lemma_bearer(key: Seq<char>)
    ensures
        is_header_text("Bearer "@ + key) <==> is_plain(key),
        ("Bearer "@ + key).len() == 7 + key.len(),
        ("Bearer "@ + key).subrange(7, 7 + key.len() as int) == key,
{
    reveal_strlit("Bearer ");
    let value = "Bearer "@ + key;
    lemma_plain(value);
    assert(value.subrange(7, 7 + key.len() as int) =~= key);
    if is_plain(value) {
        assert forall|i: int| 0 <= i < key.len() implies (#[trigger] key[i] == '\t' || (
        key[i] as u32 >= 32 && key[i] as u32 != 127)) by {
            assert(value[i + 7] == key[i]);
        }
    }
    if is_plain(key) {
        assert forall|i: int| 0 <= i < value.len() implies (#[trigger] value[i] == '\t' || (
        value[i] as u32 >= 32 && value[i] as u32 != 127)) by {
            if i >= 7 {
                assert(value[i] == key[i - 7]);
            }
        }
    }
}

proof fn lemma_headers(headers: Seq<(String, String)>, i: int)
    requires
        0 <= i < headers.len(),
    ensures
        header_texts(headers).len() == headers.len(),
        header_texts(headers)[i] == (headers[i].0@, headers[i].1@),
{
}

/// Whether a request is the one that asks for a completion: it posts the whole payload as JSON to
/// the URI. Its first header authorizes it with the whole API key; it has just one such header; and
/// it names the user agent where there is one.
pub open spec fn asks(
    request: HttpRequest,
    uri: Seq<char>,
    key: Seq<char>,
    agent: Option<String>,
    payload: Seq<u8>,
) -> bool {
    &&& request.method@ == "POST"@
    &&& request.uri@ == uri
    &&& request.body matches Some(sent)
    &&& sent@ == payload
    &&& request.headers@.len() == (if agent is Some {
        3int
    } else {
        2
    })
    &&& request.headers@[0].0@ == "Authorization"@
    &&& request.headers@[0].1@ == "Bearer "@ + key
    &&& request.headers@[0].1@.len() == 7 + key.len()
    &&& request.headers@[0].1@.subrange(7, 7 + key.len() as int) == key
    &&& request.headers@[1].0@ == "Content-Type"@
    &&& request.headers@[1].1@ == "application/json"@
    &&& agent matches Some(name) ==> request.headers@[2].0@ == "user-agent"@
        && request.headers@[2].1@ == name@
}

/// A request posts the whole payload, authorized with the whole API key. A payload that could not be
/// written comes before a user agent that is no header value, that before an endpoint that is no
/// URI, and that before an API key that is no header value.
pub proof fn law_completion_is_asked_for(
    client: OpenAIClient,
    parsed: Result<String, String>,
    payload: Result<Vec<u8>, String>,
    r: Result<HttpRequest, OpenAIClientError>,
)
    requires
        call_ensures(OpenAIClient::chat_request_to, (&client, parsed, payload), r),
    ensures
        match payload {
            Err(why) => r matches Err(OpenAIClientError::Serialization(source)) && source@ == why@,
            Ok(bytes) => if client.config.user_agent matches Some(agent) && !is_plain(agent@) {
                r matches Err(OpenAIClientError::RequestBuild(why)) && why@
                    == "Invalid User-Agent: "@ + "failed to parse header value"@
            } else {
                match parsed {
                    Err(reason) => r matches Err(OpenAIClientError::RequestBuild(why)) && why@
                        == reason@,
                    Ok(uri) => if is_plain(client.config.api_key@) {
                        r matches Ok(request) && asks(
                            request,
                            uri@,
                            client.config.api_key@,
                            client.config.user_agent,
                            bytes@,
                        )
                    } else {
                        r matches Err(OpenAIClientError::RequestBuild(why)) && why@
                            == "failed to parse header value"@
                    },
                }
            },
        },
{
    lemma_bearer(client.config.api_key@);
    if let Some(agent) = client.config.user_agent {
        lemma_plain(agent@);
    }
    if let Ok(request) = r {
        let headers = request.headers@;
        assert(header_texts(headers).len() == headers.len());
        lemma_headers(headers, 0);
        lemma_headers(headers, 1);
        if client.config.user_agent is Some {
            lemma_headers(headers, 2);
        }
    }
}

/// Of an API key without control characters, a request has exactly one `Authorization` header, and
/// its value ends with the whole key, after `Bearer ` and nothing else.
pub proof fn law_one_authorization_with_the_whole_key(
    client: OpenAIClient,
    parsed: Result<String, String>,
    payload: Result<Vec<u8>, String>,
    request: HttpRequest,
    i: int,
)
    requires
        call_ensures(OpenAIClient::chat_request_to, (&client, parsed, payload), Ok(request)),
        0 <= i < request.headers@.len(),
        request.headers@[i].0@ == "Authorization"@,
    ensures
        i == 0,
        request.headers@[i].1@.len() == 7 + client.config.api_key@.len(),
        request.headers@[i].1@.subrange(0, 7) == "Bearer "@,
        request.headers@[i].1@.subrange(7, 7 + client.config.api_key@.len() as int)
            == client.config.api_key@,
{
    law_completion_is_asked_for(client, parsed, payload, Ok(request));
    reveal_strlit("Authorization");
    reveal_strlit("Content-Type");
    reveal_strlit("user-agent");
    reveal_strlit("Bearer ");
    assert("Authorization"@[0] == 'A');
    assert("Content-Type"@[0] == 'C');
    assert("user-agent"@[0] == 'u');
    assert(("Bearer "@ + client.config.api_key@).subrange(0, 7) =~= "Bearer "@);
}

/// A request goes to what the client's endpoint is as a URI.
pub proof fn law_request_goes_to_the_endpoint(
    client: OpenAIClient,
    payload: Vec<u8>,
    r: Result<HttpRequest, OpenAIClientError>,
)
    requires
        call_ensures(OpenAIClient::chat_request, (&client, Ok(payload)), r),
        client.config.user_agent matches Some(agent) ==> is_plain(agent@),
        is_plain(client.config.api_key@),
    ensures
        match uri_parsed(client.chat_completions_url@) {
            Ok(uri) => r matches Ok(request) && asks(
                request,
                uri,
                client.config.api_key@,
                client.config.user_agent,
                payload@,
            ),
            Err(reason) => r matches Err(OpenAIClientError::RequestBuild(why)) && why@ == reason,
        },
{
    lemma_bearer(client.config.api_key@);
    if let Some(agent) = client.config.user_agent {
        lemma_plain(agent@);
    }
    if let Ok(request) = r {
        let headers = request.headers@;
        assert(header_texts(headers).len() == headers.len());
        lemma_headers(headers, 0);
        lemma_headers(headers, 1);
        if client.config.user_agent is Some {
            lemma_headers(headers, 2);
        }
    }
}

/// A request that cannot be built says why: that of the payload first, then the user agent, then the
/// endpoint, then the API key.
pub proof fn law_request_that_is_refused(
    client: OpenAIClient,
    payload: Result<Vec<u8>, String>,
    r: Result<HttpRequest, OpenAIClientError>,
)
    requires
        call_ensures(OpenAIClient::chat_request, (&client, payload), r),
    ensures
        payload matches Err(why) ==> (r matches Err(OpenAIClientError::Serialization(source))
            && source@ == why@),
        payload is Ok && (client.config.user_agent matches Some(agent) && !is_plain(agent@)) ==> (
        r matches Err(OpenAIClientError::RequestBuild(why)) && why@ == "Invalid User-Agent: "@
            + "failed to parse header value"@),
        payload is Ok && (client.config.user_agent matches Some(agent) ==> is_plain(agent@))
            && uri_parsed(client.chat_completions_url@) is Ok && !is_plain(client.config.api_key@)
            ==> (r matches Err(OpenAIClientError::RequestBuild(why)) && why@
            == "failed to parse header value"@),
{
    lemma_bearer(client.config.api_key@);
    if let Some(agent) = client.config.user_agent {
        lemma_plain(agent@);
    }
}

/// What was read as a completion is handed on, and why it could not be read is reported with the
/// status and the whole body.
pub proof fn law_completion_is_handed_on(
    status: StatusCode,
    body: String,
    read: Result<ChatCompletionResponse, String>,
    r: Result<ChatCompletionResponse, OpenAIClientError>,
)
    requires
        call_ensures(OpenAIClient::completion_of, (status, body, read), r),
    ensures
        match read {
            Ok(completion) => r matches Ok(given) && given == completion,
            Err(why) => {
                &&& r matches Err(
                    OpenAIClientError::ResponseDeserialization { status: code, body_text, source },
                )
                &&& code == status@
                &&& body_text@ == body@
                &&& source@ == why@
            },
        },
{
}

/// A failure of the service is reported, and so is a body that could not be read. The body of a
/// success is read as a completion, whole; any other answer is reported with its status and its
/// whole body.
pub proof fn law_answer_is_read<P: Fn(&String) -> Result<ChatCompletionResponse, String>>(
    answer: Result<Answer<String>, String>,
    read_completion: P,
    r: Result<ChatCompletionResponse, OpenAIClientError>,
)
    requires
        call_ensures(OpenAIClient::chat_response::<P>, (answer, read_completion), r),
    ensures
        match answer {
            Err(_) => r matches Err(OpenAIClientError::ServiceError),
            Ok(answer) => match answer.body {
                Err(why) => {
                    &&& r matches Err(OpenAIClientError::ApiError { status, error_body })
                    &&& status == answer.status@
                    &&& error_body@ == "Failed to read response body: "@ + why@
                },
                Ok(body) => if 200 <= answer.status@ < 300 {
                    match r {
                        Ok(completion) => call_ensures(read_completion, (&body,), Ok(completion)),
                        Err(error) => {
                            &&& error matches OpenAIClientError::ResponseDeserialization {
                                status,
                                body_text,
                                source,
                            }
                            &&& status == answer.status@
                            &&& body_text@ == body@
                            &&& call_ensures(read_completion, (&body,), Err(source))
                        },
                    }
                } else {
                    &&& r matches Err(OpenAIClientError::ApiError { status, error_body })
                    &&& status == answer.status@
                    &&& error_body@ == body@
                },
            },
        },
{
    if let Ok(answer) = answer {
        if let Ok(body) = answer.body {
            if 200 <= answer.status@ < 300 {
                let read = choose|read: Result<ChatCompletionResponse, String>|
                    {
                        &&& #[trigger] call_ensures(read_completion, (&body,), read)
                        &&& is_completion(answer.status@, body, read, r)
                    };
                assert(call_ensures(read_completion, (&body,), read));
                match read {
                    Ok(completion) => {
                        assert(r == Ok::<ChatCompletionResponse, OpenAIClientError>(completion));
                    },
                    Err(why) => {},
                }
            }
        }
    }
}

/// Messages are asked of the default model as they are, with nothing else set.
pub proof fn law_messages_are_asked(
    client: OpenAIClient,
    messages: Vec<ChatMessage>,
    r: ChatCompletionRequest,
)
    requires
        call_ensures(OpenAIClient::messages_request, (&client, messages), r),
    ensures
        r.model@ == client.config.default_model@,
        r.messages@ == messages@,
        r.temperature is None,
        r.max_tokens is None,
{
}

} // verus!
