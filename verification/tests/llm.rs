use gitai::cli::LLMProviderType;
use gitai::error::GitAIError;
use gitai::llm::{
    decode_chat_error, decode_chat_success, get_llm, LLMError, LLMProvider, Message, Role,
};
use gitai::anthropic::{decode_anthropic_success, AnthropicConfig};
use gitai::grok::GroqConfig;
use gitai::openai::OpenAIConfig;
use gitai::phind::{decode_phind_success, PhindConfig};

fn two_messages() -> Vec<Message> {
    vec![
        Message { role: Role::System, content: "be helpful".to_string() },
        Message { role: Role::User, content: "hi there".to_string() },
    ]
}

#[test]
fn get_llm_requires_key_for_openai() {
    match get_llm(LLMProviderType::Openai, None, None) {
        Err(GitAIError::MissingApiKey(p)) => assert_eq!(p, "OpenAI"),
        _ => panic!("expected a missing-key failure"),
    }
}

#[test]
fn get_llm_requires_key_for_anthropic_and_grok() {
    assert!(matches!(
        get_llm(LLMProviderType::Anthropic, None, None),
        Err(GitAIError::MissingApiKey(_))
    ));
    assert!(matches!(
        get_llm(LLMProviderType::Grok, None, None),
        Err(GitAIError::MissingApiKey(_))
    ));
}

#[test]
fn get_llm_phind_needs_no_key() {
    match get_llm(LLMProviderType::Phind, None, None) {
        Ok(LLMProvider::Phind(c)) => assert_eq!(c.model, "Phind-70B"),
        _ => panic!("expected the phind provider"),
    }
}

#[test]
fn get_llm_passes_model_override() {
    match get_llm(LLMProviderType::Grok, Some("llama-3".to_string()), Some("k".to_string())) {
        Ok(LLMProvider::Grok(c)) => {
            assert_eq!(c.model, "llama-3");
            assert_eq!(c.api_key, "k");
        },
        _ => panic!("expected the groq provider"),
    }
}

#[test]
fn missing_key_message_names_provider() {
    let e = get_llm(LLMProviderType::Openai, None, None).unwrap_err();
    assert_eq!(
        e.message(),
        "Missing API key for OpenAI, use --api-key or GITAI_API_KEY env variable"
    );
}

#[test]
fn openai_request_shape() {
    let config = OpenAIConfig::new("sk-test".to_string(), None);
    let req = config.build_request(&two_messages()).unwrap();
    assert_eq!(req.url, "https://api.openai.com/v1/chat/completions");
    assert_eq!(req.headers, vec![("Authorization".to_string(), "Bearer sk-test".to_string())]);
    assert_eq!(
        req.body,
        "{\"model\":\"gpt-4o-mini\",\"messages\":[{\"role\":\"system\",\"content\":\"be helpful\"},{\"role\":\"user\",\"content\":\"hi there\"}]}"
    );
}

#[test]
fn chat_body_is_valid_json_with_escapes() {
    let config = GroqConfig::new("k".to_string(), None);
    let messages = vec![
        Message { role: Role::System, content: "say \"hi\"\nplease\t\\ok".to_string() },
        Message { role: Role::User, content: "control:\u{1}end".to_string() },
    ];
    let req = config.build_request(&messages).unwrap();
    let parsed: serde_json::Value = serde_json::from_str(&req.body).unwrap();
    assert_eq!(parsed.get("model").unwrap().as_str().unwrap(), "mixtral-8x7b-32768");
    let items = parsed.get("messages").unwrap().as_array().unwrap();
    assert_eq!(items.len(), 2);
    assert_eq!(
        items[0].get("content").unwrap().as_str().unwrap(),
        "say \"hi\"\nplease\t\\ok"
    );
    assert_eq!(items[1].get("content").unwrap().as_str().unwrap(), "control:\u{1}end");
}

#[test]
fn anthropic_single_message_is_refused_before_any_request() {
    let config = AnthropicConfig::new("k".to_string(), None);
    let one = vec![Message { role: Role::System, content: "s".to_string() }];
    assert_eq!(config.build_request(&one).unwrap_err(), LLMError::SomeError);
    assert_eq!(config.build_request(&Vec::new()).unwrap_err(), LLMError::SomeError);
}

#[test]
fn anthropic_request_shape() {
    let config = AnthropicConfig::new("key-1".to_string(), Some("model-x".to_string()));
    let req = config.build_request(&two_messages()).unwrap();
    assert_eq!(
        req.headers,
        vec![
            ("x-api-key".to_string(), "key-1".to_string()),
            ("anthropic-version".to_string(), "2023-06-01".to_string()),
            ("Content-Type".to_string(), "application/json".to_string()),
        ]
    );
    let parsed: serde_json::Value = serde_json::from_str(&req.body).unwrap();
    assert_eq!(parsed.get("model").unwrap().as_str().unwrap(), "model-x");
    assert_eq!(parsed.get("max_tokens").unwrap().as_i64().unwrap(), 4096);
    assert_eq!(parsed.get("system").unwrap().as_str().unwrap(), "be helpful");
    let items = parsed.get("messages").unwrap().as_array().unwrap();
    assert_eq!(items.len(), 1);
    assert_eq!(items[0].get("role").unwrap().as_str().unwrap(), "user");
    assert_eq!(items[0].get("content").unwrap().as_str().unwrap(), "hi there");
}

#[test]
fn anthropic_system_field_is_empty_without_system_message() {
    let config = AnthropicConfig::new("k".to_string(), None);
    let messages = vec![
        Message { role: Role::User, content: "first".to_string() },
        Message { role: Role::User, content: "second".to_string() },
    ];
    let req = config.build_request(&messages).unwrap();
    let parsed: serde_json::Value = serde_json::from_str(&req.body).unwrap();
    assert_eq!(parsed.get("system").unwrap().as_str().unwrap(), "");
    assert_eq!(
        parsed.get("messages").unwrap().as_array().unwrap()[0]
            .get("content").unwrap().as_str().unwrap(),
        "second"
    );
}

#[test]
fn phind_single_message_is_refused_before_any_request() {
    let config = PhindConfig::new(None);
    let one = vec![Message { role: Role::User, content: "u".to_string() }];
    assert_eq!(config.build_request(&one).unwrap_err(), LLMError::SomeError);
}

#[test]
fn phind_request_shape() {
    let config = PhindConfig::new(None);
    let req = config.build_request(&two_messages()).unwrap();
    assert_eq!(req.url, "https://https.extension.phind.com/agent/");
    assert_eq!(req.headers.len(), 4);
    assert_eq!(req.headers[1], ("User-Agent".to_string(), "".to_string()));
    let parsed: serde_json::Value = serde_json::from_str(&req.body).unwrap();
    assert_eq!(parsed.get("requested_model").unwrap().as_str().unwrap(), "Phind-70B");
    assert_eq!(parsed.get("user_input").unwrap().as_str().unwrap(), "hi there");
    assert_eq!(parsed.get("allow_magic_buttons").unwrap().as_bool().unwrap(), true);
    assert_eq!(parsed.get("is_vscode_extension").unwrap().as_bool().unwrap(), true);
    assert_eq!(parsed.get("additional_extension_context").unwrap().as_str().unwrap(), "");
    assert_eq!(parsed.get("message_history").unwrap().as_array().unwrap().len(), 2);
}

#[test]
fn chat_success_reads_first_choice_content() {
    let body = "{\"choices\":[{\"message\":{\"content\":\"hello back\"}}]}";
    assert_eq!(decode_chat_success(body), Ok("hello back".to_string()));
}

#[test]
fn chat_success_without_content_is_no_completion() {
    assert_eq!(
        decode_chat_success("{\"choices\":[]}"),
        Err(LLMError::NoCompletionChoice)
    );
    assert_eq!(decode_chat_success("{}"), Err(LLMError::NoCompletionChoice));
    assert_eq!(
        decode_chat_success("{\"choices\":[{\"message\":{\"content\":7}}]}"),
        Err(LLMError::NoCompletionChoice)
    );
}

#[test]
fn chat_success_with_unparseable_body_is_request_error() {
    assert!(matches!(decode_chat_success("not json"), Err(LLMError::RequestError(_))));
}

#[test]
fn chat_error_with_parseable_body_carries_status_and_message() {
    let e = decode_chat_error(429, "{\"error\":{\"message\":\"slow down\"}}");
    assert_eq!(e, LLMError::APIError(429, "slow down".to_string()));
    assert_eq!(e.message(), "API request failed with status code 429: slow down");
}

#[test]
fn chat_error_without_message_is_unexpected_response() {
    assert_eq!(decode_chat_error(500, "{}"), LLMError::UnexpectedResponse);
    assert_eq!(
        decode_chat_error(500, "{\"error\":{}}"),
        LLMError::UnexpectedResponse
    );
}

#[test]
fn anthropic_success_reads_first_content_text() {
    let body = "{\"content\":[{\"message\":{\"text\":\"tidy\"}}]}";
    assert_eq!(decode_anthropic_success(body), Ok("tidy".to_string()));
    assert_eq!(
        decode_anthropic_success("{\"content\":[]}"),
        Err(LLMError::NoCompletionChoice)
    );
}

#[test]
fn phind_stream_concatenates_fragments_in_order() {
    let body = "data: {\"choices\":[{\"delta\":{\"content\":\"ab\"}}]}\nnot-json\ndata: {\"choices\":[{\"delta\":{\"content\":\"cd\"}}]}";
    assert_eq!(decode_phind_success(body), Ok("abcd".to_string()));
}

#[test]
fn phind_stream_without_fragments_is_no_completion() {
    assert_eq!(decode_phind_success(""), Err(LLMError::NoCompletionChoice));
    assert_eq!(
        decode_phind_success("no markers here\nnone here either"),
        Err(LLMError::NoCompletionChoice)
    );
    assert_eq!(
        decode_phind_success("data: {\"choices\":[{\"delta\":{}}]}"),
        Err(LLMError::NoCompletionChoice)
    );
}

#[test]
fn phind_stream_skips_lines_without_marker() {
    let body = "{\"choices\":[{\"delta\":{\"content\":\"zz\"}}]}\ndata: {\"choices\":[{\"delta\":{\"content\":\"ok\"}}]}";
    assert_eq!(decode_phind_success(body), Ok("ok".to_string()));
}

#[test]
fn phind_error_with_unparseable_body_is_unexpected_response() {
    let provider = LLMProvider::Phind(PhindConfig::new(None));
    assert_eq!(
        provider.decode_response(503, "<html>bad gateway</html>"),
        Err(LLMError::UnexpectedResponse)
    );
}

#[test]
fn phind_error_reads_parseable_body() {
    let provider = LLMProvider::Phind(PhindConfig::new(None));
    assert_eq!(
        provider.decode_response(400, "{\"error\":{\"message\":\"bad input\"}}"),
        Err(LLMError::APIError(400, "bad input".to_string()))
    );
    assert_eq!(
        provider.decode_response(400, "{}"),
        Err(LLMError::UnexpectedResponse)
    );
}

#[test]
fn chat_error_with_unparseable_body_is_unexpected_response() {
    assert_eq!(decode_chat_error(500, "not json at all"), LLMError::UnexpectedResponse);
}

#[test]
fn provider_decode_dispatches_on_status() {
    let provider = LLMProvider::Openai(OpenAIConfig::new("k".to_string(), None));
    assert_eq!(
        provider.decode_response(200, "{\"choices\":[{\"message\":{\"content\":\"y\"}}]}"),
        Ok("y".to_string())
    );
    assert_eq!(
        provider.decode_response(404, "{\"error\":{\"message\":\"gone\"}}"),
        Err(LLMError::APIError(404, "gone".to_string()))
    );
}

#[test]
fn provider_build_request_dispatches() {
    let provider = LLMProvider::Phind(PhindConfig::new(None));
    let short = provider.build_request(&vec![Message { role: Role::User, content: "u".to_string() }]);
    assert!(matches!(short, Err(LLMError::SomeError)));
    let ok = provider.build_request(&two_messages()).unwrap();
    assert_eq!(ok.url, "https://https.extension.phind.com/agent/");
}

#[test]
fn error_messages_render() {
    assert_eq!(LLMError::NoCompletionChoice.message(), "No completion choice available");
    assert_eq!(LLMError::UnexpectedResponse.message(), "Unexpected response");
    assert_eq!(LLMError::SomeError.message(), "Some error occurred");
    assert_eq!(
        LLMError::RequestError("boom".to_string()).message(),
        "API request failed: boom"
    );
}
