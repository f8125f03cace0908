use crate::anthropic::AnthropicConfig;
use crate::error::GitAIError;
use crate::grok::GroqConfig;
use crate::json::{append_json_string, json_error_message, json_parses, json_string};
use crate::openai::OpenAIConfig;
use crate::phind::PhindConfig;
use crate::text::{dec_str, push_char, push_dec};
use vstd::prelude::*;
use vstd::string::*;

verus! {

/// Who a chat message speaks for.
#[derive(Debug, Clone, Copy, PartialEq, Eq, Structural)]
pub enum Role {
    System,
    User,
}

/// The one cross-provider message shape: a role and a text.
#[derive(Debug, Clone)]
pub struct Message {
    pub role: Role,
    pub content: String,
}

/// Spec-level shape of a message.
pub struct MessageView {
    pub role: Role,
    pub content: Seq<char>,
}

impl View for Message {
    type V = MessageView;

    open spec fn view(&self) -> MessageView {
        MessageView { role: self.role, content: self.content@ }
    }
}

/// A prompt could not be assembled for the given entity.
#[derive(Debug, Clone, PartialEq, Eq)]
pub struct AIPromptError(pub String);

/// The error taxonomy shared by every backend: a transport-level failure, a
/// success with no usable content, a prompt-assembly failure, a non-success
/// status with a parseable error body, a non-success status with an
/// unparseable one, and a catch-all for precondition violations.
#[derive(Debug, Clone, PartialEq, Eq)]
pub enum LLMError {
    RequestError(String),
    NoCompletionChoice,
    AIPromptError(AIPromptError),
    APIError(u16, String),
    UnexpectedResponse,
    SomeError,
}

impl LLMError {
    /// The user-visible text of the error.
    pub open spec fn message_view(&self) -> Seq<char> {
        match self {
            LLMError::RequestError(s) => "API request failed: "@ + s@,
            LLMError::NoCompletionChoice => "No completion choice available"@,
            LLMError::AIPromptError(e) => e.0@,
            LLMError::APIError(status, m) => "API request failed with status code "@ + dec_str(
                *status as nat,
            ) + ": "@ + m@,
            LLMError::UnexpectedResponse => "Unexpected response"@,
            LLMError::SomeError => "Some error occurred"@,
        }
    }

    /// Renders the user-visible text of the error.
    pub fn message(&self) -> (r: String)
        ensures
            r@ == self.message_view(),
    {
        match self {
            LLMError::RequestError(s) => {
                let mut out = "API request failed: ".to_owned();
                out.append(s.as_str());
                out
            },
            LLMError::NoCompletionChoice => "No completion choice available".to_owned(),
            LLMError::AIPromptError(e) => e.0.clone(),
            LLMError::APIError(status, m) => {
                let mut out = "API request failed with status code ".to_owned();
                push_dec(&mut out, *status);
                out.append(": ");
                out.append(m.as_str());
                out
            },
            LLMError::UnexpectedResponse => "Unexpected response".to_owned(),
            LLMError::SomeError => "Some error occurred".to_owned(),
        }
    }
}

/// The wire name of a role.
pub open spec fn role_text(r: Role) -> Seq<char> {
    match r {
        Role::System => "system"@,
        Role::User => "user"@,
    }
}

/// One message as a JSON object with `role` and `content` fields.
pub open spec fn message_obj(m: MessageView) -> Seq<char> {
    "{\"role\":\""@ + role_text(m.role) + "\",\"content\":"@ + json_string(m.content) + "}"@
}

/// The comma-separated message objects, in order.
pub open spec fn messages_items(ms: Seq<MessageView>) -> Seq<char>
    decreases ms.len(),
{
    if ms.len() == 0 {
        Seq::empty()
    } else if ms.len() == 1 {
        message_obj(ms[0])
    } else {
        messages_items(ms.drop_last()) + seq![','] + message_obj(ms.last())
    }
}

/// Appends one message as a JSON object.
fn append_message_obj(out: &mut String, m: &Message)
    ensures
        final(out)@ == old(out)@ + message_obj(m@),
{
    out.append("{\"role\":\"");
    match m.role {
        Role::System => out.append("system"),
        Role::User => out.append("user"),
    }
    out.append("\",\"content\":");
    append_json_string(out, m.content.as_str());
    out.append("}");
    proof {
        assert(out@ =~= old(out)@ + message_obj(m@));
    }
}

/// Appends the messages as a JSON array, in order.
pub(crate) fn append_messages_array(out: &mut String, ms: &Vec<Message>)
    ensures
        final(out)@ == old(out)@ + "["@ + messages_items(ms@.map_values(|m: Message| m@))
            + "]"@,
{
    let ghost views = ms@.map_values(|m: Message| m@);
    out.append("[");
    let ghost base = out@;
    let mut i: usize = 0;
    while i < ms.len()
        invariant
            views == ms@.map_values(|m: Message| m@),
            views.len() == ms@.len(),
            0 <= i <= ms.len(),
            base == old(out)@ + "["@,
            out@ == base + messages_items(views.subrange(0, i as int)),
        decreases ms.len() - i,
    {
        if i > 0 {
            push_char(out, ',');
        }
        append_message_obj(out, &ms[i]);
        proof {
            let pre = views.subrange(0, i as int);
            let post = views.subrange(0, (i + 1) as int);
            assert(post.drop_last() =~= pre);
            assert(post.last() == views[i as int]);
            assert(views[i as int] == ms@[i as int]@);
            if i == 0 {
                assert(messages_items(post) == message_obj(views[0]));
            }
            assert(out@ =~= base + messages_items(post));
        }
        i += 1;
    }
    out.append("]");
    proof {
        assert(views.subrange(0, views.len() as int) =~= views);
        assert(out@ =~= old(out)@ + "["@ + messages_items(views) + "]"@);
    }
}

/// One HTTP request, as plain values: the URL, the headers to set, and the
/// JSON body to send.
#[derive(Debug, Clone)]
pub struct LLMRequest {
    pub url: String,
    pub headers: Vec<(String, String)>,
    pub body: String,
}

/// The request body of the chat-completions wire shape: the model and the
/// full ordered message array.
pub open spec fn chat_body_text(model: Seq<char>, ms: Seq<MessageView>) -> Seq<char> {
    "{\"model\":"@ + json_string(model) + ",\"messages\":"@ + "["@ + messages_items(ms) + "]"@
        + "}"@
}

/// Builds the chat-completions request body.
pub(crate) fn build_chat_body(model: &String, ms: &Vec<Message>) -> (r: String)
    ensures
        r@ == chat_body_text(model@, ms@.map_values(|m: Message| m@)),
{
    let mut out = "{\"model\":".to_owned();
    append_json_string(&mut out, model.as_str());
    out.append(",\"messages\":");
    append_messages_array(&mut out, ms);
    out.append("}");
    proof {
        assert(out@ =~= chat_body_text(model@, ms@.map_values(|m: Message| m@)));
    }
    out
}

/// What a chat-completions success body yields: the string under the first
/// choice's message content, if the parsed body holds one. The extraction is
/// a function of the text alone.
pub uninterp spec fn chat_content_of(body: Seq<char>) -> Option<Seq<char>>;

/// Relies on serde_json::from_str::<Value> and Value::get and Value::as_str:
/// parses the body and extracts the first choice's message content
/// (`choices[0].message.content`), or the parse failure.
#[verifier::external_body]
fn extract_chat_content(body: &str) -> (r: Result<Option<String>, serde_json::Error>)
    ensures
        match r {
            Ok(Some(s)) => json_parses(body@) && chat_content_of(body@) == Some(s@),
            Ok(None) => json_parses(body@) && chat_content_of(body@) is None,
            Err(_) => !json_parses(body@),
        },
{
    match serde_json::from_str::<serde_json::Value>(body) {
        Ok(v) => Ok(
            v.get("choices").and_then(|c| c.get(0)).and_then(|c| c.get("message")).and_then(
                |m| m.get("content"),
            ).and_then(|c| c.as_str()).map(|s| s.to_owned()),
        ),
        Err(e) => Err(e),
    }
}

/// What a non-success body yields: the string under the shared envelope's
/// `error.message`, if the parsed body holds one. The extraction is a
/// function of the text alone.
pub uninterp spec fn error_message_of(body: Seq<char>) -> Option<Seq<char>>;

/// Relies on serde_json::from_str::<Value> and Value::get and Value::as_str:
/// parses the body and extracts the error envelope's message
/// (`error.message`), or the parse failure.
#[verifier::external_body]
fn extract_error_message(body: &str) -> (r: Result<Option<String>, serde_json::Error>)
    ensures
        match r {
            Ok(Some(s)) => json_parses(body@) && error_message_of(body@) == Some(s@),
            Ok(None) => json_parses(body@) && error_message_of(body@) is None,
            Err(_) => !json_parses(body@),
        },
{
    match serde_json::from_str::<serde_json::Value>(body) {
        Ok(v) => Ok(
            v.get("error").and_then(|e| e.get("message")).and_then(|m| m.as_str()).map(
                |s| s.to_owned(),
            ),
        ),
        Err(e) => Err(e),
    }
}

/// The decoded outcome of a chat-completions success body: the extracted
/// first-choice content; a missing completion exactly when the parsed body
/// lacks that content; a transport-level decode failure exactly when the
/// body is not JSON.
pub open spec fn chat_success_decoded(r: Result<String, LLMError>, body: Seq<char>) -> bool {
    match r {
        Ok(s) => json_parses(body) && chat_content_of(body) == Some(s@),
        Err(e) => match e {
            LLMError::NoCompletionChoice => json_parses(body) && chat_content_of(body) is None,
            LLMError::RequestError(_) => !json_parses(body),
            _ => false,
        },
    }
}

/// The decoded outcome of a non-success body: the envelope's message,
/// surfaced with the given status, exactly when the parsed body holds one;
/// an unexpected response otherwise, an unparseable body included.
pub open spec fn error_decoded(e: LLMError, status: u16, body: Seq<char>) -> bool {
    match e {
        LLMError::APIError(st, m) => st == status && json_parses(body) && error_message_of(body)
            == Some(m@),
        LLMError::UnexpectedResponse => !json_parses(body) || error_message_of(body) is None,
        _ => false,
    }
}

/// Decodes a success body of the chat-completions shape: the first choice's
/// message content. A body that is not JSON is a transport-level decode
/// failure; a JSON body without that content is a missing completion.
pub fn decode_chat_success(body: &str) -> (r: Result<String, LLMError>)
    ensures
        chat_success_decoded(r, body@),
{
    match extract_chat_content(body) {
        Ok(Some(s)) => Ok(s),
        Ok(None) => Err(LLMError::NoCompletionChoice),
        Err(e) => Err(LLMError::RequestError(json_error_message(&e))),
    }
}

/// Decodes a non-success body of the shared error envelope: a parseable
/// `error.message` is surfaced with the status code; any other body, an
/// unparseable one included, is an unexpected response.
pub fn decode_chat_error(status: u16, body: &str) -> (r: LLMError)
    ensures
        error_decoded(r, status, body@),
{
    match extract_error_message(body) {
        Ok(Some(m)) => LLMError::APIError(status, m),
        Ok(None) => LLMError::UnexpectedResponse,
        Err(_) => LLMError::UnexpectedResponse,
    }
}

/// The selected backend, with its connection settings. Selection happens
/// once per invocation; there is no runtime switching.
#[derive(Debug, Clone)]
pub enum LLMProvider {
    Openai(OpenAIConfig),
    Anthropic(AnthropicConfig),
    Phind(PhindConfig),
    Grok(GroqConfig),
}

/// Builds the provider selected by the configuration. A provider that needs
/// an API key fails with the missing-key error when none is configured,
/// before any request could be made.
pub fn get_llm(provider: crate::cli::LLMProviderType, model: Option<String>, api_key: Option<
    String,
>) -> (r: Result<LLMProvider, GitAIError>)
    ensures
        match provider {
            crate::cli::LLMProviderType::Openai => match (r, api_key) {
                (Ok(LLMProvider::Openai(c)), Some(k)) => c.api_key@ == k@ && c.model@ == (
                match model {
                    Some(ref m) => m@,
                    None => "gpt-4o-mini"@,
                }),
                (Err(GitAIError::MissingApiKey(p)), None) => p@ == "OpenAI"@,
                _ => false,
            },
            crate::cli::LLMProviderType::Anthropic => match (r, api_key) {
                (Ok(LLMProvider::Anthropic(c)), Some(k)) => c.api_key@ == k@ && c.model@ == (
                match model {
                    Some(ref m) => m@,
                    None => "gpt-4o-mini"@,
                }),
                (Err(GitAIError::MissingApiKey(p)), None) => p@ == "Anthropic"@,
                _ => false,
            },
            crate::cli::LLMProviderType::Grok => match (r, api_key) {
                (Ok(LLMProvider::Grok(c)), Some(k)) => c.api_key@ == k@ && c.model@ == (
                match model {
                    Some(ref m) => m@,
                    None => "mixtral-8x7b-32768"@,
                }),
                (Err(GitAIError::MissingApiKey(p)), None) => p@ == "Grok"@,
                _ => false,
            },
            crate::cli::LLMProviderType::Phind => match r {
                Ok(LLMProvider::Phind(c)) => c.model@ == (match model {
                    Some(ref m) => m@,
                    None => "Phind-70B"@,
                }),
                _ => false,
            },
        },
{
    match provider {
        crate::cli::LLMProviderType::Openai => {
            let key = match api_key {
                Some(k) => k,
                None => {
                    return Err(GitAIError::MissingApiKey("OpenAI".to_owned()));
                },
            };
            Ok(LLMProvider::Openai(OpenAIConfig::new(key, model)))
        },
        crate::cli::LLMProviderType::Anthropic => {
            let key = match api_key {
                Some(k) => k,
                None => {
                    return Err(GitAIError::MissingApiKey("Anthropic".to_owned()));
                },
            };
            Ok(LLMProvider::Anthropic(AnthropicConfig::new(key, model)))
        },
        crate::cli::LLMProviderType::Phind => {
            Ok(LLMProvider::Phind(PhindConfig::new(model)))
        },
        crate::cli::LLMProviderType::Grok => {
            let key = match api_key {
                Some(k) => k,
                None => {
                    return Err(GitAIError::MissingApiKey("Grok".to_owned()));
                },
            };
            Ok(LLMProvider::Grok(GroqConfig::new(key, model)))
        },
    }
}

impl LLMProvider {
    /// Builds the one HTTP request that completes the given messages on this
    /// backend, without sending it. A backend whose wire format has a single
    /// user slot refuses fewer than two messages before any request exists.
    pub fn build_request(&self, messages: &Vec<Message>) -> (r: Result<LLMRequest, LLMError>)
        ensures
            match self {
                LLMProvider::Openai(c) => match r {
                    Ok(req) => req.url@ == c.api_base_url@ && req.body@ == chat_body_text(
                        c.model@,
                        messages@.map_values(|m: Message| m@),
                    ) && req.headers@.len() == 1 && req.headers@[0].0@ == "Authorization"@
                        && req.headers@[0].1@ == "Bearer "@ + c.api_key@,
                    Err(_) => false,
                },
                LLMProvider::Grok(c) => match r {
                    Ok(req) => req.url@ == c.api_base_url@ && req.body@ == chat_body_text(
                        c.model@,
                        messages@.map_values(|m: Message| m@),
                    ) && req.headers@.len() == 1 && req.headers@[0].0@ == "Authorization"@
                        && req.headers@[0].1@ == "Bearer "@ + c.api_key@,
                    Err(_) => false,
                },
                LLMProvider::Anthropic(c) => match r {
                    Ok(req) => messages@.len() >= 2 && req.url@ == c.api_base_url@ && req.body@
                        == crate::anthropic::anthropic_body_text(
                        c.model@,
                        crate::anthropic::first_system_content(
                            messages@.map_values(|m: Message| m@),
                        ),
                        messages@[1]@.content,
                    ) && req.headers@.len() == 3 && req.headers@[0].0@ == "x-api-key"@
                        && req.headers@[0].1@ == c.api_key@ && req.headers@[1].0@
                        == "anthropic-version"@ && req.headers@[1].1@ == "2023-06-01"@
                        && req.headers@[2].0@ == "Content-Type"@ && req.headers@[2].1@
                        == "application/json"@,
                    Err(e) => messages@.len() < 2 && e == LLMError::SomeError,
                },
                LLMProvider::Phind(c) => match r {
                    Ok(req) => messages@.len() >= 2 && req.url@ == c.api_base_url@ && req.body@
                        == crate::phind::phind_body_text(
                        c.model@,
                        messages@.map_values(|m: Message| m@),
                        messages@[1]@.content,
                    ) && req.headers@.len() == 4,
                    Err(e) => messages@.len() < 2 && e == LLMError::SomeError,
                },
            },
    {
        match self {
            LLMProvider::Openai(c) => c.build_request(messages),
            LLMProvider::Anthropic(c) => c.build_request(messages),
            LLMProvider::Phind(c) => c.build_request(messages),
            LLMProvider::Grok(c) => c.build_request(messages),
        }
    }

    /// Decodes one HTTP response for this backend: a success status yields
    /// the completion text the backend's body shape carries, a non-success
    /// status yields the decoded error carrying that status.
    pub fn decode_response(&self, status: u16, body: &str) -> (r: Result<String, LLMError>)
        ensures
            match self {
                LLMProvider::Openai(_) => {
                    if status == 200 {
                        chat_success_decoded(r, body@)
                    } else {
                        match r {
                            Ok(_) => false,
                            Err(e) => error_decoded(e, status, body@),
                        }
                    }
                },
                LLMProvider::Grok(_) => {
                    if status == 200 {
                        chat_success_decoded(r, body@)
                    } else {
                        match r {
                            Ok(_) => false,
                            Err(e) => error_decoded(e, status, body@),
                        }
                    }
                },
                LLMProvider::Anthropic(_) => {
                    if status == 200 {
                        crate::anthropic::anthropic_success_decoded(r, body@)
                    } else {
                        match r {
                            Ok(_) => false,
                            Err(e) => error_decoded(e, status, body@),
                        }
                    }
                },
                LLMProvider::Phind(_) => {
                    if status == 200 {
                        crate::phind::phind_success_decoded(r, body@)
                    } else {
                        match r {
                            Ok(_) => false,
                            Err(e) => error_decoded(e, status, body@),
                        }
                    }
                },
            },
    {
        match self {
            LLMProvider::Openai(_) => {
                if status == 200 {
                    decode_chat_success(body)
                } else {
                    Err(decode_chat_error(status, body))
                }
            },
            LLMProvider::Grok(_) => {
                if status == 200 {
                    decode_chat_success(body)
                } else {
                    Err(decode_chat_error(status, body))
                }
            },
            LLMProvider::Anthropic(_) => {
                if status == 200 {
                    crate::anthropic::decode_anthropic_success(body)
                } else {
                    Err(decode_chat_error(status, body))
                }
            },
            LLMProvider::Phind(_) => {
                if status == 200 {
                    crate::phind::decode_phind_success(body)
                } else {
                    Err(decode_chat_error(status, body))
                }
            },
        }
    }
}

} // verus!
