use crate::json::{append_json_string, json_error_message, json_parses, json_string};
use crate::llm::{LLMError, LLMRequest, Message, MessageView, Role};
use vstd::prelude::*;
use vstd::string::*;

verus! {

/// Connection settings for the messages-with-separate-system backend.
#[derive(Debug, Clone)]
pub struct AnthropicConfig {
    pub api_key: String,
    pub model: String,
    pub api_base_url: String,
}

impl AnthropicConfig {
    /// Builds the settings: the given key, the model or its default, and the
    /// fixed endpoint.
    pub fn new(api_key: String, model: Option<String>) -> (c: AnthropicConfig)
        ensures
            c.api_key@ == api_key@,
            c.model@ == (match model {
                Some(ref m) => m@,
                None => "gpt-4o-mini"@,
            }),
            c.api_base_url@ == "https://api.openai.com/v1/chat/completions"@,
    {
        AnthropicConfig {
            api_key,
            model: match model {
                Some(m) => m,
                None => "gpt-4o-mini".to_owned(),
            },
            api_base_url: "https://api.openai.com/v1/chat/completions".to_owned(),
        }
    }

    /// The request for a wire format whose system text is a top-level field
    /// and whose message array has a single user slot: the system text is
    /// taken from the first system message (empty if none), and only the
    /// second message goes out as the user turn. Fewer than two messages are
    /// refused before any request exists: the format has no place for them.
    pub fn build_request(&self, messages: &Vec<Message>) -> (r: Result<LLMRequest, LLMError>)
        ensures
            match r {
                Ok(req) => messages@.len() >= 2 && req.url@ == self.api_base_url@ && req.body@
                    == anthropic_body_text(
                    self.model@,
                    first_system_content(messages@.map_values(|m: Message| m@)),
                    messages@[1]@.content,
                ) && req.headers@.len() == 3 && req.headers@[0].0@ == "x-api-key"@
                    && req.headers@[0].1@ == self.api_key@ && req.headers@[1].0@
                    == "anthropic-version"@ && req.headers@[1].1@ == "2023-06-01"@
                    && req.headers@[2].0@ == "Content-Type"@ && req.headers@[2].1@
                    == "application/json"@,
                Err(e) => messages@.len() < 2 && e == LLMError::SomeError,
            },
    {
        if messages.len() < 2 {
            return Err(LLMError::SomeError);
        }
        let system_prompt = first_system(messages);
        let user_message = &messages[1];
        let mut body = "{\"model\":".to_owned();
        append_json_string(&mut body, self.model.as_str());
        body.append(",\"max_tokens\":4096,\"system\":");
        append_json_string(&mut body, system_prompt.as_str());
        body.append(",\"messages\":[{\"role\":\"user\",\"content\":");
        append_json_string(&mut body, user_message.content.as_str());
        body.append("}]}");
        proof {
            assert(body@ =~= anthropic_body_text(
                self.model@,
                first_system_content(messages@.map_values(|m: Message| m@)),
                messages@[1]@.content,
            ));
        }
        let mut headers: Vec<(String, String)> = Vec::new();
        headers.push(("x-api-key".to_owned(), self.api_key.clone()));
        headers.push(("anthropic-version".to_owned(), "2023-06-01".to_owned()));
        headers.push(("Content-Type".to_owned(), "application/json".to_owned()));
        Ok(LLMRequest { url: self.api_base_url.clone(), headers, body })
    }
}

/// The request body: model, a fixed token budget, the system text as a
/// top-level field, and a one-element message array with the user turn.
pub open spec fn anthropic_body_text(model: Seq<char>, system: Seq<char>, user: Seq<char>) -> Seq<
    char,
> {
    "{\"model\":"@ + json_string(model) + ",\"max_tokens\":4096,\"system\":"@ + json_string(system)
        + ",\"messages\":[{\"role\":\"user\",\"content\":"@ + json_string(user) + "}]}"@
}

/// The content of the first system message, or empty text if none.
pub open spec fn first_system_content(ms: Seq<MessageView>) -> Seq<char>
    decreases ms.len(),
{
    if ms.len() == 0 {
        Seq::empty()
    } else if ms[0].role is System {
        ms[0].content
    } else {
        first_system_content(ms.drop_first())
    }
}

proof fn lemma_first_system_skip(ms: Seq<MessageView>, i: int)
    requires
        0 <= i <= ms.len(),
        forall|k: int| 0 <= k < i ==> !(#[trigger] ms[k].role is System),
    ensures
        first_system_content(ms) == first_system_content(ms.subrange(i, ms.len() as int)),
    decreases i,
{
    if i == 0 {
        assert(ms.subrange(0, ms.len() as int) =~= ms);
    } else {
        assert(!(ms[0].role is System));
        assert forall|k: int| 0 <= k < i - 1 implies !(#[trigger] ms.drop_first()[k].role
            is System) by {
            assert(ms.drop_first()[k] == ms[k + 1]);
        }
        lemma_first_system_skip(ms.drop_first(), i - 1);
        assert(ms.drop_first().subrange(i - 1, ms.drop_first().len() as int) =~= ms.subrange(
            i,
            ms.len() as int,
        ));
    }
}

/// The content of the first system message among the given ones, or an
/// empty text if there is none.
fn first_system(messages: &Vec<Message>) -> (r: String)
    ensures
        r@ == first_system_content(messages@.map_values(|m: Message| m@)),
{
    let ghost views = messages@.map_values(|m: Message| m@);
    let mut i: usize = 0;
    while i < messages.len()
        invariant
            views == messages@.map_values(|m: Message| m@),
            views.len() == messages@.len(),
            0 <= i <= messages.len(),
            forall|k: int| 0 <= k < i ==> !(#[trigger] views[k].role is System),
        decreases messages.len() - i,
    {
        if messages[i].role == Role::System {
            proof {
                lemma_first_system_skip(views, i as int);
                let tail = views.subrange(i as int, views.len() as int);
                assert(tail[0] == views[i as int]);
                assert(views[i as int] == messages@[i as int]@);
            }
            return messages[i].content.clone();
        }
        i += 1;
    }
    proof {
        lemma_first_system_skip(views, views.len() as int);
        assert(views.subrange(views.len() as int, views.len() as int).len() == 0);
    }
    String::new()
}

/// What a success body of this wire shape yields: the string under the first
/// content element's message text, if the parsed body holds one. The
/// extraction is a function of the text alone.
pub uninterp spec fn anthropic_content_of(body: Seq<char>) -> Option<Seq<char>>;

/// Relies on serde_json::from_str::<Value> and Value::get and Value::as_str:
/// parses the body and extracts the completion text
/// (`content[0].message.text`), or the parse failure.
#[verifier::external_body]
fn extract_anthropic_content(body: &str) -> (r: Result<Option<String>, serde_json::Error>)
    ensures
        match r {
            Ok(Some(s)) => json_parses(body@) && anthropic_content_of(body@) == Some(s@),
            Ok(None) => json_parses(body@) && anthropic_content_of(body@) is None,
            Err(_) => !json_parses(body@),
        },
{
    match serde_json::from_str::<serde_json::Value>(body) {
        Ok(v) => Ok(
            v.get("content").and_then(|c| c.get(0)).and_then(|c| c.get("message")).and_then(
                |m| m.get("text"),
            ).and_then(|t| t.as_str()).map(|s| s.to_owned()),
        ),
        Err(e) => Err(e),
    }
}

/// The decoded outcome of a success body of this wire shape: the extracted
/// completion text; a missing completion exactly when the parsed body lacks
/// it; a transport-level decode failure exactly when the body is not JSON.
pub open spec fn anthropic_success_decoded(r: Result<String, LLMError>, body: Seq<char>) -> bool {
    match r {
        Ok(s) => json_parses(body) && anthropic_content_of(body) == Some(s@),
        Err(e) => match e {
            LLMError::NoCompletionChoice => json_parses(body) && anthropic_content_of(body)
                is None,
            LLMError::RequestError(_) => !json_parses(body),
            _ => false,
        },
    }
}

/// Decodes a success body of this wire shape: the text under the first
/// content element. A body that is not JSON is a transport-level decode
/// failure; a JSON body without that text is a missing completion.
pub fn decode_anthropic_success(body: &str) -> (r: Result<String, LLMError>)
    ensures
        anthropic_success_decoded(r, body@),
{
    match extract_anthropic_content(body) {
        Ok(Some(s)) => Ok(s),
        Ok(None) => Err(LLMError::NoCompletionChoice),
        Err(e) => Err(LLMError::RequestError(json_error_message(&e))),
    }
}

} // verus!
