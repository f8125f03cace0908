use crate::llm::{build_chat_body, chat_body_text, LLMError, LLMRequest, Message};
use vstd::prelude::*;
use vstd::string::*;

verus! {

/// Connection settings for the Groq backend, which speaks the same
/// chat-completions wire shape as the OpenAI one.
#[derive(Debug, Clone)]
pub struct GroqConfig {
    pub api_key: String,
    pub model: String,
    pub api_base_url: String,
}

impl GroqConfig {
    /// Builds the settings: the given key, the model or its default, and the
    /// fixed endpoint.
    pub fn new(api_key: String, model: Option<String>) -> (c: GroqConfig)
        ensures
            c.api_key@ == api_key@,
            c.model@ == (match model {
                Some(ref m) => m@,
                None => "mixtral-8x7b-32768"@,
            }),
            c.api_base_url@ == "https://api.groq.com/openai/v1/chat/completions"@,
    {
        GroqConfig {
            api_key,
            model: match model {
                Some(m) => m,
                None => "mixtral-8x7b-32768".to_owned(),
            },
            api_base_url: "https://api.groq.com/openai/v1/chat/completions".to_owned(),
        }
    }

    /// The chat-completions request: every message goes out in one ordered
    /// array, and a bearer token carries the key. Building never fails.
    pub fn build_request(&self, messages: &Vec<Message>) -> (r: Result<LLMRequest, LLMError>)
        ensures
            match r {
                Ok(req) => req.url@ == self.api_base_url@ && req.body@ == chat_body_text(
                    self.model@,
                    messages@.map_values(|m: Message| m@),
                ) && req.headers@.len() == 1 && req.headers@[0].0@ == "Authorization"@
                    && req.headers@[0].1@ == "Bearer "@ + self.api_key@,
                Err(_) => false,
            },
    {
        let body = build_chat_body(&self.model, messages);
        let mut auth = "Bearer ".to_owned();
        auth.append(self.api_key.as_str());
        let mut headers: Vec<(String, String)> = Vec::new();
        headers.push(("Authorization".to_owned(), auth));
        Ok(LLMRequest { url: self.api_base_url.clone(), headers, body })
    }
}

} // verus!
