use crate::llm::LLMError;
use vstd::prelude::*;
use vstd::string::*;

verus! {

/// The failures the pipeline surfaces to its caller: a commit that could not
/// be resolved, a diff that could not be computed, a missing credential,
/// unusable arguments, a configuration problem, or a backend failure.
#[derive(Debug, Clone, PartialEq, Eq)]
pub enum GitAIError {
    GitCommitError(String),
    GitDiffError(String),
    MissingApiKey(String),
    InvalidArguments(String),
    ConfigError(String),
    LLMError(LLMError),
}

impl GitAIError {
    /// The user-visible text of the error.
    pub open spec fn message_view(&self) -> Seq<char> {
        match self {
            GitAIError::GitCommitError(s) => s@,
            GitAIError::GitDiffError(s) => s@,
            GitAIError::MissingApiKey(p) => "Missing API key for "@ + p@
                + ", use --api-key or GITAI_API_KEY env variable"@,
            GitAIError::InvalidArguments(s) => "Invalid arguments: "@ + s@,
            GitAIError::ConfigError(s) => "Configuration error: "@ + s@,
            GitAIError::LLMError(e) => e.message_view(),
        }
    }

    /// Renders the user-visible text of the error.
    pub fn message(&self) -> (r: String)
        ensures
            r@ == self.message_view(),
    {
        match self {
            GitAIError::GitCommitError(s) => s.clone(),
            GitAIError::GitDiffError(s) => s.clone(),
            GitAIError::MissingApiKey(p) => {
                let mut out = "Missing API key for ".to_owned();
                out.append(p.as_str());
                out.append(", use --api-key or GITAI_API_KEY env variable");
                out
            },
            GitAIError::InvalidArguments(s) => {
                let mut out = "Invalid arguments: ".to_owned();
                out.append(s.as_str());
                out
            },
            GitAIError::ConfigError(s) => {
                let mut out = "Configuration error: ".to_owned();
                out.append(s.as_str());
                out
            },
            GitAIError::LLMError(e) => e.message(),
        }
    }
}

} // verus!
