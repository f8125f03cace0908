use crate::commit_reference::CommitReference;
use crate::text::{eq_lower_ascii, lower_ascii};
use vstd::prelude::*;
use vstd::string::*;

verus! {

/// The LLM backends a user can select.
#[derive(Debug, Clone, Copy, PartialEq, Eq, Structural)]
pub enum LLMProviderType {
    Openai,
    Phind,
    Anthropic,
    Grok,
}

/// Command-line arguments, as plain values: an optional provider override,
/// an optional model override, an optional API key, and the subcommand.
pub struct Cli {
    pub provider: Option<LLMProviderType>,
    pub model: Option<String>,
    pub api_key: Option<String>,
    pub command: Commands,
}

/// The subcommands: generate a commit message for the staged changes, or
/// explain a commit, a range, or the working tree.
pub enum Commands {
    Generate,
    Explain { reference: Option<CommitReference>, diff: bool, staged: bool },
}

/// What parsing a provider name yields: the match is case-insensitive on
/// ASCII letters, and only these spellings are accepted.
pub open spec fn parse_provider_spec(s: Seq<char>) -> Result<LLMProviderType, Seq<char>> {
    if lower_ascii(s) == "openai"@ {
        Ok(LLMProviderType::Openai)
    } else if lower_ascii(s) == "anthropic"@ {
        Ok(LLMProviderType::Anthropic)
    } else {
        Err("Invalid provider"@)
    }
}

impl LLMProviderType {
    /// Parses a provider name. Only `openai` and `anthropic` are accepted
    /// spellings here; the remaining providers are selected by other paths.
    pub fn parse(s: &str) -> (r: Result<LLMProviderType, String>)
        ensures
            match r {
                Ok(p) => parse_provider_spec(s@) == Ok::<LLMProviderType, Seq<char>>(p),
                Err(e) => parse_provider_spec(s@) == Err::<LLMProviderType, Seq<char>>(e@),
            },
    {
        if eq_lower_ascii(s, "openai") {
            Ok(LLMProviderType::Openai)
        } else if eq_lower_ascii(s, "anthropic") {
            Ok(LLMProviderType::Anthropic)
        } else {
            Err("Invalid provider".to_owned())
        }
    }
}

} // verus!
