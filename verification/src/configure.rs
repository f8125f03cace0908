use crate::cli::LLMProviderType;
use vstd::prelude::*;
use vstd::string::*;

verus! {

/// The configuration wizard's pure parts: per-provider defaults and the
/// rendering of the stored file. The interactive prompts live with the
/// caller.
pub struct ConfigureCommand {}

/// The spelling under which a provider is stored.
pub open spec fn provider_name_text(provider: LLMProviderType) -> Seq<char> {
    match provider {
        LLMProviderType::Openai => "openai"@,
        LLMProviderType::Phind => "phind"@,
        LLMProviderType::Anthropic => "anthropic"@,
        LLMProviderType::Grok => "grok"@,
    }
}

/// The environment-variable name that carries a provider's API key.
pub open spec fn env_var_name_text(provider: LLMProviderType) -> Seq<char> {
    match provider {
        LLMProviderType::Openai => "OPENAI_API_KEY"@,
        LLMProviderType::Phind => "PHIND_API_KEY"@,
        LLMProviderType::Anthropic => "ANTHROPIC_API_KEY"@,
        LLMProviderType::Grok => "GROQ_API_KEY"@,
    }
}

/// The model offered by default for a provider.
pub open spec fn default_model_text(provider: LLMProviderType) -> Seq<char> {
    match provider {
        LLMProviderType::Openai => "gpt-4o-mini"@,
        LLMProviderType::Phind => "Phind-70B"@,
        LLMProviderType::Anthropic => "anthropic-latest"@,
        LLMProviderType::Grok => "mixtral-8x7b-32768"@,
    }
}

/// The content of the stored configuration file: the provider, the model,
/// and the provider's API key under its environment-variable name, one
/// `KEY=value` line each.
pub open spec fn config_file_text(
    provider: LLMProviderType,
    model: Seq<char>,
    api_key: Seq<char>,
) -> Seq<char> {
    "PROVIDER="@ + provider_name_text(provider) + "\nMODEL="@ + model + "\n"@ + env_var_name_text(
        provider,
    ) + "="@ + api_key + "\n"@
}

impl ConfigureCommand {
    /// The model offered by default for a provider.
    pub fn get_default_model_for_provider(provider: &LLMProviderType) -> (r: &'static str)
        ensures
            r@ == default_model_text(*provider),
    {
        match provider {
            LLMProviderType::Openai => "gpt-4o-mini",
            LLMProviderType::Phind => "Phind-70B",
            LLMProviderType::Anthropic => "anthropic-latest",
            LLMProviderType::Grok => "mixtral-8x7b-32768",
        }
    }

    /// The environment-variable name that carries a provider's API key.
    pub fn get_environment_variable_name_for_provider(provider: &LLMProviderType) -> (r:
        &'static str)
        ensures
            r@ == env_var_name_text(*provider),
    {
        match provider {
            LLMProviderType::Openai => "OPENAI_API_KEY",
            LLMProviderType::Phind => "PHIND_API_KEY",
            LLMProviderType::Anthropic => "ANTHROPIC_API_KEY",
            LLMProviderType::Grok => "GROQ_API_KEY",
        }
    }

    /// The spelling under which a provider is stored.
    pub fn get_provider_name(provider: &LLMProviderType) -> (r: &'static str)
        ensures
            r@ == provider_name_text(*provider),
    {
        match provider {
            LLMProviderType::Openai => "openai",
            LLMProviderType::Phind => "phind",
            LLMProviderType::Anthropic => "anthropic",
            LLMProviderType::Grok => "grok",
        }
    }

    /// Renders the stored configuration file for the chosen provider, model
    /// and API key.
    pub fn config_file_content(provider: &LLMProviderType, model: &str, api_key: &str) -> (r:
        String)
        ensures
            r@ == config_file_text(*provider, model@, api_key@),
    {
        let mut out = "PROVIDER=".to_owned();
        out.append(Self::get_provider_name(provider));
        out.append("\nMODEL=");
        out.append(model);
        out.append("\n");
        out.append(Self::get_environment_variable_name_for_provider(provider));
        out.append("=");
        out.append(api_key);
        out.append("\n");
        proof {
            assert(out@ =~= config_file_text(*provider, model@, api_key@));
        }
        out
    }
}

} // verus!
