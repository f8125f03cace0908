use gitai::cli::{Cli, Commands, LLMProviderType};
use gitai::config::{default_provider, GitAIConfig};
use gitai::configure::ConfigureCommand;

fn lines(items: &[&str]) -> Vec<String> {
    items.iter().map(|s| s.to_string()).collect()
}

#[test]
fn provider_parse_is_ascii_case_insensitive() {
    assert_eq!(LLMProviderType::parse("openai"), Ok(LLMProviderType::Openai));
    assert_eq!(LLMProviderType::parse("OpenAI"), Ok(LLMProviderType::Openai));
    assert_eq!(LLMProviderType::parse("ANTHROPIC"), Ok(LLMProviderType::Anthropic));
    assert_eq!(LLMProviderType::parse("anthropic"), Ok(LLMProviderType::Anthropic));
}

#[test]
fn provider_parse_rejects_other_names() {
    assert_eq!(LLMProviderType::parse("phind"), Err("Invalid provider".to_string()));
    assert_eq!(LLMProviderType::parse("grok"), Err("Invalid provider".to_string()));
    assert_eq!(LLMProviderType::parse(""), Err("Invalid provider".to_string()));
}

#[test]
fn default_provider_is_phind() {
    assert_eq!(default_provider(), LLMProviderType::Phind);
    let d = GitAIConfig::default();
    assert_eq!(d.provider, LLMProviderType::Phind);
    assert_eq!(d.model, None);
    assert_eq!(d.api_key, None);
}

#[test]
fn from_lines_reads_provider_model_and_key() {
    let c = GitAIConfig::from_lines(&lines(&[
        "PROVIDER=openai",
        "MODEL=gpt-4",
        "OPENAI_API_KEY=sk-local-test",
    ]));
    assert_eq!(c.provider, LLMProviderType::Openai);
    assert_eq!(c.model, Some("gpt-4".to_string()));
    assert_eq!(c.api_key, Some("sk-local-test".to_string()));
}

#[test]
fn from_lines_ignores_key_of_other_provider() {
    let c = GitAIConfig::from_lines(&lines(&["ANTHROPIC_API_KEY=k"]));
    assert_eq!(c.provider, LLMProviderType::Phind);
    assert_eq!(c.api_key, None);
}

#[test]
fn from_lines_key_seen_before_provider_is_lost() {
    // The key line is matched against the provider selected so far, which is
    // still the default at that point.
    let c = GitAIConfig::from_lines(&lines(&["OPENAI_API_KEY=k", "PROVIDER=openai"]));
    assert_eq!(c.provider, LLMProviderType::Openai);
    assert_eq!(c.api_key, None);
}

#[test]
fn from_lines_phind_key_applies_to_default_provider() {
    let c = GitAIConfig::from_lines(&lines(&["PHIND_API_KEY=k"]));
    assert_eq!(c.provider, LLMProviderType::Phind);
    assert_eq!(c.api_key, Some("k".to_string()));
}

#[test]
fn from_lines_empty_values_do_not_set() {
    let c = GitAIConfig::from_lines(&lines(&["MODEL=", "PHIND_API_KEY="]));
    assert_eq!(c.model, None);
    assert_eq!(c.api_key, None);
}

#[test]
fn from_lines_unknown_provider_falls_back_to_default() {
    let c = GitAIConfig::from_lines(&lines(&["PROVIDER=grok"]));
    assert_eq!(c.provider, LLMProviderType::Phind);
}

#[test]
fn from_lines_ignores_lines_without_separator() {
    let c = GitAIConfig::from_lines(&lines(&["# comment", "", "MODEL=m"]));
    assert_eq!(c.model, Some("m".to_string()));
}

#[test]
fn build_prefers_explicit_arguments() {
    let cli = Cli {
        provider: Some(LLMProviderType::Anthropic),
        model: Some("cli-model".to_string()),
        api_key: Some("cli-key".to_string()),
        command: Commands::Generate,
    };
    let stored = GitAIConfig {
        provider: LLMProviderType::Openai,
        model: Some("stored-model".to_string()),
        api_key: Some("stored-key".to_string()),
    };
    let c = GitAIConfig::build(&cli, &stored);
    assert_eq!(c.provider, LLMProviderType::Anthropic);
    assert_eq!(c.model, Some("cli-model".to_string()));
    assert_eq!(c.api_key, Some("cli-key".to_string()));
}

#[test]
fn build_falls_back_to_stored_values() {
    let cli = Cli { provider: None, model: None, api_key: None, command: Commands::Generate };
    let stored = GitAIConfig {
        provider: LLMProviderType::Grok,
        model: Some("stored-model".to_string()),
        api_key: None,
    };
    let c = GitAIConfig::build(&cli, &stored);
    assert_eq!(c.provider, LLMProviderType::Grok);
    assert_eq!(c.model, Some("stored-model".to_string()));
    assert_eq!(c.api_key, None);
}

#[test]
fn configure_defaults_per_provider() {
    assert_eq!(
        ConfigureCommand::get_default_model_for_provider(&LLMProviderType::Openai),
        "gpt-4o-mini"
    );
    assert_eq!(
        ConfigureCommand::get_default_model_for_provider(&LLMProviderType::Phind),
        "Phind-70B"
    );
    assert_eq!(
        ConfigureCommand::get_default_model_for_provider(&LLMProviderType::Anthropic),
        "anthropic-latest"
    );
    assert_eq!(
        ConfigureCommand::get_default_model_for_provider(&LLMProviderType::Grok),
        "mixtral-8x7b-32768"
    );
}

#[test]
fn configure_env_var_names_per_provider() {
    assert_eq!(
        ConfigureCommand::get_environment_variable_name_for_provider(&LLMProviderType::Openai),
        "OPENAI_API_KEY"
    );
    assert_eq!(
        ConfigureCommand::get_environment_variable_name_for_provider(&LLMProviderType::Grok),
        "GROQ_API_KEY"
    );
}

#[test]
fn config_file_content_round_trips_through_from_lines() {
    let text = ConfigureCommand::config_file_content(&LLMProviderType::Openai, "gpt-4", "k1");
    assert_eq!(text, "PROVIDER=openai\nMODEL=gpt-4\nOPENAI_API_KEY=k1\n");
    let parsed = GitAIConfig::from_lines(&text.lines().map(|l| l.to_string()).collect());
    assert_eq!(parsed.provider, LLMProviderType::Openai);
    assert_eq!(parsed.model, Some("gpt-4".to_string()));
    assert_eq!(parsed.api_key, Some("k1".to_string()));
}
