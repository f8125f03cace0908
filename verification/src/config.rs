use crate::cli::{parse_provider_spec, Cli, LLMProviderType};
use crate::text::{find_char, find_char_from, str_eq};
use vstd::prelude::*;
use vstd::string::*;

verus! {

/// The resolved configuration: which provider to use, an optional model
/// override and an optional API key.
#[derive(Debug, Clone)]
pub struct GitAIConfig {
    pub provider: LLMProviderType,
    pub model: Option<String>,
    pub api_key: Option<String>,
}

/// Spec-level shape of a configuration.
pub struct ConfigView {
    pub provider: LLMProviderType,
    pub model: Option<Seq<char>>,
    pub api_key: Option<Seq<char>>,
}

impl View for GitAIConfig {
    type V = ConfigView;

    open spec fn view(&self) -> ConfigView {
        ConfigView {
            provider: self.provider,
            model: match self.model {
                Some(ref m) => Some(m@),
                None => None,
            },
            api_key: match self.api_key {
                Some(ref k) => Some(k@),
                None => None,
            },
        }
    }
}

/// The provider used when none is configured.
pub fn default_provider() -> (p: LLMProviderType)
    ensures
        p == LLMProviderType::Phind,
{
    LLMProviderType::Phind
}

impl Default for GitAIConfig {
    /// The configuration used when no stored file exists: the default
    /// provider, no model override, no API key.
    fn default() -> (c: GitAIConfig)
        ensures
            c@ == initial_config(),
    {
        GitAIConfig { provider: LLMProviderType::Phind, model: None, api_key: None }
    }
}

/// The configuration before any stored line is applied.
pub open spec fn initial_config() -> ConfigView {
    ConfigView { provider: LLMProviderType::Phind, model: None, api_key: None }
}

/// How one stored `KEY=value` line changes the configuration: a `PROVIDER`
/// line replaces the provider (an unknown name falls back to the default); a
/// non-empty `MODEL` line sets the model; a provider-specific API-key line
/// sets the key only when it names the provider selected so far; anything
/// else, including a line without `=`, changes nothing.
pub open spec fn apply_config_line(cfg: ConfigView, line: Seq<char>) -> ConfigView {
    match find_char_from(line, '=', 0) {
        None => cfg,
        Some(i) => {
            let key = line.subrange(0, i);
            let value = line.subrange(i + 1, line.len() as int);
            if key == "PROVIDER"@ {
                ConfigView {
                    provider: match parse_provider_spec(value) {
                        Ok(p) => p,
                        Err(_) => LLMProviderType::Phind,
                    },
                    ..cfg
                }
            } else if key == "MODEL"@ && value.len() > 0 {
                ConfigView { model: Some(value), ..cfg }
            } else if key == "OPENAI_API_KEY"@ && cfg.provider == LLMProviderType::Openai
                && value.len() > 0 {
                ConfigView { api_key: Some(value), ..cfg }
            } else if key == "PHIND_API_KEY"@ && cfg.provider == LLMProviderType::Phind
                && value.len() > 0 {
                ConfigView { api_key: Some(value), ..cfg }
            } else if key == "ANTHROPIC_API_KEY"@ && cfg.provider == LLMProviderType::Anthropic
                && value.len() > 0 {
                ConfigView { api_key: Some(value), ..cfg }
            } else if key == "GROQ_API_KEY"@ && cfg.provider == LLMProviderType::Grok
                && value.len() > 0 {
                ConfigView { api_key: Some(value), ..cfg }
            } else {
                cfg
            }
        },
    }
}

/// The configuration after the first `n` stored lines, in order.
pub open spec fn config_after_lines(lines: Seq<Seq<char>>, n: int) -> ConfigView
    decreases n,
{
    if n <= 0 {
        initial_config()
    } else {
        apply_config_line(config_after_lines(lines, n - 1), lines[n - 1])
    }
}

impl GitAIConfig {
    /// Reads a configuration from the lines of a stored file, applying each
    /// line in order to the default configuration.
    pub fn from_lines(lines: &Vec<String>) -> (c: GitAIConfig)
        ensures
            c@ == config_after_lines(
                lines@.map_values(|l: String| l@),
                lines@.len() as int,
            ),
    {
        let ghost line_views = lines@.map_values(|l: String| l@);
        let mut cfg = GitAIConfig { provider: LLMProviderType::Phind, model: None, api_key: None };
        let mut i: usize = 0;
        while i < lines.len()
            invariant
                0 <= i <= lines.len(),
                line_views == lines@.map_values(|l: String| l@),
                line_views.len() == lines@.len(),
                cfg@ == config_after_lines(line_views, i as int),
            decreases lines.len() - i,
        {
            let line: &String = &lines[i];
            assert(line_views[i as int] == line@);
            cfg = Self::apply_line(cfg, line.as_str());
            i += 1;
        }
        cfg
    }

    /// Applies one stored line to the configuration.
    fn apply_line(cfg: GitAIConfig, line: &str) -> (c: GitAIConfig)
        ensures
            c@ == apply_config_line(cfg@, line@),
    {
        let len = line.unicode_len();
        match find_char(line, '=') {
            None => cfg,
            Some(i) => {
                proof {
                    crate::text::lemma_find_char_from_spec(line@, '=', 0);
                }
                let key = line.substring_char(0, i);
                let value = line.substring_char(i + 1, len);
                if str_eq(key, "PROVIDER") {
                    let provider = match LLMProviderType::parse(value) {
                        Ok(p) => p,
                        Err(_) => default_provider(),
                    };
                    GitAIConfig { provider, ..cfg }
                } else if str_eq(key, "MODEL") && !value.is_empty() {
                    GitAIConfig { model: Some(value.to_owned()), ..cfg }
                } else if str_eq(key, "OPENAI_API_KEY") && matches!(
                    cfg.provider,
                    LLMProviderType::Openai,
                ) && !value.is_empty() {
                    GitAIConfig { api_key: Some(value.to_owned()), ..cfg }
                } else if str_eq(key, "PHIND_API_KEY") && matches!(
                    cfg.provider,
                    LLMProviderType::Phind,
                ) && !value.is_empty() {
                    GitAIConfig { api_key: Some(value.to_owned()), ..cfg }
                } else if str_eq(key, "ANTHROPIC_API_KEY") && matches!(
                    cfg.provider,
                    LLMProviderType::Anthropic,
                ) && !value.is_empty() {
                    GitAIConfig { api_key: Some(value.to_owned()), ..cfg }
                } else if str_eq(key, "GROQ_API_KEY") && matches!(
                    cfg.provider,
                    LLMProviderType::Grok,
                ) && !value.is_empty() {
                    GitAIConfig { api_key: Some(value.to_owned()), ..cfg }
                } else {
                    cfg
                }
            },
        }
    }

    /// Merges the command-line arguments over a stored configuration:
    /// each explicit argument wins over the stored value.
    pub fn build(cli: &Cli, stored: &GitAIConfig) -> (c: GitAIConfig)
        ensures
            c@.provider == (match cli.provider {
                Some(p) => p,
                None => stored@.provider,
            }),
            c@.model == (match cli.model {
                Some(ref m) => Some(m@),
                None => stored@.model,
            }),
            c@.api_key == (match cli.api_key {
                Some(ref k) => Some(k@),
                None => stored@.api_key,
            }),
    {
        let provider = match cli.provider {
            Some(p) => p,
            None => stored.provider,
        };
        let model = match &cli.model {
            Some(m) => Some(m.clone()),
            None => match &stored.model {
                Some(m) => Some(m.clone()),
                None => None,
            },
        };
        let api_key = match &cli.api_key {
            Some(k) => Some(k.clone()),
            None => match &stored.api_key {
                Some(k) => Some(k.clone()),
                None => None,
            },
        };
        GitAIConfig { provider, model, api_key }
    }
}

} // verus!
