//! The settings of the agent, read and written by key.
use vstd::prelude::*;

use crate::cli::ConfigAction;
use crate::text::{concat, same_text};
use crate::types::opt_view;

verus! {

/// The settings of the agent.
pub struct Config {
    pub openai_api_key: Option<String>,
    pub anthropic_api_key: Option<String>,
    pub openrouter_api_key: Option<String>,
    pub default_model: Option<String>,
    pub default_provider: Option<String>,
    pub ollama_base_url: Option<String>,
}

/// A setting.
#[derive(PartialEq, Eq, Structural, Clone, Copy, Debug)]
pub enum ConfigKey {
    OpenAIApiKey,
    AnthropicApiKey,
    OpenRouterApiKey,
    DefaultModel,
    DefaultProvider,
    OllamaBaseUrl,
}

/// The setting that a key names, if any.
pub open spec fn key_named(name: Seq<char>) -> Option<ConfigKey> {
    if name == "openai_api_key"@ {
        Some(ConfigKey::OpenAIApiKey)
    } else if name == "anthropic_api_key"@ {
        Some(ConfigKey::AnthropicApiKey)
    } else if name == "openrouter_api_key"@ {
        Some(ConfigKey::OpenRouterApiKey)
    } else if name == "default_model"@ {
        Some(ConfigKey::DefaultModel)
    } else if name == "default_provider"@ {
        Some(ConfigKey::DefaultProvider)
    } else if name == "ollama_base_url"@ {
        Some(ConfigKey::OllamaBaseUrl)
    } else {
        None
    }
}

pub fn parse_key(name: &str) -> (res: Option<ConfigKey>)
    ensures
        res == key_named(name@),
{
    if same_text(name, "openai_api_key") {
        Some(ConfigKey::OpenAIApiKey)
    } else if same_text(name, "anthropic_api_key") {
        Some(ConfigKey::AnthropicApiKey)
    } else if same_text(name, "openrouter_api_key") {
        Some(ConfigKey::OpenRouterApiKey)
    } else if same_text(name, "default_model") {
        Some(ConfigKey::DefaultModel)
    } else if same_text(name, "default_provider") {
        Some(ConfigKey::DefaultProvider)
    } else if same_text(name, "ollama_base_url") {
        Some(ConfigKey::OllamaBaseUrl)
    } else {
        None
    }
}

impl Config {
    /// The value of a setting.
    pub open spec fn value(&self, k: ConfigKey) -> Option<Seq<char>> {
        match k {
            ConfigKey::OpenAIApiKey => opt_view(self.openai_api_key),
            ConfigKey::AnthropicApiKey => opt_view(self.anthropic_api_key),
            ConfigKey::OpenRouterApiKey => opt_view(self.openrouter_api_key),
            ConfigKey::DefaultModel => opt_view(self.default_model),
            ConfigKey::DefaultProvider => opt_view(self.default_provider),
            ConfigKey::OllamaBaseUrl => opt_view(self.ollama_base_url),
        }
    }

    /// What `get` reads under the key `name`.
    pub open spec fn read(&self, name: Seq<char>) -> Option<Seq<char>> {
        match key_named(name) {
            Some(k) => self.value(k),
            None => None,
        }
    }

    /// `new` is what `set` wrote under the key `name` of `self`: that setting
    /// holds `value` and the others are kept; an unknown key changes nothing.
    pub open spec fn written(&self, name: Seq<char>, value: Seq<char>, new: Config) -> bool {
        match key_named(name) {
            Some(k) => new.value(k) == Some(value) && forall|o: ConfigKey|
                o != k ==> #[trigger] new.value(o) == self.value(o),
            None => forall|o: ConfigKey| #[trigger] new.value(o) == self.value(o),
        }
    }

    /// A configuration with nothing set.
    pub fn new() -> (res: Config)
        ensures
            forall|k: ConfigKey| #[trigger] res.value(k) is None,
    {
        Config {
            openai_api_key: None,
            anthropic_api_key: None,
            openrouter_api_key: None,
            default_model: None,
            default_provider: None,
            ollama_base_url: None,
        }
    }

    /// The value under the key `name`; none for an unknown key.
    pub fn get(&self, name: &str) -> (res: Option<String>)
        ensures
            opt_view(res) == self.read(name@),
    {
        let v = match parse_key(name) {
            Some(ConfigKey::OpenAIApiKey) => &self.openai_api_key,
            Some(ConfigKey::AnthropicApiKey) => &self.anthropic_api_key,
            Some(ConfigKey::OpenRouterApiKey) => &self.openrouter_api_key,
            Some(ConfigKey::DefaultModel) => &self.default_model,
            Some(ConfigKey::DefaultProvider) => &self.default_provider,
            Some(ConfigKey::OllamaBaseUrl) => &self.ollama_base_url,
            None => {
                return None;
            },
        };
        match v {
            Some(s) => Some(s.clone()),
            None => None,
        }
    }

    /// Sets the value under the key `name`. Returns whether the key is known;
    /// an unknown key changes nothing.
    pub fn set(&mut self, name: &str, value: String) -> (res: bool)
        ensures
            res == (key_named(name@) is Some),
            old(self).written(name@, value@, *final(self)),
    {
        match parse_key(name) {
            Some(ConfigKey::OpenAIApiKey) => {
                self.openai_api_key = Some(value);
            },
            Some(ConfigKey::AnthropicApiKey) => {
                self.anthropic_api_key = Some(value);
            },
            Some(ConfigKey::OpenRouterApiKey) => {
                self.openrouter_api_key = Some(value);
            },
            Some(ConfigKey::DefaultModel) => {
                self.default_model = Some(value);
            },
            Some(ConfigKey::DefaultProvider) => {
                self.default_provider = Some(value);
            },
            Some(ConfigKey::OllamaBaseUrl) => {
                self.ollama_base_url = Some(value);
            },
            None => {
                return false;
            },
        }
        true
    }
}

/// A value written under a known key is what is read back under it.
pub proof fn read_after_write(c: Config, name: Seq<char>, value: Seq<char>, d: Config)
    requires
        c.written(name, value, d),
        key_named(name) is Some,
    ensures
        d.read(name) == Some(value),
{
}

/// Writing under one key leaves what is read under every other key.
pub proof fn write_keeps_others(c: Config, name: Seq<char>, value: Seq<char>, d: Config, other: Seq<char>)
    requires
        c.written(name, value, d),
        key_named(other) != key_named(name),
    ensures
        d.read(other) == c.read(other),
{
}

/// Writing under an unknown key changes nothing that can be read.
pub proof fn unknown_key_changes_nothing(c: Config, name: Seq<char>, value: Seq<char>, d: Config, other: Seq<char>)
    requires
        c.written(name, value, d),
        key_named(name) is None,
    ensures
        d.read(other) == c.read(other),
        d.read(name) is None,
{
}

/// What the configuration subcommand comes to.
pub enum ConfigOutcome {
    /// The configuration changed: save it, then print the message.
    Saved { message: String },
    /// Print this text; nothing changed.
    Show { text: String },
    /// Print every setting.
    ListAll,
}

pub open spec fn set_message(key: Seq<char>) -> Seq<char> {
    "✓ Set "@ + key + " successfully"@
}

pub open spec fn unknown_key_message(key: Seq<char>) -> Seq<char> {
    "Unknown config key: "@ + key
}

/// Carries out a configuration subcommand on `config`.
pub fn handle_config(config: &mut Config, action: &ConfigAction) -> (res: ConfigOutcome)
    ensures
        match action {
            ConfigAction::SetValue { key, value } => if key_named(key@) is Some {
                &&& old(config).written(key@, value@, *final(config))
                &&& res matches ConfigOutcome::Saved { message } && message@ == set_message(key@)
            } else {
                &&& *final(config) == *old(config)
                &&& res matches ConfigOutcome::Show { text } && text@ == unknown_key_message(key@)
            },
            ConfigAction::Get { key } => {
                &&& *final(config) == *old(config)
                &&& res matches ConfigOutcome::Show { text } && text@ == match old(config).read(key@) {
                    Some(v) => v,
                    None => "(not set)"@,
                }
            },
            ConfigAction::List => *final(config) == *old(config) && res is ListAll,
        },
{
    match action {
        ConfigAction::SetValue { key, value } => {
            if parse_key(key.as_str()).is_none() {
                return ConfigOutcome::Show { text: concat("Unknown config key: ", key.as_str()) };
            }
            config.set(key.as_str(), value.clone());
            let mut message = concat("✓ Set ", key.as_str());
            message.append(" successfully");
            ConfigOutcome::Saved { message }
        },
        ConfigAction::Get { key } => {
            let text = match config.get(key.as_str()) {
                Some(v) => v,
                None => "(not set)".to_owned(),
            };
            ConfigOutcome::Show { text }
        },
        ConfigAction::List => ConfigOutcome::ListAll,
    }
}

/// Each key name reads the setting of the same name, in every configuration.
pub proof fn key_names_read_their_own_setting(c: Config)
    ensures
        c.read("openai_api_key"@) == opt_view(c.openai_api_key),
        c.read("anthropic_api_key"@) == opt_view(c.anthropic_api_key),
        c.read("openrouter_api_key"@) == opt_view(c.openrouter_api_key),
        c.read("default_model"@) == opt_view(c.default_model),
        c.read("default_provider"@) == opt_view(c.default_provider),
        c.read("ollama_base_url"@) == opt_view(c.ollama_base_url),
{
    lemma_key_names_distinct();
}

proof fn lemma_key_names_distinct()
    ensures
        "openai_api_key"@ != "anthropic_api_key"@,
        "openai_api_key"@ != "openrouter_api_key"@,
        "openai_api_key"@ != "default_model"@,
        "openai_api_key"@ != "default_provider"@,
        "openai_api_key"@ != "ollama_base_url"@,
        "anthropic_api_key"@ != "openrouter_api_key"@,
        "anthropic_api_key"@ != "default_model"@,
        "anthropic_api_key"@ != "default_provider"@,
        "anthropic_api_key"@ != "ollama_base_url"@,
        "openrouter_api_key"@ != "default_model"@,
        "openrouter_api_key"@ != "default_provider"@,
        "openrouter_api_key"@ != "ollama_base_url"@,
        "default_model"@ != "default_provider"@,
        "default_model"@ != "ollama_base_url"@,
        "default_provider"@ != "ollama_base_url"@,
{
    reveal_strlit("openai_api_key");
    reveal_strlit("anthropic_api_key");
    reveal_strlit("openrouter_api_key");
    reveal_strlit("default_model");
    reveal_strlit("default_provider");
    reveal_strlit("ollama_base_url");
    assert("openai_api_key"@[1] != "anthropic_api_key"@[1]);
    assert("openai_api_key"@.len() != "openrouter_api_key"@.len());
    assert("openai_api_key"@[0] != "default_model"@[0]);
    assert("openai_api_key"@[0] != "default_provider"@[0]);
    assert("openai_api_key"@[1] != "ollama_base_url"@[1]);
    assert("anthropic_api_key"@[0] != "openrouter_api_key"@[0]);
    assert("anthropic_api_key"@[0] != "default_model"@[0]);
    assert("anthropic_api_key"@[0] != "default_provider"@[0]);
    assert("anthropic_api_key"@[0] != "ollama_base_url"@[0]);
    assert("openrouter_api_key"@[0] != "default_model"@[0]);
    assert("openrouter_api_key"@[0] != "default_provider"@[0]);
    assert("openrouter_api_key"@[1] != "ollama_base_url"@[1]);
    assert("default_model"@.len() != "default_provider"@.len());
    assert("default_model"@[0] != "ollama_base_url"@[0]);
    assert("default_provider"@[0] != "ollama_base_url"@[0]);
}

/// Distinct key names select distinct settings: no two of the six names
/// share a setting, and every name outside the six selects none.
pub proof fn key_names_are_distinct_settings(a: Seq<char>, b: Seq<char>)
    requires
        key_named(a) is Some,
        key_named(a) == key_named(b),
    ensures
        a == b,
{
    lemma_key_names_distinct();
}

/// Writing a value under a key name sets the setting of that name and keeps
/// every other setting.
pub proof fn writing_sets_the_named_field(c: Config, name: Seq<char>, value: Seq<char>, d: Config)
    requires
        c.written(name, value, d),
    ensures
        name == "openrouter_api_key"@ ==> opt_view(d.openrouter_api_key) == Some(value) && opt_view(
            d.openai_api_key,
        ) == opt_view(c.openai_api_key) && opt_view(d.anthropic_api_key) == opt_view(
            c.anthropic_api_key,
        ),
        name == "openai_api_key"@ ==> opt_view(d.openai_api_key) == Some(value) && opt_view(
            d.openrouter_api_key,
        ) == opt_view(c.openrouter_api_key) && opt_view(d.anthropic_api_key) == opt_view(
            c.anthropic_api_key,
        ),
        name == "anthropic_api_key"@ ==> opt_view(d.anthropic_api_key) == Some(value) && opt_view(
            d.openai_api_key,
        ) == opt_view(c.openai_api_key) && opt_view(d.openrouter_api_key) == opt_view(
            c.openrouter_api_key,
        ),
        name == "default_model"@ ==> opt_view(d.default_model) == Some(value) && opt_view(
            d.default_provider,
        ) == opt_view(c.default_provider),
        name == "default_provider"@ ==> opt_view(d.default_provider) == Some(value) && opt_view(
            d.default_model,
        ) == opt_view(c.default_model),
        name == "ollama_base_url"@ ==> opt_view(d.ollama_base_url) == Some(value),
{
    lemma_key_names_distinct();
    key_names_read_their_own_setting(c);
    key_names_read_their_own_setting(d);
    let ks = seq![
        ConfigKey::OpenAIApiKey,
        ConfigKey::AnthropicApiKey,
        ConfigKey::OpenRouterApiKey,
        ConfigKey::DefaultModel,
        ConfigKey::DefaultProvider,
        ConfigKey::OllamaBaseUrl,
    ];
    assert(d.value(ks[0]) == d.value(ConfigKey::OpenAIApiKey));
    assert(c.value(ks[0]) == c.value(ConfigKey::OpenAIApiKey));
    assert(d.value(ks[1]) == d.value(ConfigKey::AnthropicApiKey));
    assert(d.value(ks[2]) == d.value(ConfigKey::OpenRouterApiKey));
    assert(d.value(ks[3]) == d.value(ConfigKey::DefaultModel));
    assert(d.value(ks[4]) == d.value(ConfigKey::DefaultProvider));
}

} // verus!
