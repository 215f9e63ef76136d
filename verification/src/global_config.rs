//! The application configuration as the engine's callers hold it, and the
//! part of it that may be shown to a front end.

use vstd::prelude::*;

verus! {

/// An example of a nested section.
#[derive(Debug)]
pub struct ExampleParent {
    pub example_child: String,
}

impl Clone for ExampleParent {
    fn clone(&self) -> (copy: Self)
        ensures
            copy.example_child@ == self.example_child@,
    {
        ExampleParent { example_child: self.example_child.clone() }
    }
}

/// The default language model and how it is called. The temperature is kept
/// as its decimal text.
#[derive(Debug)]
pub struct DefaultLlm {
    pub default_model: String,
    pub fallback_model: Option<String>,
    pub default_temperature: String,
    pub default_max_tokens: i32,
}

/// The mathematical value of a [`DefaultLlm`].
pub struct DefaultLlmView {
    pub default_model: Seq<char>,
    pub fallback_model: Option<Seq<char>>,
    pub default_temperature: Seq<char>,
    pub default_max_tokens: i32,
}

impl View for DefaultLlm {
    type V = DefaultLlmView;

    open spec fn view(&self) -> DefaultLlmView {
        DefaultLlmView {
            default_model: self.default_model@,
            fallback_model: crate::host::opt_text(self.fallback_model),
            default_temperature: self.default_temperature@,
            default_max_tokens: self.default_max_tokens,
        }
    }
}

impl Clone for DefaultLlm {
    fn clone(&self) -> (copy: Self)
        ensures
            copy@ == self@,
    {
        DefaultLlm {
            default_model: self.default_model.clone(),
            fallback_model: match &self.fallback_model {
                Some(m) => Some(m.clone()),
                None => None,
            },
            default_temperature: self.default_temperature.clone(),
            default_max_tokens: self.default_max_tokens,
        }
    }
}

/// How a failed call is tried again.
#[derive(Clone, Copy, Debug)]
pub struct RetryConfig {
    pub max_attempts: i32,
    pub min_wait_seconds: i32,
    pub max_wait_seconds: i32,
}

/// How the language model is called.
#[derive(Clone, Copy, Debug)]
pub struct LlmConfig {
    pub cache_enabled: bool,
    pub retry: RetryConfig,
}

/// Where a log line says it came from.
#[derive(Clone, Copy, Debug)]
pub struct LoggingLocationConfig {
    pub enabled: bool,
    pub show_file: bool,
    pub show_function: bool,
    pub show_line: bool,
    pub show_for_info: bool,
    pub show_for_debug: bool,
    pub show_for_warning: bool,
    pub show_for_error: bool,
    pub show_for_trace: bool,
}

/// What a log line shows.
#[derive(Clone, Copy, Debug)]
pub struct LoggingFormatConfig {
    pub show_time: bool,
    pub show_session_id: bool,
    pub location: LoggingLocationConfig,
}

/// Which levels are logged.
#[derive(Clone, Copy, Debug)]
pub struct LoggingLevelsConfig {
    pub debug: bool,
    pub info: bool,
    pub warning: bool,
    pub error: bool,
    pub critical: bool,
}

/// One pattern whose matches are replaced in every log line.
#[derive(Clone, Debug)]
pub struct RedactionPattern {
    pub name: String,
    pub regex: String,
    pub placeholder: String,
}

/// What is redacted from the log.
#[derive(Clone, Debug)]
pub struct RedactionConfig {
    pub enabled: bool,
    pub use_default_pii: bool,
    pub patterns: Vec<RedactionPattern>,
}

impl Default for RedactionConfig {
    /// Nothing is redacted.
    fn default() -> (config: Self)
        ensures
            !config.enabled,
            !config.use_default_pii,
            config.patterns@.len() == 0,
    {
        RedactionConfig { enabled: false, use_default_pii: false, patterns: Vec::new() }
    }
}

/// How the application logs.
#[derive(Clone, Debug)]
pub struct LoggingConfig {
    pub verbose: bool,
    pub format: LoggingFormatConfig,
    pub levels: LoggingLevelsConfig,
    pub redaction: RedactionConfig,
}

/// The whole configuration, with the keys of the services it calls.
#[derive(Clone, Debug)]
pub struct AppConfig {
    pub model_name: String,
    pub dot_global_config_health_check: bool,
    pub dev_env: String,
    pub example_parent: ExampleParent,
    pub default_llm: DefaultLlm,
    pub llm_config: LlmConfig,
    pub logging: LoggingConfig,
    /// Feature switches by name.
    pub features: Vec<(String, bool)>,
    pub openai_api_key: Option<String>,
    pub anthropic_api_key: Option<String>,
    pub groq_api_key: Option<String>,
    pub perplexity_api_key: Option<String>,
    pub gemini_api_key: Option<String>,
}

/// The names and states of a list of feature switches.
pub open spec fn features_view(features: Seq<(String, bool)>) -> Seq<(Seq<char>, bool)> {
    Seq::new(features.len(), |i: int| (features[i].0@, features[i].1))
}

fn key_of(key: &Option<String>) -> (k: Option<&str>)
    ensures
        match k {
            Some(t) => *key is Some && t@ == key->Some_0@,
            None => *key is None,
        },
{
    match key {
        Some(t) => Some(t.as_str()),
        None => None,
    }
}

impl AppConfig {
    pub fn openai_api_key(&self) -> (k: Option<&str>)
        ensures
            match k {
                Some(t) => self.openai_api_key is Some && t@ == self.openai_api_key->Some_0@,
                None => self.openai_api_key is None,
            },
    {
        key_of(&self.openai_api_key)
    }

    pub fn anthropic_api_key(&self) -> (k: Option<&str>)
        ensures
            match k {
                Some(t) => self.anthropic_api_key is Some && t@ == self.anthropic_api_key->Some_0@,
                None => self.anthropic_api_key is None,
            },
    {
        key_of(&self.anthropic_api_key)
    }

    pub fn groq_api_key(&self) -> (k: Option<&str>)
        ensures
            match k {
                Some(t) => self.groq_api_key is Some && t@ == self.groq_api_key->Some_0@,
                None => self.groq_api_key is None,
            },
    {
        key_of(&self.groq_api_key)
    }

    pub fn perplexity_api_key(&self) -> (k: Option<&str>)
        ensures
            match k {
                Some(t) => self.perplexity_api_key is Some && t@ == self.perplexity_api_key->Some_0@,
                None => self.perplexity_api_key is None,
            },
    {
        key_of(&self.perplexity_api_key)
    }

    pub fn gemini_api_key(&self) -> (k: Option<&str>)
        ensures
            match k {
                Some(t) => self.gemini_api_key is Some && t@ == self.gemini_api_key->Some_0@,
                None => self.gemini_api_key is None,
            },
    {
        key_of(&self.gemini_api_key)
    }
}

/// The part of the configuration that a front end may see. It has no place
/// for a key.
#[derive(Debug)]
pub struct FrontendConfig {
    pub model_name: String,
    pub dot_global_config_health_check: bool,
    pub dev_env: String,
    pub example_parent: ExampleParent,
    pub default_llm: DefaultLlm,
    pub llm_config: LlmConfig,
    pub features: Vec<(String, bool)>,
}

impl FrontendConfig {
    /// The front end's part of a configuration: every field it has, as the
    /// configuration holds it.
    pub fn from(config: &AppConfig) -> (front: FrontendConfig)
        ensures
            front.model_name@ == config.model_name@,
            front.dot_global_config_health_check == config.dot_global_config_health_check,
            front.dev_env@ == config.dev_env@,
            front.example_parent.example_child@ == config.example_parent.example_child@,
            front.default_llm@ == config.default_llm@,
            front.llm_config == config.llm_config,
            features_view(front.features@) == features_view(config.features@),
    {
        let mut features: Vec<(String, bool)> = Vec::new();
        let mut i: usize = 0;
        while i < config.features.len()
            invariant
                i <= config.features.len(),
                features@.len() == i,
                forall|k: int|
                    0 <= k < i ==> features@[k].0@ == config.features@[k].0@ && features@[k].1
                        == config.features@[k].1,
            decreases config.features.len() - i,
        {
            features.push((config.features[i].0.clone(), config.features[i].1));
            i += 1;
        }
        assert(features_view(features@) =~= features_view(config.features@));
        FrontendConfig {
            model_name: config.model_name.clone(),
            dot_global_config_health_check: config.dot_global_config_health_check,
            dev_env: config.dev_env.clone(),
            example_parent: config.example_parent.clone(),
            default_llm: config.default_llm.clone(),
            llm_config: config.llm_config,
            features,
        }
    }
}

/// The environment that a configuration is for unless it says otherwise.
pub fn default_dev_env() -> (env: String)
    ensures
        env@ == "dev"@,
{
    "dev".to_string()
}

/// The state of a redaction switch that a configuration file leaves out.
pub fn true_default() -> (b: bool)
    ensures
        b,
{
    true
}

} // verus!
