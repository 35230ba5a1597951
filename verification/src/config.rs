//! Application configuration: the resolved settings the application runs
//! with, the optional per-user overrides, and the merge that layers one over
//! the other. Reading the environment and the user's configuration file
//! belongs to the surrounding application; this module owns the values and
//! the merge rule.

use vstd::prelude::*;
use vstd::string::StringExecFns;

verus! {

/// Which AI backend the application talks to.
#[derive(Debug, Clone, PartialEq, Eq, Structural)]
pub enum AiProvider {
    OpenAI,
    Gemini,
    Custom,
}

/// The optional overrides a user's configuration file may supply; every
/// field left out keeps the base configuration's value.
#[derive(Debug)]
pub struct UserConfig {
    pub api_key: Option<String>,
    pub language: Option<String>,
    pub volume: Option<u8>,
    pub debug_mode: Option<bool>,
    pub ai_provider: Option<AiProvider>,
    pub ai_model: Option<String>,
    pub ai_url: Option<String>,
}

/// The fully resolved configuration the application runs with.
#[derive(Debug, Clone)]
pub struct AppConfig {
    pub api_key: String,
    pub ai_url: String,
    pub language: String,
    pub volume: u8,
    pub debug_mode: bool,
    pub ai_model: String,
    pub ai_provider: AiProvider,
}

impl AppConfig {
    /// Layers the user's overrides over this configuration: each field the
    /// user set replaces the base value, and each field left unset keeps it.
    pub fn override_with(self, user_config: UserConfig) -> (merged: Self)
        ensures
            merged.api_key == (if user_config.api_key is Some {
                user_config.api_key->0
            } else {
                self.api_key
            }),
            merged.language == (if user_config.language is Some {
                user_config.language->0
            } else {
                self.language
            }),
            merged.volume == (if user_config.volume is Some {
                user_config.volume->0
            } else {
                self.volume
            }),
            merged.debug_mode == (if user_config.debug_mode is Some {
                user_config.debug_mode->0
            } else {
                self.debug_mode
            }),
            merged.ai_url == (if user_config.ai_url is Some {
                user_config.ai_url->0
            } else {
                self.ai_url
            }),
            merged.ai_model == (if user_config.ai_model is Some {
                user_config.ai_model->0
            } else {
                self.ai_model
            }),
            merged.ai_provider == (if user_config.ai_provider is Some {
                user_config.ai_provider->0
            } else {
                self.ai_provider
            }),
    {
        Self {
            api_key: user_config.api_key.unwrap_or(self.api_key),
            language: user_config.language.unwrap_or(self.language),
            volume: user_config.volume.unwrap_or(self.volume),
            debug_mode: user_config.debug_mode.unwrap_or(self.debug_mode),
            ai_url: user_config.ai_url.unwrap_or(self.ai_url),
            ai_model: user_config.ai_model.unwrap_or(self.ai_model),
            ai_provider: user_config.ai_provider.unwrap_or(self.ai_provider),
        }
    }
}

/// The configuration used when neither the environment nor a user file
/// supplies one: empty endpoints and key, English, volume 50, debugging
/// off, custom provider.
pub fn get_default_config() -> (config: AppConfig)
    ensures
        config.api_key@ == Seq::<char>::empty(),
        config.ai_url@ == Seq::<char>::empty(),
        config.ai_model@ == Seq::<char>::empty(),
        config.language@ == "en"@,
        config.volume == 50,
        !config.debug_mode,
        config.ai_provider is Custom,
{
    AppConfig {
        ai_url: String::new(),
        api_key: String::new(),
        ai_model: String::new(),
        ai_provider: AiProvider::Custom,
        language: String::from_str("en"),
        volume: 50,
        debug_mode: false,
    }
}

} // verus!
