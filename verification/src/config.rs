//! What a provider is reached with, and the checks that come before any
//! request is made.

use vstd::prelude::*;

verus! {

/// Where a provider is reached, with which key, and which model is asked.
#[derive(Clone, Debug)]
pub struct ProviderConfig {
    pub endpoint: String,
    pub api_key: String,
    pub model: String,
}

/// A `ProviderConfig` as a mathematical value.
pub struct ProviderConfigView {
    pub endpoint: Seq<char>,
    pub api_key: Seq<char>,
    pub model: Seq<char>,
}

impl View for ProviderConfig {
    type V = ProviderConfigView;

    open spec fn view(&self) -> ProviderConfigView {
        ProviderConfigView { endpoint: self.endpoint@, api_key: self.api_key@, model: self.model@ }
    }
}

/// Why no request is made for a configuration.
#[derive(Clone, Copy, Debug, PartialEq, Eq, Structural)]
pub enum ConfigError {
    /// The API key is empty.
    MissingApiKey,
    /// The endpoint URL is empty.
    MissingEndpoint,
    /// The system prompt is empty.
    EmptyPrompt,
}

/// The first fault of a configuration and a prompt, in the order in which
/// they are examined: key, endpoint, prompt.
pub open spec fn first_fault(config: ProviderConfigView, prompt: Seq<char>) -> Option<ConfigError> {
    if config.api_key.len() == 0 {
        Some(ConfigError::MissingApiKey)
    } else if config.endpoint.len() == 0 {
        Some(ConfigError::MissingEndpoint)
    } else if prompt.len() == 0 {
        Some(ConfigError::EmptyPrompt)
    } else {
        None
    }
}

impl ConfigError {
    /// The diagnostic of the fault.
    pub open spec fn diagnostic(self) -> Seq<char> {
        match self {
            ConfigError::MissingApiKey => "API key is missing"@,
            ConfigError::MissingEndpoint => "API URL is missing"@,
            ConfigError::EmptyPrompt => "prompt is empty"@,
        }
    }

    /// The diagnostic of the fault, as a text to show.
    pub fn message(&self) -> (r: String)
        ensures
            r@ == self.diagnostic(),
    {
        match self {
            ConfigError::MissingApiKey => "API key is missing".to_owned(),
            ConfigError::MissingEndpoint => "API URL is missing".to_owned(),
            ConfigError::EmptyPrompt => "prompt is empty".to_owned(),
        }
    }
}

impl ProviderConfig {
    /// The configuration with the given parts.
    pub fn new(endpoint: &str, api_key: &str, model: &str) -> (r: ProviderConfig)
        ensures
            r@.endpoint == endpoint@,
            r@.api_key == api_key@,
            r@.model == model@,
    {
        ProviderConfig {
            endpoint: endpoint.to_owned(),
            api_key: api_key.to_owned(),
            model: model.to_owned(),
        }
    }
}

/// Examines key, endpoint and prompt, in this order, and reports the first
/// that is empty.
pub fn check_config(config: &ProviderConfig, prompt: &str) -> (r: Result<(), ConfigError>)
    ensures
        r is Ok <==> first_fault(config@, prompt@) is None,
        r matches Err(e) ==> first_fault(config@, prompt@) == Some(e),
{
    if config.api_key.as_str().is_empty() {
        Err(ConfigError::MissingApiKey)
    } else if config.endpoint.as_str().is_empty() {
        Err(ConfigError::MissingEndpoint)
    } else if prompt.is_empty() {
        Err(ConfigError::EmptyPrompt)
    } else {
        Ok(())
    }
}

} // verus!
