//! The DeepSeek chat-completion endpoint.

use crate::config::{ConfigError, ProviderConfig, ProviderConfigView};
use crate::request::{post_for, prepare, PostRequest};
use vstd::prelude::*;

verus! {

/// The address of the chat-completion endpoint.
pub const API_URL: &'static str = "https://api.deepseek.com/chat/completions";

/// The configuration that reaches DeepSeek with a key and a model.
pub open spec fn deepseek_config(api_key: Seq<char>, model: Seq<char>) -> ProviderConfigView {
    ProviderConfigView { endpoint: API_URL@, api_key, model }
}

/// The request that asks DeepSeek for a commit message on `diff`, under the
/// instruction `prompt`. An empty key or an empty prompt is a fault of the
/// configuration: it is reported, and there is no request to make.
pub fn deepseek(
    api_key: &str,
    model: &str,
    prompt: &str,
    diff: &str,
) -> (r: Result<PostRequest, ConfigError>)
    ensures
        api_key@.len() == 0 ==> r matches Err(ConfigError::MissingApiKey),
        api_key@.len() > 0 && prompt@.len() == 0 ==> r matches Err(ConfigError::EmptyPrompt),
        api_key@.len() > 0 && prompt@.len() > 0 ==> (r matches Ok(request) && request@ == post_for(
            deepseek_config(api_key@, model@),
            prompt@,
            diff@,
        )),
{
    proof {
        reveal_strlit("https://api.deepseek.com/chat/completions");
    }
    let config = ProviderConfig::new(API_URL, api_key, model);
    prepare(&config, prompt, diff)
}

} // verus!
