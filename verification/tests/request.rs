use commitgen::config::{check_config, ConfigError, ProviderConfig};
use commitgen::deepseek::{deepseek, API_URL};
use commitgen::request::{prepare, GenerationRequest, MAX_TOKENS, TIMEOUT_SECS};

#[test]
fn request_carries_the_key_twice() {
    let request = deepseek("sk-123", "deepseek-chat", "Summarise.", "diff --git a b").unwrap();
    assert_eq!(request.url, "https://api.deepseek.com/chat/completions?key=sk-123");
    assert_eq!(request.authorization, "Bearer sk-123");
    assert_eq!(request.content_type, "application/json");
    assert_eq!(request.timeout_secs, 20);
}

#[test]
fn endpoint_and_limits_are_the_documented_ones() {
    assert_eq!(API_URL, "https://api.deepseek.com/chat/completions");
    assert_eq!(MAX_TOKENS, 200);
    assert_eq!(TIMEOUT_SECS, 20);
}

#[test]
fn body_is_the_compact_json_of_the_request() {
    let request = deepseek("k", "M", "P", "D").unwrap();
    assert_eq!(
        request.body,
        "{\"max_tokens\":200,\"messages\":[{\"content\":\"P\",\"role\":\"system\"},{\"content\":\"D\",\"role\":\"user\"}],\"model\":\"M\",\"stream\":false,\"stream_options\":null}"
    );
}

#[test]
fn body_holds_one_system_and_one_user_message() {
    let diff = "--- a/src/lib.rs\n+++ b/src/lib.rs\n@@ -1 +1 @@\n-let s = \"old\";\n+let s = \"new\\n\";\n";
    let request = deepseek("k", "deepseek-coder", "Write a commit message.", diff).unwrap();
    let body: serde_json::Value = serde_json::from_str(&request.body).unwrap();
    let object = body.as_object().unwrap();
    assert_eq!(object.len(), 5);
    assert_eq!(body["model"].as_str(), Some("deepseek-coder"));
    assert!(body["stream_options"].is_null());
    assert!(object.contains_key("stream_options"));
    assert_eq!(body["max_tokens"].as_u64(), Some(200));
    assert_eq!(body["stream"].as_bool(), Some(false));
    let messages = body["messages"].as_array().unwrap();
    assert_eq!(messages.len(), 2);
    assert_eq!(messages[0].as_object().unwrap().len(), 2);
    assert_eq!(messages[0]["role"].as_str(), Some("system"));
    assert_eq!(messages[0]["content"].as_str(), Some("Write a commit message."));
    assert_eq!(messages[1].as_object().unwrap().len(), 2);
    assert_eq!(messages[1]["role"].as_str(), Some("user"));
    assert_eq!(messages[1]["content"].as_str(), Some(diff));
}

#[test]
fn empty_diff_is_sent_as_it_is() {
    let request = deepseek("k", "m", "p", "").unwrap();
    let body: serde_json::Value = serde_json::from_str(&request.body).unwrap();
    assert_eq!(body["messages"][1]["content"].as_str(), Some(""));
}

#[test]
fn empty_key_gives_no_request() {
    assert_eq!(deepseek("", "m", "p", "d").err(), Some(ConfigError::MissingApiKey));
}

#[test]
fn empty_prompt_gives_no_request() {
    assert_eq!(deepseek("k", "m", "", "d").err(), Some(ConfigError::EmptyPrompt));
}

#[test]
fn empty_endpoint_gives_no_request() {
    let config = ProviderConfig::new("", "k", "m");
    assert_eq!(prepare(&config, "p", "d").err(), Some(ConfigError::MissingEndpoint));
    assert_eq!(check_config(&config, "p"), Err(ConfigError::MissingEndpoint));
}

#[test]
fn faults_are_reported_in_the_order_key_endpoint_prompt() {
    let nothing = ProviderConfig::new("", "", "m");
    assert_eq!(check_config(&nothing, ""), Err(ConfigError::MissingApiKey));
    let no_endpoint = ProviderConfig::new("", "k", "m");
    assert_eq!(check_config(&no_endpoint, ""), Err(ConfigError::MissingEndpoint));
    let sound = ProviderConfig::new("https://example.test/v1", "k", "m");
    assert_eq!(check_config(&sound, ""), Err(ConfigError::EmptyPrompt));
    assert_eq!(check_config(&sound, "p"), Ok(()));
}

#[test]
fn empty_model_is_no_fault() {
    let request = deepseek("k", "", "p", "d").unwrap();
    let body: serde_json::Value = serde_json::from_str(&request.body).unwrap();
    assert_eq!(body["model"].as_str(), Some(""));
}

#[test]
fn whitespace_key_counts_as_present() {
    let request = deepseek(" ", "m", "p", "d").unwrap();
    assert_eq!(request.authorization, "Bearer  ");
}

#[test]
fn prepare_uses_the_endpoint_of_the_configuration() {
    let config = ProviderConfig::new("https://example.test/v1/chat", "secret", "some-model");
    let request = prepare(&config, "p", "d").unwrap();
    assert_eq!(request.url, "https://example.test/v1/chat?key=secret");
    assert_eq!(request.authorization, "Bearer secret");
    assert_eq!(request.timeout_secs, 20);
    let body: serde_json::Value = serde_json::from_str(&request.body).unwrap();
    assert_eq!(body["model"].as_str(), Some("some-model"));
}

#[test]
fn configuration_keeps_its_parts() {
    let config = ProviderConfig::new("e", "k", "m");
    assert_eq!(config.endpoint, "e");
    assert_eq!(config.api_key, "k");
    assert_eq!(config.model, "m");
}

#[test]
fn generation_request_has_the_fixed_limits() {
    let generation = GenerationRequest::new("m", "p", "d");
    assert_eq!(generation.model, "m");
    assert_eq!(generation.system_prompt, "p");
    assert_eq!(generation.user_content, "d");
    assert_eq!(generation.max_tokens, 200);
    assert!(!generation.stream);
    assert_eq!(
        generation.body(),
        "{\"max_tokens\":200,\"messages\":[{\"content\":\"p\",\"role\":\"system\"},{\"content\":\"d\",\"role\":\"user\"}],\"model\":\"m\",\"stream\":false,\"stream_options\":null}"
    );
}

#[test]
fn generation_request_writes_its_own_fields() {
    let generation = GenerationRequest {
        model: "m".to_string(),
        system_prompt: "p".to_string(),
        user_content: "d".to_string(),
        max_tokens: 7,
        stream: true,
    };
    let body: serde_json::Value = serde_json::from_str(&generation.body()).unwrap();
    assert_eq!(body["max_tokens"].as_u64(), Some(7));
    assert_eq!(body["stream"].as_bool(), Some(true));
}

#[test]
fn each_fault_has_its_diagnostic() {
    assert_eq!(ConfigError::MissingApiKey.message(), "API key is missing");
    assert_eq!(ConfigError::MissingEndpoint.message(), "API URL is missing");
    assert_eq!(ConfigError::EmptyPrompt.message(), "prompt is empty");
}
