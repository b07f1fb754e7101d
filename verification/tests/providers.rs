use mahoraga::providers::{
    create_provider, extract_json, find_first, find_last, trim_trailing_slashes, user_message_for,
    AnthropicProvider, AzureProvider, BodyShape, OpenAIProvider, Provider, ProviderError,
    SYSTEM_PROMPT,
};
use mahoraga::types::{AnthropicConfig, AzureConfig, Config, OpenAIConfig, ProviderType};

fn cs(s: &str) -> Vec<char> {
    s.chars().collect()
}

fn pair(a: &str, b: &str) -> (String, String) {
    (a.to_string(), b.to_string())
}

fn azure() -> AzureConfig {
    AzureConfig {
        url: "https://example.openai.azure.com//".to_string(),
        api_key: "k1".to_string(),
        deployment: "dep".to_string(),
        api_version: "2024-02-15-preview".to_string(),
    }
}

#[test]
fn create_provider_follows_the_active_backend() {
    let mut config = Config::default();
    config.azure = azure();
    config.openai.api_key = "k2".to_string();
    config.anthropic.api_key = "k3".to_string();
    for (active, key) in [
        (ProviderType::Azure, "k1"),
        (ProviderType::OpenAI, "k2"),
        (ProviderType::Anthropic, "k3"),
    ] {
        config.provider.active = active;
        let provider = create_provider(&config).expect("a provider is always made");
        assert_eq!(provider.provider_type(), active);
        let request = provider.prepare("p").expect("the key is there");
        assert!(request.headers.iter().any(|(_, v)| v.ends_with(key)));
    }
}

#[test]
fn azure_request() {
    let provider = AzureProvider::new(azure());
    assert_eq!(
        provider.build_url(),
        "https://example.openai.azure.com/openai/deployments/dep/chat/completions?api-version=2024-02-15-preview"
    );
    let request = provider.prepare("make it better").unwrap();
    assert_eq!(request.url, provider.build_url());
    assert_eq!(
        request.headers,
        vec![pair("api-key", "k1"), pair("Content-Type", "application/json")]
    );
    assert_eq!(request.shape, BodyShape::Chat);
    assert_eq!(request.model, None);
    assert_eq!(request.system, SYSTEM_PROMPT);
    assert_eq!(request.user, "Analyze this prompt:\n\nmake it better");
    assert_eq!(request.max_tokens, 1000);
}

#[test]
fn azure_says_what_is_missing_in_order() {
    let mut config = AzureConfig::default();
    assert_eq!(
        AzureProvider::new(config.clone()).prepare("p").unwrap_err(),
        ProviderError::AzureUrlMissing
    );
    config.url = "u".to_string();
    assert_eq!(
        AzureProvider::new(config.clone()).prepare("p").unwrap_err(),
        ProviderError::AzureApiKeyMissing
    );
    config.api_key = "k".to_string();
    assert_eq!(
        AzureProvider::new(config.clone()).prepare("p").unwrap_err(),
        ProviderError::AzureDeploymentMissing
    );
    config.deployment = "d".to_string();
    let request = AzureProvider::new(config).prepare("p").unwrap();
    assert_eq!(request.url, "u/openai/deployments/d/chat/completions?api-version=");
}

#[test]
fn openai_request() {
    let config = OpenAIConfig { api_key: "sk".to_string(), model: "gpt-4".to_string() };
    let request = OpenAIProvider::new(config).prepare("x").unwrap();
    assert_eq!(request.url, "https://api.openai.com/v1/chat/completions");
    assert_eq!(
        request.headers,
        vec![pair("Authorization", "Bearer sk"), pair("Content-Type", "application/json")]
    );
    assert_eq!(request.shape, BodyShape::Chat);
    assert_eq!(request.model.as_deref(), Some("gpt-4"));
    assert_eq!(request.user, "Analyze this prompt:\n\nx");
    assert_eq!(request.max_tokens, 1000);
    assert_eq!(
        OpenAIProvider::new(OpenAIConfig::default()).prepare("x").unwrap_err(),
        ProviderError::OpenAIApiKeyMissing
    );
}

#[test]
fn anthropic_request() {
    let config = AnthropicConfig { api_key: "ak".to_string(), model: "m".to_string() };
    let request = Provider::Anthropic(AnthropicProvider::new(config)).prepare("x").unwrap();
    assert_eq!(request.url, "https://api.anthropic.com/v1/messages");
    assert_eq!(
        request.headers,
        vec![
            pair("x-api-key", "ak"),
            pair("anthropic-version", "2023-06-01"),
            pair("Content-Type", "application/json"),
        ]
    );
    assert_eq!(request.shape, BodyShape::Messages);
    assert_eq!(request.model.as_deref(), Some("m"));
    assert_eq!(request.system, SYSTEM_PROMPT);
    assert_eq!(
        AnthropicProvider::new(AnthropicConfig::default()).prepare("x").unwrap_err(),
        ProviderError::AnthropicApiKeyMissing
    );
}

#[test]
fn provider_errors_in_words() {
    assert_eq!(ProviderError::AzureUrlMissing.message(), "Azure URL is not configured");
    assert_eq!(ProviderError::AzureApiKeyMissing.message(), "Azure API key is not configured");
    assert_eq!(
        ProviderError::AzureDeploymentMissing.message(),
        "Azure deployment is not configured"
    );
    assert_eq!(ProviderError::OpenAIApiKeyMissing.message(), "OpenAI API key is not configured");
    assert_eq!(
        ProviderError::AnthropicApiKeyMissing.message(),
        "Anthropic API key is not configured"
    );
}

#[test]
fn system_prompt_text() {
    assert!(SYSTEM_PROMPT.starts_with("You are a strict prompt quality analyzer."));
    assert!(SYSTEM_PROMPT.contains("\n{\n  \"score\": <number 0-100>,\n"));
    assert!(SYSTEM_PROMPT.ends_with("even for good prompts."));
    assert_eq!(SYSTEM_PROMPT.lines().count(), 48);
    assert_eq!(user_message_for(""), "Analyze this prompt:\n\n");
}

#[test]
fn trailing_slashes_are_trimmed() {
    for text in ["", "/", "//", "a", "a/", "a//", "/a", "a/b/", "http://x//"] {
        assert_eq!(trim_trailing_slashes(text), text.trim_end_matches('/'));
    }
}

#[test]
fn json_is_cut_out_of_a_response() {
    assert_eq!(extract_json("{\"score\": 1}"), "{\"score\": 1}");
    assert_eq!(extract_json("Here you go: {\"a\": {\"b\": 2}} thanks"), "{\"a\": {\"b\": 2}}");
    assert_eq!(extract_json("no braces"), "no braces");
    assert_eq!(extract_json("only { open"), "only { open");
    assert_eq!(extract_json("only } close"), "only } close");
    assert_eq!(extract_json("} backwards {"), "} backwards {");
    assert_eq!(extract_json("}{"), "}{");
    assert_eq!(extract_json(""), "");
    assert_eq!(extract_json("é{ü}ß"), "{ü}");
    assert_eq!(find_first(&cs("a{b{"), '{'), Some(1));
    assert_eq!(find_last(&cs("a}b}c"), '}'), Some(3));
    assert_eq!(find_first(&cs("abc"), '{'), None);
    assert_eq!(find_last(&cs(""), '}'), None);
}
