use wezterm_ai::chat::{
    key_account, key_variable, load_api_key, make_request, model_or_err, pick_reply,
    send_anthropic, send_openai_compatible, ChatError, ChatRequest, Purpose, KEYRING_SERVICE,
};
use wezterm_ai::config::{AiConfig, AiProvider};

fn config(provider: AiProvider, model: Option<&str>) -> AiConfig {
    AiConfig {
        ai_provider: provider,
        ai_model: model.map(|m| m.to_string()),
        ai_ollama_base_url: "http://localhost:11434/v1".to_string(),
        code_mode_auto_accept: false,
        solana_rpc_url: None,
    }
}

fn messages(request: &ChatRequest) -> Vec<(String, String)> {
    request.messages.iter().map(|m| (m.role.clone(), m.content.clone())).collect()
}

fn pair(a: &str, b: &str) -> (String, String) {
    (a.to_string(), b.to_string())
}

#[test]
fn openai_requests_carry_the_system_prompt_as_a_message() {
    let r = send_openai_compatible(
        "http://h/v1",
        Some("k".to_string()),
        "m".to_string(),
        Some("sys"),
        "hello",
    );
    assert_eq!(r.url, "http://h/v1/chat/completions");
    assert_eq!(r.bearer.as_deref(), Some("k"));
    assert!(r.headers.is_empty());
    assert_eq!(r.system, None);
    assert_eq!(r.model, "m");
    assert_eq!(r.max_tokens, None);
    assert_eq!(messages(&r), vec![pair("system", "sys"), pair("user", "hello")]);
}

#[test]
fn anthropic_requests_carry_the_system_prompt_as_a_field() {
    let r = send_anthropic("k", "m".to_string(), Some("sys"), "hello");
    assert_eq!(r.url, "https://api.anthropic.com/v1/messages");
    assert_eq!(r.bearer, None);
    assert_eq!(r.headers, vec![pair("x-api-key", "k"), pair("anthropic-version", "2023-06-01")]);
    assert_eq!(r.system.as_deref(), Some("sys"));
    assert_eq!(r.max_tokens, Some(1024));
    assert_eq!(messages(&r), vec![pair("user", "hello")]);
}

#[test]
fn each_provider_has_its_address() {
    let key = || Some("k".to_string());
    let r = make_request(&config(AiProvider::Ollama, Some("m")), key(), Purpose::AiMode, None, "x");
    let r = r.unwrap();
    assert_eq!(r.url, "http://localhost:11434/v1/chat/completions");
    assert_eq!(r.bearer, None);
    let r = make_request(&config(AiProvider::OpenAI, Some("m")), key(), Purpose::AiMode, None, "x");
    let r = r.unwrap();
    assert_eq!(r.url, "https://api.openai.com/v1/chat/completions");
    assert_eq!(r.bearer.as_deref(), Some("k"));
    let c = config(AiProvider::Anthropic, Some("m"));
    let r = make_request(&c, key(), Purpose::AiMode, None, "x").unwrap();
    assert_eq!(r.url, "https://api.anthropic.com/v1/messages");
}

#[test]
fn a_missing_key_is_told_before_a_missing_model() {
    for provider in [AiProvider::OpenAI, AiProvider::Anthropic] {
        let c = config(provider, None);
        let e = make_request(&c, None, Purpose::AiMode, None, "x").unwrap_err();
        assert_eq!(e, ChatError::MissingKey(provider));
        let e = make_request(&c, Some("k".to_string()), Purpose::AiMode, None, "x").unwrap_err();
        assert_eq!(e, ChatError::MissingModel(Purpose::AiMode));
    }
    let c = config(AiProvider::Ollama, None);
    let e = make_request(&c, None, Purpose::CodeMode, None, "x").unwrap_err();
    assert_eq!(e, ChatError::MissingModel(Purpose::CodeMode));
}

#[test]
fn errors_have_their_texts() {
    let texts = [
        (ChatError::MissingKey(AiProvider::OpenAI), "missing OpenAI API key"),
        (ChatError::MissingKey(AiProvider::Anthropic), "missing Anthropic API key"),
        (ChatError::MissingModel(Purpose::AiMode), "ai_model must be configured for AI mode"),
        (ChatError::MissingModel(Purpose::CodeMode), "ai_model must be configured for code mode"),
        (ChatError::MissingChoices, "AI response missing choices"),
        (ChatError::MissingContent, "Anthropic response missing content"),
    ];
    for (e, text) in texts {
        assert_eq!(e.message(), text);
    }
}

#[test]
fn the_configured_model_is_taken() {
    let c = config(AiProvider::Ollama, Some("m"));
    assert_eq!(model_or_err(&c, Purpose::AiMode), Ok("m".to_string()));
}

#[test]
fn the_first_reply_is_taken() {
    let two = || vec!["a".to_string(), "b".to_string()];
    assert_eq!(pick_reply(AiProvider::Ollama, two()), Ok("a".to_string()));
    assert_eq!(pick_reply(AiProvider::Anthropic, two()), Ok("a".to_string()));
    assert_eq!(pick_reply(AiProvider::OpenAI, vec![]), Err(ChatError::MissingChoices));
    assert_eq!(pick_reply(AiProvider::Ollama, vec![]), Err(ChatError::MissingChoices));
    assert_eq!(pick_reply(AiProvider::Anthropic, vec![]), Err(ChatError::MissingContent));
}

#[test]
fn keys_are_where_they_are_expected() {
    assert_eq!(KEYRING_SERVICE, "wezterm");
    assert_eq!(key_account(AiProvider::OpenAI), Some("openai"));
    assert_eq!(key_account(AiProvider::Anthropic), Some("anthropic"));
    assert_eq!(key_account(AiProvider::Ollama), None);
    assert_eq!(key_variable(AiProvider::OpenAI), Some("WEZTERM_OPENAI_API_KEY"));
    assert_eq!(key_variable(AiProvider::Anthropic), Some("WEZTERM_ANTHROPIC_API_KEY"));
    assert_eq!(key_variable(AiProvider::Ollama), None);
}

#[test]
fn a_key_from_the_environment_is_stored() {
    let text = |s: &str| Some(s.to_string());
    let r = load_api_key(text("a"), text("b"));
    assert_eq!((r.key, r.store), (text("a"), None));
    let r = load_api_key(None, text("b"));
    assert_eq!((r.key, r.store), (text("b"), text("b")));
    let r = load_api_key(None, None);
    assert_eq!((r.key, r.store), (None, None));
}
