use wezterm_ai::code_mode::{
    request_action, request_plan, request_text, strip_json_fences, ACTION_PROMPT, PLAN_PROMPT,
};
use wezterm_ai::config::{AiConfig, AiProvider};

fn config(provider: AiProvider) -> AiConfig {
    AiConfig {
        ai_provider: provider,
        ai_model: Some("m".to_string()),
        ai_ollama_base_url: "http://localhost:11434/v1".to_string(),
        code_mode_auto_accept: false,
        solana_rpc_url: None,
    }
}

#[test]
fn fences_are_taken_off() {
    assert_eq!(strip_json_fences("```json\n{\"a\":1}\n```"), "{\"a\":1}");
    assert_eq!(strip_json_fences("  ```\n{}\n```  "), "{}");
    assert_eq!(strip_json_fences(" {} \n"), "{}");
    assert_eq!(strip_json_fences("{}```"), "{}```");
    assert_eq!(strip_json_fences("```json```"), "");
    assert_eq!(strip_json_fences("```a```json b"), "a b");
}

#[test]
fn what_comes_out_is_trimmed_and_unfenced() {
    for text in ["``` x ```", "```json\n```json\n```", " y ", "````````"] {
        let r = strip_json_fences(text);
        assert_eq!(r, r.trim());
        assert!(!r.contains("```"), "{r:?}");
    }
}

#[test]
fn a_plan_is_asked_for_in_one_message() {
    let r = request_plan(&config(AiProvider::Ollama), None, "build it").unwrap();
    assert_eq!(r.messages.len(), 1);
    assert_eq!(r.messages[0].role, "user");
    assert_eq!(
        r.messages[0].content,
        "Create a concise plan and a Mermaid diagram. Return JSON: \
         {\"summary\":\"...\",\"mermaid\":\"...\",\"steps\":[\"...\"]}.\nTask: build it"
    );
    assert!(r.messages[0].content.starts_with(PLAN_PROMPT));
}

#[test]
fn an_action_is_asked_for_in_one_message() {
    let r = request_action(&config(AiProvider::Anthropic), Some("k".to_string()), "go").unwrap();
    assert_eq!(r.system, None);
    assert_eq!(r.messages.len(), 1);
    assert_eq!(
        r.messages[0].content,
        "Return JSON with kind=command or code. If command, include a shell command string in \
         command. If code, include content. Schema: \
         {\"kind\":\"command|code\",\"content\":\"...\",\"command\":\"...\"}.\nUser request: go"
    );
    assert!(r.messages[0].content.starts_with(ACTION_PROMPT));
}

#[test]
fn a_text_is_asked_for_as_it_stands() {
    let r = request_text(&config(AiProvider::OpenAI), Some("k".to_string()), " x ").unwrap();
    assert_eq!(r.messages.len(), 1);
    assert_eq!(r.messages[0].content, " x ");
    let e = request_text(&config(AiProvider::OpenAI), None, "x").unwrap_err();
    assert_eq!(e.message(), "missing OpenAI API key");
}
