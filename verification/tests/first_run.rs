use wezterm_ai::config::{AiProvider, DefaultPaneMode};
use wezterm_ai::first_run::{
    invalid_choice, pick_choice, prompt_bool, prompt_choice, prompt_label, prompt_string, Wizard,
    WizardStage, COMPLETE, DEFAULT_BASE_URL, WELCOME,
};

fn line(s: &str) -> Option<String> {
    Some(s.to_string())
}

#[test]
fn labels_show_the_default() {
    assert_eq!(prompt_label("AI model name", None), "AI model name: ");
    assert_eq!(prompt_label("Ollama base URL", Some("u")), "Ollama base URL [u]: ");
}

#[test]
fn a_blank_line_is_the_default() {
    assert_eq!(prompt_string(line(" x "), Some("d")), "x");
    assert_eq!(prompt_string(line("  "), Some("d")), "d");
    assert_eq!(prompt_string(line(""), None), "");
    assert_eq!(prompt_string(None, Some("d")), "d");
    assert_eq!(prompt_string(None, None), "");
}

#[test]
fn yes_is_spelled_in_four_ways() {
    for yes in ["y", "Y", "yes", "YES", " y "] {
        assert!(prompt_bool(line(yes), false), "{yes}");
    }
    for no in ["n", "Yes", "yEs", "true", "1"] {
        assert!(!prompt_bool(line(no), true), "{no}");
    }
    assert!(prompt_bool(line(""), true));
    assert!(!prompt_bool(line(""), false));
    assert!(prompt_bool(None, true));
}

#[test]
fn choices_are_made_in_any_case() {
    let choices = ["ollama", "openai"];
    assert_eq!(prompt_choice(line(" OpenAI "), &choices, "ollama"), Ok("openai".to_string()));
    assert_eq!(prompt_choice(line(""), &choices, "ollama"), Ok("ollama".to_string()));
    assert_eq!(prompt_choice(None, &choices, "ollama"), Ok("ollama".to_string()));
    assert_eq!(prompt_choice(line("Other"), &choices, "ollama"), Err("Other".to_string()));
    assert_eq!(prompt_choice(line(""), &choices, ""), Ok(String::new()));
    assert_eq!(invalid_choice("Other"), "invalid choice: Other");
}

#[test]
fn a_lowered_answer_picks_a_choice() {
    let pick = |answer: &str, lowered: &str| {
        pick_choice(answer.to_string(), lowered.to_string(), &["a", "b"], "d")
    };
    assert_eq!(pick("B", "b"), Ok("b".to_string()));
    assert_eq!(pick("", ""), Ok("d".to_string()));
    assert_eq!(pick("C", "c"), Err("C".to_string()));
}

#[test]
fn enter_accepts_the_defaults() {
    let mut w = Wizard::new();
    assert_eq!(w.label(), "Enable AI module? (y/N) [n]: ");
    assert_eq!(w.on_line(line("")), Ok(()));
    assert_eq!(w.stage, WizardStage::AutoAccept);
    assert_eq!(w.label(), "Code Mode auto-accept commands? (y/N) [n]: ");
    assert_eq!(w.on_line(line(" ")), Ok(()));
    assert_eq!(w.stage, WizardStage::RpcUrl);
    assert_eq!(w.label(), "Solana RPC URL (optional): ");
    assert_eq!(w.on_line(None), Ok(()));
    assert_eq!(w.stage, WizardStage::WriteConfig);
    let s = w.settings();
    assert!(!s.enable_ai);
    assert_eq!(s.default_pane_mode, DefaultPaneMode::Terminal);
    assert_eq!(s.ai_provider, AiProvider::Ollama);
    assert_eq!(s.ai_model, None);
    assert_eq!(s.ollama_base_url, DEFAULT_BASE_URL);
    assert_eq!(s.solana_rpc_url, None);
    assert!(s.code_mode_enabled);
    assert!(!s.code_mode_auto_accept);
    w.on_done(true);
    assert_eq!(w.stage, WizardStage::Done);
}

#[test]
fn a_local_server_with_defaults() {
    let mut w = Wizard::new();
    w.on_line(line("y")).unwrap();
    assert_eq!(w.stage, WizardStage::Provider);
    assert_eq!(w.label(), "AI provider (ollama/openai/anthropic) [ollama]: ");
    w.on_line(line("")).unwrap();
    assert_eq!(w.stage, WizardStage::Model);
    assert_eq!(w.label(), "AI model name: ");
    w.on_line(line("")).unwrap();
    assert_eq!(w.ai_model.as_deref(), Some("qwen2.5-coder:7b"));
    assert_eq!(w.stage, WizardStage::OllamaUrl);
    assert_eq!(w.label(), "Ollama base URL [http://localhost:11434/v1]: ");
    w.on_line(line("")).unwrap();
    assert_eq!(w.ollama_base_url, "http://localhost:11434/v1");
    assert_eq!(w.stage, WizardStage::EnsureOllama);
    w.on_done(false);
    assert_eq!(w.stage, WizardStage::AutoAccept);
    w.on_line(line("YES")).unwrap();
    w.on_line(line(" https://rpc ")).unwrap();
    let s = w.settings();
    assert!(s.enable_ai && s.code_mode_auto_accept);
    assert_eq!(s.solana_rpc_url.as_deref(), Some("https://rpc"));
    w.on_done(false);
    assert_eq!(w.stage, WizardStage::Failed);
}

#[test]
fn a_local_server_elsewhere() {
    let mut w = Wizard::new();
    w.on_line(line("yes")).unwrap();
    w.on_line(line("OLLAMA")).unwrap();
    w.on_line(line("llama3")).unwrap();
    w.on_line(line("http://gpu:1/v1")).unwrap();
    w.on_done(true);
    assert_eq!(w.stage, WizardStage::AutoAccept);
    assert_eq!(w.ai_model.as_deref(), Some("llama3"));
    assert_eq!(w.ollama_base_url, "http://gpu:1/v1");
}

#[test]
fn a_hosted_provider_is_asked_for_its_key() {
    for (name, provider, label) in [
        ("openai", AiProvider::OpenAI, "OpenAI API key (leave blank to skip): "),
        ("Anthropic", AiProvider::Anthropic, "Anthropic API key (leave blank to skip): "),
    ] {
        let mut w = Wizard::new();
        w.on_line(line("Y")).unwrap();
        w.on_line(line(name)).unwrap();
        assert_eq!(w.ai_provider, provider);
        w.on_line(line("")).unwrap();
        assert_eq!(w.ai_model, None);
        assert_eq!(w.stage, WizardStage::ApiKey);
        assert_eq!(w.label(), label);
        w.on_line(line(" key ")).unwrap();
        assert_eq!(w.stage, WizardStage::StoreKey);
        assert_eq!(w.api_key, "key");
        w.on_done(true);
        assert_eq!(w.stage, WizardStage::AutoAccept);
    }
}

#[test]
fn a_key_may_be_left_out_and_must_be_stored() {
    let mut w = Wizard::new();
    w.on_line(line("y")).unwrap();
    w.on_line(line("openai")).unwrap();
    w.on_line(line("gpt")).unwrap();
    w.on_line(line("")).unwrap();
    assert_eq!(w.stage, WizardStage::AutoAccept);
    let mut w = Wizard::new();
    w.on_line(line("y")).unwrap();
    w.on_line(line("openai")).unwrap();
    w.on_line(line("gpt")).unwrap();
    w.on_line(line("k")).unwrap();
    w.on_done(false);
    assert_eq!(w.stage, WizardStage::Failed);
}

#[test]
fn an_unknown_provider_ends_the_wizard() {
    let mut w = Wizard::new();
    w.on_line(line("y")).unwrap();
    assert_eq!(w.on_line(line(" Grok ")), Err("Grok".to_string()));
    assert_eq!(w.stage, WizardStage::Failed);
}

#[test]
fn a_choice_names_the_provider() {
    for (choice, provider) in [
        ("ollama", AiProvider::Ollama),
        ("openai", AiProvider::OpenAI),
        ("anthropic", AiProvider::Anthropic),
    ] {
        let mut w = Wizard::new();
        w.on_line(line("y")).unwrap();
        assert_eq!(w.on_choice(Ok(choice.to_string())), Ok(()));
        assert_eq!(w.ai_provider, provider);
        assert_eq!(w.stage, WizardStage::Model);
    }
    let mut w = Wizard::new();
    w.on_line(line("y")).unwrap();
    assert_eq!(w.on_choice(Err("Grok".to_string())), Err("Grok".to_string()));
    assert_eq!(w.stage, WizardStage::Failed);
}

#[test]
fn the_user_is_welcomed() {
    assert_eq!(WELCOME, "Welcome to WezTerm setup.\r\nPress Enter to accept defaults.\r\n\r\n");
    assert_eq!(COMPLETE, "\r\nSetup complete. Restarting with new settings.\r\n");
}
