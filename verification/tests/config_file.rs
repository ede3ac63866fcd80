use wezterm_ai::config::{AiProvider, DefaultPaneMode};
use wezterm_ai::config_file::{
    config_candidates, config_file_exists, maybe_run_first_run_wizard, write_config, Settings,
    WizardStart, CONFIG_VARIABLE, DIR_CONFIG, HOME_CONFIG,
};

fn settings() -> Settings {
    Settings {
        enable_ai: true,
        default_pane_mode: DefaultPaneMode::Terminal,
        ai_provider: AiProvider::Ollama,
        ai_model: Some("m".to_string()),
        ollama_base_url: "http://localhost:11434/v1".to_string(),
        solana_rpc_url: Some("https://rpc".to_string()),
        code_mode_enabled: true,
        code_mode_auto_accept: false,
    }
}

const COLORS: &str = "  color_scheme = \"SolanaFuturistic\",
  use_fancy_tab_bar = true,
  window_frame = {
    active_titlebar_bg = \"#0b0f1a\",
    inactive_titlebar_bg = \"#0b0f1a\",
    active_titlebar_fg = \"#e6f1ff\",
    inactive_titlebar_fg = \"#8aa0c8\",
    active_titlebar_border_bottom = \"#1e2a3a\",
    inactive_titlebar_border_bottom = \"#1e2a3a\",
    button_fg = \"#e6f1ff\",
    button_bg = \"#0b0f1a\",
    button_hover_fg = \"#14f195\",
    button_hover_bg = \"#1e2a3a\",
  },
  colors = {
    tab_bar = {
      background = \"#0b0f1a\",
      active_tab = { bg_color = \"#141a2b\", fg_color = \"#e6f1ff\", intensity = \"Bold\" },
      inactive_tab = { bg_color = \"#0b0f1a\", fg_color = \"#8aa0c8\" },
      inactive_tab_hover = { bg_color = \"#141a2b\", fg_color = \"#e6f1ff\" },
      new_tab = { bg_color = \"#0b0f1a\", fg_color = \"#14f195\" },
      new_tab_hover = { bg_color = \"#141a2b\", fg_color = \"#14f195\" },
      inactive_tab_edge = \"#1e2a3a\",
      inactive_tab_edge_hover = \"#1e2a3a\",
    },
  },
";

#[test]
fn the_whole_file() {
    let expected = format!(
        "local wezterm = require 'wezterm'\nreturn {{\n  enable_ai_module = true,\n  \
         default_pane_mode = \"Terminal\",\n  ai_provider = \"Ollama\",\n  ai_model = \"m\",\n  \
         ai_ollama_base_url = \"http://localhost:11434/v1\",\n  solana_rpc_url = \
         \"https://rpc\",\n{COLORS}  code_mode_enabled = true,\n  code_mode_auto_accept = \
         false,\n}}\n"
    );
    assert_eq!(write_config(&settings()), expected);
}

#[test]
fn a_hosted_provider_has_no_base_url() {
    let mut s = settings();
    s.ai_provider = AiProvider::OpenAI;
    s.ai_model = None;
    s.solana_rpc_url = None;
    s.default_pane_mode = DefaultPaneMode::Ai;
    s.code_mode_auto_accept = true;
    let expected = format!(
        "local wezterm = require 'wezterm'\nreturn {{\n  enable_ai_module = true,\n  \
         default_pane_mode = \"Ai\",\n  ai_provider = \"OpenAI\",\n{COLORS}  code_mode_enabled = \
         true,\n  code_mode_auto_accept = true,\n}}\n"
    );
    assert_eq!(write_config(&s), expected);
    s.ai_provider = AiProvider::Anthropic;
    assert!(write_config(&s).contains("  ai_provider = \"Anthropic\",\n"));
}

#[test]
fn a_disabled_assistant_is_not_configured() {
    let mut a = settings();
    a.enable_ai = false;
    a.solana_rpc_url = None;
    a.code_mode_enabled = false;
    let mut b = settings();
    b.enable_ai = false;
    b.solana_rpc_url = None;
    b.code_mode_enabled = false;
    b.ai_provider = AiProvider::Anthropic;
    b.ai_model = None;
    b.ollama_base_url = "elsewhere".to_string();
    let expected = format!(
        "local wezterm = require 'wezterm'\nreturn {{\n  enable_ai_module = false,\n{COLORS}  \
         code_mode_enabled = false,\n  code_mode_auto_accept = false,\n}}\n"
    );
    assert_eq!(write_config(&a), expected);
    assert_eq!(write_config(&b), expected);
}

#[test]
fn the_named_file_is_looked_for_first() {
    assert_eq!(config_candidates(1, vec![2, 3], Some(0)), vec![0, 1, 2, 3]);
    assert_eq!(config_candidates(1, vec![2, 3], None), vec![1, 2, 3]);
    assert_eq!(config_candidates(1, vec![], None), vec![1]);
    assert_eq!(HOME_CONFIG, ".wezterm.lua");
    assert_eq!(DIR_CONFIG, "wezterm.lua");
    assert_eq!(CONFIG_VARIABLE, "WEZTERM_CONFIG_FILE");
}

#[test]
fn one_file_is_enough() {
    assert!(config_file_exists(&vec![false, true]));
    assert!(!config_file_exists(&vec![false, false]));
    assert!(!config_file_exists(&vec![]));
}

#[test]
fn the_wizard_runs_where_nothing_is_configured() {
    for bits in 0..16u8 {
        let at = |i: u8| bits >> i & 1 == 1;
        let expected = if at(0) || at(1) || at(2) {
            WizardStart::Overridden
        } else if at(3) {
            WizardStart::FileExists
        } else {
            WizardStart::Launch
        };
        assert_eq!(maybe_run_first_run_wizard(at(0), at(1), at(2), at(3)), expected);
    }
}
