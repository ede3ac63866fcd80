//! The configuration file that the first run writes.
use crate::config::{AiProvider, DefaultPaneMode};
#[allow(unused_imports)]
use crate::text::opt_text;
use vstd::prelude::*;
use vstd::string::*;

verus! {

/// The file in the home directory.
pub const HOME_CONFIG: &'static str = ".wezterm.lua";

/// The file in a configuration directory.
pub const DIR_CONFIG: &'static str = "wezterm.lua";

/// The environment variable that may name a file.
pub const CONFIG_VARIABLE: &'static str = "WEZTERM_CONFIG_FILE";

/// Where a configuration file may be, in order.
pub open spec fn candidates_of<P>(home: P, dirs: Seq<P>, variable: Option<P>) -> Seq<P> {
    (match variable {
        Some(path) => seq![path],
        None => Seq::empty(),
    }) + seq![home] + dirs
}

/// Where a configuration file may be, in order: where the environment says, in the home
/// directory, in the configuration directories.
pub fn config_candidates<P>(home: P, dirs: Vec<P>, variable: Option<P>) -> (r: Vec<P>)
    ensures
        r@ == candidates_of(home, dirs@, variable),
        r@ == (match variable {
            Some(path) => seq![path],
            None => Seq::empty(),
        }) + seq![home] + dirs@,
{
    let mut paths: Vec<P> = Vec::new();
    paths.push(home);
    let mut dirs = dirs;
    paths.append(&mut dirs);
    if let Some(path) = variable {
        paths.insert(0, path);
    }
    paths
}

/// Whether any of the candidates exists.
pub open spec fn any_found(found: Seq<bool>) -> bool {
    exists|i: int| 0 <= i < found.len() && #[trigger] found[i]
}

/// Whether any of the candidates exists.
pub fn config_file_exists(found: &Vec<bool>) -> (r: bool)
    ensures
        r == any_found(found@),
        r == exists|i: int| 0 <= i < found@.len() && #[trigger] found@[i],
{
    let mut i: usize = 0;
    while i < found.len()
        invariant
            i <= found@.len(),
            forall|k: int| 0 <= k < i ==> !#[trigger] found@[k],
        decreases found@.len() - i,
    {
        if found[i] {
            return true;
        }
        i += 1;
    }
    false
}

/// Whether the wizard runs, and why it does not.
#[derive(Clone, Copy, Debug, PartialEq, Eq, Structural)]
pub enum WizardStart {
    /// The configuration was overridden when the program was started.
    Overridden,
    /// There is a configuration file.
    FileExists,
    Launch,
}

/// Whether the wizard runs.
pub open spec fn wizard_start(
    skip_config: bool,
    has_config_file: bool,
    overridden: bool,
    file_exists: bool,
) -> WizardStart {
    if skip_config || has_config_file || overridden {
        WizardStart::Overridden
    } else if file_exists {
        WizardStart::FileExists
    } else {
        WizardStart::Launch
    }
}

/// Whether the wizard runs: only where nothing was said about the configuration and there is no
/// file.
pub fn maybe_run_first_run_wizard(
    skip_config: bool,
    has_config_file: bool,
    overridden: bool,
    file_exists: bool,
) -> (r: WizardStart)
    ensures
        r == wizard_start(skip_config, has_config_file, overridden, file_exists),
        r == if skip_config || has_config_file || overridden {
            WizardStart::Overridden
        } else if file_exists {
            WizardStart::FileExists
        } else {
            WizardStart::Launch
        },
{
    if skip_config || has_config_file || overridden {
        WizardStart::Overridden
    } else if file_exists {
        WizardStart::FileExists
    } else {
        WizardStart::Launch
    }
}

/// What the wizard settled.
#[derive(Debug)]
pub struct Settings {
    pub enable_ai: bool,
    pub default_pane_mode: DefaultPaneMode,
    pub ai_provider: AiProvider,
    pub ai_model: Option<String>,
    pub ollama_base_url: String,
    pub solana_rpc_url: Option<String>,
    pub code_mode_enabled: bool,
    pub code_mode_auto_accept: bool,
}

/// The settings as plain text.
pub ghost struct SettingsView {
    pub enable_ai: bool,
    pub default_pane_mode: DefaultPaneMode,
    pub ai_provider: AiProvider,
    pub ai_model: Option<Seq<char>>,
    pub ollama_base_url: Seq<char>,
    pub solana_rpc_url: Option<Seq<char>>,
    pub code_mode_enabled: bool,
    pub code_mode_auto_accept: bool,
}

impl View for Settings {
    type V = SettingsView;

    open spec fn view(&self) -> SettingsView {
        SettingsView {
            enable_ai: self.enable_ai,
            default_pane_mode: self.default_pane_mode,
            ai_provider: self.ai_provider,
            ai_model: opt_text(self.ai_model),
            ollama_base_url: self.ollama_base_url@,
            solana_rpc_url: opt_text(self.solana_rpc_url),
            code_mode_enabled: self.code_mode_enabled,
            code_mode_auto_accept: self.code_mode_auto_accept,
        }
    }
}

/// How the file begins.
pub const HEAD: &'static str = "local wezterm = require 'wezterm'\nreturn {\n";

/// The colors, which are the same for everyone.
pub const THEME: &'static str = "  color_scheme = \"SolanaFuturistic\",
  use_fancy_tab_bar = true,
  window_frame = {
    active_titlebar_bg = \"#0b0f1a\",
    inactive_titlebar_bg = \"#0b0f1a\",
    active_titlebar_fg = \"#e6f1ff\",
    inactive_titlebar_fg = \"#8aa0c8\",
    active_titlebar_border_bottom = \"#1e2a3a\",
    inactive_titlebar_border_bottom = \"#1e2a3a\",
    button_fg = \"#e6f1ff\",
    button_bg = \"#0b0f1a\",
    button_hover_fg = \"#14f195\",
    button_hover_bg = \"#1e2a3a\",
  },
  colors = {
    tab_bar = {
      background = \"#0b0f1a\",
      active_tab = { bg_color = \"#141a2b\", fg_color = \"#e6f1ff\", intensity = \"Bold\" },
      inactive_tab = { bg_color = \"#0b0f1a\", fg_color = \"#8aa0c8\" },
      inactive_tab_hover = { bg_color = \"#141a2b\", fg_color = \"#e6f1ff\" },
      new_tab = { bg_color = \"#0b0f1a\", fg_color = \"#14f195\" },
      new_tab_hover = { bg_color = \"#141a2b\", fg_color = \"#14f195\" },
      inactive_tab_edge = \"#1e2a3a\",
      inactive_tab_edge_hover = \"#1e2a3a\",
    },
  },
";

/// A line that sets a switch.
pub open spec fn switch_line(name: Seq<char>, on: bool) -> Seq<char> {
    "  "@ + name + " = "@ + (if on {
        "true"@
    } else {
        "false"@
    }) + ",\n"@
}

/// A line that sets a text. The text is written as it stands.
pub open spec fn text_line(name: Seq<char>, value: Seq<char>) -> Seq<char> {
    "  "@ + name + " = \""@ + value + "\",\n"@
}

/// A line that sets a text, where there is one.
pub open spec fn optional_line(name: Seq<char>, value: Option<Seq<char>>) -> Seq<char> {
    match value {
        Some(value) => text_line(name, value),
        None => Seq::empty(),
    }
}

/// The name of a pane mode in the file.
pub open spec fn pane_mode_name(mode: DefaultPaneMode) -> Seq<char> {
    match mode {
        DefaultPaneMode::Ai => "Ai"@,
        DefaultPaneMode::Terminal => "Terminal"@,
    }
}

/// The name of a provider in the file.
pub open spec fn provider_name(provider: AiProvider) -> Seq<char> {
    match provider {
        AiProvider::Ollama => "Ollama"@,
        AiProvider::OpenAI => "OpenAI"@,
        AiProvider::Anthropic => "Anthropic"@,
    }
}

/// The lines about the assistant: only its being off, where it is off; the address of the server
/// only where there is one.
pub open spec fn ai_lines(s: SettingsView) -> Seq<char> {
    if s.enable_ai {
        text_line("default_pane_mode"@, pane_mode_name(s.default_pane_mode)) + text_line(
            "ai_provider"@,
            provider_name(s.ai_provider),
        ) + optional_line("ai_model"@, s.ai_model) + (if s.ai_provider == AiProvider::Ollama {
            text_line("ai_ollama_base_url"@, s.ollama_base_url)
        } else {
            Seq::empty()
        })
    } else {
        Seq::empty()
    }
}

/// The whole file.
pub open spec fn config_text(s: SettingsView) -> Seq<char> {
    HEAD@ + switch_line("enable_ai_module"@, s.enable_ai) + ai_lines(s) + optional_line(
        "solana_rpc_url"@,
        s.solana_rpc_url,
    ) + THEME@ + switch_line("code_mode_enabled"@, s.code_mode_enabled) + switch_line(
        "code_mode_auto_accept"@,
        s.code_mode_auto_accept,
    ) + "}\n"@
}

fn put_switch(out: &mut String, name: &str, on: bool)
    ensures
        final(out)@ == old(out)@ + switch_line(name@, on),
{
    out.append("  ");
    out.append(name);
    out.append(" = ");
    out.append(
        if on {
            "true"
        } else {
            "false"
        },
    );
    out.append(",\n");
}

fn put_text(out: &mut String, name: &str, value: &str)
    ensures
        final(out)@ == old(out)@ + text_line(name@, value@),
{
    out.append("  ");
    out.append(name);
    out.append(" = \"");
    out.append(value);
    out.append("\",\n");
}

fn put_optional(out: &mut String, name: &str, value: &Option<String>)
    ensures
        final(out)@ == old(out)@ + optional_line(name@, opt_text(*value)),
{
    if let Some(value) = value {
        put_text(out, name, value.as_str());
    }
}

fn put_ai(out: &mut String, settings: &Settings)
    ensures
        final(out)@ == old(out)@ + ai_lines(settings@),
{
    if settings.enable_ai {
        put_text(
            out,
            "default_pane_mode",
            match settings.default_pane_mode {
                DefaultPaneMode::Ai => "Ai",
                DefaultPaneMode::Terminal => "Terminal",
            },
        );
        put_text(
            out,
            "ai_provider",
            match settings.ai_provider {
                AiProvider::Ollama => "Ollama",
                AiProvider::OpenAI => "OpenAI",
                AiProvider::Anthropic => "Anthropic",
            },
        );
        put_optional(out, "ai_model", &settings.ai_model);
        if settings.ai_provider == AiProvider::Ollama {
            put_text(out, "ai_ollama_base_url", settings.ollama_base_url.as_str());
        }
    }
}

/// Writes the file out.
pub fn write_config(settings: &Settings) -> (r: String)
    ensures
        r@ == config_text(settings@),
{
    let mut out = HEAD.to_owned();
    put_switch(&mut out, "enable_ai_module", settings.enable_ai);
    put_ai(&mut out, settings);
    put_optional(&mut out, "solana_rpc_url", &settings.solana_rpc_url);
    out.append(THEME);
    put_switch(&mut out, "code_mode_enabled", settings.code_mode_enabled);
    put_switch(&mut out, "code_mode_auto_accept", settings.code_mode_auto_accept);
    out.append("}\n");
    out
}

/// Where the assistant is off, the file says nothing else about it.
pub proof fn law_disabled_says_nothing(a: SettingsView, b: SettingsView)
    requires
        !a.enable_ai,
        !b.enable_ai,
        a.solana_rpc_url == b.solana_rpc_url,
        a.code_mode_enabled == b.code_mode_enabled,
        a.code_mode_auto_accept == b.code_mode_auto_accept,
    ensures
        config_text(a) == config_text(b),
{
}

} // verus!
