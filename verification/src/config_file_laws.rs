//! What holds of the configuration file: every setting stands in it.
#[allow(unused_imports)]
use crate::config::{AiProvider, DefaultPaneMode};
#[allow(unused_imports)]
use crate::config_file::{
    ai_lines, any_found, candidates_of, config_text, optional_line, pane_mode_name, provider_name,
    switch_line, text_line, wizard_start, SettingsView, WizardStart, HEAD, THEME,
};
#[allow(unused_imports)]
use crate::text::occurs;
#[allow(unused_imports)]
use crate::text_laws::law_occurs_between;
use vstd::prelude::*;

verus! {

/// What the file holds before the lines on the assistant, and behind them.
proof fn lemma_parts(s: SettingsView) -> (r: (Seq<char>, Seq<char>))
    ensures
        config_text(s) == r.0 + ai_lines(s) + r.1,
        r.0 == HEAD@ + switch_line("enable_ai_module"@, s.enable_ai),
        r.1 == optional_line("solana_rpc_url"@, s.solana_rpc_url) + (THEME@ + switch_line(
            "code_mode_enabled"@,
            s.code_mode_enabled,
        ) + switch_line("code_mode_auto_accept"@, s.code_mode_auto_accept) + "}\n"@),
{
    let a = HEAD@ + switch_line("enable_ai_module"@, s.enable_ai);
    let b = optional_line("solana_rpc_url"@, s.solana_rpc_url) + (THEME@ + switch_line(
        "code_mode_enabled"@,
        s.code_mode_enabled,
    ) + switch_line("code_mode_auto_accept"@, s.code_mode_auto_accept) + "}\n"@);
    assert(config_text(s) =~= a + ai_lines(s) + b);
    (a, b)
}

proof fn lemma_occurs_within(a: Seq<char>, m: Seq<char>, b: Seq<char>, p: Seq<char>)
    requires
        occurs(m, p),
    ensures
        occurs(a + m + b, p),
{
    let i = choose|i: int| crate::text::occurs_at(m, p, i);
    let s = a + m + b;
    assert(s.subrange(a.len() + i, a.len() + i + p.len()) =~= m.subrange(i, i + p.len()));
    assert(crate::text::occurs_at(s, p, a.len() + i));
}

/// Where the assistant is on, the file names the pane's mode, the provider, the model that is
/// settled, and the local server's address where the server is the provider.
pub proof fn law_assistant_stands_in_file(s: SettingsView)
    requires
        s.enable_ai,
    ensures
        ({
            let text = config_text(s);
            &&& occurs(
                text,
                "  "@ + "default_pane_mode"@ + " = \""@ + (if s.default_pane_mode
                    == DefaultPaneMode::Ai {
                    "Ai"@
                } else {
                    "Terminal"@
                }) + "\",\n"@,
            )
            &&& occurs(
                text,
                "  "@ + "ai_provider"@ + " = \""@ + (match s.ai_provider {
                    AiProvider::Ollama => "Ollama"@,
                    AiProvider::OpenAI => "OpenAI"@,
                    AiProvider::Anthropic => "Anthropic"@,
                }) + "\",\n"@,
            )
            &&& s.ai_model matches Some(model) ==> occurs(
                text,
                "  "@ + "ai_model"@ + " = \""@ + model + "\",\n"@,
            )
            &&& s.ai_provider == AiProvider::Ollama ==> occurs(
                text,
                "  "@ + "ai_ollama_base_url"@ + " = \""@ + s.ollama_base_url + "\",\n"@,
            )
        }),
{
    let (a, b) = lemma_parts(s);
    let mode = text_line("default_pane_mode"@, pane_mode_name(s.default_pane_mode));
    let provider = text_line("ai_provider"@, provider_name(s.ai_provider));
    let model = optional_line("ai_model"@, s.ai_model);
    let url = if s.ai_provider == AiProvider::Ollama {
        text_line("ai_ollama_base_url"@, s.ollama_base_url)
    } else {
        Seq::empty()
    };
    let lines = ai_lines(s);
    assert(lines == mode + provider + model + url);
    assert(lines =~= Seq::<char>::empty() + mode + (provider + model + url));
    law_occurs_between(Seq::empty(), mode, provider + model + url);
    lemma_occurs_within(a, lines, b, mode);
    assert(lines =~= mode + provider + (model + url));
    law_occurs_between(mode, provider, model + url);
    lemma_occurs_within(a, lines, b, provider);
    law_occurs_between(mode + provider, model, url);
    lemma_occurs_within(a, lines, b, model);
    assert(lines =~= (mode + provider + model) + url + Seq::<char>::empty());
    law_occurs_between(mode + provider + model, url, Seq::empty());
    lemma_occurs_within(a, lines, b, url);
}

/// Whatever is settled, the file begins as a Lua file that returns a table and ends with that
/// table; it says whether the assistant is on, where the chain is reached if that was settled, and
/// how code mode is set.
pub proof fn law_switches_stand_in_file(s: SettingsView)
    ensures
        ({
            let text = config_text(s);
            &&& "local wezterm = require 'wezterm'\nreturn {\n"@.is_prefix_of(text)
            &&& text.len() >= 2 && text.skip(text.len() - "}\n"@.len()) == "}\n"@
            &&& occurs(
                text,
                "  "@ + "enable_ai_module"@ + " = "@ + (if s.enable_ai {
                    "true"@
                } else {
                    "false"@
                }) + ",\n"@,
            )
            &&& s.solana_rpc_url matches Some(url) ==> occurs(
                text,
                "  "@ + "solana_rpc_url"@ + " = \""@ + url + "\",\n"@,
            )
            &&& occurs(
                text,
                "  "@ + "code_mode_enabled"@ + " = "@ + (if s.code_mode_enabled {
                    "true"@
                } else {
                    "false"@
                }) + ",\n"@,
            )
            &&& occurs(
                text,
                "  "@ + "code_mode_auto_accept"@ + " = "@ + (if s.code_mode_auto_accept {
                    "true"@
                } else {
                    "false"@
                }) + ",\n"@,
            )
        }),
{
    reveal_strlit("}\n");
    let (a, b) = lemma_parts(s);
    let text = config_text(s);
    let module = switch_line("enable_ai_module"@, s.enable_ai);
    let enabled = switch_line("code_mode_enabled"@, s.code_mode_enabled);
    let accept = switch_line("code_mode_auto_accept"@, s.code_mode_auto_accept);
    let chain = optional_line("solana_rpc_url"@, s.solana_rpc_url);
    let close = "}\n"@;
    let lines = ai_lines(s);
    assert(text.take(HEAD@.len() as int) =~= HEAD@);
    assert(text =~= HEAD@ + module + (lines + b));
    law_occurs_between(HEAD@, module, lines + b);
    assert(text =~= (a + lines) + chain + (THEME@ + enabled + accept + close));
    law_occurs_between(a + lines, chain, THEME@ + enabled + accept + close);
    assert(text =~= (a + lines + chain + THEME@) + enabled + (accept + close));
    law_occurs_between(a + lines + chain + THEME@, enabled, accept + close);
    assert(text =~= (a + lines + chain + THEME@ + enabled) + accept + close);
    law_occurs_between(a + lines + chain + THEME@ + enabled, accept, close);
    assert(text.skip(text.len() - close.len()) =~= close);
}

/// What is not settled adds nothing: a model or a chain adds its own line and no more, and the
/// server's address stands in the file only where the local server is the provider.
pub proof fn law_lines_are_added_one_by_one(
    s: SettingsView,
    model: Seq<char>,
    url: Seq<char>,
    other: Seq<char>,
)
    ensures
        config_text(SettingsView { solana_rpc_url: Some(url), ..s }).len() == config_text(
            SettingsView { solana_rpc_url: None, ..s },
        ).len() + "  solana_rpc_url = \"\",\n"@.len() + url.len(),
        s.enable_ai ==> config_text(SettingsView { ai_model: Some(model), ..s }).len()
            == config_text(SettingsView { ai_model: None, ..s }).len()
            + "  ai_model = \"\",\n"@.len() + model.len(),
        s.ai_provider != AiProvider::Ollama ==> config_text(s) == config_text(
            SettingsView { ollama_base_url: other, ..s },
        ),
{
    reveal_strlit("  solana_rpc_url = \"\",\n");
    reveal_strlit("  ai_model = \"\",\n");
    reveal_strlit("  ");
    reveal_strlit("solana_rpc_url");
    reveal_strlit("ai_model");
    reveal_strlit(" = \"");
    reveal_strlit("\",\n");
}

/// The wizard runs exactly where nothing was said about the configuration and no file is there: it
/// never runs over a file.
pub proof fn law_wizard_runs_on_first_run_only(
    skip_config: bool,
    has_config_file: bool,
    overridden: bool,
    file_exists: bool,
)
    ensures
        ({
            let start = wizard_start(skip_config, has_config_file, overridden, file_exists);
            &&& start == WizardStart::Launch <==> !skip_config && !has_config_file && !overridden
                && !file_exists
            &&& start == WizardStart::Overridden <==> skip_config || has_config_file || overridden
        }),
{
}

/// One file is enough, wherever it is, and without any there is none.
pub proof fn law_one_file_is_enough(before: Seq<bool>, after: Seq<bool>, found: Seq<bool>)
    ensures
        any_found(before + seq![true] + after),
        any_found(found) <==> found.contains(true),
{
    assert((before + seq![true] + after)[before.len() as int]);
    if found.contains(true) {
        let i = choose|i: int| 0 <= i < found.len() && found[i] == true;
        assert(found[i]);
    }
    if any_found(found) {
        let i = choose|i: int| 0 <= i < found.len() && #[trigger] found[i];
        assert(found[i] == true);
    }
}

/// Every place is looked at: the one that the environment names, before all others, the home
/// directory and every configuration directory, in order.
pub proof fn law_every_place_is_looked_at<P>(home: P, dirs: Seq<P>, variable: Option<P>)
    ensures
        ({
            let all = candidates_of(home, dirs, variable);
            let first = if variable is Some {
                1int
            } else {
                0
            };
            &&& all.len() == first + 1 + dirs.len()
            &&& variable matches Some(path) ==> all[0] == path
            &&& all[first] == home
            &&& forall|i: int| 0 <= i < dirs.len() ==> all[first + 1 + i] == #[trigger] dirs[i]
        }),
{
}

} // verus!
