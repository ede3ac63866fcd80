//! What holds of the wizard: what is answered is what is settled.
#[allow(unused_imports)]
use crate::config::{AiProvider, DefaultPaneMode};
#[allow(unused_imports)]
use crate::config_file::SettingsView;
#[allow(unused_imports)]
use crate::first_run::{
    among, answer_of, answered, choice_made, default_of, does_work, fresh, is_yes, label_of,
    names_provider, provider_chosen, provider_of, question, reads_line, settled, worked, yes_no,
    WizardStage, WizardView,
};
#[allow(unused_imports)]
use crate::text::{lowercase, occurs, trimmed};
#[allow(unused_imports)]
use crate::text_laws::law_occurs_between;
use vstd::prelude::*;

verus! {

/// Whether a line says yes: it is `y`, `Y`, `yes` or `YES`, with white space around it.
pub open spec fn says_yes(line: Seq<char>) -> bool {
    let word = trimmed(line);
    word == "y"@ || word == "Y"@ || word == "yes"@ || word == "YES"@
}

/// What a line says, where it says anything.
pub open spec fn said_in(line: Seq<char>) -> Option<Seq<char>> {
    if trimmed(line).len() > 0 {
        Some(trimmed(line))
    } else {
        None
    }
}

proof fn lemma_no_is_not_yes()
    ensures
        !is_yes("n"@),
        is_yes("y"@),
        "n"@.len() == 1,
        "y"@.len() == 1,
        "Y"@.len() == 1,
        "yes"@.len() == 3,
        "YES"@.len() == 3,
{
    reveal_strlit("n");
    reveal_strlit("y");
    reveal_strlit("Y");
    reveal_strlit("yes");
    reveal_strlit("YES");
    assert("n"@[0] == 'n');
    assert("y"@[0] == 'y');
    assert("Y"@[0] == 'Y');
}

/// A yes-or-no question is answered by yes exactly where the line says yes, or is blank and yes is
/// the default.
pub proof fn law_yes_is_yes(line: Seq<char>, default: bool)
    ensures
        is_yes(answer_of(line, yes_no(default))) <==> says_yes(line) || trimmed(line).len() == 0
            && default,
{
    lemma_no_is_not_yes();
}

/// An answer is what the line says, and the default only where it says nothing.
pub proof fn law_answer_is_what_was_said(line: Seq<char>, default: Seq<char>)
    ensures
        said_in(line) matches Some(text) ==> answer_of(line, default) == text,
        said_in(line) is None ==> answer_of(line, default) == default,
        default_of(Some(default)) == default,
        default_of(None).len() == 0,
{
}

/// The model that is typed is the model that is settled, whoever the provider is. Only a blank line
/// gives the default model, and only for the local server.
pub proof fn law_typed_model_is_taken(w: WizardView, line: Seq<char>)
    requires
        w.stage == WizardStage::Model,
    ensures
        ({
            let next = answered(w, line);
            &&& trimmed(line).len() > 0 ==> next.ai_model == Some(trimmed(line))
            &&& trimmed(line).len() == 0 && w.ai_provider == AiProvider::Ollama ==> next.ai_model
                == Some("qwen2.5-coder:7b"@)
            &&& trimmed(line).len() == 0 && w.ai_provider != AiProvider::Ollama ==> next.ai_model
                == w.ai_model
            &&& settled(next).ai_model == next.ai_model
        }),
{
}

/// A line settles what it is asked for and nothing else.
pub proof fn law_lines_settle_one_thing(w: WizardView, line: Seq<char>, done: bool)
    ensures
        ({
            let next = answered(w, line);
            &&& w.stage != WizardStage::EnableAi ==> next.enable_ai == w.enable_ai
            &&& w.stage != WizardStage::Provider ==> next.ai_provider == w.ai_provider
            &&& w.stage != WizardStage::Model ==> next.ai_model == w.ai_model
            &&& w.stage != WizardStage::OllamaUrl ==> next.ollama_base_url == w.ollama_base_url
            &&& w.stage != WizardStage::ApiKey ==> next.api_key == w.api_key
            &&& w.stage != WizardStage::AutoAccept ==> next.code_mode_auto_accept
                == w.code_mode_auto_accept
            &&& w.stage != WizardStage::RpcUrl ==> next.solana_rpc_url == w.solana_rpc_url
            &&& worked(w, done) == (WizardView { stage: worked(w, done).stage, ..w })
        }),
{
}

/// Where the assistant is refused, only the two questions that do not need it are asked, and their
/// answers are what is settled.
pub proof fn law_setup_without_assistant(enable: Seq<char>, auto: Seq<char>, rpc: Seq<char>)
    requires
        !says_yes(enable),
    ensures
        ({
            let asked_auto = answered(fresh(), enable);
            let asked_rpc = answered(asked_auto, auto);
            let end = answered(asked_rpc, rpc);
            &&& asked_auto.stage == WizardStage::AutoAccept
            &&& asked_rpc.stage == WizardStage::RpcUrl
            &&& end.stage == WizardStage::WriteConfig
            &&& settled(end) == (SettingsView {
                enable_ai: false,
                default_pane_mode: DefaultPaneMode::Terminal,
                ai_provider: AiProvider::Ollama,
                ai_model: None,
                ollama_base_url: "http://localhost:11434/v1"@,
                solana_rpc_url: said_in(rpc),
                code_mode_enabled: true,
                code_mode_auto_accept: says_yes(auto),
            })
        }),
{
    law_yes_is_yes(enable, false);
    law_yes_is_yes(auto, false);
}

/// With a hosted provider, every answer stands in what is settled: the provider, the model that was
/// typed, the approval and the chain; and the key that was typed is what is stored, where one was
/// typed.
pub proof fn law_setup_with_hosted_provider(
    enable: Seq<char>,
    provider: Seq<char>,
    hosted: AiProvider,
    model: Seq<char>,
    key: Seq<char>,
    auto: Seq<char>,
    rpc: Seq<char>,
)
    requires
        says_yes(enable),
        trimmed(provider).len() > 0,
        hosted == AiProvider::OpenAI ==> lowercase(trimmed(provider)) == "openai"@,
        hosted == AiProvider::Anthropic ==> lowercase(trimmed(provider)) == "anthropic"@,
        hosted != AiProvider::Ollama,
    ensures
        ({
            let asked_provider = answered(fresh(), enable);
            let asked_model = answered(asked_provider, provider);
            let asked_key = answered(asked_model, model);
            let keyed = answered(asked_key, key);
            let asked_auto = if trimmed(key).len() > 0 {
                worked(keyed, true)
            } else {
                keyed
            };
            let asked_rpc = answered(asked_auto, auto);
            let end = answered(asked_rpc, rpc);
            &&& asked_provider.stage == WizardStage::Provider
            &&& asked_model.stage == WizardStage::Model
            &&& asked_key.stage == WizardStage::ApiKey
            &&& keyed.stage == WizardStage::StoreKey <==> trimmed(key).len() > 0
            &&& keyed.api_key == trimmed(key)
            &&& keyed.ai_provider == hosted
            &&& asked_auto.stage == WizardStage::AutoAccept
            &&& asked_rpc.stage == WizardStage::RpcUrl
            &&& end.stage == WizardStage::WriteConfig
            &&& settled(end) == (SettingsView {
                enable_ai: true,
                default_pane_mode: DefaultPaneMode::Terminal,
                ai_provider: hosted,
                ai_model: said_in(model),
                ollama_base_url: "http://localhost:11434/v1"@,
                solana_rpc_url: said_in(rpc),
                code_mode_enabled: true,
                code_mode_auto_accept: says_yes(auto),
            })
        }),
{
    law_yes_is_yes(enable, false);
    law_yes_is_yes(auto, false);
    reveal_strlit("openai");
    reveal_strlit("anthropic");
    assert("openai"@.len() != "anthropic"@.len());
}

/// With a local server, every answer stands in what is settled, a blank line for its default; no
/// key is asked for, and the wizard goes on whether or not the server could be made ready.
pub proof fn law_setup_with_local_server(
    enable: Seq<char>,
    provider: Seq<char>,
    model: Seq<char>,
    url: Seq<char>,
    ready: bool,
    auto: Seq<char>,
    rpc: Seq<char>,
)
    requires
        says_yes(enable),
        trimmed(provider).len() > 0,
        lowercase(trimmed(provider)) == "ollama"@,
    ensures
        ({
            let asked_provider = answered(fresh(), enable);
            let asked_model = answered(asked_provider, provider);
            let asked_url = answered(asked_model, model);
            let ensured = answered(asked_url, url);
            let asked_auto = worked(ensured, ready);
            let asked_rpc = answered(asked_auto, auto);
            let end = answered(asked_rpc, rpc);
            &&& asked_provider.stage == WizardStage::Provider
            &&& asked_model.stage == WizardStage::Model
            &&& asked_url.stage == WizardStage::OllamaUrl
            &&& ensured.stage == WizardStage::EnsureOllama
            &&& asked_auto.stage == WizardStage::AutoAccept
            &&& asked_rpc.stage == WizardStage::RpcUrl
            &&& end.stage == WizardStage::WriteConfig
            &&& end.api_key.len() == 0
            &&& settled(end) == (SettingsView {
                enable_ai: true,
                default_pane_mode: DefaultPaneMode::Terminal,
                ai_provider: AiProvider::Ollama,
                ai_model: match said_in(model) {
                    Some(name) => Some(name),
                    None => Some("qwen2.5-coder:7b"@),
                },
                ollama_base_url: match said_in(url) {
                    Some(address) => address,
                    None => "http://localhost:11434/v1"@,
                },
                solana_rpc_url: said_in(rpc),
                code_mode_enabled: true,
                code_mode_auto_accept: says_yes(auto),
            })
        }),
{
    law_yes_is_yes(enable, false);
    law_yes_is_yes(auto, false);
    reveal_strlit("ollama");
    reveal_strlit("openai");
    reveal_strlit("anthropic");
    assert("ollama"@[0] == 'o' && "ollama"@[1] == 'l');
    assert("openai"@[1] == 'p');
    assert("ollama"@.len() != "anthropic"@.len());
}

/// A key or a file that cannot be stored ends the wizard without its being done; a file that was
/// written ends it well. A provider that there is none of ends it too.
pub proof fn law_wizard_fails_where_it_must(w: WizardView, line: Seq<char>, done: bool)
    ensures
        w.stage == WizardStage::StoreKey ==> worked(w, done).stage == if done {
            WizardStage::AutoAccept
        } else {
            WizardStage::Failed
        },
        w.stage == WizardStage::WriteConfig ==> worked(w, done).stage == if done {
            WizardStage::Done
        } else {
            WizardStage::Failed
        },
        w.stage == WizardStage::EnsureOllama ==> worked(w, done).stage == WizardStage::AutoAccept,
        w.stage == WizardStage::Provider && trimmed(line).len() > 0 && lowercase(trimmed(line))
            != "ollama"@ && lowercase(trimmed(line)) != "openai"@ && lowercase(trimmed(line))
            != "anthropic"@ ==> answered(w, line).stage == WizardStage::Failed,
        w.stage != WizardStage::Provider && reads_line(w.stage) ==> answered(w, line).stage
            != WizardStage::Failed,
{
}

/// What stands in brackets behind a question is what a blank line stands for: typing it gives the
/// same as pressing Enter.
pub proof fn law_shown_default_is_what_enter_gives(w: WizardView, blank: Seq<char>)
    requires
        w.wf(),
        reads_line(w.stage),
        trimmed(blank).len() == 0,
        question(w).1 is Some,
        trimmed(question(w).1->0) == question(w).1->0,
    ensures
        answered(w, question(w).1->0) == answered(w, blank),
{
    lemma_no_is_not_yes();
    reveal_strlit("ollama");
}

/// Every question that has a default shows it: a yes-or-no question shows `n`, the provider's
/// `ollama`, and the server's address the address; the others have none. The key is asked for in
/// the name of its provider.
pub proof fn law_questions_show_their_defaults(w: WizardView)
    requires
        w.wf(),
    ensures
        w.stage == WizardStage::EnableAi || w.stage == WizardStage::AutoAccept ==> question(w).1
            == Some("n"@),
        w.stage == WizardStage::Provider ==> question(w).1 == Some("ollama"@),
        w.stage == WizardStage::OllamaUrl ==> question(w).1 == Some(w.ollama_base_url),
        w.stage == WizardStage::Model || w.stage == WizardStage::ApiKey || w.stage
            == WizardStage::RpcUrl ==> question(w).1 is None,
        w.stage == WizardStage::ApiKey ==> question(w).0 == if w.ai_provider
            == AiProvider::OpenAI {
            "OpenAI API key (leave blank to skip)"@
        } else {
            "Anthropic API key (leave blank to skip)"@
        },
{
}

/// A label begins with its question and shows the default, where there is one.
pub proof fn law_label_shows_question_and_default(prompt: Seq<char>, default: Option<Seq<char>>)
    ensures
        prompt.is_prefix_of(label_of(prompt, default)),
        default matches Some(value) ==> occurs(label_of(prompt, default), value),
        default is None ==> label_of(prompt, default) == prompt + ": "@,
{
    assert(label_of(prompt, default).take(prompt.len() as int) =~= prompt);
    if let Some(value) = default {
        law_occurs_between(prompt + " ["@, value, "]: "@);
    }
}

/// A choice that is made is one of those offered, or the default where nothing was said; what is
/// refused is what was said, and it is none of them.
pub proof fn law_choices_are_offered(
    answer: Seq<char>,
    lowered: Seq<char>,
    choices: Seq<&str>,
    default: Seq<char>,
)
    ensures
        ({
            let offered = exists|i: int| 0 <= i < choices.len() && (#[trigger] choices[i])@
                == lowered;
            let r = choice_made(answer, lowered, choices, default);
            &&& offered ==> r == Ok::<Seq<char>, Seq<char>>(lowered)
            &&& !offered && answer.len() == 0 ==> r == Ok::<Seq<char>, Seq<char>>(default)
            &&& !offered && answer.len() > 0 ==> r == Err::<Seq<char>, Seq<char>>(answer)
        }),
{
}

} // verus!
