//! The wizard of the first run: what it asks, what it does with the answers.
use crate::config::{AiProvider, DefaultPaneMode};
use crate::config_file::Settings;
#[allow(unused_imports)]
use crate::config_file::SettingsView;
use crate::ollama::DEFAULT_PULL_MODEL;
#[allow(unused_imports)]
use crate::text::{
    ascii_lower, cat2, cat3, line_or_empty, lowercase, opt_str, opt_text, same, to_lowercase,
    trim, trimmed,
};
use vstd::prelude::*;
use vstd::string::*;
#[allow(unused_imports)]
use vstd::utf8::is_ascii_chars;

verus! {

/// What the user is shown first.
pub const WELCOME: &'static str =
    "Welcome to WezTerm setup.\r\nPress Enter to accept defaults.\r\n\r\n";

/// What the user is shown last.
pub const COMPLETE: &'static str = "\r\nSetup complete. Restarting with new settings.\r\n";

/// Where a local server is expected.
pub const DEFAULT_BASE_URL: &'static str = "http://localhost:11434/v1";

/// What stands before the line that the user types: the question, and what a blank line stands
/// for.
pub open spec fn label_of(prompt: Seq<char>, default: Option<Seq<char>>) -> Seq<char> {
    match default {
        Some(value) => prompt + " ["@ + value + "]: "@,
        None => prompt + ": "@,
    }
}

/// What stands before the line that the user types.
pub fn prompt_label(prompt: &str, default: Option<&str>) -> (r: String)
    ensures
        r@ == label_of(prompt@, opt_str(default)),
{
    match default {
        Some(value) => {
            let mut label = cat3(prompt, " [", value);
            label.append("]: ");
            label
        },
        None => cat2(prompt, ": "),
    }
}

/// What a blank line stands for: nothing where there is no default.
pub open spec fn default_of(default: Option<Seq<char>>) -> Seq<char> {
    match default {
        Some(value) => value,
        None => Seq::empty(),
    }
}

/// The answer that a line gives: the default for a blank one.
pub open spec fn answer_of(line: Seq<char>, default: Seq<char>) -> Seq<char> {
    if trimmed(line).len() > 0 {
        trimmed(line)
    } else {
        default
    }
}

/// The answer that a line gives.
pub fn prompt_string(line: Option<String>, default: Option<&str>) -> (r: String)
    ensures
        r@ == answer_of(line_or_empty(line), default_of(opt_str(default))),
{
    let line = match line {
        Some(line) => trim(line.as_str()),
        None => String::new(),
    };
    if !line.as_str().is_empty() {
        line
    } else {
        match default {
            Some(value) => value.to_owned(),
            None => String::new(),
        }
    }
}

/// The letter for an answer.
pub open spec fn yes_no(yes: bool) -> Seq<char> {
    if yes {
        "y"@
    } else {
        "n"@
    }
}

/// Whether an answer is a yes.
pub open spec fn is_yes(answer: Seq<char>) -> bool {
    answer == "y"@ || answer == "Y"@ || answer == "yes"@ || answer == "YES"@
}

/// The yes or no that a line gives: the default for a blank one, and no for anything that is not
/// a yes.
pub fn prompt_bool(line: Option<String>, default: bool) -> (r: bool)
    ensures
        r == is_yes(answer_of(line_or_empty(line), yes_no(default))),
{
    let default_label = if default {
        "y"
    } else {
        "n"
    };
    let answer = prompt_string(line, Some(default_label));
    let answer = answer.as_str();
    same(answer, "y") || same(answer, "Y") || same(answer, "yes") || same(answer, "YES")
}

/// Whether a text is among the choices.
pub open spec fn among(choices: Seq<&str>, text: Seq<char>) -> bool {
    exists|i: int| 0 <= i < choices.len() && (#[trigger] choices[i])@ == text
}

/// The outcome of a choice: the choice in lower case, the default for none, or the answer itself
/// where it is not a choice.
pub open spec fn choice_made(
    answer: Seq<char>,
    lowered: Seq<char>,
    choices: Seq<&str>,
    default: Seq<char>,
) -> Result<Seq<char>, Seq<char>> {
    if among(choices, lowered) {
        Ok(lowered)
    } else if answer.len() == 0 {
        Ok(default)
    } else {
        Err(answer)
    }
}

/// A choice, or the answer that is none, as plain text.
pub open spec fn choice_text(r: Result<String, String>) -> Result<Seq<char>, Seq<char>> {
    match r {
        Ok(choice) => Ok(choice@),
        Err(answer) => Err(answer@),
    }
}

/// Takes an answer, and the same in lower case, as a choice.
pub fn pick_choice(answer: String, lowered: String, choices: &[&str], default: &str) -> (r: Result<
    String,
    String,
>)
    ensures
        choice_text(r) == choice_made(answer@, lowered@, choices@, default@),
{
    let mut i: usize = 0;
    while i < choices.len()
        invariant
            i <= choices@.len(),
            forall|k: int| 0 <= k < i ==> (#[trigger] choices@[k])@ != lowered@,
        decreases choices@.len() - i,
    {
        if same(choices[i], lowered.as_str()) {
            return Ok(lowered);
        }
        i += 1;
    }
    if answer.as_str().is_empty() {
        Ok(default.to_owned())
    } else {
        Err(answer)
    }
}

/// The choice that a line gives; its case does not matter. What is no choice comes back as the
/// error.
pub fn prompt_choice(line: Option<String>, choices: &[&str], default: &str) -> (r: Result<
    String,
    String,
>)
    ensures
        ({
            let answer = answer_of(line_or_empty(line), default@);
            &&& choice_text(r) == choice_made(answer, lowercase(answer), choices@, default@)
            &&& is_ascii_chars(answer) ==> lowercase(answer) == answer.map_values(
                |c: char| ascii_lower(c),
            )
        }),
{
    let answer = prompt_string(line, Some(default));
    let lowered = to_lowercase(answer.as_str());
    pick_choice(answer, lowered, choices, default)
}

/// What the user is told of an answer that is no choice.
pub fn invalid_choice(answer: &str) -> (r: String)
    ensures
        r@ == "invalid choice: "@ + answer@,
{
    cat2("invalid choice: ", answer)
}

/// What the wizard waits for.
#[derive(Clone, Copy, Debug, PartialEq, Eq, Structural)]
pub enum WizardStage {
    /// Whether the assistant is wanted.
    EnableAi,
    /// Who answers.
    Provider,
    /// Which model answers.
    Model,
    /// Where the local server is.
    OllamaUrl,
    /// The local server being made ready.
    EnsureOllama,
    /// The provider's key.
    ApiKey,
    /// The key being stored.
    StoreKey,
    /// Whether commands run unasked.
    AutoAccept,
    /// Where the chain is reached.
    RpcUrl,
    /// The file being written.
    WriteConfig,
    /// Nothing: all is done.
    Done,
    /// Nothing: something went wrong.
    Failed,
}

/// The wizard.
#[derive(Debug)]
pub struct Wizard {
    pub stage: WizardStage,
    pub enable_ai: bool,
    pub ai_provider: AiProvider,
    pub ai_model: Option<String>,
    pub ollama_base_url: String,
    /// The provider's key, where one was given.
    pub api_key: String,
    pub code_mode_auto_accept: bool,
    pub solana_rpc_url: Option<String>,
}

/// The wizard as plain text.
pub ghost struct WizardView {
    pub stage: WizardStage,
    pub enable_ai: bool,
    pub ai_provider: AiProvider,
    pub ai_model: Option<Seq<char>>,
    pub ollama_base_url: Seq<char>,
    pub api_key: Seq<char>,
    pub code_mode_auto_accept: bool,
    pub solana_rpc_url: Option<Seq<char>>,
}

impl View for Wizard {
    type V = WizardView;

    open spec fn view(&self) -> WizardView {
        WizardView {
            stage: self.stage,
            enable_ai: self.enable_ai,
            ai_provider: self.ai_provider,
            ai_model: opt_text(self.ai_model),
            ollama_base_url: self.ollama_base_url@,
            api_key: self.api_key@,
            code_mode_auto_accept: self.code_mode_auto_accept,
            solana_rpc_url: opt_text(self.solana_rpc_url),
        }
    }
}

/// Whether a stage waits for a line.
pub open spec fn reads_line(stage: WizardStage) -> bool {
    match stage {
        WizardStage::EnableAi => true,
        WizardStage::Provider => true,
        WizardStage::Model => true,
        WizardStage::OllamaUrl => true,
        WizardStage::ApiKey => true,
        WizardStage::AutoAccept => true,
        WizardStage::RpcUrl => true,
        _ => false,
    }
}

/// Whether a stage waits for something to be done.
pub open spec fn does_work(stage: WizardStage) -> bool {
    stage == WizardStage::EnsureOllama || stage == WizardStage::StoreKey || stage
        == WizardStage::WriteConfig
}

/// The wizard before the first question.
pub open spec fn fresh() -> WizardView {
    WizardView {
        stage: WizardStage::EnableAi,
        enable_ai: false,
        ai_provider: AiProvider::Ollama,
        ai_model: None,
        ollama_base_url: DEFAULT_BASE_URL@,
        api_key: Seq::empty(),
        code_mode_auto_accept: false,
        solana_rpc_url: None,
    }
}

/// The provider that a choice names.
pub open spec fn provider_of(choice: Seq<char>) -> AiProvider {
    if choice == "openai"@ {
        AiProvider::OpenAI
    } else if choice == "anthropic"@ {
        AiProvider::Anthropic
    } else {
        AiProvider::Ollama
    }
}

/// Whether a choice names a provider.
pub open spec fn names_provider(choice: Seq<char>) -> bool {
    choice == "ollama"@ || choice == "openai"@ || choice == "anthropic"@
}

/// The wizard after a choice of the provider, or an answer that is none.
pub open spec fn provider_chosen(
    w: WizardView,
    choice: Result<Seq<char>, Seq<char>>,
) -> WizardView {
    match choice {
        Ok(choice) => WizardView {
            ai_provider: provider_of(choice),
            stage: WizardStage::Model,
            ..w
        },
        Err(_) => WizardView { stage: WizardStage::Failed, ..w },
    }
}

/// The wizard after a line.
pub open spec fn answered(w: WizardView, line: Seq<char>) -> WizardView {
    match w.stage {
        WizardStage::EnableAi => {
            let yes = is_yes(answer_of(line, yes_no(false)));
            WizardView {
                enable_ai: yes,
                stage: if yes {
                    WizardStage::Provider
                } else {
                    WizardStage::AutoAccept
                },
                ..w
            }
        },
        WizardStage::Provider => {
            let answer = answer_of(line, "ollama"@);
            let choice = lowercase(answer);
            provider_chosen(
                w,
                if names_provider(choice) {
                    Ok(choice)
                } else {
                    Err(answer)
                },
            )
        },
        WizardStage::Model => {
            let local = w.ai_provider == AiProvider::Ollama;
            WizardView {
                ai_model: if trimmed(line).len() > 0 {
                    Some(trimmed(line))
                } else if local {
                    Some(DEFAULT_PULL_MODEL@)
                } else {
                    w.ai_model
                },
                stage: if local {
                    WizardStage::OllamaUrl
                } else {
                    WizardStage::ApiKey
                },
                ..w
            }
        },
        WizardStage::OllamaUrl => WizardView {
            ollama_base_url: answer_of(line, w.ollama_base_url),
            stage: WizardStage::EnsureOllama,
            ..w
        },
        WizardStage::ApiKey => WizardView {
            api_key: trimmed(line),
            stage: if trimmed(line).len() > 0 {
                WizardStage::StoreKey
            } else {
                WizardStage::AutoAccept
            },
            ..w
        },
        WizardStage::AutoAccept => WizardView {
            code_mode_auto_accept: is_yes(answer_of(line, yes_no(false))),
            stage: WizardStage::RpcUrl,
            ..w
        },
        WizardStage::RpcUrl => WizardView {
            solana_rpc_url: if trimmed(line).len() > 0 {
                Some(trimmed(line))
            } else {
                None
            },
            stage: WizardStage::WriteConfig,
            ..w
        },
        _ => w,
    }
}

/// The wizard after something was done, or was not: it goes on without a server, and not without
/// its key or its file being stored.
pub open spec fn worked(w: WizardView, done: bool) -> WizardView {
    WizardView {
        stage: match w.stage {
            WizardStage::EnsureOllama => WizardStage::AutoAccept,
            WizardStage::StoreKey => if done {
                WizardStage::AutoAccept
            } else {
                WizardStage::Failed
            },
            WizardStage::WriteConfig => if done {
                WizardStage::Done
            } else {
                WizardStage::Failed
            },
            _ => w.stage,
        },
        ..w
    }
}

/// The question of a stage, with what a blank line stands for.
pub open spec fn question(w: WizardView) -> (Seq<char>, Option<Seq<char>>) {
    match w.stage {
        WizardStage::EnableAi => ("Enable AI module? (y/N)"@, Some("n"@)),
        WizardStage::Provider => ("AI provider (ollama/openai/anthropic)"@, Some("ollama"@)),
        WizardStage::Model => ("AI model name"@, None),
        WizardStage::OllamaUrl => ("Ollama base URL"@, Some(w.ollama_base_url)),
        WizardStage::ApiKey => if w.ai_provider == AiProvider::OpenAI {
            ("OpenAI API key (leave blank to skip)"@, None)
        } else {
            ("Anthropic API key (leave blank to skip)"@, None)
        },
        WizardStage::AutoAccept => ("Code Mode auto-accept commands? (y/N)"@, Some("n"@)),
        _ => ("Solana RPC URL (optional)"@, None),
    }
}

impl WizardView {
    /// What was asked so far fits what was answered: a local server has no key, a provider with a
    /// key no server, and without the assistant there is neither.
    pub open spec fn wf(self) -> bool {
        &&& self.ollama_base_url.len() > 0
        &&& match self.stage {
            WizardStage::EnableAi => !self.enable_ai && self.ai_provider == AiProvider::Ollama,
            WizardStage::Provider => self.enable_ai && self.ai_provider == AiProvider::Ollama,
            WizardStage::Model => self.enable_ai,
            WizardStage::OllamaUrl => self.enable_ai && self.ai_provider == AiProvider::Ollama,
            WizardStage::EnsureOllama => self.enable_ai && self.ai_provider == AiProvider::Ollama,
            WizardStage::ApiKey => self.enable_ai && self.ai_provider != AiProvider::Ollama,
            WizardStage::StoreKey => self.enable_ai && self.ai_provider != AiProvider::Ollama
                && self.api_key.len() > 0,
            _ => true,
        }
        &&& !self.enable_ai ==> self.ai_provider == AiProvider::Ollama && self.ai_model is None
            && self.ollama_base_url == DEFAULT_BASE_URL@ && self.api_key.len() == 0
    }
}

impl Wizard {
    /// A wizard that is about to ask its first question.
    pub fn new() -> (r: Self)
        ensures
            r@ == fresh(),
            r@.wf(),
    {
        proof {
            reveal_strlit("http://localhost:11434/v1");
        }
        Wizard {
            stage: WizardStage::EnableAi,
            enable_ai: false,
            ai_provider: AiProvider::Ollama,
            ai_model: None,
            ollama_base_url: DEFAULT_BASE_URL.to_owned(),
            api_key: String::new(),
            code_mode_auto_accept: false,
            solana_rpc_url: None,
        }
    }

    /// What stands before the line that the user types next.
    pub fn label(&self) -> (r: String)
        requires
            reads_line(self@.stage),
        ensures
            r@ == label_of(question(self@).0, question(self@).1),
    {
        match self.stage {
            WizardStage::EnableAi => prompt_label("Enable AI module? (y/N)", Some("n")),
            WizardStage::Provider => prompt_label(
                "AI provider (ollama/openai/anthropic)",
                Some("ollama"),
            ),
            WizardStage::Model => prompt_label("AI model name", None),
            WizardStage::OllamaUrl => prompt_label(
                "Ollama base URL",
                Some(self.ollama_base_url.as_str()),
            ),
            WizardStage::ApiKey => if self.ai_provider == AiProvider::OpenAI {
                prompt_label("OpenAI API key (leave blank to skip)", None)
            } else {
                prompt_label("Anthropic API key (leave blank to skip)", None)
            },
            WizardStage::AutoAccept => prompt_label(
                "Code Mode auto-accept commands? (y/N)",
                Some("n"),
            ),
            _ => prompt_label("Solana RPC URL (optional)", None),
        }
    }

    /// Takes the line that the user typed. An answer that names no provider ends the wizard and
    /// comes back as the error.
    pub fn on_line(&mut self, line: Option<String>) -> (r: Result<(), String>)
        requires
            old(self)@.wf(),
            reads_line(old(self)@.stage),
        ensures
            final(self)@ == answered(old(self)@, line_or_empty(line)),
            final(self)@.wf(),
            r is Err <==> final(self)@.stage == WizardStage::Failed,
            r matches Err(answer) ==> answer@ == answer_of(line_or_empty(line), "ollama"@),
            old(self)@.stage == WizardStage::Provider ==> ({
                let answer = answer_of(line_or_empty(line), "ollama"@);
                is_ascii_chars(answer) ==> lowercase(answer) == answer.map_values(
                    |c: char| ascii_lower(c),
                )
            }),
    {
        match self.stage {
            WizardStage::EnableAi => {
                self.enable_ai = prompt_bool(line, false);
                self.stage = if self.enable_ai {
                    WizardStage::Provider
                } else {
                    WizardStage::AutoAccept
                };
            },
            WizardStage::Provider => {
                let choices: [&str; 3] = ["ollama", "openai", "anthropic"];
                let choice = prompt_choice(line, &choices, "ollama");
                proof {
                    let answer = answer_of(line_or_empty(line), "ollama"@);
                    let lowered = lowercase(answer);
                    assert(choices@ =~= seq!["ollama", "openai", "anthropic"]);
                    assert(among(choices@, lowered) <==> names_provider(lowered)) by {
                        if lowered == "ollama"@ {
                            assert(choices@[0]@ == lowered);
                        }
                        if lowered == "openai"@ {
                            assert(choices@[1]@ == lowered);
                        }
                        if lowered == "anthropic"@ {
                            assert(choices@[2]@ == lowered);
                        }
                    }
                    reveal_strlit("ollama");
                }
                return self.on_choice(choice);
            },
            WizardStage::Model => {
                let model = prompt_string(line, None);
                if !model.as_str().is_empty() {
                    self.ai_model = Some(model);
                } else if self.ai_provider == AiProvider::Ollama {
                    self.ai_model = Some(DEFAULT_PULL_MODEL.to_owned());
                }
                self.stage = if self.ai_provider == AiProvider::Ollama {
                    WizardStage::OllamaUrl
                } else {
                    WizardStage::ApiKey
                };
            },
            WizardStage::OllamaUrl => {
                let url = prompt_string(line, Some(self.ollama_base_url.as_str()));
                self.ollama_base_url = url;
                self.stage = WizardStage::EnsureOllama;
            },
            WizardStage::ApiKey => {
                let key = prompt_string(line, None);
                self.stage = if key.as_str().is_empty() {
                    WizardStage::AutoAccept
                } else {
                    WizardStage::StoreKey
                };
                self.api_key = key;
                assert(self.api_key@ =~= trimmed(line_or_empty(line)));
            },
            WizardStage::AutoAccept => {
                self.code_mode_auto_accept = prompt_bool(line, false);
                self.stage = WizardStage::RpcUrl;
            },
            _ => {
                let url = prompt_string(line, None);
                self.solana_rpc_url = if url.as_str().is_empty() {
                    None
                } else {
                    Some(url)
                };
                self.stage = WizardStage::WriteConfig;
            },
        }
        Ok(())
    }

    /// Takes the choice of the provider. An answer that is none ends the wizard and comes back as
    /// the error.
    pub fn on_choice(&mut self, choice: Result<String, String>) -> (r: Result<(), String>)
        requires
            old(self)@.wf(),
            old(self)@.stage == WizardStage::Provider,
        ensures
            final(self)@ == provider_chosen(old(self)@, choice_text(choice)),
            final(self)@.wf(),
            r is Err <==> choice is Err,
            r matches Err(answer) ==> choice_text(choice) == Err::<Seq<char>, Seq<char>>(answer@),
    {
        match choice {
            Ok(choice) => {
                self.ai_provider = if same(choice.as_str(), "openai") {
                    AiProvider::OpenAI
                } else if same(choice.as_str(), "anthropic") {
                    AiProvider::Anthropic
                } else {
                    AiProvider::Ollama
                };
                self.stage = WizardStage::Model;
                Ok(())
            },
            Err(answer) => {
                self.stage = WizardStage::Failed;
                Err(answer)
            },
        }
    }

    /// Takes whether the work of the stage was done.
    pub fn on_done(&mut self, done: bool)
        requires
            old(self)@.wf(),
            does_work(old(self)@.stage),
        ensures
            final(self)@ == worked(old(self)@, done),
            final(self)@.wf(),
    {
        self.stage = match self.stage {
            WizardStage::EnsureOllama => WizardStage::AutoAccept,
            WizardStage::StoreKey => if done {
                WizardStage::AutoAccept
            } else {
                WizardStage::Failed
            },
            _ => if done {
                WizardStage::Done
            } else {
                WizardStage::Failed
            },
        };
    }

    /// What was settled.
    pub fn settings(&self) -> (r: Settings)
        ensures
            r@ == settled(self@),
    {
        Settings {
            enable_ai: self.enable_ai,
            default_pane_mode: DefaultPaneMode::Terminal,
            ai_provider: self.ai_provider,
            ai_model: self.ai_model.clone(),
            ollama_base_url: self.ollama_base_url.clone(),
            solana_rpc_url: self.solana_rpc_url.clone(),
            code_mode_enabled: true,
            code_mode_auto_accept: self.code_mode_auto_accept,
        }
    }
}

/// What was settled: a pane opens as a terminal and code mode is on, whatever was answered.
pub open spec fn settled(w: WizardView) -> SettingsView {
    SettingsView {
        enable_ai: w.enable_ai,
        default_pane_mode: DefaultPaneMode::Terminal,
        ai_provider: w.ai_provider,
        ai_model: w.ai_model,
        ollama_base_url: w.ollama_base_url,
        solana_rpc_url: w.solana_rpc_url,
        code_mode_enabled: true,
        code_mode_auto_accept: w.code_mode_auto_accept,
    }
}

/// Pressing Enter accepts the defaults: after blank lines alone the assistant is off, commands
/// wait for approval, there is no address of a chain, and the file is written.
pub proof fn law_enter_accepts_defaults(a: Seq<char>, b: Seq<char>, c: Seq<char>)
    requires
        trimmed(a).len() == 0,
        trimmed(b).len() == 0,
        trimmed(c).len() == 0,
    ensures
        answered(answered(answered(fresh(), a), b), c) == (WizardView {
            stage: WizardStage::WriteConfig,
            ..fresh()
        }),
{
    reveal_strlit("n");
    reveal_strlit("y");
    reveal_strlit("Y");
    reveal_strlit("yes");
    reveal_strlit("YES");
    assert("n"@[0] == 'n');
    assert("y"@[0] == 'y');
    assert("Y"@[0] == 'Y');
    assert(!is_yes(yes_no(false)));
}

/// The number of stages that can still follow, at most.
pub open spec fn questions_left(stage: WizardStage) -> nat {
    match stage {
        WizardStage::EnableAi => 9,
        WizardStage::Provider => 8,
        WizardStage::Model => 7,
        WizardStage::OllamaUrl => 6,
        WizardStage::EnsureOllama => 5,
        WizardStage::ApiKey => 6,
        WizardStage::StoreKey => 5,
        WizardStage::AutoAccept => 4,
        WizardStage::RpcUrl => 3,
        WizardStage::WriteConfig => 2,
        WizardStage::Done => 0,
        WizardStage::Failed => 0,
    }
}

/// Whatever is answered, the wizard comes to an end: every line and every piece of work brings it
/// nearer.
pub proof fn law_wizard_ends(w: WizardView, line: Seq<char>, done: bool)
    ensures
        reads_line(w.stage) ==> questions_left(answered(w, line).stage) < questions_left(w.stage),
        does_work(w.stage) ==> questions_left(worked(w, done).stage) < questions_left(w.stage),
        questions_left(w.stage) == 0 <==> !reads_line(w.stage) && !does_work(w.stage),
{
}

/// A key is asked for, and stored, only for a provider that has one, and a server is made ready
/// only where it is the provider: so it is at the start, and every line and every piece of work
/// keeps it so.
pub proof fn law_questions_fit(w: WizardView, line: Seq<char>, done: bool)
    requires
        w.wf(),
    ensures
        fresh().wf(),
        reads_line(w.stage) ==> answered(w, line).wf(),
        does_work(w.stage) ==> worked(w, done).wf(),
{
    reveal_strlit("http://localhost:11434/v1");
}

} // verus!
