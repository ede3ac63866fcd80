//! The settings that the assistant reads.
use crate::text::opt_text;
use vstd::prelude::*;

verus! {

/// Who answers the prompts.
#[derive(Clone, Copy, Debug, PartialEq, Eq, Structural)]
pub enum AiProvider {
    Ollama,
    OpenAI,
    Anthropic,
}

/// What a new pane opens as.
#[derive(Clone, Copy, Debug, PartialEq, Eq, Structural)]
pub enum DefaultPaneMode {
    Terminal,
    Ai,
}

/// What the active pane takes typed text as.
#[derive(Clone, Copy, Debug, PartialEq, Eq, Structural)]
pub enum PaneMode {
    Terminal,
    Ai,
}

/// The part of the terminal's configuration that the assistant reads.
#[derive(Debug)]
pub struct AiConfig {
    pub ai_provider: AiProvider,
    pub ai_model: Option<String>,
    pub ai_ollama_base_url: String,
    pub code_mode_auto_accept: bool,
    pub solana_rpc_url: Option<String>,
}

/// The settings as plain text.
pub ghost struct AiConfigView {
    pub ai_provider: AiProvider,
    pub ai_model: Option<Seq<char>>,
    pub ai_ollama_base_url: Seq<char>,
    pub code_mode_auto_accept: bool,
    pub solana_rpc_url: Option<Seq<char>>,
}

impl Clone for AiConfig {
    fn clone(&self) -> (r: Self)
        ensures
            r@ == self@,
    {
        AiConfig {
            ai_provider: self.ai_provider,
            ai_model: self.ai_model.clone(),
            ai_ollama_base_url: self.ai_ollama_base_url.clone(),
            code_mode_auto_accept: self.code_mode_auto_accept,
            solana_rpc_url: self.solana_rpc_url.clone(),
        }
    }
}

impl View for AiConfig {
    type V = AiConfigView;

    open spec fn view(&self) -> AiConfigView {
        AiConfigView {
            ai_provider: self.ai_provider,
            ai_model: opt_text(self.ai_model),
            ai_ollama_base_url: self.ai_ollama_base_url@,
            code_mode_auto_accept: self.code_mode_auto_accept,
            solana_rpc_url: opt_text(self.solana_rpc_url),
        }
    }
}

} // verus!
