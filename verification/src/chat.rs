//! Requests to the services that answer prompts, and the choice of a reply.
use crate::config::{AiConfig, AiProvider};
#[allow(unused_imports)]
use crate::config::AiConfigView;
#[allow(unused_imports)]
use crate::text::{cat2, opt_str, opt_text};
use vstd::prelude::*;

verus! {

/// What a conversation is for.
#[derive(Clone, Copy, Debug, PartialEq, Eq, Structural)]
pub enum Purpose {
    AiMode,
    CodeMode,
}

/// Why there is no request, or no reply.
#[derive(Clone, Copy, Debug, PartialEq, Eq, Structural)]
pub enum ChatError {
    /// The provider needs a key and there is none.
    MissingKey(AiProvider),
    /// No model is configured.
    MissingModel(Purpose),
    /// An OpenAI-compatible response without choices.
    MissingChoices,
    /// An Anthropic response without content.
    MissingContent,
}

/// What the user is told.
pub open spec fn chat_error_text(e: ChatError) -> Seq<char> {
    match e {
        ChatError::MissingKey(AiProvider::Anthropic) => "missing Anthropic API key"@,
        ChatError::MissingKey(_) => "missing OpenAI API key"@,
        ChatError::MissingModel(Purpose::AiMode) => "ai_model must be configured for AI mode"@,
        ChatError::MissingModel(Purpose::CodeMode) => "ai_model must be configured for code mode"@,
        ChatError::MissingChoices => "AI response missing choices"@,
        ChatError::MissingContent => "Anthropic response missing content"@,
    }
}

impl ChatError {
    pub fn message(&self) -> (r: String)
        ensures
            r@ == chat_error_text(*self),
    {
        let text = match self {
            ChatError::MissingKey(AiProvider::Anthropic) => "missing Anthropic API key",
            ChatError::MissingKey(_) => "missing OpenAI API key",
            ChatError::MissingModel(Purpose::AiMode) => "ai_model must be configured for AI mode",
            ChatError::MissingModel(
                Purpose::CodeMode,
            ) => "ai_model must be configured for code mode",
            ChatError::MissingChoices => "AI response missing choices",
            ChatError::MissingContent => "Anthropic response missing content",
        };
        text.to_owned()
    }
}

/// One message of a conversation.
#[derive(Debug)]
pub struct ChatMessage {
    pub role: String,
    pub content: String,
}

/// A request that is ready to be posted as JSON.
#[derive(Debug)]
pub struct ChatRequest {
    pub url: String,
    /// The bearer token, where the service wants one.
    pub bearer: Option<String>,
    /// Further headers, as name and value.
    pub headers: Vec<(String, String)>,
    /// The `system` field of the body.
    pub system: Option<String>,
    pub model: String,
    /// The `max_tokens` field of the body.
    pub max_tokens: Option<u32>,
    pub messages: Vec<ChatMessage>,
}

/// A request as plain text; a message is its role and its content.
pub ghost struct ChatRequestView {
    pub url: Seq<char>,
    pub bearer: Option<Seq<char>>,
    pub headers: Seq<(Seq<char>, Seq<char>)>,
    pub system: Option<Seq<char>>,
    pub model: Seq<char>,
    pub max_tokens: Option<u32>,
    pub messages: Seq<(Seq<char>, Seq<char>)>,
}

impl View for ChatRequest {
    type V = ChatRequestView;

    open spec fn view(&self) -> ChatRequestView {
        ChatRequestView {
            url: self.url@,
            bearer: opt_text(self.bearer),
            headers: self.headers@.map_values(|h: (String, String)| (h.0@, h.1@)),
            system: opt_text(self.system),
            model: self.model@,
            max_tokens: self.max_tokens,
            messages: self.messages@.map_values(|m: ChatMessage| (m.role@, m.content@)),
        }
    }
}

/// The messages of a conversation: the system prompt, where there is one, and the user's text.
pub open spec fn conversation(system: Option<Seq<char>>, message: Seq<char>) -> Seq<
    (Seq<char>, Seq<char>),
> {
    match system {
        Some(text) => seq![("system"@, text), ("user"@, message)],
        None => seq![("user"@, message)],
    }
}

/// The request to an OpenAI-compatible service.
pub open spec fn openai_request(
    base_url: Seq<char>,
    key: Option<Seq<char>>,
    model: Seq<char>,
    system: Option<Seq<char>>,
    message: Seq<char>,
) -> ChatRequestView {
    ChatRequestView {
        url: base_url + "/chat/completions"@,
        bearer: key,
        headers: Seq::empty(),
        system: None,
        model,
        max_tokens: None,
        messages: conversation(system, message),
    }
}

/// The request to Anthropic.
pub open spec fn anthropic_request(
    key: Seq<char>,
    model: Seq<char>,
    system: Option<Seq<char>>,
    message: Seq<char>,
) -> ChatRequestView {
    ChatRequestView {
        url: "https://api.anthropic.com/v1/messages"@,
        bearer: None,
        headers: seq![("x-api-key"@, key), ("anthropic-version"@, "2023-06-01"@)],
        system,
        model,
        max_tokens: Some(1024),
        messages: conversation(None, message),
    }
}

fn message_of(role: &str, content: &str) -> (r: ChatMessage)
    ensures
        r.role@ == role@,
        r.content@ == content@,
{
    ChatMessage { role: role.to_owned(), content: content.to_owned() }
}

fn owned(text: Option<&str>) -> (r: Option<String>)
    ensures
        text is Some == r is Some,
        text matches Some(t) ==> r matches Some(s) && s@ == t@,
{
    match text {
        Some(t) => Some(t.to_owned()),
        None => None,
    }
}

/// Makes the request to an OpenAI-compatible service.
pub fn send_openai_compatible(
    base_url: &str,
    api_key: Option<String>,
    model: String,
    system: Option<&str>,
    message: &str,
) -> (r: ChatRequest)
    ensures
        r@ == openai_request(base_url@, opt_text(api_key), model@, opt_str(system), message@),
{
    let mut messages: Vec<ChatMessage> = Vec::new();
    if let Some(text) = system {
        messages.push(message_of("system", text));
    }
    messages.push(message_of("user", message));
    let r = ChatRequest {
        url: cat2(base_url, "/chat/completions"),
        bearer: api_key,
        headers: Vec::new(),
        system: None,
        model,
        max_tokens: None,
        messages,
    };
    assert(r@.messages == conversation(opt_str(system), message@));
    assert(r@.headers == Seq::<(Seq<char>, Seq<char>)>::empty());
    r
}

/// Makes the request to Anthropic.
pub fn send_anthropic(api_key: &str, model: String, system: Option<&str>, message: &str) -> (r:
    ChatRequest)
    ensures
        r@ == anthropic_request(api_key@, model@, opt_str(system), message@),
{
    let mut headers: Vec<(String, String)> = Vec::new();
    headers.push(("x-api-key".to_owned(), api_key.to_owned()));
    headers.push(("anthropic-version".to_owned(), "2023-06-01".to_owned()));
    let mut messages: Vec<ChatMessage> = Vec::new();
    messages.push(message_of("user", message));
    let r = ChatRequest {
        url: "https://api.anthropic.com/v1/messages".to_owned(),
        bearer: None,
        headers,
        system: owned(system),
        model,
        max_tokens: Some(1024),
        messages,
    };
    assert(r@.messages == conversation(None, message@));
    assert(r@.headers == seq![("x-api-key"@, api_key@), ("anthropic-version"@, "2023-06-01"@)]);
    r
}

/// The configured model.
pub fn model_or_err(config: &AiConfig, purpose: Purpose) -> (r: Result<String, ChatError>)
    ensures
        match config@.ai_model {
            Some(model) => r matches Ok(m) && m@ == model,
            None => r == Err::<String, ChatError>(ChatError::MissingModel(purpose)),
        },
{
    match &config.ai_model {
        Some(model) => Ok(model.clone()),
        None => Err(ChatError::MissingModel(purpose)),
    }
}

/// The request that a prompt becomes under a configuration, given the key that was found.
/// Without a key that the provider needs, the key is what is missing, whether or not there is a
/// model.
pub open spec fn chat_request(
    config: AiConfigView,
    key: Option<Seq<char>>,
    purpose: Purpose,
    system: Option<Seq<char>>,
    message: Seq<char>,
) -> Result<ChatRequestView, ChatError> {
    if config.ai_provider != AiProvider::Ollama && key is None {
        Err(ChatError::MissingKey(config.ai_provider))
    } else {
        match config.ai_model {
            None => Err(ChatError::MissingModel(purpose)),
            Some(model) => Ok(
                match config.ai_provider {
                    AiProvider::Ollama => openai_request(
                        config.ai_ollama_base_url,
                        None,
                        model,
                        system,
                        message,
                    ),
                    AiProvider::OpenAI => openai_request(
                        "https://api.openai.com/v1"@,
                        key,
                        model,
                        system,
                        message,
                    ),
                    AiProvider::Anthropic => anthropic_request(key->0, model, system, message),
                },
            ),
        }
    }
}

/// A made request, or its error, as plain text.
pub open spec fn made(r: Result<ChatRequest, ChatError>) -> Result<ChatRequestView, ChatError> {
    match r {
        Ok(request) => Ok(request@),
        Err(e) => Err(e),
    }
}

/// Makes the request for a prompt.
pub fn make_request(
    config: &AiConfig,
    key: Option<String>,
    purpose: Purpose,
    system: Option<&str>,
    message: &str,
) -> (r: Result<ChatRequest, ChatError>)
    ensures
        made(r) == chat_request(config@, opt_text(key), purpose, opt_str(system), message@),
{
    match config.ai_provider {
        AiProvider::Ollama => {
            let model = model_or_err(config, purpose)?;
            Ok(
                send_openai_compatible(
                    config.ai_ollama_base_url.as_str(),
                    None,
                    model,
                    system,
                    message,
                ),
            )
        },
        AiProvider::OpenAI => {
            if key.is_none() {
                return Err(ChatError::MissingKey(AiProvider::OpenAI));
            }
            let model = model_or_err(config, purpose)?;
            Ok(send_openai_compatible("https://api.openai.com/v1", key, model, system, message))
        },
        AiProvider::Anthropic => {
            match key {
                None => Err(ChatError::MissingKey(AiProvider::Anthropic)),
                Some(key) => {
                    let model = model_or_err(config, purpose)?;
                    Ok(send_anthropic(key.as_str(), model, system, message))
                },
            }
        },
    }
}

/// The first of the replies, where there is one.
pub open spec fn first_reply(replies: Seq<String>, none: ChatError) -> Result<
    Seq<char>,
    ChatError,
> {
    if replies.len() > 0 {
        Ok(replies[0]@)
    } else {
        Err(none)
    }
}

/// Picks the reply: the first choice of an OpenAI-compatible response, the first part of an
/// Anthropic one.
pub fn pick_reply(provider: AiProvider, replies: Vec<String>) -> (r: Result<String, ChatError>)
    ensures
        match r {
            Ok(reply) => Ok::<Seq<char>, ChatError>(reply@),
            Err(e) => Err(e),
        } == first_reply(
            replies@,
            if provider == AiProvider::Anthropic {
                ChatError::MissingContent
            } else {
                ChatError::MissingChoices
            },
        ),
{
    if replies.len() > 0 {
        Ok(replies[0].clone())
    } else if provider == AiProvider::Anthropic {
        Err(ChatError::MissingContent)
    } else {
        Err(ChatError::MissingChoices)
    }
}

/// The service name that keys are stored under.
pub const KEYRING_SERVICE: &'static str = "wezterm";

/// The account that a provider's key is stored under.
pub open spec fn account_of(provider: AiProvider) -> Option<Seq<char>> {
    match provider {
        AiProvider::OpenAI => Some("openai"@),
        AiProvider::Anthropic => Some("anthropic"@),
        AiProvider::Ollama => None,
    }
}

/// The account that a provider's key is stored under; a local server has no key.
pub fn key_account(provider: AiProvider) -> (r: Option<&'static str>)
    ensures
        opt_str(r) == account_of(provider),
{
    match provider {
        AiProvider::OpenAI => Some("openai"),
        AiProvider::Anthropic => Some("anthropic"),
        AiProvider::Ollama => None,
    }
}

/// The environment variable that may hold a provider's key.
pub open spec fn variable_of(provider: AiProvider) -> Option<Seq<char>> {
    match provider {
        AiProvider::OpenAI => Some("WEZTERM_OPENAI_API_KEY"@),
        AiProvider::Anthropic => Some("WEZTERM_ANTHROPIC_API_KEY"@),
        AiProvider::Ollama => None,
    }
}

/// The environment variable that may hold a provider's key.
pub fn key_variable(provider: AiProvider) -> (r: Option<&'static str>)
    ensures
        opt_str(r) == variable_of(provider),
{
    match provider {
        AiProvider::OpenAI => Some("WEZTERM_OPENAI_API_KEY"),
        AiProvider::Anthropic => Some("WEZTERM_ANTHROPIC_API_KEY"),
        AiProvider::Ollama => None,
    }
}

/// The key that is used: the stored one, else the one in the environment.
pub open spec fn key_used(stored: Option<Seq<char>>, variable: Option<Seq<char>>) -> Option<
    Seq<char>,
> {
    if stored is Some {
        stored
    } else {
        variable
    }
}

/// What is stored once a key has been looked up: one that came from the environment.
pub open spec fn key_to_store(stored: Option<Seq<char>>, variable: Option<Seq<char>>) -> Option<
    Seq<char>,
> {
    if stored is Some {
        None
    } else {
        variable
    }
}

/// A key that was looked up.
#[derive(Debug)]
pub struct KeyLookup {
    pub key: Option<String>,
    /// What to store, so that it is found next time.
    pub store: Option<String>,
}

/// Picks the key: the stored one, else the one in the environment, which is then to be stored.
pub fn load_api_key(stored: Option<String>, variable: Option<String>) -> (r: KeyLookup)
    ensures
        opt_text(r.key) == key_used(opt_text(stored), opt_text(variable)),
        opt_text(r.store) == key_to_store(opt_text(stored), opt_text(variable)),
        opt_text(r.key) == if stored is Some {
            opt_text(stored)
        } else {
            opt_text(variable)
        },
        opt_text(r.store) == if stored is Some {
            None
        } else {
            opt_text(variable)
        },
{
    match stored {
        Some(key) => KeyLookup { key: Some(key), store: None },
        None => KeyLookup { key: variable.clone(), store: variable },
    }
}

} // verus!
