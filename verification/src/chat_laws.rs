//! What holds of every request, whichever provider answers it.
#[allow(unused_imports)]
use crate::ai::{prompt_request, AI_SYSTEM_PROMPT};
#[allow(unused_imports)]
use crate::chat::{
    account_of, chat_error_text, chat_request, first_reply, key_to_store, key_used, variable_of,
    ChatError, ChatRequestView, Purpose,
};
#[allow(unused_imports)]
use crate::code_mode::{action_request, plan_request, ACTION_PROMPT, PLAN_PROMPT};
#[allow(unused_imports)]
use crate::config::{AiConfigView, AiProvider};
use vstd::prelude::*;

verus! {

/// The configured model is asked, whoever the provider is, and the key that was found goes where
/// the provider looks for it: into the `x-api-key` header for Anthropic, into the bearer token for
/// OpenAI, and nowhere for a local server.
pub proof fn law_model_and_key_are_carried(
    config: AiConfigView,
    key: Option<Seq<char>>,
    purpose: Purpose,
    system: Option<Seq<char>>,
    message: Seq<char>,
)
    ensures
        chat_request(config, key, purpose, system, message) matches Ok(r) ==> {
            &&& config.ai_model == Some(r.model)
            &&& config.ai_provider == AiProvider::Anthropic ==> {
                &&& key is Some
                &&& r.bearer is None
                &&& r.headers.len() == 2
                &&& r.headers[0] == ("x-api-key"@, key->0)
                &&& r.headers[1] == ("anthropic-version"@, "2023-06-01"@)
            }
            &&& config.ai_provider == AiProvider::OpenAI ==> {
                &&& key is Some
                &&& r.bearer == key
                &&& r.headers.len() == 0
            }
            &&& config.ai_provider == AiProvider::Ollama ==> {
                &&& r.bearer is None
                &&& r.headers.len() == 0
            }
        },
{
}

/// The user's message is the last one of every request, as it stands. A system prompt goes before
/// it as a message, and to Anthropic as a field; without one there is neither.
pub proof fn law_message_is_carried(
    config: AiConfigView,
    key: Option<Seq<char>>,
    purpose: Purpose,
    system: Option<Seq<char>>,
    message: Seq<char>,
)
    ensures
        chat_request(config, key, purpose, system, message) matches Ok(r) ==> {
            let hosted_apart = config.ai_provider == AiProvider::Anthropic;
            &&& r.messages.len() > 0
            &&& r.messages.last() == ("user"@, message)
            &&& hosted_apart ==> r.system == system && r.messages.len() == 1
            &&& !hosted_apart ==> r.system is None
            &&& !hosted_apart && system is Some ==> r.messages.len() == 2 && r.messages[0] == (
                "system"@,
                system->0,
            )
            &&& !hosted_apart && system is None ==> r.messages.len() == 1
            &&& r.max_tokens == if hosted_apart {
                Some(1024u32)
            } else {
                None
            }
        },
{
}

/// Every request goes to its provider's address, and only the local server's address is the
/// configured one.
pub proof fn law_request_goes_to_its_provider(
    config: AiConfigView,
    key: Option<Seq<char>>,
    purpose: Purpose,
    system: Option<Seq<char>>,
    message: Seq<char>,
)
    ensures
        chat_request(config, key, purpose, system, message) matches Ok(r) ==> {
            &&& config.ai_provider == AiProvider::Ollama ==> r.url == config.ai_ollama_base_url
                + "/chat/completions"@
            &&& config.ai_provider == AiProvider::OpenAI ==> r.url
                == "https://api.openai.com/v1"@ + "/chat/completions"@
            &&& config.ai_provider == AiProvider::Anthropic ==> r.url
                == "https://api.anthropic.com/v1/messages"@
        },
{
}

/// A request is made exactly where a model is configured and the provider's key, if it wants one,
/// was found. Otherwise the missing key is told, and the missing model only where no key is
/// missing.
pub proof fn law_request_is_made_when_it_can_be(
    config: AiConfigView,
    key: Option<Seq<char>>,
    purpose: Purpose,
    system: Option<Seq<char>>,
    message: Seq<char>,
)
    ensures
        ({
            let r = chat_request(config, key, purpose, system, message);
            let keyed = config.ai_provider == AiProvider::OpenAI || config.ai_provider
                == AiProvider::Anthropic;
            &&& r is Ok <==> config.ai_model is Some && (keyed ==> key is Some)
            &&& keyed && key is None ==> r == Err::<ChatRequestView, ChatError>(
                ChatError::MissingKey(config.ai_provider),
            )
            &&& config.ai_model is None && (keyed ==> key is Some) ==> r == Err::<
                ChatRequestView,
                ChatError,
            >(ChatError::MissingModel(purpose))
        }),
{
}

/// A local server is sent the same whatever key is around.
pub proof fn law_local_server_sees_no_key(
    config: AiConfigView,
    a: Option<Seq<char>>,
    b: Option<Seq<char>>,
    purpose: Purpose,
    system: Option<Seq<char>>,
    message: Seq<char>,
)
    requires
        config.ai_provider == AiProvider::Ollama,
    ensures
        chat_request(config, a, purpose, system, message) == chat_request(
            config,
            b,
            purpose,
            system,
            message,
        ),
{
}

/// A prompt of the loop goes out under the system prompt, as it stands; a plan and an action are
/// asked for in one message that ends in the task, with no system prompt.
pub proof fn law_prompts_end_in_what_was_asked(
    config: AiConfigView,
    key: Option<Seq<char>>,
    text: Seq<char>,
)
    ensures
        prompt_request(config, key, text) matches Ok(r) ==> {
            &&& r.messages.last() == ("user"@, text)
            &&& config.ai_provider == AiProvider::Anthropic ==> r.system == Some(AI_SYSTEM_PROMPT@)
            &&& config.ai_provider != AiProvider::Anthropic ==> r.messages[0] == (
                "system"@,
                AI_SYSTEM_PROMPT@,
            )
        },
        plan_request(config, key, text) matches Ok(r) ==> {
            &&& r.system is None
            &&& r.messages.len() == 1
            &&& r.messages[0].0 == "user"@
            &&& r.messages[0].1.len() == PLAN_PROMPT@.len() + text.len()
            &&& PLAN_PROMPT@.is_prefix_of(r.messages[0].1)
            &&& r.messages[0].1.skip(PLAN_PROMPT@.len() as int) == text
        },
        action_request(config, key, text) matches Ok(r) ==> {
            &&& r.system is None
            &&& r.messages.len() == 1
            &&& r.messages[0].0 == "user"@
            &&& r.messages[0].1.len() == ACTION_PROMPT@.len() + text.len()
            &&& ACTION_PROMPT@.is_prefix_of(r.messages[0].1)
            &&& r.messages[0].1.skip(ACTION_PROMPT@.len() as int) == text
        },
{
    assert((PLAN_PROMPT@ + text).take(PLAN_PROMPT@.len() as int) =~= PLAN_PROMPT@);
    assert((PLAN_PROMPT@ + text).skip(PLAN_PROMPT@.len() as int) =~= text);
    assert((ACTION_PROMPT@ + text).take(ACTION_PROMPT@.len() as int) =~= ACTION_PROMPT@);
    assert((ACTION_PROMPT@ + text).skip(ACTION_PROMPT@.len() as int) =~= text);
}

/// Asking for a prompt, a plan or an action fails for want of a model with the text of its own
/// purpose, and with no request at all.
pub proof fn law_each_purpose_names_itself(
    config: AiConfigView,
    key: Option<Seq<char>>,
    text: Seq<char>,
)
    requires
        config.ai_model is None,
        config.ai_provider == AiProvider::Ollama || key is Some,
    ensures
        prompt_request(config, key, text) matches Err(e) && chat_error_text(e)
            == "ai_model must be configured for AI mode"@,
        plan_request(config, key, text) matches Err(e) && chat_error_text(e)
            == "ai_model must be configured for code mode"@,
        action_request(config, key, text) matches Err(e) && chat_error_text(e)
            == "ai_model must be configured for code mode"@,
{
}

/// The reply is the first one that came, and a response without any is an error.
pub proof fn law_first_reply_is_taken(replies: Seq<String>, none: ChatError)
    ensures
        replies.len() == 0 <==> first_reply(replies, none) is Err,
        replies.len() == 0 ==> first_reply(replies, none) == Err::<Seq<char>, ChatError>(none),
        replies.len() > 0 ==> first_reply(replies, none) == Ok::<Seq<char>, ChatError>(
            replies.first()@,
        ),
{
}

/// A key that is stored is the one that is used, whatever the environment holds, and it is not
/// stored again. One from the environment is stored, and is then the one that is used.
pub proof fn law_keys_are_remembered(
    stored: Seq<char>,
    variable: Option<Seq<char>>,
    later: Option<Seq<char>>,
)
    ensures
        key_used(Some(stored), variable) == Some(stored),
        key_to_store(Some(stored), variable) is None,
        key_used(None, variable) == variable,
        key_to_store(None, variable) == variable,
        variable is Some ==> key_used(key_to_store(None, variable), later) == variable,
{
}

/// The providers with a key keep it under accounts, and find it in variables, of their own.
pub proof fn law_keys_are_kept_apart()
    ensures
        account_of(AiProvider::OpenAI) is Some,
        account_of(AiProvider::Anthropic) is Some,
        account_of(AiProvider::OpenAI) != account_of(AiProvider::Anthropic),
        variable_of(AiProvider::OpenAI) is Some,
        variable_of(AiProvider::Anthropic) is Some,
        variable_of(AiProvider::OpenAI) != variable_of(AiProvider::Anthropic),
        account_of(AiProvider::Ollama) is None,
        variable_of(AiProvider::Ollama) is None,
{
    reveal_strlit("openai");
    reveal_strlit("anthropic");
    reveal_strlit("WEZTERM_OPENAI_API_KEY");
    reveal_strlit("WEZTERM_ANTHROPIC_API_KEY");
    assert("openai"@.len() != "anthropic"@.len());
    assert("WEZTERM_OPENAI_API_KEY"@.len() != "WEZTERM_ANTHROPIC_API_KEY"@.len());
}

} // verus!
