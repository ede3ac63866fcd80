//! Plans and actions that the model answers with as JSON.
use crate::chat::{make_request, ChatError, ChatRequest, Purpose};
#[allow(unused_imports)]
use crate::chat::{chat_request, made, ChatRequestView};
use crate::config::AiConfig;
#[allow(unused_imports)]
use crate::config::AiConfigView;
#[allow(unused_imports)]
use crate::text::{
    cat2, occurs, occurs_at, opt_text, replace, replaced, starts_with, trim, trim_end, trimmed,
};
#[allow(unused_imports)]
use crate::text_laws::{law_prefix_is_taken_off, law_replace_at_the_start, lemma_trim_end_cut};
#[allow(unused_imports)]
use crate::text_lemmas::{
    law_trim_idempotent, lemma_removed_run, lemma_replaced_absent, lemma_replaced_at_end,
    law_padding_is_trimmed, lemma_trim_fixed, lemma_trim_prefixed, lemma_trim_within,
};
use vstd::prelude::*;

verus! {

/// A plan: what it comes to, a diagram of it, and its steps.
#[derive(Debug)]
pub struct PlanResponse {
    pub summary: String,
    pub mermaid: Option<String>,
    pub steps: Vec<String>,
}

/// An action: a command to run, or code to show.
#[derive(Debug)]
pub struct ActionResponse {
    pub kind: String,
    pub content: String,
    pub command: String,
}

/// What stands before the task when a plan is asked for.
pub const PLAN_PROMPT: &'static str = "Create a concise plan and a Mermaid diagram. Return JSON: \
{\"summary\":\"...\",\"mermaid\":\"...\",\"steps\":[\"...\"]}.\nTask: ";

/// What stands before the request when an action is asked for.
pub const ACTION_PROMPT: &'static str = "Return JSON with kind=command or code. \
If command, include a shell command string in command. \
If code, include content. \
Schema: {\"kind\":\"command|code\",\"content\":\"...\",\"command\":\"...\"}.\n\
User request: ";

/// Makes the request for a text: the prompt goes to the configured provider as it stands.
pub fn request_text(config: &AiConfig, key: Option<String>, prompt: &str) -> (r: Result<
    ChatRequest,
    ChatError,
>)
    ensures
        made(r) == chat_request(config@, opt_text(key), Purpose::CodeMode, None, prompt@),
{
    make_request(config, key, Purpose::CodeMode, None, prompt)
}

/// The request for a plan of the task.
pub open spec fn plan_request(
    config: AiConfigView,
    key: Option<Seq<char>>,
    task: Seq<char>,
) -> Result<ChatRequestView, ChatError> {
    chat_request(config, key, Purpose::CodeMode, None, PLAN_PROMPT@ + task)
}

/// The request for an action.
pub open spec fn action_request(
    config: AiConfigView,
    key: Option<Seq<char>>,
    task: Seq<char>,
) -> Result<ChatRequestView, ChatError> {
    chat_request(config, key, Purpose::CodeMode, None, ACTION_PROMPT@ + task)
}

/// Makes the request for a plan of the task.
pub fn request_plan(config: &AiConfig, key: Option<String>, task: &str) -> (r: Result<
    ChatRequest,
    ChatError,
>)
    ensures
        made(r) == chat_request(
            config@,
            opt_text(key),
            Purpose::CodeMode,
            None,
            PLAN_PROMPT@ + task@,
        ),
        made(r) == plan_request(config@, opt_text(key), task@),
{
    let prompt = cat2(PLAN_PROMPT, task);
    request_text(config, key, prompt.as_str())
}

/// Makes the request for an action.
pub fn request_action(config: &AiConfig, key: Option<String>, task: &str) -> (r: Result<
    ChatRequest,
    ChatError,
>)
    ensures
        made(r) == chat_request(
            config@,
            opt_text(key),
            Purpose::CodeMode,
            None,
            ACTION_PROMPT@ + task@,
        ),
        made(r) == action_request(config@, opt_text(key), task@),
{
    let prompt = cat2(ACTION_PROMPT, task);
    request_text(config, key, prompt.as_str())
}

/// A reply without the fences of a code block: where it begins with a fence, every fence is
/// taken out of it.
pub open spec fn unfenced(text: Seq<char>) -> Seq<char> {
    let inner = trimmed(text);
    if "```"@.is_prefix_of(inner) {
        trimmed(replaced(replaced(inner, "```json"@, ""@), "```"@, ""@))
    } else {
        inner
    }
}

/// Takes the fences of a code block off a reply.
pub fn strip_json_fences(text: &str) -> (r: String)
    ensures
        r@ == unfenced(text@),
{
    proof {
        reveal_strlit("```");
        reveal_strlit("```json");
    }
    let inner = trim(text);
    if starts_with(inner.as_str(), "```") {
        let inner = replace(inner.as_str(), "```json", "");
        let inner = replace(inner.as_str(), "```", "");
        trim(inner.as_str())
    } else {
        inner
    }
}

/// A reply that does not begin with a fence is only trimmed, whatever stands in it.
pub proof fn law_unfenced_replies_are_kept(text: Seq<char>)
    requires
        !"```"@.is_prefix_of(trimmed(text)),
    ensures
        unfenced(text) == trimmed(text),
{
}

/// What comes out has no white space around it.
pub proof fn law_unfenced_is_trimmed(text: Seq<char>)
    ensures
        trimmed(unfenced(text)) == unfenced(text),
{
    law_trim_idempotent(text);
    law_trim_idempotent(
        replaced(replaced(trimmed(text), "```json"@, ""@), "```"@, ""@),
    );
}

/// No fence is left in a reply that began with one.
pub proof fn law_no_fence_left(text: Seq<char>)
    requires
        "```"@.is_prefix_of(trimmed(text)),
    ensures
        !occurs(unfenced(text), "```"@),
{
    reveal_strlit("```");
    reveal_strlit("");
    assert("```"@ =~= seq!['`', '`', '`']);
    assert(""@ =~= Seq::<char>::empty());
    let open = replaced(trimmed(text), "```json"@, ""@);
    let bare = replaced(open, "```"@, ""@);
    lemma_removed_run(open, '`');
    let (a, b) = lemma_trim_within(bare);
    if occurs(trimmed(bare), "```"@) {
        let i = choose|i: int| occurs_at(trimmed(bare), "```"@, i);
        assert(bare.subrange(a + i, a + i + 3) == trimmed(bare).subrange(i, i + 3));
        assert(occurs_at(bare, "```"@, a + i));
    }
}

/// A reply that is one code block comes out as what the block holds, trimmed; the body may hold
/// anything but a fence.
pub proof fn law_block_comes_out(body: Seq<char>)
    requires
        !occurs(body, "```"@),
    ensures
        unfenced("```json\n"@ + body + "\n```"@) == trimmed(body),
{
    reveal_strlit("```");
    reveal_strlit("```json");
    reveal_strlit("```json\n");
    reveal_strlit("\n```");
    reveal_strlit("");
    let fence = "```"@;
    let open = "```json"@;
    let text = "```json\n"@ + body + "\n```"@;
    let inside = seq!['\n'] + body + seq!['\n'];
    let rest = inside + fence;
    assert(text =~= open + rest);
    assert(text.last() == '`');
    lemma_trim_fixed(text);
    assert(text.take(3) =~= fence);
    // No fence stands before the closing one.
    assert forall|i: int| 0 <= i < inside.len() implies !occurs_at(rest, fence, i) by {
        if occurs_at(rest, fence, i) {
            let w = rest.subrange(i, i + 3);
            assert(w[0] == fence[0] && w[1] == fence[1] && w[2] == fence[2]);
            assert(rest[i] == '`' && rest[i + 1] == '`' && rest[i + 2] == '`');
            assert(rest[0] == '\n');
            assert(rest[inside.len() - 1] == '\n');
            assert(1 <= i && i + 2 < inside.len() - 1);
            assert(body.subrange(i - 1, i + 2) =~= w);
            assert(occurs_at(body, fence, i - 1));
        }
    }
    assert forall|i: int| !occurs_at(rest, open, i) by {
        if occurs_at(rest, open, i) {
            assert(rest.subrange(i, i + 3) =~= rest.subrange(i, i + 7).subrange(0, 3));
            assert(open.subrange(0, 3) =~= fence);
            assert(occurs_at(rest, fence, i));
        }
    }
    assert(text.take(7) =~= open);
    assert(open.is_prefix_of(text));
    assert(text.skip(7) =~= rest);
    lemma_replaced_absent(rest, open, ""@);
    assert(""@ + rest =~= rest);
    assert(replaced(text, open, ""@) == rest);
    lemma_replaced_at_end(inside, fence, ""@);
    assert(inside + ""@ =~= inside);
    law_padding_is_trimmed(seq!['\n'], body, seq!['\n']);
}

/// So does one whose block names no language.
pub proof fn law_plain_block_comes_out(body: Seq<char>)
    requires
        !occurs(body, "```"@),
    ensures
        unfenced("```\n"@ + body + "\n```"@) == trimmed(body),
{
    reveal_strlit("```");
    reveal_strlit("```json");
    reveal_strlit("```\n");
    reveal_strlit("\n```");
    reveal_strlit("");
    let fence = "```"@;
    let open = "```json"@;
    let text = "```\n"@ + body + "\n```"@;
    let inside = seq!['\n'] + body + seq!['\n'];
    let rest = inside + fence;
    assert(text =~= fence + rest);
    assert(text.first() == '`');
    assert(text.last() == '`');
    lemma_trim_fixed(text);
    assert(text.take(3) =~= fence);
    assert(fence.is_prefix_of(text));
    assert forall|i: int| i < inside.len() && occurs_at(rest, fence, i) implies false by {
        let w = rest.subrange(i, i + 3);
        assert(w[0] == fence[0] && w[1] == fence[1] && w[2] == fence[2]);
        assert(rest[i] == '`' && rest[i + 1] == '`' && rest[i + 2] == '`');
        assert(rest[0] == '\n');
        assert(rest[inside.len() - 1] == '\n');
        assert(1 <= i && i + 2 < inside.len() - 1);
        assert(body.subrange(i - 1, i + 2) =~= w);
        assert(occurs_at(body, fence, i - 1));
    }
    assert forall|i: int| !occurs_at(text, open, i) by {
        if occurs_at(text, open, i) {
            let w = text.subrange(i, i + 7);
            assert(w[0] == open[0] && w[1] == open[1] && w[2] == open[2] && w[3] == open[3]);
            assert(text[i] == '`' && text[i + 1] == '`' && text[i + 2] == '`' && text[i + 3]
                == 'j');
            if i < 3 {
                assert(text[3] == '\n');
                assert(i + 3 != 3);
                assert(false);
            } else {
                assert(rest.subrange(i - 3, i) =~= fence);
                assert(occurs_at(rest, fence, i - 3));
            }
        }
    }
    lemma_replaced_absent(text, open, ""@);
    law_replace_at_the_start(fence, ""@, rest);
    assert(""@ + replaced(rest, fence, ""@) =~= replaced(rest, fence, ""@));
    assert forall|i: int| i < inside.len() implies !occurs_at(rest, fence, i) by {}
    lemma_replaced_at_end(inside, fence, ""@);
    assert(inside + ""@ =~= inside);
    law_padding_is_trimmed(seq!['\n'], body, seq!['\n']);
}

proof fn lemma_kept_has_no_fence(rest: Seq<char>)
    requires
        !occurs(rest, "```"@),
    ensures
        forall|i: int| !occurs_at(trim_end(rest), "```"@, i),
        forall|i: int| !occurs_at(trim_end(rest), "```json"@, i),
        replaced(trim_end(rest), "```"@, ""@) == trim_end(rest),
        replaced(trim_end(rest), "```json"@, ""@) == trim_end(rest),
{
    reveal_strlit("```");
    reveal_strlit("```json");
    let fence = "```"@;
    let open = "```json"@;
    let j = lemma_trim_end_cut(rest);
    let kept = trim_end(rest);
    assert forall|i: int| !occurs_at(kept, fence, i) by {
        if occurs_at(kept, fence, i) {
            assert(kept.subrange(i, i + 3) =~= rest.subrange(i, i + 3));
            assert(occurs_at(rest, fence, i));
        }
    }
    assert forall|i: int| !occurs_at(kept, open, i) by {
        if occurs_at(kept, open, i) {
            assert(kept.subrange(i, i + 3) =~= kept.subrange(i, i + 7).subrange(0, 3));
            assert(open.subrange(0, 3) =~= fence);
            assert(occurs_at(kept, fence, i));
        }
    }
    lemma_replaced_absent(kept, fence, ""@);
    lemma_replaced_absent(kept, open, ""@);
}

/// An opening fence is taken off together with the word `json` behind it, and nothing of what
/// follows is lost but the white space around it.
pub proof fn law_json_fence_is_taken_off(rest: Seq<char>)
    requires
        !occurs(rest, "```"@),
    ensures
        unfenced("```json"@ + rest) == trimmed(rest),
{
    reveal_strlit("```");
    reveal_strlit("```json");
    reveal_strlit("");
    let fence = "```"@;
    let open = "```json"@;
    let kept = trim_end(rest);
    assert(open.first() == '`' && open.last() == 'n');
    lemma_kept_has_no_fence(rest);
    lemma_trim_prefixed(open, rest);
    let text = trimmed(open + rest);
    law_prefix_is_taken_off(open, kept, text);
    assert(text == open + kept);
    assert(text.take(3) =~= fence);
    assert(fence.is_prefix_of(text));
    law_replace_at_the_start(open, ""@, kept);
    assert(""@ + kept =~= kept);
}

proof fn lemma_plain_fence_opens_no_json(kept: Seq<char>)
    requires
        forall|i: int| !occurs_at(kept, "```json"@, i),
        kept.len() > 0 ==> kept[0] != '`',
        !"json"@.is_prefix_of(kept),
    ensures
        forall|i: int| !occurs_at("```"@ + kept, "```json"@, i),
{
    reveal_strlit("```");
    reveal_strlit("```json");
    reveal_strlit("json");
    let open = "```json"@;
    let plain = "```"@ + kept;
    assert forall|i: int| !occurs_at(plain, open, i) by {
        if occurs_at(plain, open, i) {
            let w = plain.subrange(i, i + 7);
            assert(w == open);
            if i >= 3 {
                assert(kept.subrange(i - 3, i + 4) =~= w);
                assert(occurs_at(kept, open, i - 3));
            } else if i > 0 {
                assert(plain[3] == w[3 - i]);
                assert(plain[3] == kept[0]);
            } else {
                assert(plain[3] == w[3] && plain[4] == w[4] && plain[5] == w[5] && plain[6]
                    == w[6]);
                assert(kept.take(4) =~= "json"@);
            }
        }
    }
}

/// An opening fence with anything else behind it is taken off by itself.
pub proof fn law_plain_fence_is_taken_off(rest: Seq<char>)
    requires
        !occurs(rest, "```"@),
        rest.len() > 0 ==> rest[0] != '`',
        !"json"@.is_prefix_of(rest),
    ensures
        unfenced("```"@ + rest) == trimmed(rest),
{
    reveal_strlit("```");
    reveal_strlit("");
    let fence = "```"@;
    let kept = trim_end(rest);
    let j = lemma_trim_end_cut(rest);
    assert(fence.first() == '`' && fence.last() == '`');
    lemma_kept_has_no_fence(rest);
    lemma_trim_prefixed(fence, rest);
    let text = trimmed(fence + rest);
    law_prefix_is_taken_off(fence, kept, text);
    assert(text == fence + kept);
    assert(text.take(3) =~= fence);
    assert(fence.is_prefix_of(text));
    if "json"@.is_prefix_of(kept) {
        assert(rest.take("json"@.len() as int) =~= kept.take("json"@.len() as int));
    }
    lemma_plain_fence_opens_no_json(kept);
    lemma_replaced_absent(text, "```json"@, ""@);
    law_replace_at_the_start(fence, ""@, kept);
    assert(""@ + kept =~= kept);
}

} // verus!
