//! What holds of the prompt loop, and of the commands and outputs in it.
#[allow(unused_imports)]
use crate::ai::{
    action_resolved, combined, command_of, crlf, crlf_after, extracted, inferred, is_simple,
    law_crlf_complete, law_extract_spelled_out, line_taken, ollama_taken, output_taken, reply_taken,
    shell, AiLoopView, AiStage,
};
#[allow(unused_imports)]
use crate::config::AiProvider;
#[allow(unused_imports)]
use crate::text::{after_prefix, occurs_at, trimmed};
#[allow(unused_imports)]
use crate::text_lemmas::law_trimmed_ends;
use vstd::prelude::*;

verus! {

/// Whether a character may stand in a bare word that is run: an ASCII letter or digit, or one of
/// `.`, `/`, `-`, `_` and `:`.
pub open spec fn is_bare(c: char) -> bool {
    ||| 0x61 <= c as int <= 0x7a
    ||| 0x41 <= c as int <= 0x5a
    ||| 0x30 <= c as int <= 0x39
    ||| c == '.' || c == '/' || c == '-' || c == '_' || c == ':'
}

/// A reply that spells a command out has exactly that command run, whatever it holds: the loop
/// goes on to execute it, trimmed, and shows that it does.
pub proof fn law_spelled_out_command_is_run(ai: AiLoopView, command: Seq<char>)
    requires
        trimmed(command).len() > 0,
    ensures
        ({
            let (next, said) = reply_taken(ai, Ok("command:"@ + command));
            &&& next.stage == AiStage::Execute
            &&& next.text == trimmed(command)
            &&& said == "Running: "@ + trimmed(command) + "\r\n"@
        }),
{
    law_extract_spelled_out(command);
}

/// A reply that is one bare word has that word run; one with any other character in it, and no
/// command spelled out, is shown as it stands and runs nothing.
pub proof fn law_other_replies_run_bare_words_only(ai: AiLoopView, reply: Seq<char>)
    requires
        !"command:"@.is_prefix_of(trimmed(reply)),
    ensures
        ({
            let word = trimmed(reply);
            let (next, said) = reply_taken(ai, Ok(reply));
            if word.len() > 0 && forall|i: int| 0 <= i < word.len() ==> is_bare(
                #[trigger] word[i],
            ) {
                &&& next.stage == AiStage::Execute
                &&& next.text == word
                &&& said == "Running: "@ + word + "\r\n"@
            } else {
                &&& next.stage == AiStage::ReadLine
                &&& next.text == ai.text
                &&& said == reply + "\r\n"@
            }
        }),
{
    let word = trimmed(reply);
    assert forall|i: int| 0 <= i < word.len() implies (is_bare(#[trigger] word[i]) <==> is_simple(
        word[i],
    )) by {}
    if forall|i: int| 0 <= i < word.len() ==> is_bare(#[trigger] word[i]) {
        assert forall|i: int| 0 <= i < word.len() implies is_simple(#[trigger] word[i]) by {
            assert(is_bare(word[i]));
        }
    } else {
        let i = choose|i: int| 0 <= i < word.len() && !is_bare(#[trigger] word[i]);
        assert(!is_simple(word[i]));
    }
}

/// A reply that begins with `command:` and spells nothing out behind it: what it is taken as is
/// the bare word that it is.
pub proof fn law_empty_command_is_a_word(reply: Seq<char>, rest: Seq<char>)
    requires
        trimmed(reply) == "command:"@ + rest,
        trimmed(rest).len() == 0,
    ensures
        extracted(reply) is None,
        command_of(reply) == inferred(reply),
{
    let word = "command:"@ + rest;
    assert(word.take("command:"@.len() as int) =~= "command:"@);
    assert("command:"@.is_prefix_of(word));
    assert(word.skip("command:"@.len() as int) =~= rest);
}

/// A failed request is told and runs nothing, and neither the prompt nor the server's state is
/// touched by it.
pub proof fn law_failures_are_told(ai: AiLoopView, e: Seq<char>)
    ensures
        reply_taken(ai, Err(e)) == (
            AiLoopView { stage: AiStage::ReadLine, ..ai },
            "Error: "@ + e + "\r\n"@,
        ),
        output_taken(ai, Err(e)) == (
            AiLoopView { stage: AiStage::ReadLine, ..ai },
            "Error: "@ + e + "\r\n"@,
        ),
        ollama_taken(ai, Some(e)) == (
            AiLoopView { stage: AiStage::ReadLine, ..ai },
            "Error: "@ + e + "\r\n"@,
        ),
{
}

/// What a command printed is shown, and the loop reads the next line.
pub proof fn law_output_is_shown(ai: AiLoopView, output: Seq<char>)
    ensures
        ({
            let (next, said) = output_taken(ai, Ok(output));
            &&& next.stage == AiStage::ReadLine
            &&& output.is_prefix_of(said)
            &&& said.skip(output.len() as int) == "\r\n"@
            &&& next.ollama_ready == ai.ollama_ready
        }),
{
    assert((output + "\r\n"@).take(output.len() as int) =~= output);
    assert((output + "\r\n"@).skip(output.len() as int) =~= "\r\n"@);
}

/// Every line but a blank one and `/exit` is a prompt, and it is sent trimmed: at once, or, where a
/// local server was not made ready yet, once it is. A blank line asks for the next one, and
/// `/exit` and the end of input end the loop.
pub proof fn law_every_prompt_is_sent(ai: AiLoopView, line: Seq<char>)
    ensures
        line_taken(ai, None).stage == AiStage::Exit,
        trimmed(line).len() == 0 ==> line_taken(ai, Some(line)) == (AiLoopView {
            stage: AiStage::ReadLine,
            ..ai
        }),
        trimmed(line) == "/exit"@ ==> line_taken(ai, Some(line)).stage == AiStage::Exit,
        trimmed(line).len() > 0 && trimmed(line) != "/exit"@ ==> {
            let next = line_taken(ai, Some(line));
            &&& next.text == trimmed(line)
            &&& next.ollama_ready == ai.ollama_ready
            &&& next.provider == ai.provider
            &&& ai.provider != AiProvider::Ollama ==> next.stage == AiStage::Send
            &&& ai.provider == AiProvider::Ollama && ai.ollama_ready ==> next.stage
                == AiStage::Send
            &&& ai.provider == AiProvider::Ollama && !ai.ollama_ready ==> {
                &&& next.stage == AiStage::EnsureOllama
                &&& ollama_taken(next, None).0.stage == AiStage::Send
                &&& ollama_taken(next, None).0.text == trimmed(line)
                &&& ollama_taken(next, None).0.ollama_ready
                &&& ollama_taken(next, None).1.len() == 0
            }
        },
{
    reveal_strlit("/exit");
}

/// A local server is made ready once: after that no line waits for it again, whatever happens in
/// between.
pub proof fn law_server_stays_ready(
    ai: AiLoopView,
    line: Option<Seq<char>>,
    result: Result<Seq<char>, Seq<char>>,
)
    requires
        ai.ollama_ready,
    ensures
        line_taken(ai, line).ollama_ready,
        line_taken(ai, line).stage != AiStage::EnsureOllama,
        reply_taken(ai, result).0.ollama_ready,
        reply_taken(ai, result).0.stage != AiStage::EnsureOllama,
        output_taken(ai, result).0.ollama_ready,
        output_taken(ai, result).0.stage != AiStage::EnsureOllama,
{
}

/// Escape cancels a line that nothing was typed in, and no key cancels one that something was.
pub proof fn law_escape_cancels_an_empty_line(line: Seq<char>, escape: bool)
    ensures
        action_resolved(line, escape) is Some <==> line.len() == 0 && escape,
{
}

/// The shell is handed the command as its last word, as it stands.
pub proof fn law_shell_gets_the_command(windows: bool, command: Seq<char>)
    ensures
        shell(windows, command).len() == 3,
        shell(windows, command).last() == command,
        shell(windows, command)[0] == if windows {
            "cmd"@
        } else {
            "/bin/sh"@
        },
        shell(windows, command)[1] == if windows {
            "/C"@
        } else {
            "-lc"@
        },
{
}

/// Nothing that a command printed is lost: its output comes first and its errors last, with one
/// line feed between them where there are both, and a command that printed nothing says so.
pub proof fn law_both_outputs_are_kept(stdout: Seq<char>, stderr: Seq<char>)
    ensures
        ({
            let both = combined(stdout, stderr);
            &&& stdout.len() + stderr.len() > 0 ==> {
                &&& stdout.is_prefix_of(both)
                &&& both.len() >= stderr.len()
                &&& both.skip(both.len() - stderr.len()) == stderr
                &&& both.len() == stdout.len() + stderr.len() + if stdout.len() > 0
                    && stderr.len() > 0 {
                    1int
                } else {
                    0
                }
                &&& stdout.len() > 0 && stderr.len() > 0 ==> both[stdout.len() as int] == '\n'
            }
            &&& stdout.len() + stderr.len() == 0 ==> both == "<no output>"@
        }),
{
    let both = combined(stdout, stderr);
    if stdout.len() + stderr.len() > 0 {
        assert(both.take(stdout.len() as int) =~= stdout);
        assert(both.skip(both.len() - stderr.len()) =~= stderr);
    }
}

/// The text without its carriage returns.
pub open spec fn without_returns(s: Seq<char>) -> Seq<char> {
    s.filter(|c: char| c != '\r')
}


proof fn lemma_crlf_keeps_the_rest(after_cr: bool, s: Seq<char>)
    ensures
        without_returns(crlf_after(after_cr, s)) == without_returns(s),
    decreases s.len(),
{
    let f = |c: char| c != '\r';
    if s.len() > 0 {
        let c = s.first();
        let t = s.drop_first();
        lemma_crlf_keeps_the_rest(c == '\r', t);
        let rest = crlf_after(c == '\r', t);
        assert(s =~= seq![c] + t);
        Seq::filter_distributes_over_add(seq![c], t, f);
        if c == '\n' && !after_cr {
            Seq::filter_distributes_over_add(seq!['\r', '\n'], rest, f);
            assert(seq!['\r', '\n'].filter(f) == seq![c].filter(f)) by {
                reveal_with_fuel(Seq::filter, 3);
                assert(seq!['\r', '\n'].drop_last() =~= seq!['\r']);
                assert(seq!['\r'].drop_last() =~= Seq::<char>::empty());
                assert(seq![c].drop_last() =~= Seq::<char>::empty());
            }
        } else {
            Seq::filter_distributes_over_add(seq![c], rest, f);
        }
    }
}

proof fn lemma_crlf_bare_feed(after_cr: bool, a: Seq<char>, b: Seq<char>)
    requires
        a.len() == 0 ==> !after_cr,
        a.len() > 0 ==> a.last() != '\r',
    ensures
        crlf_after(after_cr, a + seq!['\n'] + b) == crlf_after(after_cr, a) + seq!['\r', '\n']
            + crlf(b),
    decreases a.len(),
{
    let s = a + seq!['\n'] + b;
    if a.len() == 0 {
        assert(s.drop_first() =~= b);
        assert(s.first() == '\n');
        assert(crlf_after(after_cr, a) =~= Seq::<char>::empty());
        assert(crlf_after(after_cr, s) =~= seq!['\r', '\n'] + crlf(b));
    } else {
        let c = a.first();
        let t = a.drop_first();
        assert(s.first() == c);
        assert(s.drop_first() =~= t + seq!['\n'] + b);
        if t.len() == 0 {
            assert(a.last() == c);
        } else {
            assert(t.last() == a.last());
        }
        lemma_crlf_bare_feed(c == '\r', t, b);
        assert(crlf_after(after_cr, s) =~= crlf_after(after_cr, a) + seq!['\r', '\n'] + crlf(b));
    }
}

/// A line feed without a carriage return before it gets one, and what stands around it is
/// normalized by itself.
pub proof fn law_crlf_mends_a_bare_feed(a: Seq<char>, b: Seq<char>)
    requires
        a.len() > 0 ==> a.last() != '\r',
    ensures
        crlf(a + seq!['\n'] + b) == crlf(a) + seq!['\r', '\n'] + crlf(b),
{
    lemma_crlf_bare_feed(false, a, b);
}

/// Normalizing only adds carriage returns: whatever else stands in the text stays, in order.
pub proof fn law_crlf_keeps_the_rest(s: Seq<char>)
    ensures
        without_returns(crlf(s)) == without_returns(s),
{
    lemma_crlf_keeps_the_rest(false, s);
}

} // verus!
