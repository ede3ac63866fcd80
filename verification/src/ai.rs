//! The assistant's prompt loop: what it reads, what it sends and what it runs.
use crate::chat::{make_request, ChatError, ChatRequest, Purpose};
#[allow(unused_imports)]
use crate::chat::{chat_request, made, ChatRequestView};
use crate::config::{AiConfig, AiProvider};
#[allow(unused_imports)]
use crate::config::AiConfigView;
#[allow(unused_imports)]
use crate::keys::result_text;
#[allow(unused_imports)]
use crate::text::{
    after_prefix, cat2, cat3, chars_of, from_utf8_lossy, lossy_text, opt_text, replace, replaced,
    same, strip_prefix, texts, trim, trimmed,
};
#[allow(unused_imports)]
use crate::text_lemmas::{law_trim_idempotent, lemma_trim_prefixed};
use vstd::prelude::*;
use vstd::string::*;
#[allow(unused_imports)]
use vstd::utf8::{decode_utf8, valid_utf8};

verus! {

/// What the model is told before the user's prompt.
pub const AI_SYSTEM_PROMPT: &'static str = "You are a terminal assistant. \
If the user asks for a shell action, respond with exactly one line in the form \
\"command: <shell command>\" and nothing else. \
Do not include code fences. \
Otherwise, answer concisely in 1-3 sentences.";

/// The command of a reply of the form `command: <shell command>`.
pub open spec fn extracted(reply: Seq<char>) -> Option<Seq<char>> {
    match after_prefix(trimmed(reply), "command:"@) {
        Some(command) if trimmed(command).len() > 0 => Some(trimmed(command)),
        _ => None,
    }
}

/// Takes the command out of a reply of the form `command: <shell command>`.
pub fn extract_command(reply: &str) -> (r: Option<String>)
    ensures
        opt_text(r) == extracted(reply@),
{
    let reply = trim(reply);
    match strip_prefix(reply.as_str(), "command:") {
        Some(command) => {
            let command = trim(command.as_str());
            if command.as_str().is_empty() {
                None
            } else {
                Some(command)
            }
        },
        None => None,
    }
}

/// The characters of a reply that can be run as it stands.
pub open spec fn is_simple(c: char) -> bool {
    ||| 'a' <= c <= 'z'
    ||| 'A' <= c <= 'Z'
    ||| '0' <= c <= '9'
    ||| c == '.'
    ||| c == '/'
    ||| c == '-'
    ||| c == '_'
    ||| c == ':'
}

/// A reply that is one bare word is a command.
pub open spec fn inferred(reply: Seq<char>) -> Option<Seq<char>> {
    let word = trimmed(reply);
    if word.len() > 0 && forall|i: int| 0 <= i < word.len() ==> is_simple(#[trigger] word[i]) {
        Some(word)
    } else {
        None
    }
}

/// Takes a reply that is one bare word as a command.
pub fn infer_command(reply: &str) -> (r: Option<String>)
    ensures
        opt_text(r) == inferred(reply@),
{
    let word = trim(reply);
    let v = chars_of(word.as_str());
    if v.len() == 0 {
        return None;
    }
    let mut i: usize = 0;
    while i < v.len()
        invariant
            v@ == word@,
            i <= v@.len(),
            word@ == trimmed(reply@),
            forall|k: int| 0 <= k < i ==> is_simple(#[trigger] word@[k]),
        decreases v@.len() - i,
    {
        let c = v[i];
        let simple = ('a' <= c && c <= 'z') || ('A' <= c && c <= 'Z') || ('0' <= c && c <= '9')
            || c == '.' || c == '/' || c == '-' || c == '_' || c == ':';
        if !simple {
            assert(!is_simple(word@[i as int]));
            return None;
        }
        i += 1;
    }
    Some(word)
}

/// What a reply asks to run: the command that it spells out, else the bare word that it is.
pub open spec fn command_of(reply: Seq<char>) -> Option<Seq<char>> {
    match extracted(reply) {
        Some(command) => Some(command),
        None => inferred(reply),
    }
}

/// `s` with a carriage return before each line feed that has none; `after_cr` says whether a
/// carriage return stands before `s`.
pub open spec fn crlf_after(after_cr: bool, s: Seq<char>) -> Seq<char>
    decreases s.len(),
{
    if s.len() == 0 {
        s
    } else {
        let c = s.first();
        let rest = crlf_after(c == '\r', s.drop_first());
        if c == '\n' && !after_cr {
            seq!['\r', '\n'] + rest
        } else {
            seq![c] + rest
        }
    }
}

/// `s` with a carriage return before each line feed that has none.
pub open spec fn crlf(s: Seq<char>) -> Seq<char> {
    crlf_after(false, s)
}

/// Taking the carriage returns out and putting one before each line feed is `crlf`.
proof fn lemma_crlf(s: Seq<char>)
    ensures
        replaced(replaced(s, seq!['\r', '\n'], seq!['\n']), seq!['\n'], seq!['\r', '\n']) == crlf(
            s,
        ),
    decreases s.len(),
{
    let cl = seq!['\r', '\n'];
    let l = seq!['\n'];
    if s.len() == 0 {
    } else {
        let c = s.first();
        let t = s.drop_first();
        if cl.is_prefix_of(s) {
            let u = s.skip(2);
            lemma_crlf(u);
            assert(s[0] == cl[0] && s[1] == cl[1]);
            let a = replaced(u, cl, l);
            assert(replaced(s, cl, l) == l + a);
            assert((l + a).skip(1) == a);
            assert(l.is_prefix_of(l + a));
            assert(replaced(l + a, l, cl) == cl + replaced(a, l, cl));
            assert(t.drop_first() == u);
            assert(crlf_after(true, t) == seq!['\n'] + crlf_after(false, u));
            assert(crlf(s) == seq!['\r'] + (seq!['\n'] + crlf(u)));
        } else {
            lemma_crlf(t);
            let a = replaced(t, cl, l);
            assert(replaced(s, cl, l) == seq![c] + a) by {
                if s.len() < 2 {
                    assert(t == Seq::<char>::empty());
                    assert(s == seq![c]);
                }
            }
            let b = seq![c] + a;
            assert(b.drop_first() == a);
            assert(b.skip(1) == a);
            if c == '\n' {
                assert(b.take(1) == l);
                assert(l.is_prefix_of(b));
            } else {
                assert(b[0] != l[0]);
                assert(!l.is_prefix_of(b));
                if c == '\r' {
                    if t.len() > 0 && t[0] == '\n' {
                        assert(s.take(2) == cl);
                    }
                    assert(crlf_after(true, t) == crlf_after(false, t));
                }
            }
        }
    }
}

/// Ends every line with a carriage return and a line feed.
pub fn normalize_line_endings(text: &str) -> (r: String)
    ensures
        r@ == crlf(text@),
{
    proof {
        reveal_strlit("\r\n");
        reveal_strlit("\n");
        assert("\r\n"@ =~= seq!['\r', '\n']);
        assert("\n"@ =~= seq!['\n']);
        lemma_crlf(text@);
    }
    let normalized = replace(text, "\r\n", "\n");
    replace(normalized.as_str(), "\n", "\r\n")
}

/// In a normalized text every line feed follows a carriage return.
pub proof fn law_crlf_complete(s: Seq<char>, i: int)
    requires
        0 <= i < crlf(s).len(),
        crlf(s)[i] == '\n',
    ensures
        i > 0 && crlf(s)[i - 1] == '\r',
{
    lemma_crlf_after_complete(false, s, i);
}

proof fn lemma_crlf_after_complete(after_cr: bool, s: Seq<char>, i: int)
    requires
        0 <= i < crlf_after(after_cr, s).len(),
        crlf_after(after_cr, s)[i] == '\n',
    ensures
        if i == 0 {
            after_cr
        } else {
            crlf_after(after_cr, s)[i - 1] == '\r'
        },
    decreases s.len(),
{
    let c = s.first();
    let t = s.drop_first();
    let rest = crlf_after(c == '\r', t);
    let n: int = if c == '\n' && !after_cr {
        2
    } else {
        1
    };
    if i >= n {
        assert(crlf_after(after_cr, s)[i] == rest[i - n]);
        lemma_crlf_after_complete(c == '\r', t, i - n);
        if i > n {
            assert(crlf_after(after_cr, s)[i - 1] == rest[i - n - 1]);
        }
    }
}

proof fn lemma_crlf_fixed(after_cr: bool, s: Seq<char>)
    requires
        forall|i: int|
            0 <= i < s.len() && #[trigger] s[i] == '\n' ==> if i == 0 {
                after_cr
            } else {
                s[i - 1] == '\r'
            },
    ensures
        crlf_after(after_cr, s) == s,
    decreases s.len(),
{
    if s.len() > 0 {
        let t = s.drop_first();
        assert forall|i: int| 0 <= i < t.len() && #[trigger] t[i] == '\n' implies if i == 0 {
            s.first() == '\r'
        } else {
            t[i - 1] == '\r'
        } by {
            assert(s[i + 1] == '\n');
        }
        lemma_crlf_fixed(s.first() == '\r', t);
        assert(s[0] == s.first());
        assert(seq![s.first()] + t == s);
    }
}

/// A text whose line feeds all follow carriage returns is left as it is.
pub proof fn law_crlf_leaves_alone(s: Seq<char>)
    requires
        forall|i: int|
            0 <= i < s.len() && #[trigger] s[i] == '\n' ==> i > 0 && s[i - 1] == '\r',
    ensures
        crlf(s) == s,
{
    lemma_crlf_fixed(false, s);
}

/// Normalizing a normalized text changes nothing.
pub proof fn law_crlf_idempotent(s: Seq<char>)
    ensures
        crlf(crlf(s)) == crlf(s),
{
    let r = crlf(s);
    assert forall|i: int| 0 <= i < r.len() && #[trigger] r[i] == '\n' implies if i == 0 {
        false
    } else {
        r[i - 1] == '\r'
    } by {
        law_crlf_complete(s, i);
    }
    lemma_crlf_fixed(false, r);
}

/// A reply that spells a command out asks to run that command, trimmed: whatever follows the colon,
/// unless it is blank.
pub proof fn law_extract_spelled_out(command: Seq<char>)
    ensures
        extracted("command:"@ + command) == if trimmed(command).len() > 0 {
            Some(trimmed(command))
        } else {
            None
        },
{
    reveal_strlit("command:");
    lemma_trim_prefixed("command:"@, command);
}

/// A command that is taken out of a reply is not blank and has no white space around it.
pub proof fn law_commands_are_trimmed(reply: Seq<char>)
    ensures
        command_of(reply) matches Some(command) ==> command.len() > 0 && trimmed(command)
            == command,
{
    law_trim_idempotent(reply);
    match after_prefix(trimmed(reply), "command:"@) {
        Some(command) => law_trim_idempotent(command),
        None => {},
    }
}

/// The request that a prompt becomes.
pub open spec fn prompt_request(
    config: AiConfigView,
    key: Option<Seq<char>>,
    message: Seq<char>,
) -> Result<ChatRequestView, ChatError> {
    chat_request(config, key, Purpose::AiMode, Some(AI_SYSTEM_PROMPT@), message)
}

/// The message that a prompt becomes: its request goes to the configured provider, under the
/// system prompt.
pub fn send_message(config: &AiConfig, key: Option<String>, message: &str) -> (r: Result<
    ChatRequest,
    ChatError,
>)
    ensures
        made(r) == chat_request(
            config@,
            opt_text(key),
            Purpose::AiMode,
            Some(AI_SYSTEM_PROMPT@),
            message@,
        ),
        made(r) == prompt_request(config@, opt_text(key), message@),
{
    make_request(config, key, Purpose::AiMode, Some(AI_SYSTEM_PROMPT), message)
}

/// The shell that runs a command, with its arguments.
pub open spec fn shell(windows: bool, command: Seq<char>) -> Seq<Seq<char>> {
    if windows {
        seq!["cmd"@, "/C"@, command]
    } else {
        seq!["/bin/sh"@, "-lc"@, command]
    }
}

/// The program that runs a command, followed by its arguments.
pub fn shell_command(windows: bool, command: &str) -> (r: Vec<String>)
    ensures
        texts(r@) == shell(windows, command@),
{
    let mut words: Vec<String> = Vec::new();
    if windows {
        words.push("cmd".to_owned());
        words.push("/C".to_owned());
    } else {
        words.push("/bin/sh".to_owned());
        words.push("-lc".to_owned());
    }
    words.push(command.to_owned());
    words
}

/// What a command printed: its output, then its errors on a line of their own.
pub open spec fn combined(stdout: Seq<char>, stderr: Seq<char>) -> Seq<char> {
    if stdout.len() == 0 && stderr.len() == 0 {
        "<no output>"@
    } else if stdout.len() == 0 {
        stderr
    } else if stderr.len() == 0 {
        stdout
    } else {
        stdout + seq!['\n'] + stderr
    }
}

/// Joins what a command printed to its two outputs, with normalized line endings.
pub fn combine_output(stdout: &str, stderr: &str) -> (r: String)
    ensures
        r@ == crlf(combined(stdout@, stderr@)),
{
    let mut both = stdout.to_owned();
    if !stderr.is_empty() {
        if !both.as_str().is_empty() {
            both.push('\n');
        }
        both.append(stderr);
    }
    if both.as_str().is_empty() {
        both = "<no output>".to_owned();
    }
    assert(both@ == combined(stdout@, stderr@));
    normalize_line_endings(both.as_str())
}

/// Reads what a command printed to its two outputs and joins it.
pub fn execute_command(stdout: &[u8], stderr: &[u8]) -> (r: String)
    ensures
        r@ == crlf(combined(lossy_text(stdout@), lossy_text(stderr@))),
        valid_utf8(stdout@) ==> lossy_text(stdout@) == decode_utf8(stdout@),
        valid_utf8(stderr@) ==> lossy_text(stderr@) == decode_utf8(stderr@),
{
    let stdout = from_utf8_lossy(stdout);
    let stderr = from_utf8_lossy(stderr);
    combine_output(stdout.as_str(), stderr.as_str())
}

/// What the line editor does on a key of its own accord.
#[derive(Clone, Copy, Debug, PartialEq, Eq, Structural)]
pub enum EditorAction {
    Cancel,
}

/// What the line editor does on a key of its own accord.
pub open spec fn action_resolved(line: Seq<char>, escape: bool) -> Option<EditorAction> {
    if line.len() == 0 && escape {
        Some(EditorAction::Cancel)
    } else {
        None
    }
}

/// Escape on an empty line cancels the editor; any other key is the editor's own.
pub fn resolve_action(line: &str, escape: bool) -> (r: Option<EditorAction>)
    ensures
        r == action_resolved(line@, escape),
        r == if line@.len() == 0 && escape {
            Some(EditorAction::Cancel)
        } else {
            None
        },
{
    if line.is_empty() && escape {
        Some(EditorAction::Cancel)
    } else {
        None
    }
}

/// What the loop waits for.
#[derive(Clone, Copy, Debug, PartialEq, Eq, Structural)]
pub enum AiStage {
    /// A line from the user.
    ReadLine,
    /// The local server being made ready.
    EnsureOllama,
    /// The reply to the prompt.
    Send,
    /// The outcome of the command.
    Execute,
    /// Nothing: the loop is over.
    Exit,
}

/// The prompt loop.
#[derive(Debug)]
pub struct AiLoop {
    pub provider: AiProvider,
    /// Whether the local server has been made ready.
    pub ollama_ready: bool,
    pub stage: AiStage,
    /// The prompt to send, or the command to run.
    pub text: String,
}

/// What the user sees first.
pub const AI_BANNER: &'static str =
    "AI mode: type a prompt and press Enter. Use /exit to close.\r\n";

/// What stands before each line that the user types.
pub const AI_PROMPT: &'static str = "ai> ";

/// A line of text that is shown to the user.
pub open spec fn shown_line(text: Seq<char>) -> Seq<char> {
    text + "\r\n"@
}

/// An error that is shown to the user.
pub open spec fn shown_error(error: Seq<char>) -> Seq<char> {
    "Error: "@ + error + "\r\n"@
}

/// The prompt loop as plain text.
pub ghost struct AiLoopView {
    pub provider: AiProvider,
    pub ollama_ready: bool,
    pub stage: AiStage,
    pub text: Seq<char>,
}

impl View for AiLoop {
    type V = AiLoopView;

    open spec fn view(&self) -> AiLoopView {
        AiLoopView {
            provider: self.provider,
            ollama_ready: self.ollama_ready,
            stage: self.stage,
            text: self.text@,
        }
    }
}

/// The loop after a line.
pub open spec fn line_taken(ai: AiLoopView, line: Option<Seq<char>>) -> AiLoopView {
    match line {
        None => AiLoopView { stage: AiStage::Exit, ..ai },
        Some(line) => if trimmed(line).len() == 0 {
            AiLoopView { stage: AiStage::ReadLine, ..ai }
        } else if trimmed(line) == "/exit"@ {
            AiLoopView { stage: AiStage::Exit, ..ai }
        } else {
            AiLoopView {
                text: trimmed(line),
                stage: if ai.provider == AiProvider::Ollama && !ai.ollama_ready {
                    AiStage::EnsureOllama
                } else {
                    AiStage::Send
                },
                ..ai
            }
        },
    }
}

/// The loop after the local server was made ready, or was not, and what is shown.
pub open spec fn ollama_taken(ai: AiLoopView, failure: Option<Seq<char>>) -> (
    AiLoopView,
    Seq<char>,
) {
    match failure {
        None => (
            AiLoopView { ollama_ready: true, stage: AiStage::Send, ..ai },
            Seq::empty(),
        ),
        Some(e) => (AiLoopView { stage: AiStage::ReadLine, ..ai }, shown_error(e)),
    }
}

/// The loop after a reply, or a failure, and what is shown.
pub open spec fn reply_taken(ai: AiLoopView, result: Result<Seq<char>, Seq<char>>) -> (
    AiLoopView,
    Seq<char>,
) {
    match result {
        Ok(reply) => match command_of(reply) {
            Some(command) => (
                AiLoopView { stage: AiStage::Execute, text: command, ..ai },
                "Running: "@ + command + "\r\n"@,
            ),
            None => (AiLoopView { stage: AiStage::ReadLine, ..ai }, shown_line(reply)),
        },
        Err(e) => (AiLoopView { stage: AiStage::ReadLine, ..ai }, shown_error(e)),
    }
}

/// The loop after a command, or a failure, and what is shown.
pub open spec fn output_taken(ai: AiLoopView, result: Result<Seq<char>, Seq<char>>) -> (
    AiLoopView,
    Seq<char>,
) {
    (
        AiLoopView { stage: AiStage::ReadLine, ..ai },
        match result {
            Ok(output) => shown_line(output),
            Err(e) => shown_error(e),
        },
    )
}

/// Why something was not done, where it was not.
pub open spec fn failure_of(result: Result<(), String>) -> Option<Seq<char>> {
    match result {
        Ok(_) => None,
        Err(e) => Some(e@),
    }
}

impl AiLoop {
    /// Nothing is sent to a local server that was not made ready, and nothing that it said is
    /// run.
    pub open spec fn wf(&self) -> bool {
        (self.stage == AiStage::Send || self.stage == AiStage::Execute) && self.provider
            == AiProvider::Ollama ==> self.ollama_ready
    }

    /// A loop that waits for its first line.
    pub fn new(provider: AiProvider) -> (r: Self)
        ensures
            r.wf(),
            r.provider == provider,
            !r.ollama_ready,
            r.stage == AiStage::ReadLine,
            r.text@ == Seq::<char>::empty(),
    {
        AiLoop { provider, ollama_ready: false, stage: AiStage::ReadLine, text: String::new() }
    }

    /// Takes a line: the end of input and `/exit` end the loop, a blank line is passed over, and
    /// anything else is a prompt. The first prompt to a local server waits until that server is
    /// ready.
    pub fn on_line(&mut self, line: Option<String>)
        requires
            old(self).wf(),
            old(self).stage == AiStage::ReadLine,
        ensures
            final(self)@ == line_taken(old(self)@, opt_text(line)),
            final(self).wf(),
            final(self).provider == old(self).provider,
            final(self).ollama_ready == old(self).ollama_ready,
            match line {
                None => final(self).stage == AiStage::Exit && final(self).text == old(self).text,
                Some(line) => {
                    let prompt = trimmed(line@);
                    if prompt.len() == 0 {
                        final(self).stage == AiStage::ReadLine && final(self).text == old(self).text
                    } else if prompt == "/exit"@ {
                        final(self).stage == AiStage::Exit && final(self).text == old(self).text
                    } else {
                        &&& final(self).text@ == prompt
                        &&& final(self).stage == if old(self).provider == AiProvider::Ollama
                            && !old(self).ollama_ready {
                            AiStage::EnsureOllama
                        } else {
                            AiStage::Send
                        }
                    }
                },
            },
    {
        match line {
            None => {
                self.stage = AiStage::Exit;
            },
            Some(line) => {
                let prompt = trim(line.as_str());
                if prompt.as_str().is_empty() {
                } else if same(prompt.as_str(), "/exit") {
                    self.stage = AiStage::Exit;
                } else {
                    self.text = prompt;
                    self.stage = if self.provider == AiProvider::Ollama && !self.ollama_ready {
                        AiStage::EnsureOllama
                    } else {
                        AiStage::Send
                    };
                }
            },
        }
    }

    /// Takes the outcome of making the local server ready and returns what to show: nothing when
    /// it is ready, for good; otherwise the error, and the prompt is dropped.
    pub fn on_ollama(&mut self, result: Result<(), String>) -> (r: String)
        requires
            old(self).wf(),
            old(self).stage == AiStage::EnsureOllama,
        ensures
            (final(self)@, r@) == ollama_taken(old(self)@, failure_of(result)),
            final(self).wf(),
            final(self).provider == old(self).provider,
            final(self).text == old(self).text,
            match result {
                Ok(_) => {
                    &&& final(self).ollama_ready
                    &&& final(self).stage == AiStage::Send
                    &&& r@ == Seq::<char>::empty()
                },
                Err(e) => {
                    &&& final(self).ollama_ready == old(self).ollama_ready
                    &&& final(self).stage == AiStage::ReadLine
                    &&& r@ == shown_error(e@)
                },
            },
    {
        match result {
            Ok(_) => {
                self.ollama_ready = true;
                self.stage = AiStage::Send;
                String::new()
            },
            Err(e) => {
                self.stage = AiStage::ReadLine;
                cat3("Error: ", e.as_str(), "\r\n")
            },
        }
    }

    /// Takes the reply to the prompt and returns what to show. A reply that asks for a command
    /// has that command run; any other is shown as it stands.
    pub fn on_reply(&mut self, result: Result<String, String>) -> (r: String)
        requires
            old(self).wf(),
            old(self).stage == AiStage::Send,
        ensures
            (final(self)@, r@) == reply_taken(old(self)@, result_text(result)),
            final(self).wf(),
            final(self).provider == old(self).provider,
            final(self).ollama_ready == old(self).ollama_ready,
            match result {
                Ok(reply) => match command_of(reply@) {
                    Some(command) => {
                        &&& final(self).stage == AiStage::Execute
                        &&& final(self).text@ == command
                        &&& r@ == "Running: "@ + command + "\r\n"@
                    },
                    None => {
                        &&& final(self).stage == AiStage::ReadLine
                        &&& final(self).text == old(self).text
                        &&& r@ == shown_line(reply@)
                    },
                },
                Err(e) => {
                    &&& final(self).stage == AiStage::ReadLine
                    &&& final(self).text == old(self).text
                    &&& r@ == shown_error(e@)
                },
            },
    {
        match result {
            Ok(reply) => {
                let command = match extract_command(reply.as_str()) {
                    Some(command) => Some(command),
                    None => infer_command(reply.as_str()),
                };
                match command {
                    Some(command) => {
                        let shown = cat3("Running: ", command.as_str(), "\r\n");
                        self.text = command;
                        self.stage = AiStage::Execute;
                        shown
                    },
                    None => {
                        self.stage = AiStage::ReadLine;
                        cat2(reply.as_str(), "\r\n")
                    },
                }
            },
            Err(e) => {
                self.stage = AiStage::ReadLine;
                cat3("Error: ", e.as_str(), "\r\n")
            },
        }
    }

    /// Takes what the command printed, or why it did not run, and returns what to show.
    pub fn on_output(&mut self, result: Result<String, String>) -> (r: String)
        requires
            old(self).wf(),
            old(self).stage == AiStage::Execute,
        ensures
            (final(self)@, r@) == output_taken(old(self)@, result_text(result)),
            final(self).wf(),
            final(self).provider == old(self).provider,
            final(self).ollama_ready == old(self).ollama_ready,
            final(self).text == old(self).text,
            final(self).stage == AiStage::ReadLine,
            r@ == match result {
                Ok(output) => shown_line(output@),
                Err(e) => shown_error(e@),
            },
    {
        self.stage = AiStage::ReadLine;
        match result {
            Ok(output) => cat2(output.as_str(), "\r\n"),
            Err(e) => cat3("Error: ", e.as_str(), "\r\n"),
        }
    }
}

} // verus!
