use wezterm_ai::ai::{
    combine_output, execute_command, extract_command, infer_command, normalize_line_endings,
    resolve_action, send_message, shell_command, AiLoop, AiStage, EditorAction, AI_BANNER,
    AI_PROMPT, AI_SYSTEM_PROMPT,
};
use wezterm_ai::chat::{ChatError, Purpose};
use wezterm_ai::config::{AiConfig, AiProvider};

fn text(s: &str) -> Option<String> {
    Some(s.to_string())
}

#[test]
fn commands_are_spelled_out() {
    assert_eq!(extract_command("command: ls -la"), text("ls -la"));
    assert_eq!(extract_command("  command:   ls  \n"), text("ls"));
    assert_eq!(extract_command("command:ls\nrest"), text("ls\nrest"));
    assert_eq!(extract_command("command:"), None);
    assert_eq!(extract_command("command:   "), None);
    assert_eq!(extract_command("Command: ls"), None);
    assert_eq!(extract_command("the command: ls"), None);
    assert_eq!(extract_command(""), None);
}

#[test]
fn bare_words_are_commands() {
    assert_eq!(infer_command(" ls \n"), text("ls"));
    assert_eq!(infer_command("./run-me_2.sh:x"), text("./run-me_2.sh:x"));
    assert_eq!(infer_command("ls -la"), None);
    assert_eq!(infer_command("a\nb"), None);
    assert_eq!(infer_command(""), None);
    assert_eq!(infer_command("   "), None);
    assert_eq!(infer_command("yes!"), None);
    assert_eq!(infer_command("é"), None);
}

#[test]
fn line_endings_are_normalized() {
    assert_eq!(normalize_line_endings("a\nb\r\nc"), "a\r\nb\r\nc");
    assert_eq!(normalize_line_endings("\n\n"), "\r\n\r\n");
    assert_eq!(normalize_line_endings("a\rb"), "a\rb");
    assert_eq!(normalize_line_endings("\r\r\n"), "\r\r\n");
    assert_eq!(normalize_line_endings(""), "");
}

#[test]
fn normalizing_twice_is_normalizing_once() {
    for s in ["a\nb\r\nc\r", "\r\r\n\n", "\n"] {
        let once = normalize_line_endings(s);
        assert_eq!(normalize_line_endings(&once), once);
        assert_eq!(once, s.replace("\r\n", "\n").replace('\n', "\r\n"));
    }
}

#[test]
fn output_and_errors_are_joined() {
    assert_eq!(combine_output("a\n", "b"), "a\r\n\r\nb");
    assert_eq!(combine_output("a", ""), "a");
    assert_eq!(combine_output("", "b\n"), "b\r\n");
    assert_eq!(combine_output("", ""), "<no output>");
}

#[test]
fn printed_bytes_are_read_as_utf8() {
    assert_eq!(execute_command(b"a\n", b"b"), "a\r\n\r\nb");
    assert_eq!(execute_command("é".as_bytes(), b""), "é");
    assert_eq!(execute_command(b"a\xffb", b""), "a\u{fffd}b");
    assert_eq!(execute_command(b"", b""), "<no output>");
}

#[test]
fn the_shell_runs_the_command() {
    assert_eq!(shell_command(false, "ls -la"), vec!["/bin/sh", "-lc", "ls -la"]);
    assert_eq!(shell_command(true, "dir"), vec!["cmd", "/C", "dir"]);
}

#[test]
fn escape_cancels_an_empty_line() {
    assert_eq!(resolve_action("", true), Some(EditorAction::Cancel));
    assert_eq!(resolve_action("x", true), None);
    assert_eq!(resolve_action("", false), None);
}

#[test]
fn prompts_go_out_under_the_system_prompt() {
    let mut config = AiConfig {
        ai_provider: AiProvider::Ollama,
        ai_model: text("m"),
        ai_ollama_base_url: "http://localhost:11434/v1".to_string(),
        code_mode_auto_accept: false,
        solana_rpc_url: None,
    };
    let r = send_message(&config, None, "hi").unwrap();
    assert_eq!(r.messages.len(), 2);
    assert_eq!(r.messages[0].role, "system");
    assert_eq!(r.messages[0].content, AI_SYSTEM_PROMPT);
    assert_eq!(r.messages[1].role, "user");
    assert_eq!(r.messages[1].content, "hi");
    config.ai_model = None;
    let e = send_message(&config, None, "hi").unwrap_err();
    assert_eq!(e, ChatError::MissingModel(Purpose::AiMode));
}

#[test]
fn the_system_prompt_is_one_paragraph() {
    assert_eq!(
        AI_SYSTEM_PROMPT,
        "You are a terminal assistant. If the user asks for a shell action, respond with exactly \
         one line in the form \"command: <shell command>\" and nothing else. Do not include code \
         fences. Otherwise, answer concisely in 1-3 sentences."
    );
    assert_eq!(AI_PROMPT, "ai> ");
    assert_eq!(AI_BANNER, "AI mode: type a prompt and press Enter. Use /exit to close.\r\n");
}

#[test]
fn a_conversation_with_a_hosted_provider() {
    let mut ai = AiLoop::new(AiProvider::OpenAI);
    ai.on_line(text("   "));
    assert_eq!(ai.stage, AiStage::ReadLine);
    ai.on_line(text("  list files \n"));
    assert_eq!(ai.stage, AiStage::Send);
    assert_eq!(ai.text, "list files");
    assert_eq!(ai.on_reply(Ok("command: ls".to_string())), "Running: ls\r\n");
    assert_eq!(ai.stage, AiStage::Execute);
    assert_eq!(ai.text, "ls");
    assert_eq!(ai.on_output(Ok("a\r\nb".to_string())), "a\r\nb\r\n");
    assert_eq!(ai.stage, AiStage::ReadLine);
    ai.on_line(text("why?"));
    assert_eq!(ai.on_reply(Ok("Because of this.".to_string())), "Because of this.\r\n");
    assert_eq!(ai.stage, AiStage::ReadLine);
    ai.on_line(text("again"));
    assert_eq!(ai.on_reply(Err("AI request failed".to_string())), "Error: AI request failed\r\n");
    assert_eq!(ai.stage, AiStage::ReadLine);
    ai.on_line(text("date"));
    assert_eq!(ai.on_reply(Ok("date".to_string())), "Running: date\r\n");
    assert_eq!(ai.on_output(Err("no shell".to_string())), "Error: no shell\r\n");
    ai.on_line(text("/exit"));
    assert_eq!(ai.stage, AiStage::Exit);
}

#[test]
fn a_local_server_is_made_ready_once() {
    let mut ai = AiLoop::new(AiProvider::Ollama);
    ai.on_line(text("hi"));
    assert_eq!(ai.stage, AiStage::EnsureOllama);
    assert_eq!(ai.on_ollama(Err("down".to_string())), "Error: down\r\n");
    assert_eq!(ai.stage, AiStage::ReadLine);
    assert!(!ai.ollama_ready);
    ai.on_line(text("hi"));
    assert_eq!(ai.stage, AiStage::EnsureOllama);
    assert_eq!(ai.on_ollama(Ok(())), "");
    assert_eq!(ai.stage, AiStage::Send);
    assert_eq!(ai.text, "hi");
    assert_eq!(ai.on_reply(Ok("Hello there.".to_string())), "Hello there.\r\n");
    ai.on_line(text("hi again"));
    assert_eq!(ai.stage, AiStage::Send);
}

#[test]
fn the_end_of_input_ends_the_loop() {
    let mut ai = AiLoop::new(AiProvider::Ollama);
    ai.on_line(None);
    assert_eq!(ai.stage, AiStage::Exit);
}
