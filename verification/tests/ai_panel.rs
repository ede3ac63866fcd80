use wezterm_ai::ai_panel::{
    ollama_run_command, pick_answer, run_ollama_cli, AiPanel, JobRequest, PanelAction, PanelJob,
    PanelKey, PanelMode, PanelMods,
};
use wezterm_ai::code_mode::{ActionResponse, PlanResponse};
use wezterm_ai::config::{AiConfig, AiProvider};

fn config() -> AiConfig {
    AiConfig {
        ai_provider: AiProvider::Ollama,
        ai_model: None,
        ai_ollama_base_url: "http://localhost:11434/v1".to_string(),
        code_mode_auto_accept: false,
        solana_rpc_url: None,
    }
}

fn typed(panel: &mut AiPanel, text: &str) {
    for c in text.chars() {
        let r = panel.key_down(PanelKey::Char(c), PanelMods::Bare, None, true);
        assert!(r.handled && r.redraw);
    }
}

fn submit(panel: &mut AiPanel, text: &str) -> PanelAction {
    typed(panel, text);
    panel.handle_submit(Some(7), true)
}

fn job(panel: &mut AiPanel, text: &str) -> PanelJob {
    match submit(panel, text) {
        PanelAction::Start(job) => job,
        other => panic!("{other:?}"),
    }
}

fn action(kind: &str) -> ActionResponse {
    ActionResponse {
        kind: kind.to_string(),
        content: "fn main() {}".to_string(),
        command: "ls".to_string(),
    }
}

#[test]
fn a_new_panel_is_ready() {
    let panel = AiPanel::new(config(), "Chat".to_string());
    assert_eq!(
        panel.panel_lines(),
        vec![
            "AI Panel [Planner]  /help  |  Type here. Click terminal to run commands there.",
            "Status: Ready",
            " ",
            "History:",
            " ",
            "Output:",
            " ",
            "> ",
        ]
    );
}

#[test]
fn keys_edit_the_input() {
    let mut panel = AiPanel::new(config(), "Chat".to_string());
    typed(&mut panel, "ab");
    panel.key_down(PanelKey::Char('C'), PanelMods::Shift, None, false);
    assert_eq!(panel.input, "abC");
    let r = panel.key_down(PanelKey::Backspace, PanelMods::Bare, None, false);
    assert!(r.handled && r.redraw);
    assert_eq!(panel.input, "ab");
    let r = panel.key_down(PanelKey::Char('x'), PanelMods::Ctrl, None, false);
    assert!(!r.handled && !r.redraw);
    let r = panel.key_down(PanelKey::Other, PanelMods::Bare, None, false);
    assert!(!r.handled);
    let r = panel.key_down(PanelKey::Enter, PanelMods::Other, None, false);
    assert!(!r.handled);
    assert_eq!(panel.input, "ab");
    panel.key_down(PanelKey::Backspace, PanelMods::Bare, None, false);
    panel.key_down(PanelKey::Backspace, PanelMods::Bare, None, false);
    panel.key_down(PanelKey::Backspace, PanelMods::Bare, None, false);
    assert_eq!(panel.input, "");
}

#[test]
fn escape_closes_the_panel() {
    let mut panel = AiPanel::new(config(), "Chat".to_string());
    let r = panel.key_down(PanelKey::Escape, PanelMods::Bare, None, false);
    assert!(r.handled && !r.redraw);
    assert!(matches!(r.action, PanelAction::Close));
    assert!(matches!(submit(&mut panel, "/exit"), PanelAction::Close));
}

#[test]
fn the_mode_toggles_back() {
    let mut panel = AiPanel::new(config(), "Chat".to_string());
    let r = panel.key_down(PanelKey::Char('m'), PanelMods::Ctrl, None, false);
    assert!(r.handled && r.redraw);
    assert_eq!(panel.mode, PanelMode::ClaudeLike);
    assert!(panel.panel_lines()[0].starts_with("AI Panel [Chat]"));
    assert!(matches!(submit(&mut panel, " /mode "), PanelAction::Nothing));
    assert_eq!(panel.mode, PanelMode::Planner);
    panel.toggle_mode();
    panel.toggle_mode();
    assert_eq!(panel.mode, PanelMode::Planner);
    assert_eq!(panel.chat_name, "Chat");
}

#[test]
fn help_lists_the_commands() {
    let mut panel = AiPanel::new(config(), "Chat".to_string());
    assert!(matches!(submit(&mut panel, "/help"), PanelAction::Redraw));
    assert_eq!(
        panel.output,
        vec![
            "--- AI Panel [Planner] commands ---",
            "/help     - show this list",
            "/exit     - close the AI panel",
            "/mode     - switch between Planner and Chat-like",
            "Ctrl+M    - same as /mode",
            "",
            "Planner mode:",
            "  /plan <task>  - get a plan + optional Mermaid diagram",
            "  <prompt>      - get action or command suggestion (y/n to run)",
            "",
            "Chat-like mode:",
            "  <prompt>      - runs: ollama run <model> <prompt>",
        ]
    );
    assert!(panel.history.is_empty());
    let lines = panel.panel_lines();
    assert_eq!(lines[6], "Planner mode:");
    assert_eq!(lines[9], " ");
}

#[test]
fn a_line_starts_work() {
    let mut panel = AiPanel::new(config(), "Chat".to_string());
    panel.output.push("before".to_string());
    let job = job(&mut panel, "  do it ");
    assert_eq!(job.line, "do it");
    assert_eq!(job.mode, PanelMode::Planner);
    assert_eq!(job.pane_id, Some(7));
    assert_eq!(panel.output, vec!["before"]);
    assert_eq!(panel.pending_command, None);
    assert_eq!(panel.history, vec!["do it"]);
    assert_eq!(panel.status, "Running...");
    assert_eq!(panel.input, "");
}

#[test]
fn a_line_says_whether_it_starts_work() {
    let mut panel = AiPanel::new(config(), "Chat".to_string());
    for (input, starts) in
        [("do it", true), (" ", false), ("/mode", false), (" /exit", false), ("/help", false)]
    {
        panel.input = input.to_string();
        assert_eq!(panel.would_start(), starts, "{input}");
    }
    panel.input = "y".to_string();
    panel.pending_command = Some("ls".to_string());
    assert!(!panel.would_start());
}

#[test]
fn a_blank_line_does_nothing() {
    let mut panel = AiPanel::new(config(), "Chat".to_string());
    typed(&mut panel, "   ");
    let r = panel.key_down(PanelKey::Enter, PanelMods::Bare, None, false);
    assert!(r.handled && r.redraw);
    assert!(matches!(r.action, PanelAction::Nothing));
    assert_eq!(panel.input, "");
    assert!(panel.history.is_empty());
}

#[test]
fn only_an_approved_command_runs() {
    for yes in ["y", "Y", "yes"] {
        let mut panel = AiPanel::new(config(), "Chat".to_string());
        panel.pending_command = Some("ls".to_string());
        match submit(&mut panel, yes) {
            PanelAction::Emit { pane_id, text } => {
                assert_eq!(pane_id, 7);
                assert_eq!(text, "ls\r\n");
            }
            other => panic!("{other:?}"),
        }
        assert_eq!(panel.output, vec!["Running in terminal: ls"]);
        assert_eq!(panel.pending_command, None);
    }
    for no in ["n", "YES", "do it"] {
        let mut panel = AiPanel::new(config(), "Chat".to_string());
        panel.pending_command = Some("ls".to_string());
        assert!(matches!(submit(&mut panel, no), PanelAction::Redraw));
        assert_eq!(panel.output, vec!["Command skipped."]);
        assert_eq!(panel.pending_command, None);
        assert!(panel.history.is_empty());
    }
}

#[test]
fn a_command_needs_a_pane_and_a_window() {
    for (pane, window) in [(None, true), (Some(7), false), (None, false)] {
        let mut panel = AiPanel::new(config(), "Chat".to_string());
        panel.pending_command = Some("ls".to_string());
        typed(&mut panel, "y");
        assert!(matches!(panel.handle_submit(pane, window), PanelAction::Redraw));
        assert_eq!(panel.output, vec!["No active terminal pane."]);
    }
}

#[test]
fn the_last_lines_are_shown() {
    let mut panel = AiPanel::new(config(), "Chat".to_string());
    for i in 0..6 {
        panel.history.push(format!("h{i}"));
    }
    for i in 0..8 {
        panel.output.push(format!("o{i}"));
    }
    typed(&mut panel, "in");
    assert_eq!(
        panel.panel_lines()[3..],
        [
            "History:", "- h2", "- h3", "- h4", "- h5", " ", "Output:", "o2", "o3", "o4", "o5",
            "o6", "o7", " ", "> in"
        ]
    );
}

#[test]
fn work_asks_by_mode_and_line() {
    let mut panel = AiPanel::new(config(), "Chat".to_string());
    match job(&mut panel, "/plan a b").request() {
        JobRequest::Plan { task } => assert_eq!(task, "a b"),
        other => panic!("{other:?}"),
    }
    match job(&mut panel, "/plan").request() {
        JobRequest::Action { task } => assert_eq!(task, "/plan"),
        other => panic!("{other:?}"),
    }
    panel.toggle_mode();
    match job(&mut panel, "/plan a").request() {
        JobRequest::RunOllama { model } => assert_eq!(model, "qwen2.5-coder:7b"),
        other => panic!("{other:?}"),
    }
    panel.config.ai_model = Some("m".to_string());
    match job(&mut panel, "hi").request() {
        JobRequest::RunOllama { model } => assert_eq!(model, "m"),
        other => panic!("{other:?}"),
    }
}

#[test]
fn an_answer_is_shown() {
    let mut panel = AiPanel::new(config(), "Chat".to_string());
    panel.output.push("before".to_string());
    let work = job(&mut panel, "hi");
    panel.output.push("meanwhile".to_string());
    let r = work.finish_ollama("hello".to_string());
    assert_eq!(r.lines, vec!["hello"]);
    assert!(r.suggested.is_none() && r.diagram.is_none() && r.emit.is_none());
    panel.take_report(r);
    assert_eq!(panel.output, vec!["before", "meanwhile", "hello"]);
    assert_eq!(panel.status, "Ready");
    assert_eq!(panel.pending_command, None);
    assert_eq!(panel.history, vec!["hi"]);
}

#[test]
fn a_plan_is_shown_step_by_step() {
    let mut panel = AiPanel::new(config(), "Chat".to_string());
    let plan = PlanResponse {
        summary: "s".to_string(),
        mermaid: Some("graph TD".to_string()),
        steps: vec!["one".to_string(), "two".to_string()],
    };
    let r = job(&mut panel, "/plan x").finish_plan(plan);
    let lines = vec!["Plan: s", "Steps:", "  1. one", "  2. two", "graph TD"];
    assert_eq!(r.lines, lines);
    assert_eq!(r.diagram.as_deref(), Some("graph TD"));
    panel.take_report(r);
    assert_eq!(panel.output, lines);
    assert_eq!(panel.status, "Ready");
    assert_eq!(panel.panel_lines()[1], "Status: Ready");
    assert_eq!(panel.panel_lines()[11], "graph TD");
    let plan = PlanResponse { summary: "s".to_string(), mermaid: None, steps: vec![] };
    let r = job(&mut panel, "/plan x").finish_plan(plan);
    assert_eq!(r.lines, vec!["Plan: s"]);
    assert_eq!(r.diagram, None);
}

#[test]
fn a_suggested_command_waits_and_runs_when_approved() {
    let mut panel = AiPanel::new(config(), "Chat".to_string());
    let r = job(&mut panel, "list files").finish_action(action("command"));
    assert_eq!(r.emit, None);
    assert_eq!(r.suggested.as_deref(), Some("ls"));
    panel.take_report(r);
    assert_eq!(panel.output, vec!["Command suggested:\nls\nApprove? (y/n)"]);
    assert_eq!(panel.status, "Ready");
    assert_eq!(panel.pending_command.as_deref(), Some("ls"));
    match submit(&mut panel, " y ") {
        PanelAction::Emit { pane_id, text } => {
            assert_eq!(pane_id, 7);
            assert_eq!(text, "ls\r\n");
        }
        other => panic!("{other:?}"),
    }
    assert_eq!(panel.pending_command, None);
    assert_eq!(panel.output[1], "Running in terminal: ls");
    assert_eq!(panel.history, vec!["list files"]);
}

#[test]
fn a_suggested_command_is_skipped_when_refused() {
    let mut panel = AiPanel::new(config(), "Chat".to_string());
    let r = job(&mut panel, "list files").finish_action(action("command"));
    panel.take_report(r);
    assert!(matches!(submit(&mut panel, "/help"), PanelAction::Redraw));
    assert_eq!(panel.pending_command.as_deref(), Some("ls"));
    assert!(matches!(submit(&mut panel, "n"), PanelAction::Redraw));
    assert_eq!(panel.pending_command, None);
    assert_eq!(panel.output[panel.output.len() - 1], "Command skipped.");
    assert_eq!(job(&mut panel, "y").line, "y");
}

#[test]
fn a_report_keeps_or_replaces_what_waits() {
    let mut panel = AiPanel::new(config(), "Chat".to_string());
    let first = job(&mut panel, "a");
    let second = job(&mut panel, "b");
    let third = job(&mut panel, "c");
    panel.take_report(first.finish_action(action("command")));
    panel.take_report(second.finish_action(action("code")));
    assert_eq!(panel.pending_command.as_deref(), Some("ls"));
    let mut other = action("command");
    other.command = "pwd".to_string();
    panel.take_report(third.finish_action(other));
    assert_eq!(panel.pending_command.as_deref(), Some("pwd"));
    assert_eq!(panel.output.len(), 3);
}

#[test]
fn a_command_runs_where_it_is_allowed() {
    let mut panel = AiPanel::new(config(), "Chat".to_string());
    panel.config.code_mode_auto_accept = true;
    let r = job(&mut panel, "x").finish_action(action("command"));
    assert_eq!(r.lines, vec!["Running in terminal: ls"]);
    assert_eq!(r.suggested, None);
    assert_eq!(r.emit, Some((7, "ls\r\n".to_string())));
    panel.take_report(r);
    assert_eq!(panel.pending_command, None);
    let mut without_pane = job(&mut panel, "x");
    without_pane.pane_id = None;
    assert_eq!(without_pane.finish_action(action("command")).emit, None);
}

#[test]
fn code_is_shown() {
    let mut panel = AiPanel::new(config(), "Chat".to_string());
    for kind in ["code", "Command", ""] {
        let r = job(&mut panel, "x").finish_action(action(kind));
        assert_eq!(r.lines, vec!["fn main() {}"]);
        assert_eq!(r.suggested, None);
        assert_eq!(r.emit, None);
    }
}

#[test]
fn the_local_model_is_asked() {
    assert_eq!(ollama_run_command("m", "say hi"), vec!["ollama", "run", "m", "say hi"]);
    let pick = |ok, out: &str, err: &str| pick_answer(ok, out.to_string(), err.to_string());
    assert_eq!(pick(true, "out", "err"), "out");
    assert_eq!(pick(false, "out", "err"), "err");
    assert_eq!(pick(false, "out", ""), "out");
    assert_eq!(run_ollama_cli(true, b"a\xff", b""), "a\u{fffd}");
    assert_eq!(run_ollama_cli(false, b"a", "ü".as_bytes()), "ü");
}
