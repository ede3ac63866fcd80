//! What holds of the panel, its keys and its work.
#[allow(unused_imports)]
use crate::ai_panel::{
    action_report, approves, fresh_panel, help_lines, last_of, lines_of, mode_name, ollama_answer,
    other_mode, plan_lines, plan_report, pressed, report_taken, request_of, shown, starts_work,
    step_line, submitted, AiPanelView, JobReportView, JobRequestView, KeyResponseView,
    PanelActionView, PanelJobView, PanelKey, PanelMode, PanelMods,
};
#[allow(unused_imports)]
use crate::config::AiConfigView;
#[allow(unused_imports)]
use crate::text::{after_prefix, decimal_of, trimmed};
use vstd::prelude::*;

verus! {

/// An answer that is no command is shown, as the one line that it is, and does nothing else:
/// nothing is typed, suggested or drawn, whether or not commands run unasked.
pub proof fn law_code_is_only_shown(
    job: PanelJobView,
    kind: Seq<char>,
    content: Seq<char>,
    command: Seq<char>,
)
    requires
        kind != "command"@,
    ensures
        ({
            let report = action_report(job, kind, content, command);
            &&& report.emit is None
            &&& report.suggested is None
            &&& report.diagram is None
            &&& report.lines.len() == 1
            &&& report.lines[0] == content
        }),
{
}

/// What work types into a terminal is a command that was answered as one, where commands run
/// unasked, into the pane that was active; and such a command is typed where there was a pane.
/// Every other command is suggested and waits.
pub proof fn law_only_accepted_commands_are_typed(
    job: PanelJobView,
    kind: Seq<char>,
    content: Seq<char>,
    command: Seq<char>,
)
    ensures
        ({
            let report = action_report(job, kind, content, command);
            let accepted = kind == "command"@ && job.config.code_mode_auto_accept;
            &&& report.emit matches Some(typed) ==> accepted && job.pane_id == Some(typed.0)
                && typed.1 == command + "\r\n"@
            &&& accepted && job.pane_id is Some ==> report.emit is Some
            &&& accepted ==> report.suggested is None && report.lines == seq![
                "Running in terminal: "@ + command,
            ]
            &&& kind == "command"@ && !accepted ==> report.suggested == Some(command)
                && report.lines == seq![
                "Command suggested:\n"@ + command + "\nApprove? (y/n)"@,
            ]
            &&& report.suggested is Some ==> kind == "command"@ && !accepted
            &&& report.diagram is None
        }),
{
}

/// A plan types and suggests nothing. It shows what it comes to, then every step, counted from one
/// and in order, then its diagram, which is also what is drawn.
pub proof fn law_plan_shows_every_step(
    summary: Seq<char>,
    steps: Seq<Seq<char>>,
    mermaid: Option<Seq<char>>,
)
    ensures
        ({
            let report = plan_report(summary, steps, mermaid);
            let n = if steps.len() > 0 {
                2 + steps.len()
            } else {
                1
            };
            &&& report.emit is None
            &&& report.suggested is None
            &&& report.diagram == mermaid
            &&& report.lines.len() == n + if mermaid is Some {
                1int
            } else {
                0
            }
            &&& report.lines[0] == "Plan: "@ + summary
            &&& steps.len() > 0 ==> report.lines[1] == "Steps:"@
            &&& forall|i: int|
                0 <= i < steps.len() ==> report.lines[2 + i] == "  "@ + decimal_of((i + 1) as nat)
                    + ". "@ + #[trigger] steps[i]
            &&& mermaid matches Some(diagram) ==> report.lines.last() == diagram
        }),
{
    let report = plan_report(summary, steps, mermaid);
    let numbered = steps.map(|i: int, step: Seq<char>| step_line(i, step));
    assert forall|i: int| 0 <= i < steps.len() implies report.lines[2 + i] == "  "@ + decimal_of(
        (i + 1) as nat,
    ) + ". "@ + #[trigger] steps[i] by {
        assert(report.lines[2 + i] == numbered[i]);
        assert(numbered[i] == step_line(i, steps[i]));
    }
}

/// A line is taken by the mode that it was submitted in: the local model is asked with the
/// configured model, else the default one; a task behind `/plan ` is planned; anything else is a
/// request for an action, as it stands.
pub proof fn law_work_asks_by_mode(job: PanelJobView, task: Seq<char>)
    ensures
        job.mode == PanelMode::ClaudeLike ==> {
            &&& job.config.ai_model matches Some(model) ==> request_of(job) == (
            JobRequestView::RunOllama { model })
            &&& job.config.ai_model is None ==> request_of(job) == (JobRequestView::RunOllama {
                model: "qwen2.5-coder:7b"@,
            })
        },
        job.mode == PanelMode::Planner && job.line == "/plan "@ + task ==> request_of(job) == (
        JobRequestView::Plan { task }),
        job.mode == PanelMode::Planner && !"/plan "@.is_prefix_of(job.line) ==> request_of(job)
            == (JobRequestView::Action { task: job.line }),
{
    let line = "/plan "@ + task;
    assert(line.take("/plan "@.len() as int) =~= "/plan "@);
    assert("/plan "@.is_prefix_of(line));
    assert(line.skip("/plan "@.len() as int) =~= task);
}

/// A key types its character, and Backspace takes the last one back.
pub proof fn law_typing_is_undone(
    p: AiPanelView,
    c: char,
    mods: PanelMods,
    pane: Option<usize>,
    window: bool,
)
    requires
        mods == PanelMods::Bare || mods == PanelMods::Shift,
    ensures
        ({
            let (q, response) = pressed(p, PanelKey::Char(c), mods, pane, window);
            let (back, answer) = pressed(q, PanelKey::Backspace, PanelMods::Bare, pane, window);
            &&& q.input == p.input.push(c)
            &&& q == (AiPanelView { input: q.input, ..p })
            &&& response.handled && response.redraw && response.action == PanelActionView::Nothing
            &&& back == p
            &&& answer.handled && answer.redraw && answer.action == PanelActionView::Nothing
        }),
{
    assert(p.input.push(c).drop_last() =~= p.input);
}

/// Enter submits, Escape closes, Ctrl and `m` switch the mode, Backspace on an empty input changes
/// nothing, and no other key is the panel's: it is left to the window, and nothing changes.
pub proof fn law_keys_do_what_they_are_for(
    p: AiPanelView,
    key: PanelKey,
    mods: PanelMods,
    pane: Option<usize>,
    window: bool,
)
    ensures
        ({
            let (q, response) = pressed(p, key, mods, pane, window);
            let bare = mods == PanelMods::Bare;
            let types = key is Char && (bare || mods == PanelMods::Shift);
            let toggles = key == PanelKey::Char('m') && mods == PanelMods::Ctrl;
            &&& bare && key == PanelKey::Enter ==> {
                &&& (q, response.action) == submitted(p, pane, window)
                &&& response.handled
                &&& response.redraw
            }
            &&& bare && key == PanelKey::Escape ==> {
                &&& q == p
                &&& response.action == PanelActionView::Close
                &&& response.handled
                &&& !response.redraw
            }
            &&& toggles ==> {
                &&& q.mode != p.mode
                &&& q == (AiPanelView { mode: q.mode, ..p })
                &&& response.handled
                &&& response.redraw
                &&& response.action == PanelActionView::Nothing
            }
            &&& bare && key == PanelKey::Backspace && p.input.len() == 0 ==> q == p
            &&& response.handled <==> types || toggles || bare && (key == PanelKey::Enter || key
                == PanelKey::Escape || key == PanelKey::Backspace)
            &&& !response.handled ==> q == p && response.action == PanelActionView::Nothing
                && !response.redraw
            &&& response.action != PanelActionView::Nothing ==> bare && (key == PanelKey::Enter
                || key == PanelKey::Escape)
        }),
{
}

proof fn lemma_commands_differ()
    ensures
        "/mode"@ != "/exit"@,
        "/mode"@ != "/help"@,
        "/exit"@ != "/help"@,
        "/mode"@.len() == 5,
        "/exit"@.len() == 5,
        "/help"@.len() == 5,
        "y"@.len() == 1,
        "Y"@.len() == 1,
        "yes"@.len() == 3,
{
    reveal_strlit("/mode");
    reveal_strlit("/exit");
    reveal_strlit("/help");
    reveal_strlit("y");
    reveal_strlit("Y");
    reveal_strlit("yes");
    assert("/mode"@[1] == 'm' && "/exit"@[1] == 'e' && "/help"@[1] == 'h');
}

/// A blank line and the panel's own commands do what they say and leave the rest: a command that
/// waits goes on waiting, the history stays, and only the input is emptied.
pub proof fn law_panel_commands_keep_the_rest(
    p: AiPanelView,
    pane: Option<usize>,
    window: bool,
)
    ensures
        ({
            let line = trimmed(p.input);
            let (q, action) = submitted(p, pane, window);
            let emptied = AiPanelView { input: Seq::empty(), ..p };
            &&& line.len() == 0 ==> q == emptied && action == PanelActionView::Nothing
            &&& line == "/mode"@ ==> {
                &&& q.mode != p.mode
                &&& q == (AiPanelView { mode: q.mode, ..emptied })
                &&& action == PanelActionView::Nothing
            }
            &&& line == "/exit"@ ==> q == emptied && action == PanelActionView::Close
            &&& line == "/help"@ ==> {
                &&& q == (AiPanelView { output: q.output, ..emptied })
                &&& p.output.is_prefix_of(q.output)
                &&& q.output.len() == p.output.len() + 12
                &&& action == PanelActionView::Redraw
            }
            &&& action == PanelActionView::Close <==> line == "/exit"@
        }),
{
    lemma_commands_differ();
    assert((p.output + help_lines(p)).take(p.output.len() as int) =~= p.output);
}

/// Any other line settles a command that waits: `y`, `Y` and `yes` type it into the active pane,
/// where there is one and a window; whatever happens, it waits no longer, one line says what
/// happened, and no work starts.
pub proof fn law_waiting_command_is_settled(
    p: AiPanelView,
    command: Seq<char>,
    pane: Option<usize>,
    window: bool,
)
    requires
        p.pending_command == Some(command),
        trimmed(p.input).len() > 0,
        trimmed(p.input) != "/mode"@,
        trimmed(p.input) != "/exit"@,
        trimmed(p.input) != "/help"@,
    ensures
        ({
            let line = trimmed(p.input);
            let yes = line == "y"@ || line == "Y"@ || line == "yes"@;
            let (q, action) = submitted(p, pane, window);
            &&& q.pending_command is None
            &&& q.input.len() == 0
            &&& q.output.len() == p.output.len() + 1
            &&& q.output.drop_last() == p.output
            &&& q == (AiPanelView {
                input: q.input,
                output: q.output,
                pending_command: None,
                ..p
            })
            &&& yes && window && pane is Some ==> {
                &&& action == (PanelActionView::Emit {
                    pane_id: pane->0,
                    text: command + "\r\n"@,
                })
                &&& q.output.last() == "Running in terminal: "@ + command
            }
            &&& yes && !(window && pane is Some) ==> {
                &&& action == PanelActionView::Redraw
                &&& q.output.last() == "No active terminal pane."@
            }
            &&& !yes ==> {
                &&& action == PanelActionView::Redraw
                &&& q.output.last() == "Command skipped."@
            }
        }),
{
    let (q, action) = submitted(p, pane, window);
    assert(q.output.drop_last() =~= p.output);
}

/// Any other line, where no command waits, starts work on that line, trimmed, in the mode, with the
/// configuration and for the pane of that moment; it joins the history, and the panel shows that it
/// is at work.
pub proof fn law_other_lines_start_work(p: AiPanelView, pane: Option<usize>, window: bool)
    requires
        p.pending_command is None,
        trimmed(p.input).len() > 0,
        trimmed(p.input) != "/mode"@,
        trimmed(p.input) != "/exit"@,
        trimmed(p.input) != "/help"@,
    ensures
        ({
            let (q, action) = submitted(p, pane, window);
            &&& starts_work(p)
            &&& action matches PanelActionView::Start(job) && {
                &&& job.line == trimmed(p.input)
                &&& job.mode == p.mode
                &&& job.config == p.config
                &&& job.pane_id == pane
            }
            &&& q.history.len() == p.history.len() + 1
            &&& q.history.drop_last() == p.history
            &&& q.history.last() == trimmed(p.input)
            &&& q.status == "Running..."@
            &&& q.input.len() == 0
            &&& q == (AiPanelView {
                input: q.input,
                history: q.history,
                status: q.status,
                ..p
            })
        }),
{
    let (q, action) = submitted(p, pane, window);
    assert(q.history.drop_last() =~= p.history);
}

/// A report adds its lines behind the output, in order, makes the panel ready, and has its command
/// wait where it suggests one.
pub proof fn law_report_is_shown(p: AiPanelView, report: JobReportView)
    ensures
        ({
            let q = report_taken(p, report);
            &&& q.output.len() == p.output.len() + report.lines.len()
            &&& q.output.take(p.output.len() as int) == p.output
            &&& q.output.skip(p.output.len() as int) == report.lines
            &&& q.status == "Ready"@
            &&& report.suggested is Some ==> q.pending_command == report.suggested
            &&& report.suggested is None ==> q.pending_command == p.pending_command
            &&& q == (AiPanelView {
                output: q.output,
                status: q.status,
                pending_command: q.pending_command,
                ..p
            })
        }),
{
    let q = report_taken(p, report);
    assert(q.output.take(p.output.len() as int) =~= p.output);
    assert(q.output.skip(p.output.len() as int) =~= report.lines);
}

/// A list's length, or so many where it is longer.
pub open spec fn at_most(n: nat, m: int) -> int {
    if n < m {
        n as int
    } else {
        m
    }
}

/// The panel shows its status, the last four submitted lines, the last six lines of output, in
/// order, and at the end what is being typed; an empty line takes up a blank.
pub proof fn law_panel_shows_the_latest(p: AiPanelView)
    ensures
        ({
            let lines = lines_of(p);
            let h = at_most(p.history.len(), 4);
            let o = at_most(p.output.len(), 6);
            &&& lines.len() == h + o + 8
            &&& lines[0] == "AI Panel ["@ + mode_name(p)
                + "]  /help  |  Type here. Click terminal to run commands there."@
            &&& lines[1] == "Status: "@ + p.status
            &&& lines[3] == "History:"@
            &&& forall|i: int|
                0 <= i < h ==> #[trigger] lines[4 + i] == "- "@ + p.history[p.history.len() - h + i]
            &&& lines[h + 5] == "Output:"@
            &&& forall|i: int|
                0 <= i < o ==> #[trigger] lines[h + 6 + i] == {
                    let line = p.output[p.output.len() - o + i];
                    if line.len() > 0 {
                        line
                    } else {
                        " "@
                    }
                }
            &&& lines[2] == " "@ && lines[h + 4] == " "@ && lines[h + o + 6] == " "@
            &&& lines.last() == "> "@ + p.input
        }),
{
    reveal_strlit("AI Panel [");
    reveal_strlit("Status: ");
    reveal_strlit("History:");
    reveal_strlit("Output:");
    reveal_strlit("- ");
    reveal_strlit("> ");
    let lines = lines_of(p);
    let h = at_most(p.history.len(), 4);
    let o = at_most(p.output.len(), 6);
    let history = last_of(p.history, 4).map_values(|line: Seq<char>| "- "@ + line);
    assert(history.len() == h);
    assert(last_of(p.output, 6).len() == o);
    assert forall|i: int| 0 <= i < h implies #[trigger] lines[4 + i] == "- "@ + p.history[
    p.history.len() - h + i] by {
        assert(history[i] == "- "@ + last_of(p.history, 4)[i]);
    }
}

/// A new panel is ready and plans, with nothing typed, submitted, printed or waiting; so the first
/// line that is typed and submitted starts work, unless it is a command of the panel.
pub proof fn law_new_panel_takes_a_prompt(
    config: AiConfigView,
    chat_name: Seq<char>,
    line: Seq<char>,
)
    requires
        trimmed(line).len() > 0,
        trimmed(line) != "/mode"@,
        trimmed(line) != "/exit"@,
        trimmed(line) != "/help"@,
    ensures
        ({
            let p = fresh_panel(config, chat_name);
            &&& p.input.len() == 0
            &&& p.history.len() == 0
            &&& p.output.len() == 0
            &&& p.status == "Ready"@
            &&& p.pending_command is None
            &&& p.mode == PanelMode::Planner
            &&& p.config == config
            &&& p.chat_name == chat_name
            &&& starts_work(AiPanelView { input: line, ..p })
        }),
{
}

/// The help names the mode that the panel is in, and the second mode by its name, and is otherwise
/// the same in either mode.
pub proof fn law_help_names_the_modes(p: AiPanelView, q: AiPanelView)
    requires
        q.chat_name == p.chat_name,
    ensures
        help_lines(p).len() == 12,
        help_lines(p)[0] == "--- AI Panel ["@ + mode_name(p) + "] commands ---"@,
        help_lines(p)[3] == "/mode     - switch between Planner and "@ + p.chat_name + "-like"@,
        help_lines(p)[10] == p.chat_name + "-like mode:"@,
        help_lines(p).skip(1) == help_lines(q).skip(1),
{
    assert(help_lines(p).skip(1) =~= help_lines(q).skip(1));
}

/// A report of lines alone shows those lines and does nothing else.
pub proof fn law_lines_alone_do_nothing(lines: Seq<Seq<char>>)
    ensures
        shown(lines).lines == lines,
        shown(lines).suggested is None,
        shown(lines).diagram is None,
        shown(lines).emit is None,
{
}

/// The panel's title names its mode: one by the name that it was given, the other as the planner.
pub proof fn law_mode_is_named(p: AiPanelView)
    ensures
        p.mode == PanelMode::Planner ==> mode_name(p) == "Planner"@,
        p.mode == PanelMode::ClaudeLike ==> mode_name(p) == p.chat_name,
{
}

/// The answer of the local model is what its program printed; its errors take that place only where
/// the program failed and printed any.
pub proof fn law_answer_is_what_was_printed(success: bool, stdout: Seq<char>, stderr: Seq<char>)
    ensures
        success ==> ollama_answer(success, stdout, stderr) == stdout,
        stderr.len() == 0 ==> ollama_answer(success, stdout, stderr) == stdout,
        !success && stderr.len() > 0 ==> ollama_answer(success, stdout, stderr) == stderr,
{
}

} // verus!
