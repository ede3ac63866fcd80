//! The assistant's panel: what it shows, and what it does with keys and submitted lines.
use crate::code_mode::{ActionResponse, PlanResponse};
use crate::config::AiConfig;
#[allow(unused_imports)]
use crate::config::AiConfigView;
use crate::ollama::DEFAULT_PULL_MODEL;
#[allow(unused_imports)]
use crate::text::{
    after_prefix, cat2, cat3, decimal, decimal_of, from_utf8_lossy, lossy_text, opt_text, same,
    strip_prefix, texts, trim, trimmed,
};
use vstd::prelude::*;
use vstd::string::*;
#[allow(unused_imports)]
use vstd::utf8::{decode_utf8, valid_utf8};

verus! {

/// What a submitted line is taken as.
#[derive(Clone, Copy, Debug, PartialEq, Eq, Structural)]
pub enum PanelMode {
    Planner,
    ClaudeLike,
}

/// The panel.
#[derive(Debug)]
pub struct AiPanel {
    pub input: String,
    pub history: Vec<String>,
    pub output: Vec<String>,
    pub status: String,
    /// A command that waits for approval.
    pub pending_command: Option<String>,
    pub mode: PanelMode,
    /// What the mode that asks the local model is called.
    pub chat_name: String,
    pub config: AiConfig,
}

/// The panel as plain text.
pub ghost struct AiPanelView {
    pub input: Seq<char>,
    pub history: Seq<Seq<char>>,
    pub output: Seq<Seq<char>>,
    pub status: Seq<char>,
    pub pending_command: Option<Seq<char>>,
    pub mode: PanelMode,
    pub chat_name: Seq<char>,
    pub config: AiConfigView,
}

impl View for AiPanel {
    type V = AiPanelView;

    open spec fn view(&self) -> AiPanelView {
        AiPanelView {
            input: self.input@,
            history: texts(self.history@),
            output: texts(self.output@),
            status: self.status@,
            pending_command: opt_text(self.pending_command),
            mode: self.mode,
            chat_name: self.chat_name@,
            config: self.config@,
        }
    }
}

/// Work that a submitted line starts.
#[derive(Debug)]
pub struct PanelJob {
    pub line: String,
    pub mode: PanelMode,
    pub config: AiConfig,
    /// The terminal pane that was active.
    pub pane_id: Option<usize>,
}

/// Work that a submitted line starts, as plain text.
pub ghost struct PanelJobView {
    pub line: Seq<char>,
    pub mode: PanelMode,
    pub config: AiConfigView,
    pub pane_id: Option<usize>,
}

impl View for PanelJob {
    type V = PanelJobView;

    open spec fn view(&self) -> PanelJobView {
        PanelJobView {
            line: self.line@,
            mode: self.mode,
            config: self.config@,
            pane_id: self.pane_id,
        }
    }
}

/// What the window does for the panel.
#[derive(Debug)]
pub enum PanelAction {
    Nothing,
    /// Close the panel.
    Close,
    /// Lay the panel out anew.
    Redraw,
    /// Type the text into the pane, and lay the panel out anew.
    Emit { pane_id: usize, text: String },
    /// Start the work.
    Start(PanelJob),
}

/// What the window does for the panel, as plain text.
pub ghost enum PanelActionView {
    Nothing,
    Close,
    Redraw,
    Emit { pane_id: usize, text: Seq<char> },
    Start(PanelJobView),
}

impl View for PanelAction {
    type V = PanelActionView;

    open spec fn view(&self) -> PanelActionView {
        match self {
            PanelAction::Nothing => PanelActionView::Nothing,
            PanelAction::Close => PanelActionView::Close,
            PanelAction::Redraw => PanelActionView::Redraw,
            PanelAction::Emit { pane_id, text } => PanelActionView::Emit {
                pane_id: *pane_id,
                text: text@,
            },
            PanelAction::Start(job) => PanelActionView::Start(job@),
        }
    }
}

/// The other mode.
pub open spec fn other_mode(mode: PanelMode) -> PanelMode {
    match mode {
        PanelMode::Planner => PanelMode::ClaudeLike,
        PanelMode::ClaudeLike => PanelMode::Planner,
    }
}

/// The name of the panel's mode.
pub open spec fn mode_name(p: AiPanelView) -> Seq<char> {
    match p.mode {
        PanelMode::Planner => "Planner"@,
        PanelMode::ClaudeLike => p.chat_name,
    }
}

/// What `/help` shows.
pub open spec fn help_lines(p: AiPanelView) -> Seq<Seq<char>> {
    seq![
        "--- AI Panel ["@ + mode_name(p) + "] commands ---"@,
        "/help     - show this list"@,
        "/exit     - close the AI panel"@,
        "/mode     - switch between Planner and "@ + p.chat_name + "-like"@,
        "Ctrl+M    - same as /mode"@,
        Seq::empty(),
        "Planner mode:"@,
        "  /plan <task>  - get a plan + optional Mermaid diagram"@,
        "  <prompt>      - get action or command suggestion (y/n to run)"@,
        Seq::empty(),
        p.chat_name + "-like mode:"@,
        "  <prompt>      - runs: ollama run <model> <prompt>"@,
    ]
}

/// Whether a line approves a command.
pub open spec fn approves(line: Seq<char>) -> bool {
    line == "y"@ || line == "Y"@ || line == "yes"@
}

/// Whether a line is a command of the panel.
pub open spec fn is_panel_command(line: Seq<char>) -> bool {
    line == "/mode"@ || line == "/exit"@ || line == "/help"@
}

/// Whether a submitted line starts work: it is neither blank nor a command of the panel, and no
/// command waits for approval.
pub open spec fn starts_work(p: AiPanelView) -> bool {
    let line = trimmed(p.input);
    &&& line.len() > 0
    &&& !is_panel_command(line)
    &&& p.pending_command is None
}

/// The panel after its input has been submitted, and what the window does. `pane` is the active
/// terminal pane, and `window` says whether there is a window to tell.
pub open spec fn submitted(p: AiPanelView, pane: Option<usize>, window: bool) -> (
    AiPanelView,
    PanelActionView,
) {
    let line = trimmed(p.input);
    let q = AiPanelView { input: Seq::empty(), ..p };
    if line.len() == 0 {
        (q, PanelActionView::Nothing)
    } else if line == "/mode"@ {
        (AiPanelView { mode: other_mode(p.mode), ..q }, PanelActionView::Nothing)
    } else if line == "/exit"@ {
        (q, PanelActionView::Close)
    } else if line == "/help"@ {
        (AiPanelView { output: p.output + help_lines(p), ..q }, PanelActionView::Redraw)
    } else {
        match p.pending_command {
            Some(command) => {
                let run = approves(line) && window && pane is Some;
                let said = if run {
                    "Running in terminal: "@ + command
                } else if approves(line) {
                    "No active terminal pane."@
                } else {
                    "Command skipped."@
                };
                (
                    AiPanelView { output: p.output.push(said), pending_command: None, ..q },
                    if run {
                        PanelActionView::Emit { pane_id: pane->0, text: command + "\r\n"@ }
                    } else {
                        PanelActionView::Redraw
                    },
                )
            },
            None => (
                AiPanelView {
                    history: p.history.push(line),
                    status: "Running..."@,
                    ..q
                },
                PanelActionView::Start(
                    PanelJobView { line, mode: p.mode, config: p.config, pane_id: pane },
                ),
            ),
        }
    }
}

/// A key of the panel.
#[derive(Clone, Copy, Debug, PartialEq, Eq, Structural)]
pub enum PanelKey {
    Escape,
    Backspace,
    Enter,
    Char(char),
    Other,
}

/// What is held down with a key.
#[derive(Clone, Copy, Debug, PartialEq, Eq, Structural)]
pub enum PanelMods {
    Bare,
    Ctrl,
    Shift,
    Other,
}

/// What a key does.
#[derive(Debug)]
pub struct KeyResponse {
    /// The panel has taken the key.
    pub handled: bool,
    pub action: PanelAction,
    /// Lay the panel out anew when the action is done.
    pub redraw: bool,
}

/// What a key does, as plain text.
pub ghost struct KeyResponseView {
    pub handled: bool,
    pub action: PanelActionView,
    pub redraw: bool,
}

impl View for KeyResponse {
    type V = KeyResponseView;

    open spec fn view(&self) -> KeyResponseView {
        KeyResponseView { handled: self.handled, action: self.action@, redraw: self.redraw }
    }
}

/// A key that changed the panel.
pub open spec fn changed() -> KeyResponseView {
    KeyResponseView { handled: true, action: PanelActionView::Nothing, redraw: true }
}

/// The panel after a key, and what the key does.
pub open spec fn pressed(
    p: AiPanelView,
    key: PanelKey,
    mods: PanelMods,
    pane: Option<usize>,
    window: bool,
) -> (AiPanelView, KeyResponseView) {
    match (key, mods) {
        (PanelKey::Escape, PanelMods::Bare) => (
            p,
            KeyResponseView { handled: true, action: PanelActionView::Close, redraw: false },
        ),
        (PanelKey::Char('m'), PanelMods::Ctrl) => (
            AiPanelView { mode: other_mode(p.mode), ..p },
            changed(),
        ),
        (PanelKey::Backspace, PanelMods::Bare) => (
            AiPanelView {
                input: if p.input.len() > 0 {
                    p.input.drop_last()
                } else {
                    p.input
                },
                ..p
            },
            changed(),
        ),
        (PanelKey::Enter, PanelMods::Bare) => (
            submitted(p, pane, window).0,
            KeyResponseView {
                handled: true,
                action: submitted(p, pane, window).1,
                redraw: true,
            },
        ),
        (PanelKey::Char(c), PanelMods::Bare) => (
            AiPanelView { input: p.input.push(c), ..p },
            changed(),
        ),
        (PanelKey::Char(c), PanelMods::Shift) => (
            AiPanelView { input: p.input.push(c), ..p },
            changed(),
        ),
        _ => (
            p,
            KeyResponseView { handled: false, action: PanelActionView::Nothing, redraw: false },
        ),
    }
}

/// The last `n` of a list, or all of it where it is shorter.
pub open spec fn last_of<T>(s: Seq<T>, n: int) -> Seq<T> {
    if s.len() > n {
        s.skip(s.len() - n)
    } else {
        s
    }
}

/// What a line of the panel is laid out as: an empty one takes up a blank.
pub open spec fn laid_out(line: Seq<char>) -> Seq<char> {
    if line.len() > 0 {
        line
    } else {
        " "@
    }
}

/// The lines of the panel: its title and status, the last four submitted lines, the last six
/// lines of output, and the input.
pub open spec fn lines_of(p: AiPanelView) -> Seq<Seq<char>> {
    let history = last_of(p.history, 4).map_values(|line: Seq<char>| "- "@ + line);
    let lines = seq![
        "AI Panel ["@ + mode_name(p)
            + "]  /help  |  Type here. Click terminal to run commands there."@,
        "Status: "@ + p.status,
        Seq::empty(),
        "History:"@,
    ] + history + seq![Seq::empty(), "Output:"@] + last_of(p.output, 6) + seq![
        Seq::empty(),
        "> "@ + p.input,
    ];
    lines.map_values(|line: Seq<char>| laid_out(line))
}

proof fn lemma_texts_push(v: Seq<String>, s: String)
    ensures
        texts(v.push(s)) == texts(v).push(s@),
{
    assert(texts(v.push(s)) =~= texts(v).push(s@));
}

/// A panel that shows nothing yet.
pub open spec fn fresh_panel(config: AiConfigView, chat_name: Seq<char>) -> AiPanelView {
    AiPanelView {
        input: Seq::empty(),
        history: Seq::empty(),
        output: Seq::empty(),
        status: "Ready"@,
        pending_command: None,
        mode: PanelMode::Planner,
        chat_name,
        config,
    }
}

impl AiPanel {
    /// A panel that shows nothing yet. `chat_name` is what the mode that asks the local model is
    /// called.
    pub fn new(config: AiConfig, chat_name: String) -> (r: Self)
        ensures
            r@ == fresh_panel(config@, chat_name@),
            r@ == (AiPanelView {
                input: Seq::empty(),
                history: Seq::empty(),
                output: Seq::empty(),
                status: "Ready"@,
                pending_command: None,
                mode: PanelMode::Planner,
                chat_name: chat_name@,
                config: config@,
            }),
    {
        let r = AiPanel {
            input: String::new(),
            history: Vec::new(),
            output: Vec::new(),
            status: "Ready".to_owned(),
            pending_command: None,
            mode: PanelMode::Planner,
            chat_name,
            config,
        };
        assert(r@.history =~= Seq::<Seq<char>>::empty());
        assert(r@.output =~= Seq::<Seq<char>>::empty());
        r
    }

    fn append_output(&mut self, line: String)
        ensures
            final(self)@ == (AiPanelView { output: old(self)@.output.push(line@), ..old(self)@ }),
    {
        proof {
            lemma_texts_push(self.output@, line);
        }
        self.output.push(line);
    }

    fn set_status(&mut self, status: &str)
        ensures
            final(self)@ == (AiPanelView { status: status@, ..old(self)@ }),
    {
        self.status = status.to_owned();
    }

    /// Switches to the other mode.
    pub fn toggle_mode(&mut self)
        ensures
            final(self)@ == (AiPanelView { mode: other_mode(old(self)@.mode), ..old(self)@ }),
    {
        self.mode = match self.mode {
            PanelMode::Planner => PanelMode::ClaudeLike,
            PanelMode::ClaudeLike => PanelMode::Planner,
        };
    }

    fn name_of_mode(&self) -> (r: &str)
        ensures
            r@ == mode_name(self@),
    {
        match self.mode {
            PanelMode::Planner => "Planner",
            PanelMode::ClaudeLike => self.chat_name.as_str(),
        }
    }

    fn show_help(&mut self)
        ensures
            final(self)@ == (AiPanelView {
                output: old(self)@.output + help_lines(old(self)@),
                ..old(self)@
            }),
    {
        let title = cat3("--- AI Panel [", self.name_of_mode(), "] commands ---");
        let switch = cat3(
            "/mode     - switch between Planner and ",
            self.chat_name.as_str(),
            "-like",
        );
        let chat = cat2(self.chat_name.as_str(), "-like mode:");
        self.append_output(title);
        self.append_output("/help     - show this list".to_owned());
        self.append_output("/exit     - close the AI panel".to_owned());
        self.append_output(switch);
        self.append_output("Ctrl+M    - same as /mode".to_owned());
        self.append_output(String::new());
        self.append_output("Planner mode:".to_owned());
        self.append_output("  /plan <task>  - get a plan + optional Mermaid diagram".to_owned());
        self.append_output(
            "  <prompt>      - get action or command suggestion (y/n to run)".to_owned(),
        );
        self.append_output(String::new());
        self.append_output(chat);
        self.append_output("  <prompt>      - runs: ollama run <model> <prompt>".to_owned());
        assert(self@.output =~= old(self)@.output + help_lines(old(self)@));
    }

    /// Whether submitting the input starts work.
    pub fn would_start(&self) -> (r: bool)
        ensures
            r == starts_work(self@),
    {
        let line = trim(self.input.as_str());
        let line = line.as_str();
        !line.is_empty() && !same(line, "/mode") && !same(line, "/exit") && !same(line, "/help")
            && self.pending_command.is_none()
    }

    /// Submits the input.
    pub fn handle_submit(&mut self, pane: Option<usize>, window: bool) -> (r: PanelAction)
        requires
            starts_work(old(self)@) ==> window,
        ensures
            (final(self)@, r@) == submitted(old(self)@, pane, window),
    {
        let line = trim(self.input.as_str());
        self.input = String::new();
        if line.as_str().is_empty() {
            return PanelAction::Nothing;
        }
        if same(line.as_str(), "/mode") {
            self.toggle_mode();
            return PanelAction::Nothing;
        }
        if same(line.as_str(), "/exit") {
            return PanelAction::Close;
        }
        if same(line.as_str(), "/help") {
            self.show_help();
            return PanelAction::Redraw;
        }
        if let Some(command) = self.pending_command.take() {
            if same(line.as_str(), "y") || same(line.as_str(), "Y") || same(line.as_str(), "yes") {
                if window {
                    if let Some(pane_id) = pane {
                        self.append_output(cat2("Running in terminal: ", command.as_str()));
                        return PanelAction::Emit { pane_id, text: cat2(command.as_str(), "\r\n") };
                    }
                }
                self.append_output("No active terminal pane.".to_owned());
            } else {
                self.append_output("Command skipped.".to_owned());
            }
            return PanelAction::Redraw;
        }
        proof {
            lemma_texts_push(self.history@, line);
        }
        let job = PanelJob {
            line: line.clone(),
            mode: self.mode,
            config: self.config.clone(),
            pane_id: pane,
        };
        self.history.push(line);
        self.set_status("Running...");
        PanelAction::Start(job)
    }

    /// Takes what work came to: its lines join the output, and a command that it suggests waits for
    /// approval, in place of one that was waiting.
    pub fn take_report(&mut self, report: JobReport)
        ensures
            final(self)@ == report_taken(old(self)@, report@),
    {
        let JobReport { lines, suggested, diagram: _, emit: _ } = report;
        let ghost before = self@.output;
        let ghost added = texts(lines@);
        let mut lines = lines;
        self.output.append(&mut lines);
        assert(texts(self.output@) =~= before + added);
        if let Some(command) = suggested {
            self.pending_command = Some(command);
        }
        self.set_status("Ready");
    }

    /// Takes a key.
    pub fn key_down(&mut self, key: PanelKey, mods: PanelMods, pane: Option<usize>, window: bool)
        -> (r: KeyResponse)
        requires
            key == PanelKey::Enter && mods == PanelMods::Bare && starts_work(old(self)@) ==> window,
        ensures
            (final(self)@, r@) == pressed(old(self)@, key, mods, pane, window),
    {
        match (key, mods) {
            (PanelKey::Escape, PanelMods::Bare) => KeyResponse {
                handled: true,
                action: PanelAction::Close,
                redraw: false,
            },
            (PanelKey::Char('m'), PanelMods::Ctrl) => {
                self.toggle_mode();
                KeyResponse { handled: true, action: PanelAction::Nothing, redraw: true }
            },
            (PanelKey::Backspace, PanelMods::Bare) => {
                let _ = self.input.pop();
                KeyResponse { handled: true, action: PanelAction::Nothing, redraw: true }
            },
            (PanelKey::Enter, PanelMods::Bare) => {
                let action = self.handle_submit(pane, window);
                KeyResponse { handled: true, action, redraw: true }
            },
            (PanelKey::Char(c), PanelMods::Bare) | (PanelKey::Char(c), PanelMods::Shift) => {
                self.input.push(c);
                KeyResponse { handled: true, action: PanelAction::Nothing, redraw: true }
            },
            _ => KeyResponse { handled: false, action: PanelAction::Nothing, redraw: false },
        }
    }

    /// The lines of the panel, as they are laid out.
    pub fn panel_lines(&self) -> (r: Vec<String>)
        ensures
            texts(r@) == lines_of(self@),
    {
        let mut lines: Vec<String> = Vec::new();
        put_line(
            &mut lines,
            cat3(
                "AI Panel [",
                self.name_of_mode(),
                "]  /help  |  Type here. Click terminal to run commands there.",
            ),
        );
        put_line(&mut lines, cat2("Status: ", self.status.as_str()));
        put_line(&mut lines, String::new());
        put_line(&mut lines, "History:".to_owned());
        put_last(&mut lines, &self.history, 4, "- ");
        put_line(&mut lines, String::new());
        put_line(&mut lines, "Output:".to_owned());
        put_last(&mut lines, &self.output, 6, "");
        put_line(&mut lines, String::new());
        put_line(&mut lines, cat2("> ", self.input.as_str()));
        proof {
            reveal_strlit("");
            let f = |line: Seq<char>| laid_out(line);
            let plain = last_of(self@.output, 6);
            assert(plain.map_values(|line: Seq<char>| ""@ + line) =~= plain) by {
                assert forall|i: int| 0 <= i < plain.len() implies ""@ + #[trigger] plain[i]
                    =~= plain[i] by {}
            }
            assert(texts(lines@) =~= lines_of(self@));
        }
        lines
    }
}

/// Adds a line as it is laid out.
fn put_line(lines: &mut Vec<String>, line: String)
    ensures
        texts(final(lines)@) == texts(old(lines)@).push(laid_out(line@)),
{
    let line = if line.as_str().is_empty() {
        " ".to_owned()
    } else {
        line
    };
    proof {
        lemma_texts_push(lines@, line);
    }
    lines.push(line);
}

/// Adds the last `n` items, each behind the mark.
fn put_last(lines: &mut Vec<String>, items: &Vec<String>, n: usize, mark: &str)
    ensures
        texts(final(lines)@) == texts(old(lines)@) + last_of(
            texts(items@),
            n as int,
        ).map_values(|line: Seq<char>| mark@ + line).map_values(|line: Seq<char>| laid_out(line)),
{
    let from: usize = if items.len() > n {
        items.len() - n
    } else {
        0
    };
    let ghost all = last_of(texts(items@), n as int).map_values(|line: Seq<char>| mark@ + line)
        .map_values(|line: Seq<char>| laid_out(line));
    let ghost before = texts(lines@);
    let mut i: usize = from;
    assert(all.take(0) =~= Seq::<Seq<char>>::empty());
    assert(before + all.take(0) =~= before);
    while i < items.len()
        invariant
            from <= i <= items@.len(),
            from == if items@.len() > n {
                items@.len() - n
            } else {
                0
            },
            all == last_of(texts(items@), n as int).map_values(
                |line: Seq<char>| mark@ + line,
            ).map_values(|line: Seq<char>| laid_out(line)),
            texts(lines@) == before + all.take(i - from),
        decreases items@.len() - i,
    {
        put_line(lines, cat2(mark, items[i].as_str()));
        assert(all[i - from] == laid_out(mark@ + items@[i as int]@));
        assert(all.take(i - from + 1) =~= all.take(i - from).push(all[i - from]));
        assert(texts(lines@) =~= before + all.take(i - from + 1));
        i += 1;
    }
    assert(all.take(i - from) =~= all);
}

/// What work asks for.
#[derive(Debug)]
pub enum JobRequest {
    /// The answer of the local model to the line.
    RunOllama { model: String },
    /// A plan of the task.
    Plan { task: String },
    /// An action for the task.
    Action { task: String },
}

/// What work asks for, as plain text.
pub ghost enum JobRequestView {
    RunOllama { model: Seq<char> },
    Plan { task: Seq<char> },
    Action { task: Seq<char> },
}

impl View for JobRequest {
    type V = JobRequestView;

    open spec fn view(&self) -> JobRequestView {
        match self {
            JobRequest::RunOllama { model } => JobRequestView::RunOllama { model: model@ },
            JobRequest::Plan { task } => JobRequestView::Plan { task: task@ },
            JobRequest::Action { task } => JobRequestView::Action { task: task@ },
        }
    }
}

/// What work asks for: in one mode the local model, in the other a plan or an action, by how the
/// line begins.
pub open spec fn request_of(job: PanelJobView) -> JobRequestView {
    match job.mode {
        PanelMode::ClaudeLike => JobRequestView::RunOllama {
            model: match job.config.ai_model {
                Some(model) => model,
                None => DEFAULT_PULL_MODEL@,
            },
        },
        PanelMode::Planner => match after_prefix(job.line, "/plan "@) {
            Some(task) => JobRequestView::Plan { task },
            None => JobRequestView::Action { task: job.line },
        },
    }
}

/// What work comes to.
#[derive(Debug)]
pub struct JobReport {
    /// What the panel shows of it.
    pub lines: Vec<String>,
    /// A command that waits for approval.
    pub suggested: Option<String>,
    /// A diagram to show.
    pub diagram: Option<String>,
    /// A text to type into a pane.
    pub emit: Option<(usize, String)>,
}

/// What work comes to, as plain text.
pub ghost struct JobReportView {
    pub lines: Seq<Seq<char>>,
    pub suggested: Option<Seq<char>>,
    pub diagram: Option<Seq<char>>,
    pub emit: Option<(usize, Seq<char>)>,
}

impl View for JobReport {
    type V = JobReportView;

    open spec fn view(&self) -> JobReportView {
        JobReportView {
            lines: texts(self.lines@),
            suggested: opt_text(self.suggested),
            diagram: opt_text(self.diagram),
            emit: match self.emit {
                Some(emit) => Some((emit.0, emit.1@)),
                None => None,
            },
        }
    }
}

/// The report of work that only has lines to show.
pub open spec fn shown(lines: Seq<Seq<char>>) -> JobReportView {
    JobReportView { lines, suggested: None, diagram: None, emit: None }
}

/// The panel after it has taken a report. What it printed since the work began stays.
pub open spec fn report_taken(p: AiPanelView, report: JobReportView) -> AiPanelView {
    AiPanelView {
        output: p.output + report.lines,
        status: "Ready"@,
        pending_command: match report.suggested {
            Some(command) => Some(command),
            None => p.pending_command,
        },
        ..p
    }
}

/// The step of a plan, counted from one.
pub open spec fn step_line(i: int, step: Seq<char>) -> Seq<char> {
    "  "@ + decimal_of((i + 1) as nat) + ". "@ + step
}

/// The lines that show a plan: what it comes to, its steps where it has any, and its diagram.
pub open spec fn plan_lines(
    summary: Seq<char>,
    steps: Seq<Seq<char>>,
    mermaid: Option<Seq<char>>,
) -> Seq<Seq<char>> {
    seq!["Plan: "@ + summary] + (if steps.len() > 0 {
        seq!["Steps:"@] + steps.map(|i: int, step: Seq<char>| step_line(i, step))
    } else {
        Seq::empty()
    }) + (match mermaid {
        Some(diagram) => seq![diagram],
        None => Seq::empty(),
    })
}

/// The report of a plan: its lines, and its diagram to show.
pub open spec fn plan_report(
    summary: Seq<char>,
    steps: Seq<Seq<char>>,
    mermaid: Option<Seq<char>>,
) -> JobReportView {
    JobReportView { diagram: mermaid, ..shown(plan_lines(summary, steps, mermaid)) }
}

/// The line that asks for approval of a command.
pub open spec fn suggestion(command: Seq<char>) -> Seq<char> {
    "Command suggested:\n"@ + command + "\nApprove? (y/n)"@
}

/// The report of an action: a command runs at once where that is allowed and otherwise waits for
/// approval, and code is shown.
pub open spec fn action_report(
    job: PanelJobView,
    kind: Seq<char>,
    content: Seq<char>,
    command: Seq<char>,
) -> JobReportView {
    if kind != "command"@ {
        shown(seq![content])
    } else if job.config.code_mode_auto_accept {
        JobReportView {
            emit: match job.pane_id {
                Some(pane_id) => Some((pane_id, command + "\r\n"@)),
                None => None,
            },
            ..shown(seq!["Running in terminal: "@ + command])
        }
    } else {
        JobReportView { suggested: Some(command), ..shown(seq![suggestion(command)]) }
    }
}

fn push_text(out: &mut Vec<String>, line: String)
    ensures
        texts(final(out)@) == texts(old(out)@).push(line@),
{
    proof {
        lemma_texts_push(out@, line);
    }
    out.push(line);
}

impl PanelJob {
    /// What the work asks for.
    pub fn request(&self) -> (r: JobRequest)
        ensures
            r@ == request_of(self@),
    {
        match self.mode {
            PanelMode::ClaudeLike => JobRequest::RunOllama {
                model: match &self.config.ai_model {
                    Some(model) => model.clone(),
                    None => DEFAULT_PULL_MODEL.to_owned(),
                },
            },
            PanelMode::Planner => match strip_prefix(self.line.as_str(), "/plan ") {
                Some(task) => JobRequest::Plan { task },
                None => JobRequest::Action { task: self.line.clone() },
            },
        }
    }

    /// Takes the answer of the local model.
    pub fn finish_ollama(self, answer: String) -> (r: JobReport)
        ensures
            r@ == shown(seq![answer@]),
    {
        let mut lines: Vec<String> = Vec::new();
        lines.push(answer);
        assert(texts(lines@) =~= seq![answer@]);
        JobReport { lines, suggested: None, diagram: None, emit: None }
    }

    /// Takes a plan.
    pub fn finish_plan(self, plan: PlanResponse) -> (r: JobReport)
        ensures
            r@ == plan_report(plan.summary@, texts(plan.steps@), opt_text(plan.mermaid)),
    {
        let ghost steps = texts(plan.steps@);
        let ghost numbered = steps.map(|i: int, step: Seq<char>| step_line(i, step));
        let mut lines: Vec<String> = Vec::new();
        lines.push(cat2("Plan: ", plan.summary.as_str()));
        assert(texts(lines@) =~= seq!["Plan: "@ + plan.summary@]);
        if plan.steps.len() > 0 {
            push_text(&mut lines, "Steps:".to_owned());
            let ghost start = texts(lines@);
            let mut i: usize = 0;
            assert(numbered.take(0) =~= Seq::<Seq<char>>::empty());
            assert(start + numbered.take(0) =~= start);
            while i < plan.steps.len()
                invariant
                    i <= plan.steps.len(),
                    steps == texts(plan.steps@),
                    numbered == steps.map(|i: int, step: Seq<char>| step_line(i, step)),
                    texts(lines@) == start + numbered.take(i as int),
                decreases plan.steps@.len() - i,
            {
                let number = decimal(i + 1);
                let mut line = cat3("  ", number.as_str(), ". ");
                line.append(plan.steps[i].as_str());
                assert(line@ == numbered[i as int]);
                push_text(&mut lines, line);
                assert(numbered.take(i + 1) =~= numbered.take(i as int).push(numbered[i as int]));
                assert(texts(lines@) =~= start + numbered.take(i + 1));
                i += 1;
            }
            assert(numbered.take(i as int) =~= numbered);
        }
        if let Some(diagram) = &plan.mermaid {
            push_text(&mut lines, diagram.clone());
        }
        assert(texts(lines@) =~= plan_lines(plan.summary@, steps, opt_text(plan.mermaid)));
        JobReport { lines, suggested: None, diagram: plan.mermaid, emit: None }
    }

    /// Takes an action.
    pub fn finish_action(self, action: ActionResponse) -> (r: JobReport)
        ensures
            r@ == action_report(self@, action.kind@, action.content@, action.command@),
    {
        let mut lines: Vec<String> = Vec::new();
        if same(action.kind.as_str(), "command") {
            let command = action.command;
            if self.config.code_mode_auto_accept {
                lines.push(cat2("Running in terminal: ", command.as_str()));
                assert(texts(lines@) =~= seq!["Running in terminal: "@ + command@]);
                let emit = match self.pane_id {
                    Some(pane_id) => Some((pane_id, cat2(command.as_str(), "\r\n"))),
                    None => None,
                };
                JobReport { lines, suggested: None, diagram: None, emit }
            } else {
                lines.push(cat3("Command suggested:\n", command.as_str(), "\nApprove? (y/n)"));
                assert(texts(lines@) =~= seq![suggestion(command@)]);
                JobReport { lines, suggested: Some(command), diagram: None, emit: None }
            }
        } else {
            lines.push(action.content);
            assert(texts(lines@) =~= seq![action.content@]);
            JobReport { lines, suggested: None, diagram: None, emit: None }
        }
    }
}

/// The program that asks the local model, followed by its arguments.
pub fn ollama_run_command(model: &str, prompt: &str) -> (r: Vec<String>)
    ensures
        texts(r@) == seq!["ollama"@, "run"@, model@, prompt@],
{
    let mut words: Vec<String> = Vec::new();
    words.push("ollama".to_owned());
    words.push("run".to_owned());
    words.push(model.to_owned());
    words.push(prompt.to_owned());
    assert(texts(words@) =~= seq!["ollama"@, "run"@, model@, prompt@]);
    words
}

/// The answer that the program printed: its errors where it failed and printed any, and otherwise
/// its output.
pub open spec fn ollama_answer(success: bool, stdout: Seq<char>, stderr: Seq<char>) -> Seq<char> {
    if !success && stderr.len() > 0 {
        stderr
    } else {
        stdout
    }
}

/// Picks the answer out of what the program printed.
pub fn pick_answer(success: bool, stdout: String, stderr: String) -> (r: String)
    ensures
        r@ == ollama_answer(success, stdout@, stderr@),
{
    if success {
        stdout
    } else if !stderr.as_str().is_empty() {
        stderr
    } else {
        stdout
    }
}

/// Reads what the program printed and picks the answer out of it.
pub fn run_ollama_cli(success: bool, stdout: &[u8], stderr: &[u8]) -> (r: String)
    ensures
        r@ == ollama_answer(success, lossy_text(stdout@), lossy_text(stderr@)),
        valid_utf8(stdout@) ==> lossy_text(stdout@) == decode_utf8(stdout@),
        valid_utf8(stderr@) ==> lossy_text(stderr@) == decode_utf8(stderr@),
{
    pick_answer(success, from_utf8_lossy(stdout), from_utf8_lossy(stderr))
}

/// Switching the mode twice changes nothing.
pub proof fn law_mode_toggles_back(mode: PanelMode)
    ensures
        other_mode(mode) != mode,
        other_mode(other_mode(mode)) == mode,
{
}

/// Whatever is submitted, the input is empty afterwards, and the history grows by the submitted
/// line where work starts and stays as it is where none does.
pub proof fn law_submit_keeps_history(p: AiPanelView, pane: Option<usize>, window: bool)
    ensures
        ({
            let (q, action) = submitted(p, pane, window);
            &&& q.input.len() == 0
            &&& q.config == p.config
            &&& q.history == if starts_work(p) {
                p.history.push(trimmed(p.input))
            } else {
                p.history
            }
            &&& action is Start <==> starts_work(p)
        }),
{
}

/// Nothing is typed into a terminal without approval: a key does that only where a command was
/// waiting and the submitted line approves it, and then it types that command and no other.
pub proof fn law_only_approved_commands_run(
    p: AiPanelView,
    key: PanelKey,
    mods: PanelMods,
    pane: Option<usize>,
    window: bool,
)
    ensures
        pressed(p, key, mods, pane, window).1.action matches PanelActionView::Emit { pane_id, text }
            ==> {
            &&& p.pending_command matches Some(command)
            &&& text == command + "\r\n"@
            &&& approves(trimmed(p.input))
            &&& pane == Some(pane_id)
        },
{
}

/// A key never makes a command wait for approval: one that waits is the one that waited before.
pub proof fn law_keys_suggest_nothing(
    p: AiPanelView,
    key: PanelKey,
    mods: PanelMods,
    pane: Option<usize>,
    window: bool,
)
    ensures
        ({
            let q = pressed(p, key, mods, pane, window).0;
            q.pending_command is None || q.pending_command == p.pending_command
        }),
{
}

/// What the second mode is called, and the configuration, are settled when the panel is made: no
/// key and no report changes them.
pub proof fn law_names_and_config_stay(
    p: AiPanelView,
    key: PanelKey,
    mods: PanelMods,
    pane: Option<usize>,
    window: bool,
    report: JobReportView,
)
    ensures
        pressed(p, key, mods, pane, window).0.chat_name == p.chat_name,
        pressed(p, key, mods, pane, window).0.config == p.config,
        report_taken(p, report).chat_name == p.chat_name,
        report_taken(p, report).config == p.config,
{
}

/// Work types a command into a terminal only where that is allowed without asking; where it is
/// not, the command waits for approval.
pub proof fn law_commands_wait_for_approval(
    job: PanelJobView,
    kind: Seq<char>,
    content: Seq<char>,
    command: Seq<char>,
)
    requires
        !job.config.code_mode_auto_accept,
    ensures
        action_report(job, kind, content, command).emit is None,
        kind == "command"@ ==> action_report(job, kind, content, command).suggested == Some(
            command,
        ),
{
}

/// The panel once the work of its input has been done and reported, where that work gave `report`.
pub open spec fn worked_off(
    p: AiPanelView,
    pane: Option<usize>,
    report: JobReportView,
) -> AiPanelView {
    report_taken(submitted(p, pane, true).0, report)
}

/// A prompt that is answered with a command, where commands do not run unasked, leaves that command
/// waiting, under the line that suggests it, with nothing typed into a pane. A submitted approval,
/// with whatever white space around it, then types exactly that command into the active pane and
/// leaves none waiting; any other line that is no command of the panel skips it.
pub proof fn law_suggestion_waits_and_runs(
    p: AiPanelView,
    pane: Option<usize>,
    content: Seq<char>,
    command: Seq<char>,
    answer: Seq<char>,
    answer_pane: usize,
)
    requires
        starts_work(p),
        p.mode == PanelMode::Planner,
        after_prefix(trimmed(p.input), "/plan "@) is None,
        !p.config.code_mode_auto_accept,
    ensures
        submitted(p, pane, true).1 matches PanelActionView::Start(job) && {
            let report = action_report(job, "command"@, content, command);
            let q = worked_off(p, pane, report);
            let typed = AiPanelView { input: answer, ..q };
            let (after, action) = submitted(typed, Some(answer_pane), true);
            &&& request_of(job) == (JobRequestView::Action { task: trimmed(p.input) })
            &&& report.emit is None
            &&& q.pending_command == Some(command)
            &&& q.output == p.output.push(suggestion(command))
            &&& q.status == "Ready"@
            &&& approves(trimmed(answer)) ==> {
                &&& action == (PanelActionView::Emit {
                    pane_id: answer_pane,
                    text: command + "\r\n"@,
                })
                &&& after.pending_command is None
                &&& after.output == q.output.push("Running in terminal: "@ + command)
            }
            &&& !approves(trimmed(answer)) && trimmed(answer).len() > 0 && !is_panel_command(
                trimmed(answer),
            ) ==> {
                &&& action == PanelActionView::Redraw
                &&& after.pending_command is None
                &&& after.output == q.output.push("Command skipped."@)
            }
        },
{
    reveal_strlit("/mode");
    reveal_strlit("/exit");
    reveal_strlit("/help");
    reveal_strlit("y");
    reveal_strlit("Y");
    reveal_strlit("yes");
    assert("/mode"@[0] == '/' && "/exit"@[0] == '/' && "/help"@[0] == '/');
    assert("y"@[0] == 'y' && "Y"@[0] == 'Y' && "yes"@[0] == 'y');
    assert(p.output + seq![suggestion(command)] =~= p.output.push(suggestion(command)));
}

/// A task behind `/plan` that is answered with a plan leaves the panel's output longer by the lines
/// of the plan, and shows the plan's diagram where it has one.
pub proof fn law_plan_is_shown(
    p: AiPanelView,
    pane: Option<usize>,
    task: Seq<char>,
    summary: Seq<char>,
    steps: Seq<Seq<char>>,
    mermaid: Option<Seq<char>>,
)
    requires
        starts_work(p),
        p.mode == PanelMode::Planner,
        trimmed(p.input) == "/plan "@ + task,
    ensures
        submitted(p, pane, true).1 matches PanelActionView::Start(job) && {
            let report = plan_report(summary, steps, mermaid);
            let q = worked_off(p, pane, report);
            &&& request_of(job) == (JobRequestView::Plan { task })
            &&& report.diagram == mermaid
            &&& report.emit is None
            &&& q.output == p.output + plan_lines(summary, steps, mermaid)
            &&& q.status == "Ready"@
            &&& q.pending_command is None
        },
{
    let line = "/plan "@ + task;
    assert(line.take("/plan "@.len() as int) =~= "/plan "@);
    assert("/plan "@.is_prefix_of(line));
    assert(line.skip("/plan "@.len() as int) =~= task);
}

/// A line that is answered by the local model leaves the panel's output longer by that answer.
pub proof fn law_answer_is_shown(p: AiPanelView, pane: Option<usize>, answer: Seq<char>)
    requires
        starts_work(p),
        p.mode == PanelMode::ClaudeLike,
    ensures
        submitted(p, pane, true).1 matches PanelActionView::Start(job) && {
            let q = worked_off(p, pane, shown(seq![answer]));
            &&& request_of(job) is RunOllama
            &&& job.line == trimmed(p.input)
            &&& q.output == p.output.push(answer)
            &&& q.status == "Ready"@
            &&& q.pending_command is None
        },
{
    assert(p.output + seq![answer] =~= p.output.push(answer));
}

/// Taking a report loses nothing that the panel shows: the output only grows, and the input, the
/// history and the mode stay as they are. Only a report makes a command wait for approval, and it
/// is the command that the report suggests.
pub proof fn law_reports_only_add(p: AiPanelView, report: JobReportView)
    ensures
        ({
            let q = report_taken(p, report);
            &&& p.output.is_prefix_of(q.output)
            &&& q.input == p.input
            &&& q.history == p.history
            &&& q.mode == p.mode
            &&& q.pending_command != p.pending_command ==> q.pending_command == report.suggested
        }),
{
    assert((p.output + report.lines).take(p.output.len() as int) =~= p.output);
}

} // verus!
