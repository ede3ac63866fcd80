//! The window that shows a plan's diagram.
#[allow(unused_imports)]
use crate::text::{cat3, opt_text};
use vstd::prelude::*;

verus! {

/// The page that the window shows; it draws what `window.renderDiagram` is called with.
pub const PLAN_PAGE: &'static str = r#"
<!DOCTYPE html>
<html>
<head>
  <meta charset="utf-8"/>
  <script src="https://cdn.jsdelivr.net/npm/mermaid@10/dist/mermaid.min.js"></script>
  <style>
    body { margin: 0; font-family: sans-serif; background: #111; color: #eee; }
    #container { padding: 12px; }
  </style>
</head>
<body>
  <div id="container">
    <div id="diagram">Waiting for plan...</div>
  </div>
  <script>
    mermaid.initialize({ startOnLoad: false, theme: "dark" });
    async function renderDiagram(diagram) {
      try {
        const id = "mermaid-diagram";
        const { svg } = await mermaid.render(id, diagram);
        document.getElementById("diagram").innerHTML = svg;
      } catch (e) {
        document.getElementById("diagram").innerText = "Mermaid error: " + e;
      }
    }
    window.renderDiagram = renderDiagram;
  </script>
</body>
</html>
"#;

/// The title of the window.
pub const PLAN_TITLE: &'static str = "WezTerm Plan";

/// The width of the window, in logical pixels.
pub const PLAN_WIDTH: u32 = 600;

/// The height of the window, in logical pixels.
pub const PLAN_HEIGHT: u32 = 420;

/// How far the window stands below the top of the screen.
pub const PLAN_TOP: u32 = 20;

/// How far the window's left edge stands from the right of the screen.
pub const PLAN_OFFSET: u32 = 620;

/// Where the window's left edge stands.
pub open spec fn left_of(screen_width: u32) -> int {
    if screen_width >= PLAN_OFFSET {
        screen_width - PLAN_OFFSET
    } else {
        0
    }
}

/// Where the window's left edge stands: near the right of the screen, or at its left edge where
/// the screen is too narrow.
pub fn plan_left(screen_width: u32) -> (r: u32)
    ensures
        r == left_of(screen_width),
        r == if screen_width >= PLAN_OFFSET {
            screen_width - PLAN_OFFSET
        } else {
            0
        },
{
    screen_width.saturating_sub(PLAN_OFFSET)
}

/// Whether the window has been opened.
#[derive(Debug)]
pub struct MermaidOverlay {
    pub opened: bool,
}

/// What it takes to show a diagram.
#[derive(Debug)]
pub struct ShowDiagram {
    /// Open the window first.
    pub open: bool,
    /// Send this to the window.
    pub diagram: String,
}

/// Whether the window is open once a diagram has been shown, whether it is opened for it, and what
/// is sent to it.
pub open spec fn diagram_shown(opened: bool, diagram: Seq<char>) -> (bool, bool, Seq<char>) {
    (true, !opened, diagram)
}

/// One window is opened, for the first diagram, and every diagram is sent to it as it stands.
pub proof fn law_one_window_shows_all(opened: bool, first: Seq<char>, second: Seq<char>)
    ensures
        ({
            let (after, opens, sent) = diagram_shown(opened, first);
            let (later, opens_again, sent_again) = diagram_shown(after, second);
            &&& opens == !opened
            &&& after && later
            &&& !opens_again
            &&& sent == first
            &&& sent_again == second
        }),
{
}

/// Shows a diagram: the first one opens the window, and every one is sent to it as it stands.
pub fn show_mermaid(overlay: &mut MermaidOverlay, diagram: &str) -> (r: ShowDiagram)
    ensures
        (final(overlay).opened, r.open, r.diagram@) == diagram_shown(old(overlay).opened, diagram@),
        final(overlay).opened,
        r.open == !old(overlay).opened,
        r.diagram@ == diagram@,
{
    let open = !overlay.opened;
    overlay.opened = true;
    ShowDiagram { open, diagram: diagram.to_owned() }
}

/// What happens to the window.
#[derive(Clone, Copy, Debug, PartialEq, Eq, Structural)]
pub enum OverlayEvent {
    /// There is nothing else to handle for now.
    EventsCleared,
    CloseRequested,
    Other,
}

/// What the window does.
#[derive(Clone, Copy, Debug, PartialEq, Eq, Structural)]
pub enum OverlayAction {
    /// Wait for the next event.
    Wait,
    /// Run a script for each diagram that has come in, then wait.
    RunScripts,
    /// Close.
    Exit,
}

/// What the window does when something happens to it.
pub open spec fn action_on(event: OverlayEvent) -> OverlayAction {
    match event {
        OverlayEvent::EventsCleared => OverlayAction::RunScripts,
        OverlayEvent::CloseRequested => OverlayAction::Exit,
        OverlayEvent::Other => OverlayAction::Wait,
    }
}

/// What the window does when something happens to it.
pub fn on_overlay_event(event: OverlayEvent) -> (r: OverlayAction)
    ensures
        r == action_on(event),
        r == match event {
            OverlayEvent::EventsCleared => OverlayAction::RunScripts,
            OverlayEvent::CloseRequested => OverlayAction::Exit,
            OverlayEvent::Other => OverlayAction::Wait,
        },
{
    match event {
        OverlayEvent::EventsCleared => OverlayAction::RunScripts,
        OverlayEvent::CloseRequested => OverlayAction::Exit,
        OverlayEvent::Other => OverlayAction::Wait,
    }
}

/// The hexadecimal digit for a number below sixteen.
pub open spec fn hex_digit(n: int) -> char {
    if n < 10 {
        (('0' as u32) + n) as char
    } else {
        (('a' as u32) + n - 10) as char
    }
}

/// A character inside a JSON string.
pub open spec fn json_escape(c: char) -> Seq<char> {
    if c == '"' {
        seq!['\\', '"']
    } else if c == '\\' {
        seq!['\\', '\\']
    } else if c == '\u{8}' {
        seq!['\\', 'b']
    } else if c == '\u{c}' {
        seq!['\\', 'f']
    } else if c == '\n' {
        seq!['\\', 'n']
    } else if c == '\r' {
        seq!['\\', 'r']
    } else if c == '\t' {
        seq!['\\', 't']
    } else if (c as int) < 32 {
        seq!['\\', 'u', '0', '0', hex_digit(c as int / 16), hex_digit(c as int % 16)]
    } else {
        seq![c]
    }
}

/// The inside of a JSON string.
pub open spec fn json_escaped(s: Seq<char>) -> Seq<char>
    decreases s.len(),
{
    if s.len() == 0 {
        Seq::empty()
    } else {
        json_escape(s.first()) + json_escaped(s.drop_first())
    }
}

/// A text as a JSON string.
pub open spec fn json_string(s: Seq<char>) -> Seq<char> {
    seq!['"'] + json_escaped(s) + seq!['"']
}

/// `serde_json::to_string` writes a text as a JSON string: in quotes, with quotes, backslashes
/// and control characters escaped and everything else as it stands. It fails on no text.
#[verifier::external_body]
fn to_json(text: &str) -> (r: Option<String>)
    ensures
        opt_text(r) == Some(json_string(text@)),
{
    serde_json::to_string(text).ok()
}

/// The script that draws a diagram that is given as JSON, or an empty one where there is none.
pub fn script_for(json: Option<String>) -> (r: String)
    ensures
        r@ == "window.renderDiagram("@ + (match json {
            Some(json) => json@,
            None => "\"\""@,
        }) + ");"@,
{
    let json = match json {
        Some(json) => json,
        None => "\"\"".to_owned(),
    };
    cat3("window.renderDiagram(", json.as_str(), ");")
}

/// The script that draws a diagram.
pub open spec fn script_of(diagram: Seq<char>) -> Seq<char> {
    "window.renderDiagram("@ + json_string(diagram) + ");"@
}

/// The script that draws a diagram.
pub fn diagram_script(diagram: &str) -> (r: String)
    ensures
        r@ == script_of(diagram@),
{
    script_for(to_json(diagram))
}

/// A window that is wide enough for its screen stands on it whole, at the same distance from its
/// right edge; on a narrower one it stands at the left edge.
pub proof fn law_window_stands_on_screen(screen_width: u32)
    ensures
        screen_width >= 620 ==> left_of(screen_width) + 620 == screen_width,
        screen_width >= 620 ==> left_of(screen_width) + PLAN_WIDTH <= screen_width,
        screen_width < 620 ==> left_of(screen_width) == 0,
{
}

/// The window closes when it is asked to and at no other time, and draws what came in when there is
/// nothing else to handle.
pub proof fn law_window_closes_when_asked(event: OverlayEvent)
    ensures
        action_on(event) == OverlayAction::Exit <==> event == OverlayEvent::CloseRequested,
        action_on(event) == OverlayAction::RunScripts <==> event == OverlayEvent::EventsCleared,
        action_on(event) == OverlayAction::Wait <==> event == OverlayEvent::Other,
{
}

/// A script calls the page's function with one string and nothing else, and characters that need no
/// escape stand in it as they are.
pub proof fn law_script_is_one_call(diagram: Seq<char>)
    ensures
        script_of(diagram) == "window.renderDiagram("@ + seq!['"'] + json_escaped(diagram)
            + seq!['"'] + ");"@,
        (forall|i: int|
            0 <= i < diagram.len() ==> #[trigger] diagram[i] >= ' ' && diagram[i] != '"'
                && diagram[i] != '\\') ==> json_escaped(diagram) == diagram,
    decreases diagram.len(),
{
    assert(script_of(diagram) =~= "window.renderDiagram("@ + seq!['"'] + json_escaped(diagram)
        + seq!['"'] + ");"@);
    if diagram.len() > 0 {
        let t = diagram.drop_first();
        law_script_is_one_call(t);
        if forall|i: int|
            0 <= i < diagram.len() ==> #[trigger] diagram[i] >= ' ' && diagram[i] != '"'
                && diagram[i] != '\\' {
            assert(diagram[0] >= ' ' && diagram[0] != '"' && diagram[0] != '\\');
            assert forall|i: int| 0 <= i < t.len() implies #[trigger] t[i] >= ' ' && t[i] != '"'
                && t[i] != '\\' by {
                assert(t[i] == diagram[i + 1]);
            }
            assert(json_escape(diagram.first()) == seq![diagram.first()]);
            assert(diagram =~= seq![diagram.first()] + t);
        }
    }
}

proof fn lemma_escape_decodes(a: char, x: Seq<char>, b: char, y: Seq<char>)
    requires
        json_escape(a) + x == json_escape(b) + y,
    ensures
        a == b,
        x == y,
{
    let l = json_escape(a) + x;
    let r = json_escape(b) + y;
    assert(l[0] == r[0]);
    assert(json_escape(a).len() > 1 ==> l[1] == json_escape(a)[1]);
    assert(json_escape(b).len() > 1 ==> r[1] == json_escape(b)[1]);
    assert(l[0] == json_escape(a)[0]);
    assert(r[0] == json_escape(b)[0]);
    if json_escape(a).len() == 6 && json_escape(b).len() == 6 {
        assert(l[4] == json_escape(a)[4] && l[5] == json_escape(a)[5]);
        assert(r[4] == json_escape(b)[4] && r[5] == json_escape(b)[5]);
        assert(a as int / 16 < 2 && b as int / 16 < 2);
        assert(a as int == 16 * (a as int / 16) + a as int % 16);
        assert(b as int == 16 * (b as int / 16) + b as int % 16);
    }
    assert(a == b);
    let n = json_escape(a).len() as int;
    assert(l.skip(n) =~= x);
    assert(r.skip(n) =~= y);
}

proof fn lemma_escaped_injective(a: Seq<char>, b: Seq<char>)
    requires
        json_escaped(a) == json_escaped(b),
    ensures
        a == b,
    decreases a.len(),
{
    if a.len() == 0 {
        if b.len() > 0 {
            assert(json_escaped(b).len() > 0);
        }
    } else if b.len() == 0 {
        assert(json_escaped(a).len() > 0);
    } else {
        lemma_escape_decodes(
            a.first(),
            json_escaped(a.drop_first()),
            b.first(),
            json_escaped(b.drop_first()),
        );
        lemma_escaped_injective(a.drop_first(), b.drop_first());
        assert(a =~= seq![a.first()] + a.drop_first());
        assert(b =~= seq![b.first()] + b.drop_first());
    }
}

/// Different diagrams have different scripts: nothing of a diagram is lost on the way.
pub proof fn law_scripts_differ(a: Seq<char>, b: Seq<char>)
    requires
        script_of(a) == script_of(b),
    ensures
        a == b,
{
    let n = "window.renderDiagram("@.len() as int + 1;
    let sa = script_of(a);
    let sb = script_of(b);
    let m = json_escaped(a).len() as int;
    assert(sa.len() == n + m + 1 + ");"@.len());
    assert(sb.len() == n + json_escaped(b).len() + 1 + ");"@.len());
    assert(sa.subrange(n, n + m) =~= json_escaped(a));
    assert(sb.subrange(n, n + m) =~= json_escaped(b));
    lemma_escaped_injective(a, b);
}

/// Where a script's string ends that begins before `s`: at the first quote that no backslash
/// escapes, or at the end of the script where there is none.
pub open spec fn literal_end(s: Seq<char>) -> nat
    decreases s.len(),
{
    if s.len() == 0 || s.first() == '"' {
        0
    } else if s.first() == '\\' && s.len() > 1 {
        2 + literal_end(s.skip(2))
    } else {
        1 + literal_end(s.drop_first())
    }
}

proof fn lemma_escape_visible(c: char)
    ensures
        forall|i: int| 0 <= i < json_escape(c).len() ==> #[trigger] json_escape(c)[i] >= ' ',
        forall|i: int|
            2 <= i < json_escape(c).len() ==> #[trigger] json_escape(c)[i] != '"' && json_escape(
                c,
            )[i] != '\\',
{
    if (c as int) < 32 {
        assert(0 <= c as int / 16 < 16);
        assert(0 <= c as int % 16 < 16);
    }
}

proof fn lemma_plain_run(p: Seq<char>, s: Seq<char>)
    requires
        forall|i: int| 0 <= i < p.len() ==> p[i] != '"' && #[trigger] p[i] != '\\',
    ensures
        literal_end(p + s) == p.len() + literal_end(s),
    decreases p.len(),
{
    if p.len() == 0 {
        assert(p + s =~= s);
    } else {
        assert(p[0] != '"' && p[0] != '\\');
        assert((p + s).drop_first() =~= p.drop_first() + s);
        lemma_plain_run(p.drop_first(), s);
    }
}

/// A diagram stays inside its string, whatever it holds: the string ends where the diagram does,
/// and no control character stands in it.
pub proof fn law_diagram_stays_inside(diagram: Seq<char>, rest: Seq<char>)
    ensures
        literal_end(json_escaped(diagram) + seq!['"'] + rest) == json_escaped(diagram).len(),
        forall|i: int|
            0 <= i < json_escaped(diagram).len() ==> #[trigger] json_escaped(diagram)[i] >= ' ',
    decreases diagram.len(),
{
    let tail = seq!['"'] + rest;
    if diagram.len() == 0 {
        assert(json_escaped(diagram) + seq!['"'] + rest =~= tail);
    } else {
        let c = diagram.first();
        let e = json_escape(c);
        let t = diagram.drop_first();
        lemma_escape_visible(c);
        law_diagram_stays_inside(t, rest);
        let after = json_escaped(t) + seq!['"'] + rest;
        let all = json_escaped(diagram) + seq!['"'] + rest;
        assert(all =~= e + after);
        if e.len() == 1 {
            assert(all.drop_first() =~= after);
        } else {
            assert(all.skip(2) =~= e.skip(2) + after);
            assert forall|i: int| 0 <= i < e.skip(2).len() implies e.skip(2)[i] != '"'
                && #[trigger] e.skip(2)[i] != '\\' by {
                assert(e.skip(2)[i] == e[i + 2]);
            }
            lemma_plain_run(e.skip(2), after);
        }
    }
}

} // verus!
