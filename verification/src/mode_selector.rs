//! Choosing what the active pane takes typed text as.
use crate::config::PaneMode;
#[allow(unused_imports)]
use crate::text::{
    ascii_lower, cat3, line_or_empty, lowercase, same, to_lowercase, trim, trimmed,
};
use vstd::prelude::*;
#[allow(unused_imports)]
use vstd::utf8::is_ascii_chars;

verus! {

/// What the user is shown first.
pub const MODE_INTRO: &'static str =
    "Select pane mode (terminal/ai).\r\nPress Enter to keep the current mode.\r\n\r\n";

/// What the user is shown when the choice is not a mode.
pub const MODE_INVALID: &'static str = "\r\nInvalid choice, keeping current mode.\r\n";

/// The outcome of a choice.
#[derive(Clone, Copy, Debug, PartialEq, Eq, Structural)]
pub struct ModeChoice {
    pub mode: PaneMode,
    /// The choice was not a mode.
    pub invalid: bool,
}

/// The outcome of a choice: nothing keeps the current mode, and so does what is not a mode.
pub open spec fn choice_of(choice: Seq<char>, current: PaneMode) -> ModeChoice {
    if choice == "terminal"@ || choice == "term"@ || choice == "t"@ {
        ModeChoice { mode: PaneMode::Terminal, invalid: false }
    } else if choice == "ai"@ || choice == "a"@ {
        ModeChoice { mode: PaneMode::Ai, invalid: false }
    } else {
        ModeChoice { mode: current, invalid: choice.len() > 0 }
    }
}

/// The three words for the terminal and the two for the assistant choose that mode, whatever the
/// current one is; anything else keeps the current one, and is told unless it is nothing.
pub proof fn law_words_choose_the_mode(choice: Seq<char>, current: PaneMode)
    ensures
        ({
            let r = choice_of(choice, current);
            let terminal = choice == "terminal"@ || choice == "term"@ || choice == "t"@;
            let ai = choice == "ai"@ || choice == "a"@;
            &&& terminal ==> r.mode == PaneMode::Terminal && !r.invalid
            &&& ai ==> r.mode == PaneMode::Ai && !r.invalid
            &&& !terminal && !ai ==> r.mode == current
            &&& r.invalid <==> !terminal && !ai && choice.len() > 0
        }),
{
    reveal_strlit("terminal");
    reveal_strlit("term");
    reveal_strlit("t");
    reveal_strlit("ai");
    reveal_strlit("a");
    assert("t"@[0] == 't' && "a"@[0] == 'a');
    assert("terminal"@.len() == 8 && "term"@.len() == 4 && "t"@.len() == 1);
    assert("ai"@.len() == 2 && "a"@.len() == 1);
}

/// What stands before the line that the user types; `label` names the current mode.
pub fn mode_prompt(label: &str) -> (r: String)
    ensures
        r@ == "Mode ["@ + label@ + "]: "@,
{
    cat3("Mode [", label, "]: ")
}

/// The outcome of a choice that is in lower case and trimmed.
pub fn chosen_mode(choice: &str, current: PaneMode) -> (r: ModeChoice)
    ensures
        r == choice_of(choice@, current),
{
    if same(choice, "terminal") || same(choice, "term") || same(choice, "t") {
        ModeChoice { mode: PaneMode::Terminal, invalid: false }
    } else if same(choice, "ai") || same(choice, "a") {
        ModeChoice { mode: PaneMode::Ai, invalid: false }
    } else {
        ModeChoice { mode: current, invalid: !choice.is_empty() }
    }
}

/// The outcome of a line: case and the white space around it do not matter, and a blank line keeps
/// the current mode.
pub fn select_mode(line: Option<String>, current: PaneMode) -> (r: ModeChoice)
    ensures
        r == choice_of(lowercase(trimmed(line_or_empty(line))), current),
        is_ascii_chars(trimmed(line_or_empty(line))) ==> r == choice_of(
            trimmed(line_or_empty(line)).map_values(|c: char| ascii_lower(c)),
            current,
        ),
        trimmed(line_or_empty(line)).len() == 0 ==> r == (ModeChoice {
            mode: current,
            invalid: false,
        }),
{
    proof {
        reveal_strlit("terminal");
        reveal_strlit("term");
        reveal_strlit("t");
        reveal_strlit("ai");
        reveal_strlit("a");
    }
    let line = match line {
        Some(line) => line,
        None => String::new(),
    };
    let choice = to_lowercase(trim(line.as_str()).as_str());
    chosen_mode(choice.as_str(), current)
}

} // verus!
