use wezterm_ai::config::PaneMode;
use wezterm_ai::mode_selector::{
    chosen_mode, mode_prompt, select_mode, ModeChoice, MODE_INTRO, MODE_INVALID,
};

fn picked(line: &str, current: PaneMode) -> ModeChoice {
    select_mode(Some(line.to_string()), current)
}

#[test]
fn every_name_of_a_mode_is_known() {
    for name in ["terminal", "term", "t", " Terminal\n", "TERM", "T"] {
        let expected = ModeChoice { mode: PaneMode::Terminal, invalid: false };
        assert_eq!(picked(name, PaneMode::Ai), expected, "{name}");
    }
    for name in ["ai", "a", " AI ", "A"] {
        let expected = ModeChoice { mode: PaneMode::Ai, invalid: false };
        assert_eq!(picked(name, PaneMode::Terminal), expected, "{name}");
    }
}

#[test]
fn enter_keeps_the_mode() {
    for current in [PaneMode::Terminal, PaneMode::Ai] {
        let expected = ModeChoice { mode: current, invalid: false };
        assert_eq!(picked("", current), expected);
        assert_eq!(picked("  \n", current), expected);
        assert_eq!(select_mode(None, current), expected);
    }
}

#[test]
fn what_is_no_mode_keeps_the_mode_and_is_told() {
    for current in [PaneMode::Terminal, PaneMode::Ai] {
        let expected = ModeChoice { mode: current, invalid: true };
        assert_eq!(picked("shell", current), expected);
        assert_eq!(picked("a i", current), expected);
    }
}

#[test]
fn letters_that_lower_to_ascii_count() {
    // The Kelvin sign lowers to `k`, the dotted capital I to `i` and a combining dot.
    assert!(picked("\u{212a}", PaneMode::Ai).invalid);
    assert!(picked("A\u{130}", PaneMode::Terminal).invalid);
}

#[test]
fn a_lowered_choice_is_taken_as_it_stands() {
    let expected = ModeChoice { mode: PaneMode::Ai, invalid: false };
    assert_eq!(chosen_mode("ai", PaneMode::Terminal), expected);
    assert!(chosen_mode("AI", PaneMode::Terminal).invalid);
    assert!(!chosen_mode("", PaneMode::Terminal).invalid);
}

#[test]
fn the_user_is_told_how_to_choose() {
    assert_eq!(mode_prompt("terminal"), "Mode [terminal]: ");
    assert_eq!(
        MODE_INTRO,
        "Select pane mode (terminal/ai).\r\nPress Enter to keep the current mode.\r\n\r\n"
    );
    assert_eq!(MODE_INVALID, "\r\nInvalid choice, keeping current mode.\r\n");
}
