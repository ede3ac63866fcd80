use wezterm_ai::mermaid_overlay::{
    diagram_script, on_overlay_event, plan_left, script_for, show_mermaid, MermaidOverlay,
    OverlayAction, OverlayEvent, PLAN_HEIGHT, PLAN_OFFSET, PLAN_PAGE, PLAN_TITLE, PLAN_TOP,
    PLAN_WIDTH,
};

#[test]
fn the_first_diagram_opens_the_window() {
    let mut overlay = MermaidOverlay { opened: false };
    let shown = show_mermaid(&mut overlay, "graph TD");
    assert!(shown.open);
    assert_eq!(shown.diagram, "graph TD");
    let shown = show_mermaid(&mut overlay, "graph LR");
    assert!(!shown.open);
    assert_eq!(shown.diagram, "graph LR");
    assert!(overlay.opened);
}

#[test]
fn scripts_quote_the_diagram() {
    assert_eq!(diagram_script("graph TD\nA-->B"), "window.renderDiagram(\"graph TD\\nA-->B\");");
    assert_eq!(diagram_script("\"\\\u{1}"), "window.renderDiagram(\"\\\"\\\\\\u0001\");");
    assert_eq!(diagram_script(""), "window.renderDiagram(\"\");");
    assert_eq!(diagram_script("é\u{7f}"), "window.renderDiagram(\"é\u{7f}\");");
}

#[test]
fn every_control_character_is_escaped() {
    for n in 0..32u32 {
        let c = char::from_u32(n).unwrap();
        let expected = match c {
            '\u{8}' => "\\b".to_string(),
            '\u{c}' => "\\f".to_string(),
            '\n' => "\\n".to_string(),
            '\r' => "\\r".to_string(),
            '\t' => "\\t".to_string(),
            _ => format!("\\u{n:04x}"),
        };
        let script = diagram_script(&c.to_string());
        assert_eq!(script, format!("window.renderDiagram(\"{expected}\");"));
    }
}

#[test]
fn scripts_read_back_as_the_diagram() {
    for diagram in ["a\"b", "x\\", "\u{1f}\u{0}", "\"); alert(1); (\"", "日本\r\n\t"] {
        let script = diagram_script(diagram);
        let json = script
            .strip_prefix("window.renderDiagram(")
            .and_then(|s| s.strip_suffix(");"))
            .unwrap();
        let back: String = serde_json::from_str(json).unwrap();
        assert_eq!(back, diagram);
    }
}

#[test]
fn no_json_draws_an_empty_diagram() {
    assert_eq!(script_for(None), "window.renderDiagram(\"\");");
    assert_eq!(script_for(Some("\"x\"".to_string())), "window.renderDiagram(\"x\");");
}

#[test]
fn the_window_stands_near_the_right() {
    assert_eq!(plan_left(1920), 1300);
    assert_eq!(plan_left(620), 0);
    assert_eq!(plan_left(619), 0);
    assert_eq!(plan_left(0), 0);
    assert_eq!(PLAN_OFFSET, 620);
    assert_eq!((PLAN_WIDTH, PLAN_HEIGHT, PLAN_TOP), (600, 420, 20));
    assert_eq!(PLAN_TITLE, "WezTerm Plan");
}

#[test]
fn the_page_draws_what_it_is_given() {
    assert!(PLAN_PAGE.starts_with("\n<!DOCTYPE html>\n<html>\n"));
    assert!(PLAN_PAGE.ends_with("</html>\n"));
    assert!(PLAN_PAGE.contains("    window.renderDiagram = renderDiagram;\n"));
    assert!(PLAN_PAGE.contains("Waiting for plan..."));
}

#[test]
fn closing_ends_the_window() {
    assert_eq!(on_overlay_event(OverlayEvent::EventsCleared), OverlayAction::RunScripts);
    assert_eq!(on_overlay_event(OverlayEvent::CloseRequested), OverlayAction::Exit);
    assert_eq!(on_overlay_event(OverlayEvent::Other), OverlayAction::Wait);
}
