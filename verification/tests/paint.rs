use wezterm_ai::config::PaneMode;
use wezterm_ai::paint::{
    ai_inline_row, ai_inline_text, background_top, pass_steps, AllowImage, Background, FpsSample,
    ModalEvent, ModalStep, PaintStep, PaintedElement, PaneTop, PassAction, PassOutcome, Scene,
    TermWindow, SECOND,
};

fn window() -> TermWindow<u32> {
    TermWindow {
        num_frames: 0,
        last_fps_check_time: 0,
        allow_images: AllowImage::Yes,
        first_pass: true,
        shape_generation: 0,
        has_animation: None,
        scheduled_animation: None,
        last_frame_duration: 0,
        ui_items: vec![],
    }
}

fn scene() -> Scene {
    Scene {
        panes: vec![false, true],
        focused: true,
        has_images: false,
        opaque: true,
        mode: PaneMode::Terminal,
        has_splits: true,
        show_tab_bar: true,
    }
}

#[test]
fn images_are_scaled_down_and_then_given_up() {
    let mut tried = vec![AllowImage::Yes];
    while let Some(next) = tried[tried.len() - 1].degrade() {
        tried.push(next);
    }
    assert_eq!(
        tried,
        vec![
            AllowImage::Yes,
            AllowImage::Scale(2),
            AllowImage::Scale(4),
            AllowImage::Scale(8),
            AllowImage::No
        ]
    );
    assert_eq!(AllowImage::Scale(3).degrade(), None);
}

#[test]
fn frames_are_counted_by_the_second() {
    let mut w = window();
    w.allow_images = AllowImage::No;
    w.has_animation = Some(7);
    w.first_pass = false;
    assert_eq!(w.begin_frame(10), None);
    assert_eq!(w.num_frames, 1);
    assert_eq!(w.allow_images, AllowImage::Yes);
    assert_eq!(w.has_animation, None);
    assert!(w.first_pass);
    assert_eq!(w.begin_frame(SECOND), None);
    let sample = w.begin_frame(SECOND + 1);
    assert_eq!(sample, Some(FpsSample { frames: 3, nanos: SECOND + 1 }));
    assert_eq!(w.num_frames, 0);
    assert_eq!(w.last_fps_check_time, SECOND + 1);
    assert_eq!(w.begin_frame(5), None);
    assert_eq!(w.num_frames, 1);
}

#[test]
fn a_painted_frame_is_drawn() {
    let mut w = window();
    assert_eq!(w.paint_impl(PassOutcome::Painted { allocated: true }), PassAction::Repaint);
    assert_eq!(w.paint_impl(PassOutcome::Painted { allocated: false }), PassAction::Finish);
    assert_eq!(w.paint_impl(PassOutcome::AllocationFailed), PassAction::Finish);
    assert_eq!(w.paint_impl(PassOutcome::Failed), PassAction::Finish);
    assert_eq!(w.shape_generation, 0);
}

#[test]
fn the_first_pass_keeps_the_atlas_size() {
    let mut w = window();
    let outcome = PassOutcome::OutOfTextureSpace { size: Some(512), current_size: 256 };
    assert_eq!(w.paint_impl(outcome), PassAction::RecreateAtlas { size: 256 });
    assert_eq!(w.paint_impl(outcome), PassAction::RecreateAtlas { size: 512 });
    let outcome = PassOutcome::OutOfTextureSpace { size: None, current_size: 256 };
    assert_eq!(w.paint_impl(outcome), PassAction::Finish);
}

#[test]
fn shapes_are_computed_anew() {
    let mut w = window();
    let action = w.paint_impl(PassOutcome::ClearShapeCache);
    assert_eq!(action, PassAction::ClearShapesAndRepaint);
    assert_eq!(w.shape_generation, 1);
    assert!(!w.first_pass);
}

#[test]
fn without_an_atlas_images_go_step_by_step() {
    let mut w = window();
    assert_eq!(w.atlas_recreated(true), PassAction::Repaint);
    assert_eq!(w.allow_images, AllowImage::Yes);
    for expected in
        [AllowImage::Scale(2), AllowImage::Scale(4), AllowImage::Scale(8), AllowImage::No]
    {
        assert_eq!(w.atlas_recreated(false), PassAction::Repaint);
        assert_eq!(w.allow_images, expected);
    }
    assert_eq!(w.atlas_recreated(false), PassAction::Finish);
    assert_eq!(w.allow_images, AllowImage::No);
    assert_eq!(w.atlas_recreated(true), PassAction::Repaint);
}

#[test]
fn animations_are_scheduled_once() {
    let mut w = window();
    assert_eq!(w.schedule_animation(true), None);
    w.has_animation = Some(100);
    assert_eq!(w.schedule_animation(false), None);
    assert_eq!(w.scheduled_animation, None);
    assert_eq!(w.schedule_animation(true), Some(100));
    assert_eq!(w.scheduled_animation, Some(100));
    w.has_animation = Some(50);
    assert_eq!(w.schedule_animation(true), Some(50));
    assert_eq!(w.scheduled_animation, Some(50));
    w.has_animation = Some(50);
    assert_eq!(w.schedule_animation(true), None);
    assert_eq!(w.scheduled_animation, None);
}

/// Paints a modal of the elements and returns which were drawn, and the outcome.
fn painted(
    w: &mut TermWindow<u32>,
    elements: &[(&[u32], Result<(), &'static str>)],
) -> (Vec<usize>, Result<(), &'static str>) {
    let mut drawn = vec![];
    let mut step = w.paint_modal(ModalEvent::LaidOut(Ok(elements.len())));
    loop {
        match step {
            ModalStep::Finish(outcome) => return (drawn, outcome),
            ModalStep::Draw { index, count } => {
                assert_eq!(count, elements.len());
                drawn.push(index);
                let (items, rendered) = elements[index];
                let element = PaintedElement { ui_items: items.to_vec(), rendered };
                step = w.paint_modal(ModalEvent::Drawn { index, count, element });
            }
        }
    }
}

#[test]
fn a_modal_adds_its_items_and_stops_at_a_failure() {
    let mut w = window();
    w.ui_items = vec![1];
    let all: [(&[u32], Result<(), &'static str>); 2] = [(&[2], Ok(())), (&[3, 4], Ok(()))];
    assert_eq!(painted(&mut w, &all), (vec![0, 1], Ok(())));
    assert_eq!(w.ui_items, vec![1, 2, 3, 4]);
    let some: [(&[u32], Result<(), &'static str>); 3] =
        [(&[5], Ok(())), (&[6], Err("gpu")), (&[7], Ok(()))];
    assert_eq!(painted(&mut w, &some), (vec![0, 1], Err("gpu")));
    assert_eq!(w.ui_items, vec![1, 2, 3, 4, 5]);
    assert_eq!(painted(&mut w, &[]), (vec![], Ok(())));
}

#[test]
fn a_modal_that_is_not_laid_out_is_not_drawn() {
    let mut w = window();
    w.ui_items = vec![1];
    let step = w.paint_modal::<&'static str>(ModalEvent::Absent);
    assert!(matches!(step, ModalStep::Finish(Ok(()))));
    let step = w.paint_modal(ModalEvent::LaidOut(Err("no layout")));
    assert!(matches!(step, ModalStep::Finish(Err("no layout"))));
    assert_eq!(w.ui_items, vec![1]);
}

#[test]
fn a_frame_notes_how_long_it_took() {
    let mut w = window();
    w.end_frame(10, 25);
    assert_eq!(w.last_frame_duration, 15);
    w.end_frame(10, 5);
    assert_eq!(w.last_frame_duration, 0);
}

#[test]
fn the_background_depends_on_images_and_opacity() {
    let cases = [
        (true, true, AllowImage::Yes, Background::Images),
        (true, false, AllowImage::Scale(4), Background::Images),
        (true, true, AllowImage::No, Background::Leave),
        (true, false, AllowImage::No, Background::Leave),
        (false, false, AllowImage::Yes, Background::Leave),
        (false, true, AllowImage::Yes, Background::Fill),
        (false, true, AllowImage::No, Background::Fill),
    ];
    for (has_images, opaque, allow_images, expected) in cases {
        let mut w = window();
        w.ui_items = vec![1, 2];
        w.allow_images = allow_images;
        let s = Scene { has_images, opaque, ..scene() };
        assert_eq!(w.paint_pass(&s), expected);
        assert!(w.ui_items.is_empty());
    }
}

#[test]
fn a_pass_draws_from_the_back_to_the_front() {
    assert_eq!(
        pass_steps(&scene(), Background::Fill, false),
        vec![
            PaintStep::FillBackground { from_pane: false },
            PaintStep::Pane(0),
            PaintStep::TextCursor(1),
            PaintStep::Focus(1),
            PaintStep::Pane(1),
            PaintStep::Splits,
            PaintStep::TabBar,
            PaintStep::Borders,
            PaintStep::Modal,
        ]
    );
}

#[test]
fn the_assistants_line_goes_over_the_panes() {
    let s = Scene {
        panes: vec![true],
        focused: false,
        mode: PaneMode::Ai,
        has_splits: false,
        show_tab_bar: false,
        ..scene()
    };
    assert_eq!(
        pass_steps(&s, Background::Images, false),
        vec![
            PaintStep::FillBackground { from_pane: true },
            PaintStep::TextCursor(0),
            PaintStep::Pane(0),
            PaintStep::InlineBackground,
            PaintStep::Borders,
            PaintStep::InlineText,
            PaintStep::Modal,
        ]
    );
    let loaded = pass_steps(&s, Background::Images, true);
    assert_eq!(loaded[0], PaintStep::TextCursor(0));
    let none = Scene { panes: vec![false, false], ..s };
    assert_eq!(
        pass_steps(&none, Background::Leave, true),
        vec![PaintStep::Pane(0), PaintStep::Pane(1), PaintStep::Borders, PaintStep::Modal]
    );
}

#[test]
fn errors_are_reported_under_their_step() {
    assert_eq!(
        PaintStep::FillBackground { from_pane: true }.context(),
        Some("filled_rectangle for window background")
    );
    assert_eq!(PaintStep::TextCursor(0).context(), None);
    assert_eq!(PaintStep::Focus(0).context(), None);
    assert_eq!(PaintStep::Pane(3).context(), Some("paint_pane"));
    assert_eq!(PaintStep::InlineBackground.context(), Some("paint_ai_inline_line_background"));
    assert_eq!(PaintStep::Splits.context(), Some("paint_split"));
    assert_eq!(PaintStep::TabBar.context(), Some("paint_tab_bar"));
    assert_eq!(PaintStep::Borders.context(), Some("paint_window_borders"));
    assert_eq!(PaintStep::InlineText.context(), Some("paint_ai_inline_line_text"));
    assert_eq!(PaintStep::Modal.context(), Some("paint_modal"));
}

#[test]
fn images_are_placed_by_the_active_pane() {
    let pane = |is_active, viewport, physical_top| PaneTop { is_active, viewport, physical_top };
    assert_eq!(background_top(&vec![]), 0);
    assert_eq!(background_top(&vec![pane(false, Some(3), 9)]), 0);
    let panes = vec![pane(false, Some(3), 9), pane(true, None, 7), pane(true, Some(1), 2)];
    assert_eq!(background_top(&panes), 7);
    assert_eq!(background_top(&vec![pane(true, Some(-4), 7)]), -4);
}

#[test]
fn the_assistants_line_follows_the_cursor() {
    assert_eq!(ai_inline_row(12, None, 10, 24), 2);
    assert_eq!(ai_inline_row(12, Some(11), 10, 24), 1);
    assert_eq!(ai_inline_row(3, None, 10, 24), 0);
    assert_eq!(ai_inline_row(100, None, 10, 24), 23);
    assert_eq!(ai_inline_row(100, None, 10, 0), usize::MAX);
}

#[test]
fn the_prompt_is_kept_or_read_off_the_line() {
    assert_eq!(ai_inline_text("$ ", Some("# "), "ls"), "$ ls");
    assert_eq!(ai_inline_text("", Some("# "), "ls"), "# ls");
    assert_eq!(ai_inline_text("", None, "ls"), "ls");
}
