//! What holds of painting: what is drawn, in which order, and what is tried again.
#[allow(unused_imports)]
use crate::config::PaneMode;
#[allow(unused_imports)]
use crate::paint::{
    after_pass, animation_taken, atlas_taken, background_of, cursor_row, degraded, elapsed,
    fill_steps, frame_begun, frames_sampled, images_top, inline_text, is_first_active,
    modal_items, modal_step, overlay_steps, pane_step, pane_steps, pass_taken, shows_inline,
    steps_of, AllowImage, Background, FpsSample, ModalEvent, ModalStep, PaintStep, PaintedElement,
    PaneTop, PassAction, PassOutcome, Scene, TermWindow,
};
use vstd::prelude::*;

verus! {

/// A frame is done where everything was drawn and nothing was allocated, or where nothing would
/// help; it is painted again where quads were allocated or shapes have to be computed anew; and
/// where textures are short, an atlas is asked for: of the size that it has the first time, and of
/// the size that is needed after that.
pub proof fn law_what_follows_a_pass(
    first: bool,
    outcome: PassOutcome,
    size: usize,
    current_size: usize,
)
    ensures
        after_pass(first, outcome) == PassAction::Finish <==> {
            ||| outcome == (PassOutcome::Painted { allocated: false })
            ||| outcome == PassOutcome::AllocationFailed
            ||| outcome == PassOutcome::Failed
            ||| outcome is OutOfTextureSpace && outcome->size is None
        },
        after_pass(first, outcome) == PassAction::Repaint <==> outcome == (PassOutcome::Painted {
            allocated: true,
        }),
        after_pass(first, outcome) == PassAction::ClearShapesAndRepaint <==> outcome
            == PassOutcome::ClearShapeCache,
        after_pass(
            true,
            PassOutcome::OutOfTextureSpace { size: Some(size), current_size },
        ) == (PassAction::RecreateAtlas { size: current_size }),
        after_pass(
            false,
            PassOutcome::OutOfTextureSpace { size: Some(size), current_size },
        ) == (PassAction::RecreateAtlas { size }),
{
}

/// After any pass the next is no longer the first, and only a pass that has to compute its shapes
/// anew begins a new generation of them; nothing else of the window changes.
pub proof fn law_a_pass_is_noted<U>(w: TermWindow<U>, outcome: PassOutcome)
    requires
        w.shape_generation < usize::MAX,
    ensures
        ({
            let next = pass_taken(w, outcome);
            &&& !next.first_pass
            &&& outcome == PassOutcome::ClearShapeCache ==> next.shape_generation
                == w.shape_generation + 1
            &&& outcome != PassOutcome::ClearShapeCache ==> next.shape_generation
                == w.shape_generation
            &&& next == (TermWindow {
                first_pass: next.first_pass,
                shape_generation: next.shape_generation,
                ..w
            })
        }),
{
}

/// Where no atlas can be had, images go from full size to a half, a quarter and an eighth, then go
/// altogether, and then the frame is given up; an atlas that can be had changes nothing and has the
/// frame painted again.
pub proof fn law_images_are_given_up_step_by_step<U>(w: TermWindow<U>)
    requires
        w.allow_images == AllowImage::Yes,
    ensures
        ({
            let (a, first) = atlas_taken(w, false);
            let (b, second) = atlas_taken(a, false);
            let (c, third) = atlas_taken(b, false);
            let (d, fourth) = atlas_taken(c, false);
            let (e, fifth) = atlas_taken(d, false);
            &&& first == PassAction::Repaint && a == (TermWindow {
                allow_images: AllowImage::Scale(2),
                ..w
            })
            &&& second == PassAction::Repaint && b == (TermWindow {
                allow_images: AllowImage::Scale(4),
                ..w
            })
            &&& third == PassAction::Repaint && c == (TermWindow {
                allow_images: AllowImage::Scale(8),
                ..w
            })
            &&& fourth == PassAction::Repaint && d == (TermWindow {
                allow_images: AllowImage::No,
                ..w
            })
            &&& fifth == PassAction::Finish && e == d
            &&& atlas_taken(a, true) == (a, PassAction::Repaint)
            &&& atlas_taken(b, true) == (b, PassAction::Repaint)
            &&& atlas_taken(c, true) == (c, PassAction::Repaint)
            &&& atlas_taken(d, true) == (d, PassAction::Repaint)
            &&& atlas_taken(w, true) == (w, PassAction::Repaint)
        }),
{
}

/// Every frame begins with images allowed, its first pass to come and no animation known. Frames
/// are counted one by one, until more than a second has gone by: then the count, this frame
/// included, and the time that it took are handed out, and counting begins anew.
pub proof fn law_frames_are_counted<U>(w: TermWindow<U>, start: u64)
    requires
        w.num_frames < u32::MAX,
    ensures
        ({
            let next = frame_begun(w, start);
            let sample = frames_sampled(w, start);
            &&& next.allow_images == AllowImage::Yes
            &&& next.first_pass
            &&& next.has_animation is None
            &&& sample is Some <==> start > w.last_fps_check_time && start - w.last_fps_check_time
                > 1_000_000_000
            &&& sample matches Some(s) ==> {
                &&& s.frames == w.num_frames + 1
                &&& s.nanos == start - w.last_fps_check_time
                &&& next.num_frames == 0
                &&& next.last_fps_check_time == start
            }
            &&& sample is None ==> {
                &&& next.num_frames == w.num_frames + 1
                &&& next.last_fps_check_time == w.last_fps_check_time
            }
            &&& next == (TermWindow {
                num_frames: next.num_frames,
                last_fps_check_time: next.last_fps_check_time,
                allow_images: next.allow_images,
                first_pass: next.first_pass,
                has_animation: next.has_animation,
                ..w
            })
        }),
{
}

/// Time that has gone by is the difference, and a time that has not come yet counts as none.
pub proof fn law_time_goes_forward(now: u64, since: u64)
    ensures
        now >= since ==> elapsed(now, since) + since == now,
        now < since ==> elapsed(now, since) == 0,
{
}

/// A window with the focus wakes in time for its animation: either it is told to wake when the next
/// frame is due, or it was to wake no later than that. Without the focus, or without an animation,
/// nothing changes.
pub proof fn law_window_wakes_in_time<U>(w: TermWindow<U>, focused: bool, due: u64)
    ensures
        !focused || w.has_animation is None ==> animation_taken(w, focused) == (w, None::<u64>),
        focused && w.has_animation == Some(due) ==> {
            let (next, wake) = animation_taken(w, focused);
            &&& wake is None <==> w.scheduled_animation is Some && w.scheduled_animation->0 <= due
            &&& wake is Some ==> wake == Some(due)
            &&& next.scheduled_animation == wake
            &&& next == (TermWindow { scheduled_animation: next.scheduled_animation, ..w })
        },
{
}

/// The modal's elements are drawn one after the other: each that was drawn adds its own items and
/// is followed by the next, or by a good end after the last; one that could not be drawn adds none
/// and ends it with its error.
pub proof fn law_modal_goes_element_by_element<U, E>(
    index: usize,
    count: usize,
    element: PaintedElement<U, E>,
    e: E,
)
    requires
        index < count,
    ensures
        ({
            let event = ModalEvent::Drawn { index, count, element };
            &&& element.rendered is Ok ==> {
                &&& modal_items(event) == element.ui_items@
                &&& index + 1 < count ==> modal_step(event) == ModalStep::<E>::Draw {
                    index: (index + 1) as usize,
                    count,
                }
                &&& index + 1 == count ==> modal_step(event) == ModalStep::<E>::Finish(Ok(()))
            }
            &&& element.rendered == Err::<(), E>(e) ==> {
                &&& modal_items(event).len() == 0
                &&& modal_step(event) == ModalStep::<E>::Finish(Err(e))
            }
            &&& modal_step(ModalEvent::<U, E>::LaidOut(Ok(count))) == ModalStep::<E>::Draw {
                index: 0,
                count,
            }
            &&& modal_step(ModalEvent::<U, E>::LaidOut(Ok(0))) == ModalStep::<E>::Finish(Ok(()))
            &&& modal_items(ModalEvent::<U, E>::LaidOut(Ok(count))).len() == 0
        }),
{
}

/// Images are the background exactly where there are some and they are allowed; a color fills the
/// window exactly where there are none and the window is opaque.
pub proof fn law_background_is_chosen(has_images: bool, opaque: bool, allow: AllowImage)
    ensures
        background_of(has_images, opaque, allow) == Background::Images <==> has_images && allow
            != AllowImage::No,
        background_of(has_images, opaque, allow) == Background::Fill <==> !has_images && opaque,
{
}

/// Where a step comes in a pass over `n` panes: the background first, then for each pane the
/// report of its cursor, that of its focus and the pane itself, then the assistant's line, the
/// splits, the tab bar, the borders, the text of that line, and the modal.
pub open spec fn place_of(step: PaintStep, n: int) -> int {
    match step {
        PaintStep::FillBackground { from_pane: _ } => -1,
        PaintStep::TextCursor(i) => 3 * i,
        PaintStep::Focus(i) => 3 * i + 1,
        PaintStep::Pane(i) => 3 * i + 2,
        PaintStep::InlineBackground => 3 * n,
        PaintStep::Splits => 3 * n + 1,
        PaintStep::TabBar => 3 * n + 2,
        PaintStep::Borders => 3 * n + 3,
        PaintStep::InlineText => 3 * n + 4,
        PaintStep::Modal => 3 * n + 5,
    }
}

/// Whether a step belongs into a pass over the first `n` panes.
pub open spec fn pane_step_belongs(
    panes: Seq<bool>,
    focused: bool,
    n: int,
    step: PaintStep,
) -> bool {
    match step {
        PaintStep::TextCursor(i) => i < n && panes[i as int],
        PaintStep::Focus(i) => i < n && panes[i as int] && focused,
        PaintStep::Pane(i) => i < n,
        _ => false,
    }
}

/// Whether a step belongs into a pass.
pub open spec fn step_belongs(
    scene: Scene,
    background: Background,
    loaded_any: bool,
    step: PaintStep,
) -> bool {
    let panes = scene.panes@;
    let inline = scene.mode == PaneMode::Ai && exists|i: int|
        0 <= i < panes.len() && #[trigger] panes[i];
    match step {
        PaintStep::FillBackground { from_pane } => (background == Background::Fill || background
            == Background::Images && !loaded_any) && from_pane == (panes.len() == 1),
        PaintStep::InlineBackground => inline,
        PaintStep::Splits => scene.has_splits,
        PaintStep::TabBar => scene.show_tab_bar,
        PaintStep::Borders => true,
        PaintStep::InlineText => inline,
        PaintStep::Modal => true,
        _ => pane_step_belongs(panes, scene.focused, panes.len() as int, step),
    }
}

/// Whether the steps stand in their places, none twice.
pub open spec fn in_order(steps: Seq<PaintStep>, n: int) -> bool {
    forall|j: int, k: int|
        0 <= j < k < steps.len() ==> place_of(#[trigger] steps[j], n) < place_of(
            #[trigger] steps[k],
            n,
        )
}

proof fn lemma_pane_steps(panes: Seq<bool>, focused: bool, n: int)
    requires
        0 <= n <= panes.len() <= usize::MAX,
    ensures
        in_order(pane_steps(panes, focused, n), panes.len() as int),
        forall|k: int|
            0 <= k < pane_steps(panes, focused, n).len() ==> {
                let step = #[trigger] pane_steps(panes, focused, n)[k];
                &&& 0 <= place_of(step, panes.len() as int) < 3 * n
                &&& pane_step_belongs(panes, focused, n, step)
            },
        forall|step: PaintStep|
            pane_step_belongs(panes, focused, n, step) ==> pane_steps(
                panes,
                focused,
                n,
            ).contains(step),
    decreases n,
{
    if n > 0 {
        lemma_pane_steps(panes, focused, n - 1);
        let a = pane_steps(panes, focused, n - 1);
        let b = pane_step(panes[n - 1], focused, n - 1);
        let all = pane_steps(panes, focused, n);
        assert(all == a + b);
        assert forall|k: int| 0 <= k < all.len() implies {
            let step = #[trigger] all[k];
            &&& 0 <= place_of(step, panes.len() as int) < 3 * n
            &&& pane_step_belongs(panes, focused, n, step)
        } by {
            if k < a.len() {
                assert(all[k] == a[k]);
                assert(pane_step_belongs(panes, focused, n - 1, a[k]));
            } else {
                assert(all[k] == b[k - a.len()]);
            }
        }
        assert forall|j: int, k: int| 0 <= j < k < all.len() implies place_of(
            #[trigger] all[j],
            panes.len() as int,
        ) < place_of(#[trigger] all[k], panes.len() as int) by {
            if k < a.len() {
                assert(all[j] == a[j] && all[k] == a[k]);
            } else if j < a.len() {
                assert(all[j] == a[j] && all[k] == b[k - a.len()]);
                assert(place_of(a[j], panes.len() as int) < 3 * (n - 1));
            } else {
                assert(all[j] == b[j - a.len()] && all[k] == b[k - a.len()]);
            }
        }
        assert forall|step: PaintStep| pane_step_belongs(
            panes,
            focused,
            n,
            step,
        ) implies all.contains(step) by {
            if pane_step_belongs(panes, focused, n - 1, step) {
                assert(a.contains(step));
                let k = choose|k: int| 0 <= k < a.len() && a[k] == step;
                assert(all[k] == step);
            } else {
                let k: int = match step {
                    PaintStep::TextCursor(_) => 0,
                    PaintStep::Focus(_) => 1,
                    _ => b.len() - 1,
                };
                assert(b[k] == step);
                assert(all[a.len() + k] == step);
            }
        }
    }
}

proof fn lemma_overlay_steps(ai: bool, has_splits: bool, show_tab_bar: bool, n: int)
    ensures
        ({
            let c = overlay_steps(ai, has_splits, show_tab_bar);
            &&& in_order(c, n)
            &&& forall|k: int|
                0 <= k < c.len() ==> 3 * n <= place_of(#[trigger] c[k], n) < 3 * n + 5
            &&& c.contains(PaintStep::InlineBackground) <==> ai
            &&& c.contains(PaintStep::InlineText) <==> ai
            &&& c.contains(PaintStep::Splits) <==> has_splits
            &&& c.contains(PaintStep::TabBar) <==> show_tab_bar
            &&& c.contains(PaintStep::Borders)
            &&& forall|k: int|
                0 <= k < c.len() ==> match #[trigger] c[k] {
                    PaintStep::InlineBackground => true,
                    PaintStep::InlineText => true,
                    PaintStep::Splits => true,
                    PaintStep::TabBar => true,
                    PaintStep::Borders => true,
                    _ => false,
                }
        }),
{
    let c = overlay_steps(ai, has_splits, show_tab_bar);
    let x: int = if ai {
        1
    } else {
        0
    };
    let y: int = x + if has_splits {
        1int
    } else {
        0
    };
    let z: int = y + if show_tab_bar {
        1int
    } else {
        0
    };
    assert(ai ==> c[0] == PaintStep::InlineBackground);
    assert(has_splits ==> c[x] == PaintStep::Splits);
    assert(show_tab_bar ==> c[y] == PaintStep::TabBar);
    assert(c[z] == PaintStep::Borders);
    assert(ai ==> c[z + 1] == PaintStep::InlineText);
    assert(c.len() == z + 1 + x);
}

proof fn lemma_contained(a: Seq<PaintStep>, b: Seq<PaintStep>, step: PaintStep)
    ensures
        (a + b).contains(step) <==> a.contains(step) || b.contains(step),
{
    if a.contains(step) {
        let k = choose|k: int| 0 <= k < a.len() && a[k] == step;
        assert((a + b)[k] == step);
    }
    if b.contains(step) {
        let k = choose|k: int| 0 <= k < b.len() && b[k] == step;
        assert((a + b)[a.len() + k] == step);
    }
    if (a + b).contains(step) {
        let k = choose|k: int| 0 <= k < (a + b).len() && (a + b)[k] == step;
        if k < a.len() {
            assert(a[k] == step);
        } else {
            assert(b[k - a.len()] == step);
        }
    }
}

proof fn lemma_joined_in_order(a: Seq<PaintStep>, b: Seq<PaintStep>, n: int, limit: int)
    requires
        in_order(a, n),
        in_order(b, n),
        forall|k: int| 0 <= k < a.len() ==> place_of(#[trigger] a[k], n) < limit,
        forall|k: int| 0 <= k < b.len() ==> place_of(#[trigger] b[k], n) >= limit,
    ensures
        in_order(a + b, n),
{
    let all = a + b;
    assert forall|j: int, k: int| 0 <= j < k < all.len() implies place_of(#[trigger] all[j], n)
        < place_of(#[trigger] all[k], n) by {
        if k < a.len() {
            assert(all[j] == a[j] && all[k] == a[k]);
        } else if j < a.len() {
            assert(all[j] == a[j] && all[k] == b[k - a.len()]);
        } else {
            assert(all[j] == b[j - a.len()] && all[k] == b[k - a.len()]);
        }
    }
}

proof fn lemma_fill_steps(background: Background, loaded_any: bool, panes: nat, step: PaintStep)
    ensures
        fill_steps(background, loaded_any, panes).contains(step) <==> {
            &&& step == (PaintStep::FillBackground { from_pane: panes == 1 })
            &&& background == Background::Fill || background == Background::Images && !loaded_any
        },
{
    let a = fill_steps(background, loaded_any, panes);
    if background == Background::Fill || background == Background::Images && !loaded_any {
        assert(a[0] == PaintStep::FillBackground { from_pane: panes == 1 });
    }
}

/// A pass draws its steps in their places, none twice.
pub proof fn law_pass_draws_in_order(scene: Scene, background: Background, loaded_any: bool)
    requires
        scene.panes@.len() <= usize::MAX,
    ensures
        in_order(steps_of(scene, background, loaded_any), scene.panes@.len() as int),
{
    let panes = scene.panes@;
    let n = panes.len() as int;
    let ai = shows_inline(scene.mode, panes);
    let a = fill_steps(background, loaded_any, panes.len());
    let b = pane_steps(panes, scene.focused, n);
    let c = overlay_steps(ai, scene.has_splits, scene.show_tab_bar);
    let d = seq![PaintStep::Modal];
    lemma_pane_steps(panes, scene.focused, n);
    lemma_overlay_steps(ai, scene.has_splits, scene.show_tab_bar, n);
    lemma_joined_in_order(a, b, n, 0);
    let ab = a + b;
    assert forall|k: int| 0 <= k < ab.len() implies place_of(#[trigger] ab[k], n) < 3 * n by {
        if k < a.len() {
            assert(ab[k] == a[k]);
        } else {
            assert(ab[k] == b[k - a.len()]);
        }
    }
    lemma_joined_in_order(ab, c, n, 3 * n);
    let abc = ab + c;
    assert forall|k: int| 0 <= k < abc.len() implies place_of(#[trigger] abc[k], n) < 3 * n + 5 by {
        if k < ab.len() {
            assert(abc[k] == ab[k]);
        } else {
            assert(abc[k] == c[k - ab.len()]);
        }
    }
    lemma_joined_in_order(abc, d, n, 3 * n + 5);
}

/// A pass draws what belongs into it and nothing else: the active panes, and they alone, report
/// their cursor, and with the focus that they have it; every pane is drawn; the assistant's line is
/// drawn where its mode is on and a pane is active; the tab bar where it is shown; and the borders
/// and the modal always.
pub proof fn law_pass_draws_what_belongs(
    scene: Scene,
    background: Background,
    loaded_any: bool,
    step: PaintStep,
)
    requires
        scene.panes@.len() <= usize::MAX,
    ensures
        steps_of(scene, background, loaded_any).contains(step) <==> step_belongs(
            scene,
            background,
            loaded_any,
            step,
        ),
{
    let panes = scene.panes@;
    let n = panes.len() as int;
    let ai = shows_inline(scene.mode, panes);
    let a = fill_steps(background, loaded_any, panes.len());
    let b = pane_steps(panes, scene.focused, n);
    let c = overlay_steps(ai, scene.has_splits, scene.show_tab_bar);
    let d = seq![PaintStep::Modal];
    lemma_pane_steps(panes, scene.focused, n);
    lemma_overlay_steps(ai, scene.has_splits, scene.show_tab_bar, n);
    lemma_fill_steps(background, loaded_any, panes.len(), step);
    lemma_contained(a + b + c, d, step);
    lemma_contained(a + b, c, step);
    lemma_contained(a, b, step);
    assert(d.contains(step) <==> step == PaintStep::Modal) by {
        assert(d[0] == PaintStep::Modal);
    }
    assert(b.contains(step) <==> pane_step_belongs(panes, scene.focused, n, step)) by {
        if b.contains(step) {
            let k = choose|k: int| 0 <= k < b.len() && b[k] == step;
            assert(pane_step_belongs(panes, scene.focused, n, b[k]));
        }
    }
    if c.contains(step) {
        let k = choose|k: int| 0 <= k < c.len() && c[k] == step;
        assert(c[k] == step);
    }
}

/// The images are placed by the first active pane: by where it is scrolled to, else by its top; and
/// by the first row where no pane is active.
pub proof fn law_images_follow_the_active_pane(panes: Seq<PaneTop>, i: int)
    ensures
        is_first_active(panes, i) ==> images_top(panes) == match panes[i].viewport {
            Some(top) => top,
            None => panes[i].physical_top,
        },
        (forall|k: int| 0 <= k < panes.len() ==> !(#[trigger] panes[k]).is_active) ==> images_top(
            panes,
        ) == 0,
    decreases panes.len(),
{
    if panes.len() > 0 {
        let t = panes.drop_first();
        if !panes[0].is_active {
            law_images_follow_the_active_pane(t, i - 1);
            if is_first_active(panes, i) {
                assert(t[i - 1] == panes[i]);
                assert forall|k: int| 0 <= k < i - 1 implies !(#[trigger] t[k]).is_active by {
                    assert(t[k] == panes[k + 1]);
                }
            }
            if forall|k: int| 0 <= k < panes.len() ==> !(#[trigger] panes[k]).is_active {
                assert forall|k: int| 0 <= k < t.len() implies !(#[trigger] t[k]).is_active by {
                    assert(t[k] == panes[k + 1]);
                }
            }
        }
    }
}

/// The assistant's line is in the viewport, in the cursor's own row where that is in the viewport
/// too, and it never moves up while the cursor moves down.
pub proof fn law_inline_row_stays_in_view(cursor: int, other: int, top: int, rows: usize)
    requires
        rows > 0,
    ensures
        0 <= cursor_row(cursor, top, rows) < rows,
        top <= cursor < top + rows ==> top + cursor_row(cursor, top, rows) == cursor,
        cursor <= other ==> cursor_row(cursor, top, rows) <= cursor_row(other, top, rows),
{
}

/// The assistant's line ends in what has been typed, and what stands before that is the captured
/// prompt, or else what stands before the cursor.
pub proof fn law_inline_text_ends_in_what_was_typed(
    prompt: Seq<char>,
    before_cursor: Option<Seq<char>>,
    buffer: Seq<char>,
)
    ensures
        ({
            let line = inline_text(prompt, before_cursor, buffer);
            &&& line.len() >= buffer.len()
            &&& line.skip(line.len() - buffer.len()) == buffer
            &&& line.take(line.len() - buffer.len()) == if prompt.len() > 0 {
                prompt
            } else {
                match before_cursor {
                    Some(text) => text,
                    None => Seq::empty(),
                }
            }
        }),
{
    let line = inline_text(prompt, before_cursor, buffer);
    assert(line.skip(line.len() - buffer.len()) =~= buffer);
    let head = if prompt.len() > 0 {
        prompt
    } else {
        match before_cursor {
            Some(text) => text,
            None => Seq::empty(),
        }
    };
    assert(line.take(line.len() - buffer.len()) =~= head);
}

} // verus!
