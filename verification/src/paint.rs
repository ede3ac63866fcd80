//! Painting a frame: what is drawn in which order, and what is tried when drawing fails.
use crate::config::PaneMode;
#[allow(unused_imports)]
use crate::text::opt_str;
use vstd::prelude::*;
use vstd::string::*;

verus! {

/// Whether images may be drawn, and how far they are scaled down.
#[derive(Debug, Clone, Copy, PartialEq, Eq, Structural)]
pub enum AllowImage {
    Yes,
    Scale(usize),
    No,
}

/// How much can still be given up: each step that `degraded` takes costs one.
pub open spec fn allowance_left(a: AllowImage) -> nat {
    match a {
        AllowImage::Yes => 4,
        AllowImage::Scale(2) => 3,
        AllowImage::Scale(4) => 2,
        AllowImage::Scale(8) => 1,
        _ => 0,
    }
}

/// What is tried next when the textures do not fit: half the size, a quarter, an eighth, no
/// images at all, and then nothing more.
pub open spec fn degraded(a: AllowImage) -> Option<AllowImage> {
    match a {
        AllowImage::Yes => Some(AllowImage::Scale(2)),
        AllowImage::Scale(2) => Some(AllowImage::Scale(4)),
        AllowImage::Scale(4) => Some(AllowImage::Scale(8)),
        AllowImage::Scale(8) => Some(AllowImage::No),
        _ => None,
    }
}

impl AllowImage {
    /// What is tried next when the textures do not fit.
    pub fn degrade(self) -> (r: Option<AllowImage>)
        ensures
            r == degraded(self),
    {
        match self {
            AllowImage::Yes => Some(AllowImage::Scale(2)),
            AllowImage::Scale(2) => Some(AllowImage::Scale(4)),
            AllowImage::Scale(4) => Some(AllowImage::Scale(8)),
            AllowImage::Scale(8) => Some(AllowImage::No),
            _ => None,
        }
    }
}

/// Every retry gives something up, and one that has nothing left to give up is not made; so a
/// frame is retried for want of texture space four times at most.
pub proof fn law_allowance_runs_out(a: AllowImage)
    ensures
        degraded(a) is None <==> allowance_left(a) == 0,
        degraded(a) matches Some(b) ==> allowance_left(b) + 1 == allowance_left(a),
        allowance_left(a) <= 4,
{
}

/// How a pass over the frame ended.
#[derive(Debug, Clone, Copy, PartialEq, Eq, Structural)]
pub enum PassOutcome {
    /// Everything was drawn; says whether room for more quads had to be allocated.
    Painted { allocated: bool },
    /// Everything was drawn, but allocating room for more quads failed.
    AllocationFailed,
    /// The texture atlas is too small; gives the size that is needed, where one would do, and the
    /// size it has.
    OutOfTextureSpace { size: Option<usize>, current_size: usize },
    /// The shapes have to be computed anew.
    ClearShapeCache,
    /// Drawing failed in another way.
    Failed,
}

/// What follows a pass.
#[derive(Debug, Clone, Copy, PartialEq, Eq, Structural)]
pub enum PassAction {
    /// The frame is as good as it gets: draw it.
    Finish,
    /// Forget the laid out tab bar and modal, and paint once more.
    Repaint,
    /// As `Repaint`, and forget the cached shapes too.
    ClearShapesAndRepaint,
    /// Make the texture atlas anew, in this size, and report whether that worked.
    RecreateAtlas { size: usize },
}

/// What follows a pass; the first one that runs out of texture space gets a new atlas of the
/// same size, a later one an atlas of the size it needs. Where no size would do, drawing has
/// failed.
pub open spec fn after_pass(first: bool, outcome: PassOutcome) -> PassAction {
    match outcome {
        PassOutcome::Painted { allocated: false } => PassAction::Finish,
        PassOutcome::Painted { allocated: true } => PassAction::Repaint,
        PassOutcome::AllocationFailed => PassAction::Finish,
        PassOutcome::OutOfTextureSpace { size: Some(size), current_size } =>
            PassAction::RecreateAtlas {
            size: if first {
                current_size
            } else {
                size
            },
        },
        PassOutcome::OutOfTextureSpace { size: None, current_size: _ } => PassAction::Finish,
        PassOutcome::ClearShapeCache => PassAction::ClearShapesAndRepaint,
        PassOutcome::Failed => PassAction::Finish,
    }
}

/// The frames that were counted, and the nanoseconds that they took.
#[derive(Debug, Clone, Copy, PartialEq, Eq, Structural)]
pub struct FpsSample {
    pub frames: u32,
    pub nanos: u64,
}

/// An element of the modal as it was drawn: its items, and the outcome of drawing it.
pub struct PaintedElement<U, E> {
    pub ui_items: Vec<U>,
    pub rendered: Result<(), E>,
}

/// What happens while the modal is painted.
pub enum ModalEvent<U, E> {
    /// There is no modal.
    Absent,
    /// The modal was laid out, in so many elements, or could not be.
    LaidOut(Result<usize, E>),
    /// The element at `index`, of `count`, was drawn, or could not be.
    Drawn { index: usize, count: usize, element: PaintedElement<U, E> },
}

/// What follows while the modal is painted.
pub enum ModalStep<E> {
    /// Draw the element at `index`, of `count`.
    Draw { index: usize, count: usize },
    /// Draw no more of it.
    Finish(Result<(), E>),
}

/// What follows once the elements before `index` are drawn.
pub open spec fn draw_from<E>(index: int, count: usize) -> ModalStep<E> {
    if index < count {
        ModalStep::Draw { index: index as usize, count }
    } else {
        ModalStep::Finish(Ok(()))
    }
}

/// What follows an event: elements are drawn one after the other, and the first failure ends it.
pub open spec fn modal_step<U, E>(event: ModalEvent<U, E>) -> ModalStep<E> {
    match event {
        ModalEvent::Absent => ModalStep::Finish(Ok(())),
        ModalEvent::LaidOut(Err(e)) => ModalStep::Finish(Err(e)),
        ModalEvent::LaidOut(Ok(count)) => draw_from(0, count),
        ModalEvent::Drawn { index, count, element } => match element.rendered {
            Ok(_) => draw_from(index + 1, count),
            Err(e) => ModalStep::Finish(Err(e)),
        },
    }
}

/// The items that an event adds: those of an element that was drawn.
pub open spec fn modal_items<U, E>(event: ModalEvent<U, E>) -> Seq<U> {
    match event {
        ModalEvent::Drawn { index: _, count: _, element } if element.rendered is Ok =>
            element.ui_items@,
        _ => Seq::empty(),
    }
}

/// The state of a window that painting reads and changes. Times are nanoseconds since some
/// fixed moment.
pub struct TermWindow<U> {
    pub num_frames: u32,
    pub last_fps_check_time: u64,
    pub allow_images: AllowImage,
    /// Whether the frame's first pass is still to come.
    pub first_pass: bool,
    pub shape_generation: usize,
    /// When the next animation frame is due, as the last pass found it.
    pub has_animation: Option<u64>,
    /// When the window wakes for an animation, as far as that was noted last: a frame that finds an
    /// earlier appointment soon enough takes this note out, and the window still wakes then.
    pub scheduled_animation: Option<u64>,
    /// How long the last frame took.
    pub last_frame_duration: u64,
    pub ui_items: Vec<U>,
}

/// A second, in nanoseconds.
pub const SECOND: u64 = 1_000_000_000;

/// The time from `since` to `now`; a time that has not come yet counts as now.
pub open spec fn elapsed(now: u64, since: u64) -> int {
    if now >= since {
        now - since
    } else {
        0
    }
}

/// The number of elements that were drawn before the first failure.
pub open spec fn drawn_before_failure<U, E>(elements: Seq<PaintedElement<U, E>>) -> nat
    decreases elements.len(),
{
    if elements.len() == 0 || elements[0].rendered is Err {
        0
    } else {
        1 + drawn_before_failure(elements.drop_first())
    }
}

/// The items of the first `n` elements, in order.
pub open spec fn items_of<U, E>(elements: Seq<PaintedElement<U, E>>, n: int) -> Seq<U>
    decreases n,
{
    if n <= 0 {
        Seq::empty()
    } else {
        items_of(elements, n - 1) + elements[n - 1].ui_items@
    }
}

/// What painting a modal comes to: the elements that are drawn, in order, the window's items, and
/// the outcome.
pub ghost struct ModalRun<U, E> {
    pub drawn: Seq<int>,
    pub items: Seq<U>,
    pub outcome: Result<(), E>,
}

/// Follows the steps from `step` on, at most `fuel` of them, where drawing the element at `i` gives
/// `elements[i]`.
pub open spec fn modal_run<U, E>(
    run: ModalRun<U, E>,
    step: ModalStep<E>,
    elements: Seq<PaintedElement<U, E>>,
    fuel: nat,
) -> ModalRun<U, E>
    decreases fuel,
{
    match step {
        ModalStep::Finish(outcome) => ModalRun { outcome, ..run },
        ModalStep::Draw { index, count } => if fuel == 0 {
            run
        } else {
            let event = ModalEvent::Drawn { index, count, element: elements[index as int] };
            modal_run(
                ModalRun {
                    drawn: run.drawn.push(index as int),
                    items: run.items + modal_items(event),
                    ..run
                },
                modal_step(event),
                elements,
                (fuel - 1) as nat,
            )
        },
    }
}

/// A modal that is laid out in `elements` is drawn element by element, in order. Where all of them
/// can be drawn, each is drawn once and adds its items. Where one cannot, it is the last that is
/// drawn: those before it have added their items, and its error is the outcome.
pub proof fn law_modal_stops_at_failure<U, E>(items: Seq<U>, elements: Seq<PaintedElement<U, E>>)
    requires
        elements.len() <= usize::MAX,
    ensures
        ({
            let n = drawn_before_failure(elements);
            let begun = ModalRun { drawn: Seq::empty(), items, outcome: Ok(()) };
            let laid_out = ModalEvent::<U, E>::LaidOut(Ok(elements.len() as usize));
            let run = modal_run(begun, modal_step(laid_out), elements, elements.len());
            &&& n <= elements.len()
            &&& run.items == items + items_of(elements, n as int)
            &&& if n < elements.len() {
                &&& run.drawn == Seq::new(n + 1, |i: int| i)
                &&& run.outcome == elements[n as int].rendered
                &&& run.outcome is Err
            } else {
                &&& run.drawn == Seq::new(n, |i: int| i)
                &&& run.outcome is Ok
            }
        }),
{
    let n = lemma_first_failure(elements, 0);
    lemma_drawn_before_failure(elements, n);
    let begun = ModalRun { drawn: Seq::empty(), items, outcome: Ok(()) };
    assert(begun.drawn =~= Seq::new(0, |i: int| i));
    assert(items + items_of(elements, 0) =~= items);
    lemma_modal_run(begun, items, elements, 0, n, elements.len());
}

/// A modal that is not there, or that cannot be laid out, has nothing drawn and adds no item.
pub proof fn law_no_modal_draws_nothing<U, E>(e: E)
    ensures
        modal_step(ModalEvent::<U, E>::Absent) == ModalStep::<E>::Finish(Ok(())),
        modal_step(ModalEvent::<U, E>::LaidOut(Err(e))) == ModalStep::<E>::Finish(Err(e)),
        modal_items(ModalEvent::<U, E>::Absent).len() == 0,
        modal_items(ModalEvent::<U, E>::LaidOut(Err(e))).len() == 0,
{
}

/// The position of the first element, from `from` on, that could not be drawn, or the end.
proof fn lemma_first_failure<U, E>(elements: Seq<PaintedElement<U, E>>, from: int) -> (n: int)
    requires
        0 <= from <= elements.len(),
        forall|i: int| 0 <= i < from ==> (#[trigger] elements[i]).rendered is Ok,
    ensures
        from <= n <= elements.len(),
        forall|i: int| 0 <= i < n ==> (#[trigger] elements[i]).rendered is Ok,
        n == elements.len() || elements[n].rendered is Err,
    decreases elements.len() - from,
{
    if from < elements.len() && elements[from].rendered is Ok {
        lemma_first_failure(elements, from + 1)
    } else {
        from
    }
}

proof fn lemma_modal_run<U, E>(
    run: ModalRun<U, E>,
    items: Seq<U>,
    elements: Seq<PaintedElement<U, E>>,
    from: int,
    n: int,
    fuel: nat,
)
    requires
        elements.len() <= usize::MAX,
        0 <= from <= n <= elements.len(),
        fuel >= elements.len() - from,
        forall|i: int| 0 <= i < n ==> (#[trigger] elements[i]).rendered is Ok,
        n == elements.len() || elements[n].rendered is Err,
        run.drawn == Seq::new(from as nat, |i: int| i),
        run.items == items + items_of(elements, from),
    ensures
        ({
            let done = modal_run(
                run,
                draw_from(from, elements.len() as usize),
                elements,
                fuel,
            );
            &&& done.items == items + items_of(elements, n)
            &&& if n < elements.len() {
                done.drawn == Seq::new((n + 1) as nat, |i: int| i) && done.outcome
                    == elements[n].rendered
            } else {
                done.drawn == Seq::new(n as nat, |i: int| i) && done.outcome == Ok::<(), E>(())
            }
        }),
    decreases n - from,
{
    reveal_with_fuel(modal_run, 2);
    if from < elements.len() {
        let count = elements.len() as usize;
        let event = ModalEvent::Drawn { index: from as usize, count, element: elements[from] };
        let next = ModalRun {
            drawn: run.drawn.push(from),
            items: run.items + modal_items(event),
            ..run
        };
        assert(next.drawn =~= Seq::new((from + 1) as nat, |i: int| i));
        if from < n {
            assert(elements[from].rendered is Ok);
            assert(next.items =~= items + items_of(elements, from + 1));
            lemma_modal_run(next, items, elements, from + 1, n, (fuel - 1) as nat);
        } else {
            assert(next.items =~= items + items_of(elements, n));
        }
    }
}

proof fn lemma_drawn_before_failure<U, E>(elements: Seq<PaintedElement<U, E>>, n: int)
    requires
        0 <= n <= elements.len(),
        forall|i: int| 0 <= i < n ==> (#[trigger] elements[i]).rendered is Ok,
        n == elements.len() || elements[n].rendered is Err,
    ensures
        drawn_before_failure(elements) == n,
    decreases n,
{
    if n > 0 {
        let t = elements.drop_first();
        assert forall|i: int| 0 <= i < n - 1 implies (#[trigger] t[i]).rendered is Ok by {
            assert(elements[i + 1].rendered is Ok);
        }
        assert(elements[0].rendered is Ok);
        if n < elements.len() {
            assert(t[n - 1] == elements[n]);
        }
        lemma_drawn_before_failure(t, n - 1);
    }
}

/// The window once a frame has begun at `start`.
pub open spec fn frame_begun<U>(w: TermWindow<U>, start: u64) -> TermWindow<U> {
    let sampled = elapsed(start, w.last_fps_check_time) > SECOND;
    TermWindow {
        num_frames: if sampled {
            0
        } else {
            (w.num_frames + 1) as u32
        },
        last_fps_check_time: if sampled {
            start
        } else {
            w.last_fps_check_time
        },
        allow_images: AllowImage::Yes,
        first_pass: true,
        has_animation: None,
        ..w
    }
}

/// The frames that are handed out for the frame rate when a frame begins at `start`.
pub open spec fn frames_sampled<U>(w: TermWindow<U>, start: u64) -> Option<FpsSample> {
    let nanos = elapsed(start, w.last_fps_check_time);
    if nanos > SECOND {
        Some(FpsSample { frames: (w.num_frames + 1) as u32, nanos: nanos as u64 })
    } else {
        None
    }
}

/// The window after a pass.
pub open spec fn pass_taken<U>(w: TermWindow<U>, outcome: PassOutcome) -> TermWindow<U> {
    TermWindow {
        first_pass: false,
        shape_generation: (w.shape_generation + if outcome == PassOutcome::ClearShapeCache {
            1int
        } else {
            0
        }) as usize,
        ..w
    }
}

/// The window after its texture atlas was made anew, or was not, and what follows.
pub open spec fn atlas_taken<U>(w: TermWindow<U>, recreated: bool) -> (TermWindow<U>, PassAction) {
    if recreated {
        (w, PassAction::Repaint)
    } else {
        match degraded(w.allow_images) {
            Some(next) => (TermWindow { allow_images: next, ..w }, PassAction::Repaint),
            None => (w, PassAction::Finish),
        }
    }
}

/// The window once an animation has been seen to, and when to wake for it.
pub open spec fn animation_taken<U>(w: TermWindow<U>, focused: bool) -> (
    TermWindow<U>,
    Option<u64>,
) {
    match (focused, w.has_animation) {
        (true, Some(due)) => {
            let wake = if w.scheduled_animation matches Some(prior) && prior <= due {
                None
            } else {
                Some(due)
            };
            (TermWindow { scheduled_animation: wake, ..w }, wake)
        },
        _ => (w, None),
    }
}

impl<U> TermWindow<U> {
    /// Begins a frame: images are allowed again, no animation is known, and once a second has
    /// gone by the frames of that time are handed out for the frame rate.
    pub fn begin_frame(&mut self, start: u64) -> (r: Option<FpsSample>)
        requires
            old(self).num_frames < u32::MAX,
        ensures
            *final(self) == frame_begun(*old(self), start),
            r == frames_sampled(*old(self), start),
            ({
                let nanos = elapsed(start, old(self).last_fps_check_time);
                let sampled = nanos > SECOND;
                &&& r is Some == sampled
                &&& r matches Some(sample) ==> sample.frames == old(self).num_frames + 1
                    && sample.nanos == nanos
                &&& *final(self) == (TermWindow {
                    num_frames: if sampled {
                        0
                    } else {
                        (old(self).num_frames + 1) as u32
                    },
                    last_fps_check_time: if sampled {
                        start
                    } else {
                        old(self).last_fps_check_time
                    },
                    allow_images: AllowImage::Yes,
                    first_pass: true,
                    has_animation: None,
                    ..*old(self)
                })
            }),
    {
        self.num_frames = self.num_frames + 1;
        self.has_animation = None;
        self.allow_images = AllowImage::Yes;
        self.first_pass = true;
        let nanos: u64 = start.saturating_sub(self.last_fps_check_time);
        if nanos > SECOND {
            let sample = FpsSample { frames: self.num_frames, nanos };
            self.num_frames = 0;
            self.last_fps_check_time = start;
            Some(sample)
        } else {
            None
        }
    }

    /// Takes the outcome of a pass and says what follows it.
    pub fn paint_impl(&mut self, outcome: PassOutcome) -> (r: PassAction)
        requires
            outcome == PassOutcome::ClearShapeCache ==> old(self).shape_generation < usize::MAX,
        ensures
            r == after_pass(old(self).first_pass, outcome),
            *final(self) == pass_taken(*old(self), outcome),
            *final(self) == (TermWindow {
                first_pass: false,
                shape_generation: (old(self).shape_generation + if outcome
                    == PassOutcome::ClearShapeCache {
                    1int
                } else {
                    0
                }) as usize,
                ..*old(self)
            }),
    {
        let first = self.first_pass;
        self.first_pass = false;
        match outcome {
            PassOutcome::Painted { allocated } => if allocated {
                PassAction::Repaint
            } else {
                PassAction::Finish
            },
            PassOutcome::AllocationFailed => PassAction::Finish,
            PassOutcome::OutOfTextureSpace { size: Some(size), current_size } =>
                PassAction::RecreateAtlas {
                size: if first {
                    current_size
                } else {
                    size
                },
            },
            PassOutcome::OutOfTextureSpace { size: None, current_size: _ } => PassAction::Finish,
            PassOutcome::ClearShapeCache => {
                self.shape_generation = self.shape_generation + 1;
                PassAction::ClearShapesAndRepaint
            },
            PassOutcome::Failed => PassAction::Finish,
        }
    }

    /// Takes the outcome of making the texture atlas anew and says what follows: another pass,
    /// with images scaled down further where there is no new atlas, or the end of the frame where
    /// images are already given up.
    pub fn atlas_recreated(&mut self, recreated: bool) -> (r: PassAction)
        ensures
            (*final(self), r) == atlas_taken(*old(self), recreated),
            r == if recreated || degraded(old(self).allow_images) is Some {
                PassAction::Repaint
            } else {
                PassAction::Finish
            },
            *final(self) == (TermWindow {
                allow_images: if recreated || degraded(old(self).allow_images) is None {
                    old(self).allow_images
                } else {
                    degraded(old(self).allow_images)->0
                },
                ..*old(self)
            }),
    {
        if recreated {
            return PassAction::Repaint;
        }
        match self.allow_images.degrade() {
            Some(next) => {
                self.allow_images = next;
                PassAction::Repaint
            },
            None => PassAction::Finish,
        }
    }

    /// Ends a frame that began at `start`: notes how long it took.
    pub fn end_frame(&mut self, start: u64, now: u64)
        ensures
            *final(self) == (TermWindow {
                last_frame_duration: elapsed(now, start) as u64,
                ..*old(self)
            }),
    {
        self.last_frame_duration = now.saturating_sub(start);
    }

    /// Where the window has the focus and an animation, returns when to wake for its next frame,
    /// unless the window was to wake no later than that. Either way the note of an earlier
    /// appointment is taken out.
    pub fn schedule_animation(&mut self, focused: bool) -> (r: Option<u64>)
        ensures
            (*final(self), r) == animation_taken(*old(self), focused),
            match (focused, old(self).has_animation) {
                (true, Some(due)) => {
                    let already = old(self).scheduled_animation matches Some(prior) && prior <= due;
                    &&& r == if already {
                        None
                    } else {
                        Some(due)
                    }
                    &&& *final(self) == (TermWindow { scheduled_animation: r, ..*old(self) })
                },
                _ => r is None && *final(self) == *old(self),
            },
    {
        if !focused {
            return None;
        }
        match self.has_animation {
            None => None,
            Some(due) => {
                let prior = self.scheduled_animation.take();
                match prior {
                    Some(prior) if prior <= due => None,
                    _ => {
                        self.scheduled_animation = Some(due);
                        Some(due)
                    },
                }
            },
        }
    }

    /// Takes what happened to the modal and says what follows. The items of an element that was
    /// drawn join the window's items.
    pub fn paint_modal<E>(&mut self, event: ModalEvent<U, E>) -> (r: ModalStep<E>)
        requires
            event matches ModalEvent::Drawn { index, count, .. } ==> index < count,
        ensures
            r == modal_step(event),
            final(self).ui_items@ == old(self).ui_items@ + modal_items(event),
            *final(self) == (TermWindow { ui_items: final(self).ui_items, ..*old(self) }),
    {
        match event {
            ModalEvent::Absent => ModalStep::Finish(Ok(())),
            ModalEvent::LaidOut(Err(e)) => ModalStep::Finish(Err(e)),
            ModalEvent::LaidOut(Ok(count)) => if count > 0 {
                ModalStep::Draw { index: 0, count }
            } else {
                ModalStep::Finish(Ok(()))
            },
            ModalEvent::Drawn { index, count, element } => {
                let PaintedElement { ui_items, rendered } = element;
                match rendered {
                    Ok(_) => {
                        let mut ui_items = ui_items;
                        self.ui_items.append(&mut ui_items);
                        if index + 1 < count {
                            ModalStep::Draw { index: index + 1, count }
                        } else {
                            ModalStep::Finish(Ok(()))
                        }
                    },
                    Err(e) => ModalStep::Finish(Err(e)),
                }
            },
        }
    }

    /// Begins a pass: the items of the last one are forgotten. Returns what the background is.
    pub fn paint_pass(&mut self, scene: &Scene) -> (r: Background)
        ensures
            r == background_of(scene.has_images, scene.opaque, old(self).allow_images),
            final(self).ui_items@ == Seq::<U>::empty(),
            *final(self) == (TermWindow { ui_items: final(self).ui_items, ..*old(self) }),
    {
        self.ui_items.clear();
        match self.allow_images {
            AllowImage::No => {},
            _ => {
                if scene.has_images {
                    return Background::Images;
                }
            },
        }
        if scene.has_images || !scene.opaque {
            Background::Leave
        } else {
            Background::Fill
        }
    }
}

/// What a pass reads of the window.
#[derive(Debug)]
pub struct Scene {
    /// For each pane, whether it is the active one.
    pub panes: Vec<bool>,
    /// Whether the window has the focus.
    pub focused: bool,
    /// Whether the window has background images.
    pub has_images: bool,
    /// Whether the window's background is fully opaque.
    pub opaque: bool,
    pub mode: PaneMode,
    /// Whether there is an active pane, or an overlay in its place, to draw the splits by.
    pub has_splits: bool,
    pub show_tab_bar: bool,
}

/// What is drawn behind the panes.
#[derive(Debug, Clone, Copy, PartialEq, Eq, Structural)]
pub enum Background {
    /// The background images.
    Images,
    /// The background color.
    Fill,
    /// Nothing: the panes draw their own.
    Leave,
}

/// Images are drawn where there are some and they are allowed. Otherwise a window that is not
/// transparent is filled; one with images counts as transparent.
pub open spec fn background_of(has_images: bool, opaque: bool, allow: AllowImage) -> Background {
    if has_images && allow != AllowImage::No {
        Background::Images
    } else if has_images || !opaque {
        Background::Leave
    } else {
        Background::Fill
    }
}

/// One thing that a pass draws or reports. Panes are given by their position.
#[derive(Debug, Clone, Copy, PartialEq, Eq, Structural)]
pub enum PaintStep {
    /// Fill the window, with the background of the one pane or with that of the window.
    FillBackground { from_pane: bool },
    /// Report where the text cursor is.
    TextCursor(usize),
    /// Report that the pane has the focus.
    Focus(usize),
    Pane(usize),
    InlineBackground,
    Splits,
    TabBar,
    Borders,
    InlineText,
    Modal,
}

/// The steps for the pane at `i`.
pub open spec fn pane_step(active: bool, focused: bool, i: int) -> Seq<PaintStep> {
    if active && focused {
        seq![
            PaintStep::TextCursor(i as usize),
            PaintStep::Focus(i as usize),
            PaintStep::Pane(i as usize),
        ]
    } else if active {
        seq![PaintStep::TextCursor(i as usize), PaintStep::Pane(i as usize)]
    } else {
        seq![PaintStep::Pane(i as usize)]
    }
}

/// The steps for the first `n` panes.
pub open spec fn pane_steps(panes: Seq<bool>, focused: bool, n: int) -> Seq<PaintStep>
    decreases n,
{
    if n <= 0 {
        Seq::empty()
    } else {
        pane_steps(panes, focused, n - 1) + pane_step(panes[n - 1], focused, n - 1)
    }
}

/// The step where the condition holds, and none where it does not.
pub open spec fn step_if(condition: bool, step: PaintStep) -> Seq<PaintStep> {
    if condition {
        seq![step]
    } else {
        Seq::empty()
    }
}

/// What is drawn over the panes: the assistant's line where it is shown, the splits, the tab bar,
/// the borders and the text of the assistant's line.
pub open spec fn overlay_steps(ai: bool, has_splits: bool, show_tab_bar: bool) -> Seq<PaintStep> {
    step_if(ai, PaintStep::InlineBackground) + step_if(has_splits, PaintStep::Splits) + step_if(
        show_tab_bar,
        PaintStep::TabBar,
    ) + seq![PaintStep::Borders] + step_if(ai, PaintStep::InlineText)
}

/// Whether the assistant's line is shown: its mode is on, and some pane is active.
pub open spec fn shows_inline(mode: PaneMode, panes: Seq<bool>) -> bool {
    mode == PaneMode::Ai && exists|i: int| 0 <= i < panes.len() && #[trigger] panes[i]
}

/// The step that fills the background, where it is to be filled or where there are images and
/// none could be loaded.
pub open spec fn fill_steps(background: Background, loaded_any: bool, panes: nat) -> Seq<
    PaintStep,
> {
    step_if(
        background == Background::Fill || background == Background::Images && !loaded_any,
        PaintStep::FillBackground { from_pane: panes == 1 },
    )
}

/// What a pass draws, in order: the background, the panes, what lies over them, and the modal on
/// top.
pub open spec fn steps_of(scene: Scene, background: Background, loaded_any: bool) -> Seq<
    PaintStep,
> {
    let panes = scene.panes@;
    fill_steps(background, loaded_any, panes.len()) + pane_steps(
        panes,
        scene.focused,
        panes.len() as int,
    ) + overlay_steps(
        shows_inline(scene.mode, panes),
        scene.has_splits,
        scene.show_tab_bar,
    ) + seq![PaintStep::Modal]
}

/// Lists what a pass draws, in order.
pub fn pass_steps(scene: &Scene, background: Background, loaded_any: bool) -> (r: Vec<PaintStep>)
    ensures
        r@ == steps_of(*scene, background, loaded_any),
{
    let mut steps: Vec<PaintStep> = Vec::new();
    let fill = match background {
        Background::Fill => true,
        Background::Images => !loaded_any,
        Background::Leave => false,
    };
    if fill {
        steps.push(PaintStep::FillBackground { from_pane: scene.panes.len() == 1 });
    }
    let ghost start = fill_steps(background, loaded_any, scene.panes@.len());
    assert(steps@ =~= start);
    let mut any_active = false;
    let mut i: usize = 0;
    while i < scene.panes.len()
        invariant
            i <= scene.panes@.len(),
            steps@ == start + pane_steps(scene.panes@, scene.focused, i as int),
            any_active == exists|k: int| 0 <= k < i && #[trigger] scene.panes@[k],
        decreases scene.panes@.len() - i,
    {
        if scene.panes[i] {
            any_active = true;
            steps.push(PaintStep::TextCursor(i));
            if scene.focused {
                steps.push(PaintStep::Focus(i));
            }
        }
        steps.push(PaintStep::Pane(i));
        i += 1;
    }
    let ai = scene.mode == PaneMode::Ai && any_active;
    let mut over = list_overlay(ai, scene.has_splits, scene.show_tab_bar);
    steps.append(&mut over);
    steps.push(PaintStep::Modal);
    steps
}

/// Lists what is drawn over the panes.
fn list_overlay(ai: bool, has_splits: bool, show_tab_bar: bool) -> (r: Vec<PaintStep>)
    ensures
        r@ == overlay_steps(ai, has_splits, show_tab_bar),
{
    let mut steps: Vec<PaintStep> = Vec::new();
    if ai {
        steps.push(PaintStep::InlineBackground);
    }
    if has_splits {
        steps.push(PaintStep::Splits);
    }
    if show_tab_bar {
        steps.push(PaintStep::TabBar);
    }
    steps.push(PaintStep::Borders);
    if ai {
        steps.push(PaintStep::InlineText);
    }
    steps
}

/// What an error in a step is reported under; two of the steps cannot fail.
pub open spec fn context_of(step: PaintStep) -> Option<Seq<char>> {
    match step {
        PaintStep::FillBackground { from_pane: _ } => Some(
            "filled_rectangle for window background"@,
        ),
        PaintStep::TextCursor(_) => None,
        PaintStep::Focus(_) => None,
        PaintStep::Pane(_) => Some("paint_pane"@),
        PaintStep::InlineBackground => Some("paint_ai_inline_line_background"@),
        PaintStep::Splits => Some("paint_split"@),
        PaintStep::TabBar => Some("paint_tab_bar"@),
        PaintStep::Borders => Some("paint_window_borders"@),
        PaintStep::InlineText => Some("paint_ai_inline_line_text"@),
        PaintStep::Modal => Some("paint_modal"@),
    }
}

impl PaintStep {
    /// What an error in the step is reported under.
    pub fn context(&self) -> (r: Option<&'static str>)
        ensures
            opt_str(r) == context_of(*self),
    {
        match self {
            PaintStep::FillBackground { from_pane: _ } => Some(
                "filled_rectangle for window background",
            ),
            PaintStep::TextCursor(_) => None,
            PaintStep::Focus(_) => None,
            PaintStep::Pane(_) => Some("paint_pane"),
            PaintStep::InlineBackground => Some("paint_ai_inline_line_background"),
            PaintStep::Splits => Some("paint_split"),
            PaintStep::TabBar => Some("paint_tab_bar"),
            PaintStep::Borders => Some("paint_window_borders"),
            PaintStep::InlineText => Some("paint_ai_inline_line_text"),
            PaintStep::Modal => Some("paint_modal"),
        }
    }
}

/// Whether a step draws a pane.
pub open spec fn draws_pane(step: PaintStep) -> bool {
    step is Pane
}

proof fn lemma_panes_drawn(panes: Seq<bool>, focused: bool, n: int)
    requires
        0 <= n <= panes.len(),
    ensures
        pane_steps(panes, focused, n).filter(|s: PaintStep| draws_pane(s)) == Seq::new(
            n as nat,
            |i: int| PaintStep::Pane(i as usize),
        ),
    decreases n,
{
    let f = |s: PaintStep| draws_pane(s);
    reveal(Seq::filter);
    if n > 0 {
        lemma_panes_drawn(panes, focused, n - 1);
        let a = pane_steps(panes, focused, n - 1);
        let b = pane_step(panes[n - 1], focused, n - 1);
        Seq::filter_distributes_over_add(a, b, f);
        assert(b.filter(f) == seq![PaintStep::Pane((n - 1) as usize)]) by {
            reveal_with_fuel(Seq::filter, 4);
            if b.len() == 3 {
                assert(b.drop_last().drop_last().drop_last() =~= Seq::empty());
                assert(b.drop_last().last() == b[1]);
                assert(b.drop_last().drop_last().last() == b[0]);
            } else if b.len() == 2 {
                assert(b.drop_last().drop_last() =~= Seq::empty());
                assert(b.drop_last().last() == b[0]);
            } else {
                assert(b.drop_last() =~= Seq::empty());
            }
        }
    }
}

/// A pass draws every pane once, in order, and the modal last, over everything else.
pub proof fn law_each_pane_once(scene: Scene, background: Background, loaded_any: bool)
    ensures
        steps_of(scene, background, loaded_any).filter(|s: PaintStep| draws_pane(s)) == Seq::new(
            scene.panes@.len(),
            |i: int| PaintStep::Pane(i as usize),
        ),
        steps_of(scene, background, loaded_any).last() == PaintStep::Modal,
        !steps_of(scene, background, loaded_any).drop_last().contains(PaintStep::Modal),
{
    let n = scene.panes@.len() as int;
    let ai = shows_inline(scene.mode, scene.panes@);
    let a = fill_steps(background, loaded_any, scene.panes@.len());
    let b = pane_steps(scene.panes@, scene.focused, n);
    let c = overlay_steps(ai, scene.has_splits, scene.show_tab_bar);
    lemma_overlay(ai, scene.has_splits, scene.show_tab_bar);
    lemma_panes_drawn(scene.panes@, scene.focused, n);
    lemma_no_modal(scene.panes@, scene.focused, n);
    lemma_layers(a, b, c);
}

proof fn lemma_layers(a: Seq<PaintStep>, b: Seq<PaintStep>, c: Seq<PaintStep>)
    requires
        forall|k: int|
            0 <= k < a.len() ==> !draws_pane(#[trigger] a[k]) && a[k] != PaintStep::Modal,
        forall|k: int| 0 <= k < b.len() ==> #[trigger] b[k] != PaintStep::Modal,
        forall|k: int|
            0 <= k < c.len() ==> !draws_pane(#[trigger] c[k]) && c[k] != PaintStep::Modal,
    ensures
        (a + b + c + seq![PaintStep::Modal]).filter(|s: PaintStep| draws_pane(s)) == b.filter(
            |s: PaintStep| draws_pane(s),
        ),
        (a + b + c + seq![PaintStep::Modal]).last() == PaintStep::Modal,
        !(a + b + c + seq![PaintStep::Modal]).drop_last().contains(PaintStep::Modal),
{
    let f = |s: PaintStep| draws_pane(s);
    let d = seq![PaintStep::Modal];
    let all = a + b + c + d;
    assert(all.filter(f) == b.filter(f)) by {
        Seq::filter_distributes_over_add(a + b + c, d, f);
        Seq::filter_distributes_over_add(a + b, c, f);
        Seq::filter_distributes_over_add(a, b, f);
        lemma_nothing_kept(a, f);
        lemma_nothing_kept(c, f);
        lemma_nothing_kept(d, f);
        assert(Seq::<PaintStep>::empty() + b.filter(f) + Seq::<PaintStep>::empty() + Seq::<
            PaintStep,
        >::empty() =~= b.filter(f));
    }
    let under = a + b + c;
    assert(all.drop_last() =~= under);
    assert forall|k: int| 0 <= k < under.len() implies under[k] != PaintStep::Modal by {
        if k < a.len() {
            assert(under[k] == a[k]);
        } else if k < a.len() + b.len() {
            assert(under[k] == b[k - a.len()]);
        } else {
            assert(under[k] == c[k - a.len() - b.len()]);
        }
    }
}

proof fn lemma_overlay(ai: bool, has_splits: bool, show_tab_bar: bool)
    ensures
        forall|k: int|
            0 <= k < overlay_steps(ai, has_splits, show_tab_bar).len() ==> {
                let step = #[trigger] overlay_steps(ai, has_splits, show_tab_bar)[k];
                !draws_pane(step) && step != PaintStep::Modal
            },
{
}

proof fn lemma_nothing_kept(s: Seq<PaintStep>, f: spec_fn(PaintStep) -> bool)
    requires
        forall|i: int| 0 <= i < s.len() ==> !f(#[trigger] s[i]),
    ensures
        s.filter(f) == Seq::<PaintStep>::empty(),
    decreases s.len(),
{
    reveal(Seq::filter);
    if s.len() > 0 {
        assert(!f(s[s.len() - 1]));
        lemma_nothing_kept(s.drop_last(), f);
    }
}

proof fn lemma_no_modal(panes: Seq<bool>, focused: bool, n: int)
    requires
        0 <= n <= panes.len(),
    ensures
        forall|k: int|
            0 <= k < pane_steps(panes, focused, n).len() ==> #[trigger] pane_steps(
                panes,
                focused,
                n,
            )[k] != PaintStep::Modal,
    decreases n,
{
    if n > 0 {
        lemma_no_modal(panes, focused, n - 1);
    }
}

/// Where the viewport of the active pane begins.
#[derive(Debug, Clone, Copy, PartialEq, Eq, Structural)]
pub struct PaneTop {
    pub is_active: bool,
    /// Where the pane is scrolled to, if it is.
    pub viewport: Option<isize>,
    pub physical_top: isize,
}

/// The row that a pane shows at its top.
pub open spec fn top_of(viewport: Option<isize>, physical_top: isize) -> isize {
    match viewport {
        Some(top) => top,
        None => physical_top,
    }
}

/// The position of the first pane that is active.
pub open spec fn is_first_active(panes: Seq<PaneTop>, i: int) -> bool {
    &&& 0 <= i < panes.len()
    &&& panes[i].is_active
    &&& forall|k: int| 0 <= k < i ==> !(#[trigger] panes[k]).is_active
}

/// The row that the background images are placed by.
pub open spec fn images_top(panes: Seq<PaneTop>) -> isize
    decreases panes.len(),
{
    if panes.len() == 0 {
        0
    } else if panes.first().is_active {
        top_of(panes.first().viewport, panes.first().physical_top)
    } else {
        images_top(panes.drop_first())
    }
}

/// The row that the background images are placed by: the top of the active pane, or the first
/// row where no pane is active.
pub fn background_top(panes: &Vec<PaneTop>) -> (r: isize)
    ensures
        r == images_top(panes@),
        forall|i: int|
            #[trigger] is_first_active(panes@, i) ==> r == top_of(
                panes@[i].viewport,
                panes@[i].physical_top,
            ),
        (forall|i: int| 0 <= i < panes@.len() ==> !(#[trigger] panes@[i]).is_active) ==> r == 0,
{
    assert(panes@.skip(0) =~= panes@);
    let mut i: usize = 0;
    while i < panes.len()
        invariant
            i <= panes@.len(),
            forall|k: int| 0 <= k < i ==> !(#[trigger] panes@[k]).is_active,
            images_top(panes@) == images_top(panes@.skip(i as int)),
        decreases panes@.len() - i,
    {
        assert(panes@.skip(i as int).drop_first() =~= panes@.skip(i + 1));
        if panes[i].is_active {
            return match panes[i].viewport {
                Some(top) => top,
                None => panes[i].physical_top,
            };
        }
        i += 1;
    }
    0
}

/// The row of the viewport that the cursor is in: the nearest one where it is outside. A
/// viewport without rows has no row to give, and `usize::MAX` stands for that.
pub open spec fn cursor_row(cursor_y: int, top: int, viewport_rows: usize) -> int {
    if viewport_rows == 0 {
        usize::MAX as int
    } else if cursor_y - top < 0 {
        0
    } else if cursor_y - top > viewport_rows - 1 {
        viewport_rows - 1
    } else {
        cursor_y - top
    }
}

/// The row of the pane's viewport that the assistant's line is drawn in.
pub fn ai_inline_row(
    cursor_y: isize,
    viewport: Option<isize>,
    physical_top: isize,
    viewport_rows: usize,
) -> (r: usize)
    requires
        isize::MIN <= cursor_y - top_of(viewport, physical_top) <= isize::MAX,
        viewport_rows <= isize::MAX,
    ensures
        r == cursor_row(
            cursor_y as int,
            top_of(viewport, physical_top) as int,
            viewport_rows,
        ),
{
    let top: isize = match viewport {
        Some(top) => top,
        None => physical_top,
    };
    let below: isize = cursor_y - top;
    if viewport_rows == 0 {
        usize::MAX
    } else if below < 0 {
        0
    } else if below as usize > viewport_rows - 1 {
        viewport_rows - 1
    } else {
        below as usize
    }
}

/// The assistant's line.
pub open spec fn inline_text(
    prompt: Seq<char>,
    before_cursor: Option<Seq<char>>,
    buffer: Seq<char>,
) -> Seq<char> {
    if prompt.len() > 0 {
        prompt + buffer
    } else {
        match before_cursor {
            Some(text) => text + buffer,
            None => buffer,
        }
    }
}

/// The assistant's line: the prompt that was captured on entering the mode, or what stands
/// before the cursor where none was, followed by what has been typed.
pub fn ai_inline_text(prompt: &str, before_cursor: Option<&str>, buffer: &str) -> (r: String)
    ensures
        r@ == (if prompt@.len() > 0 {
            prompt@
        } else {
            match before_cursor {
                Some(text) => text@,
                None => Seq::empty(),
            }
        }) + buffer@,
        r@ == inline_text(prompt@, opt_str(before_cursor), buffer@),
{
    let mut line = String::new();
    if !prompt.is_empty() {
        line.append(prompt);
    } else if let Some(text) = before_cursor {
        line.append(text);
    }
    line.append(buffer);
    line
}

} // verus!
