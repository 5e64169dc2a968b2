//! Moving the window by dragging its title, and maximizing it by a double
//! click there.
//!
//! A press of the primary button on the title arms a drag at the pointer's
//! position; once the pointer, with the button held, has moved far enough
//! from that position, the window manager is asked to move the window, and
//! the drag is disarmed. A double click toggles the maximized state; a
//! release disarms. How far is "far enough" is measured by the shell on the
//! pointer's coordinates, and handed in as `beyond_threshold`.
//!
//! The tracker is generic over the type `P` of pointer positions.

use vstd::prelude::*;

verus! {

/// The pointer button that arms a drag and double-clicks.
pub const PRIMARY_BUTTON: u32 = 1;

/// The button that the window manager is told moves the window.
pub const MOVE_BUTTON: i32 = 1;

/// Whether an event handler consumed the event or lets it go on to other
/// handlers.
#[derive(Clone, Copy, Debug, PartialEq, Eq, Structural)]
pub enum Propagation {
    Stop,
    Proceed,
}

/// What the shell is to do in answer to a pointer event.
#[derive(Debug)]
pub enum DragEffect<P> {
    Nothing,
    /// Switch the window between maximized and normal size.
    ToggleMaximized,
    /// Ask the window manager to move the window with `button` held, from
    /// the pointer position `at`, at the event time `time`.
    BeginMoveDrag { button: i32, at: P, time: u32 },
}

/// The answer to a pointer event.
#[derive(Debug)]
pub struct PointerOutcome<P> {
    pub propagation: Propagation,
    pub effect: DragEffect<P>,
}

/// The drag state and answer after a button press.
pub open spec fn press_step<P>(origin: Option<P>, button: u32, double: bool, at: P) -> (Option<P>, PointerOutcome<P>) {
    if button != PRIMARY_BUTTON {
        (origin, PointerOutcome { propagation: Propagation::Proceed, effect: DragEffect::Nothing })
    } else if double {
        (None, PointerOutcome { propagation: Propagation::Stop, effect: DragEffect::ToggleMaximized })
    } else {
        (Some(at), PointerOutcome { propagation: Propagation::Stop, effect: DragEffect::Nothing })
    }
}

/// The drag state and answer after a pointer motion. `beyond_threshold`
/// tells whether the pointer is far enough from the armed position.
pub open spec fn motion_step<P>(
    origin: Option<P>,
    primary_held: bool,
    at: P,
    beyond_threshold: bool,
    time: u32,
) -> (Option<P>, PointerOutcome<P>) {
    if primary_held && origin is Some && beyond_threshold {
        (
            None,
            PointerOutcome {
                propagation: Propagation::Stop,
                effect: DragEffect::BeginMoveDrag { button: MOVE_BUTTON, at, time },
            },
        )
    } else {
        (origin, PointerOutcome { propagation: Propagation::Proceed, effect: DragEffect::Nothing })
    }
}

/// The drag state and answer after a button release.
pub open spec fn release_step<P>(origin: Option<P>) -> (Option<P>, PointerOutcome<P>) {
    (None, PointerOutcome { propagation: Propagation::Proceed, effect: DragEffect::Nothing })
}

/// Tracks the position at which a drag of the title was armed.
pub struct DragTracker<P> {
    origin: Option<P>,
}

impl<P> View for DragTracker<P> {
    type V = Option<P>;

    closed spec fn view(&self) -> Option<P> {
        self.origin
    }
}

impl<P> DragTracker<P> {
    /// A tracker with no drag armed.
    pub fn new() -> (tracker: Self)
        ensures
            tracker@ is None,
    {
        DragTracker { origin: None }
    }

    /// The position at which the drag was armed, if one is.
    pub fn origin(&self) -> (origin: Option<&P>)
        ensures
            origin is None <==> self@ is None,
            origin matches Some(p) ==> self@ == Some(*p),
    {
        match &self.origin {
            Some(p) => Some(p),
            None => None,
        }
    }

    /// Answers a button press at position `at`; `double` tells whether it is
    /// the second press of a double click. Other buttons than the primary
    /// one are left to other handlers.
    pub fn on_button_press(&mut self, button: u32, double: bool, at: P) -> (outcome: PointerOutcome<P>)
        ensures
            (final(self)@, outcome) == press_step(old(self)@, button, double, at),
    {
        if button != PRIMARY_BUTTON {
            return PointerOutcome { propagation: Propagation::Proceed, effect: DragEffect::Nothing };
        }
        if double {
            self.origin = None;
            PointerOutcome { propagation: Propagation::Stop, effect: DragEffect::ToggleMaximized }
        } else {
            self.origin = Some(at);
            PointerOutcome { propagation: Propagation::Stop, effect: DragEffect::Nothing }
        }
    }

    /// Answers a pointer motion to `at` at event time `time`;
    /// `primary_held` tells whether the primary button is held, and
    /// `beyond_threshold` whether `at` is far enough from the armed
    /// position.
    pub fn on_motion(&mut self, primary_held: bool, at: P, beyond_threshold: bool, time: u32) -> (outcome: PointerOutcome<P>)
        ensures
            (final(self)@, outcome) == motion_step(old(self)@, primary_held, at, beyond_threshold, time),
    {
        if primary_held && self.origin.is_some() && beyond_threshold {
            self.origin = None;
            PointerOutcome {
                propagation: Propagation::Stop,
                effect: DragEffect::BeginMoveDrag { button: MOVE_BUTTON, at, time },
            }
        } else {
            PointerOutcome { propagation: Propagation::Proceed, effect: DragEffect::Nothing }
        }
    }

    /// Answers a button release: whatever was armed is disarmed.
    pub fn on_button_release(&mut self) -> (outcome: PointerOutcome<P>)
        ensures
            (final(self)@, outcome) == release_step(old(self)@),
    {
        self.origin = None;
        PointerOutcome { propagation: Propagation::Proceed, effect: DragEffect::Nothing }
    }
}

/// A pointer event on the title, as the tracker sees it.
pub enum PointerEvent<P> {
    Press { button: u32, double: bool, at: P },
    Motion { primary_held: bool, at: P, beyond_threshold: bool, time: u32 },
    Release,
}

/// The drag state and answer after one pointer event.
pub open spec fn step<P>(origin: Option<P>, event: PointerEvent<P>) -> (Option<P>, PointerOutcome<P>) {
    match event {
        PointerEvent::Press { button, double, at } => press_step(origin, button, double, at),
        PointerEvent::Motion { primary_held, at, beyond_threshold, time } =>
            motion_step(origin, primary_held, at, beyond_threshold, time),
        PointerEvent::Release => release_step(origin),
    }
}

/// The drag state after a sequence of pointer events.
pub open spec fn run<P>(origin: Option<P>, events: Seq<PointerEvent<P>>) -> Option<P>
    decreases events.len(),
{
    if events.len() == 0 {
        origin
    } else {
        run(step(origin, events[0]).0, events.drop_first())
    }
}

/// How many times a sequence of pointer events asks the window manager to
/// move the window.
pub open spec fn move_count<P>(origin: Option<P>, events: Seq<PointerEvent<P>>) -> nat
    decreases events.len(),
{
    if events.len() == 0 {
        0
    } else {
        (if step(origin, events[0]).1.effect is BeginMoveDrag { 1nat } else { 0nat })
            + move_count(step(origin, events[0]).0, events.drop_first())
    }
}

/// How many events of a sequence are single presses of the primary button,
/// the presses that arm a drag.
pub open spec fn arming_presses<P>(events: Seq<PointerEvent<P>>) -> nat
    decreases events.len(),
{
    if events.len() == 0 {
        0
    } else {
        (if events[0] matches PointerEvent::Press { button, double, .. }
            && button == PRIMARY_BUTTON && !double { 1nat } else { 0nat })
            + arming_presses(events.drop_first())
    }
}

/// Each move of the window uses up one arming press of the primary button:
/// over any sequence of pointer events, the moves asked for, plus one if a
/// drag is still armed at the end, are at most the arming presses, plus
/// one if a drag was armed at the start. So a single press moves the
/// window at most once, however long the pointer keeps moving.
pub proof fn lemma_one_move_per_press<P>(origin: Option<P>, events: Seq<PointerEvent<P>>)
    ensures
        move_count(origin, events) + (if run(origin, events) is Some { 1nat } else { 0nat })
            <= arming_presses(events) + (if origin is Some { 1nat } else { 0nat }),
    decreases events.len(),
{
    if events.len() > 0 {
        lemma_one_move_per_press(step(origin, events[0]).0, events.drop_first());
    }
}

/// A motion with no drag armed never moves the window and changes nothing.
pub proof fn lemma_unarmed_motion_is_ignored<P>(primary_held: bool, at: P, beyond_threshold: bool, time: u32)
    ensures
        motion_step(None, primary_held, at, beyond_threshold, time).0 is None,
        motion_step(None, primary_held, at, beyond_threshold, time).1.effect is Nothing,
        motion_step(None, primary_held, at, beyond_threshold, time).1.propagation == Propagation::Proceed,
{
}

/// A double click of the primary button toggles the maximized state and
/// leaves no drag armed; presses of other buttons change nothing and are
/// left to other handlers.
pub proof fn lemma_press_kinds<P>(origin: Option<P>, button: u32, double: bool, at: P)
    ensures
        button == PRIMARY_BUTTON && double ==> press_step(origin, button, double, at).0 is None
            && press_step(origin, button, double, at).1.effect is ToggleMaximized,
        button == PRIMARY_BUTTON && !double ==> press_step(origin, button, double, at).0 == Some(at)
            && press_step(origin, button, double, at).1.effect is Nothing,
        button == PRIMARY_BUTTON ==> press_step(origin, button, double, at).1.propagation == Propagation::Stop,
        button != PRIMARY_BUTTON ==> press_step(origin, button, double, at).0 == origin
            && press_step(origin, button, double, at).1.effect is Nothing
            && press_step(origin, button, double, at).1.propagation == Propagation::Proceed,
{
}

/// A release never asks for anything: whatever was armed, it answers with
/// no effect, lets the event go on to other handlers, and leaves no drag
/// armed.
pub proof fn lemma_release_has_no_effect<P>(origin: Option<P>)
    ensures
        release_step(origin).1.effect is Nothing,
        release_step(origin).1.propagation == Propagation::Proceed,
        release_step(origin).0 is None,
{
}

/// With the primary button held, a drag armed anywhere, and the pointer
/// past the threshold, a motion asks the window manager to move the window
/// with the move button, from the pointer's position and at the event's
/// time, whatever that time is; it consumes the event and disarms the drag.
pub proof fn lemma_armed_drag_moves<P>(start: P, at: P, time: u32)
    ensures
        motion_step(Some(start), true, at, true, time).0 is None,
        motion_step(Some(start), true, at, true, time).1.propagation == Propagation::Stop,
        motion_step(Some(start), true, at, true, time).1.effect == (DragEffect::BeginMoveDrag {
            button: MOVE_BUTTON,
            at,
            time,
        }),
        MOVE_BUTTON == 1,
{
}

/// Without the primary button held, or with the pointer still within the
/// threshold, a motion changes nothing and lets the event go on.
pub proof fn lemma_motion_below_threshold_waits<P>(
    origin: Option<P>,
    primary_held: bool,
    at: P,
    beyond_threshold: bool,
    time: u32,
)
    requires
        !primary_held || !beyond_threshold,
    ensures
        motion_step(origin, primary_held, at, beyond_threshold, time).0 == origin,
        motion_step(origin, primary_held, at, beyond_threshold, time).1.effect is Nothing,
        motion_step(origin, primary_held, at, beyond_threshold, time).1.propagation
            == Propagation::Proceed,
{
}

/// After a release no drag is armed, so no motion moves the window until
/// the primary button is pressed again.
pub proof fn lemma_release_disarms<P>(origin: Option<P>, primary_held: bool, at: P, beyond_threshold: bool, time: u32)
    ensures
        release_step(origin).0 is None,
        motion_step(release_step(origin).0, primary_held, at, beyond_threshold, time).1.effect is Nothing,
{
}

} // verus!
