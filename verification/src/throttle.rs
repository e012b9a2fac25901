//! The interaction throttle: the state machine that decides, from input
//! events and their timestamps, when a render pass is triggered and at
//! which tier.
//!
//! Time is a count of milliseconds handed in with each event; the machine
//! reads no clock of its own.

use vstd::prelude::*;

verus! {

/// Least time between two accepted preview triggers, in milliseconds.
pub const PREVIEW_INTERVAL_MS: u64 = 300;

/// Time without input after a release before the final pass, in
/// milliseconds.
pub const QUIESCENCE_MS: u64 = 300;

/// What is being dragged.
#[derive(Clone, Copy, Debug, PartialEq, Eq, Structural)]
pub enum DragSource {
    /// The zoom slider.
    Slider,
    /// The content itself, with the pointer.
    Pointer,
}

/// Where the interaction stands.
#[derive(Clone, Copy, Debug, PartialEq, Eq, Structural)]
pub enum Phase {
    /// No input in progress.
    Idle,
    /// The zoom slider is being dragged.
    DraggingSlider,
    /// The content is being dragged.
    DraggingPointer,
    /// The drag was released; a final pass is due at `deadline` unless input
    /// resumes first.
    Quiescing { deadline: u64 },
}

/// The throttle's state: the phase, and the time of the last render
/// trigger that was accepted.
#[derive(Clone, Copy, Debug, PartialEq, Eq, Structural)]
pub struct InteractionState {
    pub phase: Phase,
    pub last_trigger: u64,
}

/// An input to the throttle.
#[derive(Clone, Copy, Debug, PartialEq, Eq, Structural)]
pub enum InputEvent {
    /// The slider or the pointer moved while held.
    Move { source: DragSource, now: u64 },
    /// The slider or the pointer button was released.
    Release { now: u64 },
    /// A timer scheduled at a release has run out.
    QuiescenceElapsed { now: u64 },
    /// Another resampling filter was selected.
    AlgorithmChanged,
    /// A new image was loaded.
    ImageLoaded,
}

/// What the throttle asks for in answer to an event.
#[derive(Clone, Copy, Debug, PartialEq, Eq, Structural)]
pub enum Trigger {
    /// Nothing: the event was only taken into the state.
    Hold,
    /// A preview pass, now.
    Preview,
    /// A timer of `delay_ms`, answered with `QuiescenceElapsed`.
    ScheduleFinal { delay_ms: u64 },
    /// A final pass, now.
    Final,
}

/// `now + QUIESCENCE_MS`, held at the end of the clock's range.
pub open spec fn deadline_after(now: u64) -> u64 {
    if now > u64::MAX - QUIESCENCE_MS {
        u64::MAX
    } else {
        (now + QUIESCENCE_MS) as u64
    }
}

/// Whether a move at `now` is far enough from the last accepted trigger to
/// trigger a preview itself.
pub open spec fn preview_due(last_trigger: u64, now: u64) -> bool {
    now >= last_trigger && now - last_trigger >= PREVIEW_INTERVAL_MS
}

impl Phase {
    /// Content or slider is being dragged.
    pub open spec fn spec_is_dragging(&self) -> bool {
        *self == Phase::DraggingSlider || *self == Phase::DraggingPointer
    }

    /// Content or slider is being dragged.
    #[verifier::when_used_as_spec(spec_is_dragging)]
    pub fn is_dragging(&self) -> (b: bool)
        ensures
            b == self.spec_is_dragging(),
    {
        match self {
            Phase::DraggingSlider => true,
            Phase::DraggingPointer => true,
            _ => false,
        }
    }
}

/// The phase a drag of `source` puts the machine in.
pub open spec fn dragging(source: DragSource) -> Phase {
    match source {
        DragSource::Slider => Phase::DraggingSlider,
        DragSource::Pointer => Phase::DraggingPointer,
    }
}

/// The transition function of the throttle.
///
/// * A move puts the machine in the dragging phase of its source, from any
///   phase, which cancels a pending final pass.  It triggers a preview when
///   at least `PREVIEW_INTERVAL_MS` have passed since the last accepted
///   trigger, and is otherwise only taken into the state.
/// * A release while dragging starts the quiescence period and asks for its
///   timer; in any other phase it changes nothing.
/// * The timer running out, at or after the deadline of the quiescence
///   period, ends the gesture with one final pass; a timer that was
///   overtaken by new input finds another phase or a later deadline and is
///   ignored.
/// * Another filter triggers a final pass at once when idle; during a
///   gesture the final pass that ends it picks the filter up.
/// * A new image puts the machine back to idle.
pub open spec fn step(state: InteractionState, event: InputEvent) -> (InteractionState, Trigger) {
    match event {
        InputEvent::Move { source, now } => {
            if preview_due(state.last_trigger, now) {
                (InteractionState { phase: dragging(source), last_trigger: now }, Trigger::Preview)
            } else {
                (
                    InteractionState { phase: dragging(source), last_trigger: state.last_trigger },
                    Trigger::Hold,
                )
            }
        },
        InputEvent::Release { now } => {
            if state.phase.spec_is_dragging() {
                (
                    InteractionState {
                        phase: Phase::Quiescing { deadline: deadline_after(now) },
                        last_trigger: state.last_trigger,
                    },
                    Trigger::ScheduleFinal { delay_ms: QUIESCENCE_MS },
                )
            } else {
                (state, Trigger::Hold)
            }
        },
        InputEvent::QuiescenceElapsed { now } => {
            match state.phase {
                Phase::Quiescing { deadline } => {
                    if now >= deadline {
                        (
                            InteractionState {
                                phase: Phase::Idle,
                                last_trigger: state.last_trigger,
                            },
                            Trigger::Final,
                        )
                    } else {
                        (state, Trigger::Hold)
                    }
                },
                _ => (state, Trigger::Hold),
            }
        },
        InputEvent::AlgorithmChanged => {
            if state.phase == Phase::Idle {
                (state, Trigger::Final)
            } else {
                (state, Trigger::Hold)
            }
        },
        InputEvent::ImageLoaded => {
            (
                InteractionState { phase: Phase::Idle, last_trigger: state.last_trigger },
                Trigger::Hold,
            )
        },
    }
}

impl InteractionState {
    /// The idle machine of a session that starts at `now`.
    pub fn new(now: u64) -> (s: InteractionState)
        ensures
            s == (InteractionState { phase: Phase::Idle, last_trigger: now }),
    {
        InteractionState { phase: Phase::Idle, last_trigger: now }
    }

    /// Takes one event into the machine and returns what it triggers.
    pub fn handle(&mut self, event: InputEvent) -> (t: Trigger)
        ensures
            (*final(self), t) == step(*old(self), event),
    {
        match event {
            InputEvent::Move { source, now } => {
                self.phase = match source {
                    DragSource::Slider => Phase::DraggingSlider,
                    DragSource::Pointer => Phase::DraggingPointer,
                };
                if now >= self.last_trigger && now - self.last_trigger >= PREVIEW_INTERVAL_MS {
                    self.last_trigger = now;
                    Trigger::Preview
                } else {
                    Trigger::Hold
                }
            },
            InputEvent::Release { now } => {
                if self.phase.is_dragging() {
                    let deadline: u64 = if now > u64::MAX - QUIESCENCE_MS {
                        u64::MAX
                    } else {
                        now + QUIESCENCE_MS
                    };
                    self.phase = Phase::Quiescing { deadline };
                    Trigger::ScheduleFinal { delay_ms: QUIESCENCE_MS }
                } else {
                    Trigger::Hold
                }
            },
            InputEvent::QuiescenceElapsed { now } => {
                match self.phase {
                    Phase::Quiescing { deadline } => {
                        if now >= deadline {
                            self.phase = Phase::Idle;
                            Trigger::Final
                        } else {
                            Trigger::Hold
                        }
                    },
                    _ => Trigger::Hold,
                }
            },
            InputEvent::AlgorithmChanged => {
                match self.phase {
                    Phase::Idle => Trigger::Final,
                    _ => Trigger::Hold,
                }
            },
            InputEvent::ImageLoaded => {
                self.phase = Phase::Idle;
                Trigger::Hold
            },
        }
    }
}

/// The state after a run of events, and what each of them triggered.
pub open spec fn run(state: InteractionState, events: Seq<InputEvent>) -> (
    InteractionState,
    Seq<Trigger>,
)
    decreases events.len(),
{
    if events.len() == 0 {
        (state, Seq::empty())
    } else {
        let (before, triggers) = run(state, events.drop_last());
        let (after, trigger) = step(before, events.last());
        (after, triggers.push(trigger))
    }
}

/// How often `wanted` occurs among `triggers`.
pub open spec fn count(triggers: Seq<Trigger>, wanted: Trigger) -> nat
    decreases triggers.len(),
{
    if triggers.len() == 0 {
        0
    } else {
        count(triggers.drop_last(), wanted) + if triggers.last() == wanted {
            1nat
        } else {
            0nat
        }
    }
}

/// `events` is a stream of moves, the first at `start` and each `interval`
/// milliseconds after the one before.
pub open spec fn is_drag_stream(events: Seq<InputEvent>, start: int, interval: int) -> bool {
    forall|i: int|
        0 <= i < events.len() ==> (#[trigger] events[i] matches InputEvent::Move { now, .. }
            && now == start + i * interval)
}

/// Every event of `events` is a move.
pub open spec fn all_moves(events: Seq<InputEvent>) -> bool {
    forall|i: int| 0 <= i < events.len() ==> #[trigger] events[i] is Move
}

/// A run of moves triggers no final pass and leaves the machine dragging.
proof fn lemma_moves(state: InteractionState, events: Seq<InputEvent>)
    requires
        all_moves(events),
    ensures
        run(state, events).1.len() == events.len(),
        count(run(state, events).1, Trigger::Final) == 0,
        events.len() >= 1 ==> run(state, events).0.phase.spec_is_dragging(),
    decreases events.len(),
{
    if events.len() > 0 {
        let earlier = events.drop_last();
        assert(all_moves(earlier)) by {
            assert forall|i: int| 0 <= i < earlier.len() implies #[trigger] earlier[i] is Move by {
                assert(earlier[i] == events[i]);
            }
        }
        lemma_moves(state, earlier);
        assert(events.last() == events[events.len() - 1]);
        assert(run(state, events).1.drop_last() == run(state, earlier).1);
    }
}

/// `x / d` rounded up.
pub open spec fn ceil_div(x: int, d: int) -> int {
    (x + d - 1) / d
}

/// The previews accepted in a stream of moves lie `PREVIEW_INTERVAL_MS`
/// apart: with `c` of them, the last was accepted at least
/// `(c - 1) * PREVIEW_INTERVAL_MS` after the stream began and no later than
/// its last move.
proof fn lemma_drag_stream(
    state: InteractionState,
    events: Seq<InputEvent>,
    start: int,
    interval: int,
)
    requires
        is_drag_stream(events, start, interval),
        interval >= 0,
    ensures
        count(run(state, events).1, Trigger::Preview) == 0 ==> run(state, events).0.last_trigger
            == state.last_trigger,
        count(run(state, events).1, Trigger::Preview) >= 1 ==> {
            let previews = count(run(state, events).1, Trigger::Preview);
            let last = run(state, events).0.last_trigger;
            &&& (previews - 1) * PREVIEW_INTERVAL_MS <= last - start
            &&& last <= start + (events.len() - 1) * interval
        },
    decreases events.len(),
{
    if events.len() > 0 {
        let earlier = events.drop_last();
        assert(is_drag_stream(earlier, start, interval)) by {
            assert forall|i: int| 0 <= i < earlier.len() implies (
            #[trigger] earlier[i] matches InputEvent::Move { now, .. } && now == start + i
                * interval) by {
                assert(earlier[i] == events[i]);
            }
        }
        lemma_drag_stream(state, earlier, start, interval);
        let (before, triggers) = run(state, earlier);
        let previews = count(triggers, Trigger::Preview);
        let n = earlier.len() as int;
        assert(events.last() == events[n]);
        let now = events[n]->Move_now;
        assert(now == start + n * interval);
        assert(run(state, events).1.drop_last() == triggers);
        assert(start + (n - 1) * interval <= start + n * interval) by (nonlinear_arith)
            requires
                interval >= 0,
        ;
        if preview_due(before.last_trigger, now) {
            assert(previews * PREVIEW_INTERVAL_MS <= now - start) by {
                if previews >= 1 {
                    assert((previews - 1) * PREVIEW_INTERVAL_MS + PREVIEW_INTERVAL_MS == previews
                        * PREVIEW_INTERVAL_MS) by (nonlinear_arith);
                } else {
                    assert(0 <= n * interval) by (nonlinear_arith)
                        requires
                            n >= 0,
                            interval >= 0,
                    ;
                }
            }
        }
    }
}

/// A stream of `n` moves spaced `interval` milliseconds apart triggers at
/// most `ceil(n * interval / PREVIEW_INTERVAL_MS)` preview passes, and no
/// final pass, whatever state the machine was in before.
///
/// The interval is at least one millisecond: moves that all bear the same
/// timestamp may still trigger the one preview that the first of them is
/// due.
pub proof fn law_previews_bounded(
    state: InteractionState,
    events: Seq<InputEvent>,
    start: int,
    interval: int,
)
    requires
        is_drag_stream(events, start, interval),
        interval >= 1,
    ensures
        count(run(state, events).1, Trigger::Preview) <= ceil_div(
            events.len() * interval,
            PREVIEW_INTERVAL_MS as int,
        ),
        count(run(state, events).1, Trigger::Final) == 0,
{
    lemma_drag_stream(state, events, start, interval);
    lemma_moves(state, events);
    let previews = count(run(state, events).1, Trigger::Preview) as int;
    let n = events.len() as int;
    if previews >= 1 {
        assert(previews <= (n * interval + 300 - 1) / 300) by (nonlinear_arith)
            requires
                (previews - 1) * 300 <= (n - 1) * interval,
                interval >= 1,
                n >= 0,
        ;
    } else {
        assert(0 <= (n * interval + 300 - 1) / 300) by (nonlinear_arith)
            requires
                interval >= 1,
                n >= 0,
        ;
    }
}

/// A gesture ends with exactly one final pass: after one or more moves, a
/// release, and the timer of the release running out once the quiescence
/// period has passed, the run holds one final trigger, its last, and the
/// machine is idle again.  A timer that runs out after that triggers
/// nothing.
pub proof fn law_one_final_after_gesture(
    state: InteractionState,
    events: Seq<InputEvent>,
    release_at: u64,
    timer_at: u64,
    later: u64,
)
    requires
        all_moves(events),
        events.len() >= 1,
        timer_at >= release_at + QUIESCENCE_MS,
    ensures
        ({
            let gesture = events.push(InputEvent::Release { now: release_at }).push(
                InputEvent::QuiescenceElapsed { now: timer_at },
            );
            let (end, triggers) = run(state, gesture);
            &&& count(triggers, Trigger::Final) == 1
            &&& triggers.last() == Trigger::Final
            &&& end.phase == Phase::Idle
            &&& step(end, InputEvent::QuiescenceElapsed { now: later }).1 == Trigger::Hold
        }),
{
    lemma_moves(state, events);
    let released = events.push(InputEvent::Release { now: release_at });
    let gesture = released.push(InputEvent::QuiescenceElapsed { now: timer_at });
    assert(released.drop_last() == events);
    assert(gesture.drop_last() == released);
    let (dragged, first) = run(state, events);
    let (quiescing, second) = run(state, released);
    let (end, third) = run(state, gesture);
    assert(second == first.push(Trigger::ScheduleFinal { delay_ms: QUIESCENCE_MS }));
    assert(second.drop_last() == first);
    assert(second.last() == Trigger::ScheduleFinal { delay_ms: QUIESCENCE_MS });
    assert(count(second, Trigger::Final) == count(first, Trigger::Final));
    assert(quiescing.phase == Phase::Quiescing { deadline: deadline_after(release_at) });
    assert(third == second.push(Trigger::Final));
    assert(third.drop_last() == second);
    assert(count(third, Trigger::Final) == count(second, Trigger::Final) + 1);
}

/// A release that is followed by new input before its timer runs out
/// triggers no final pass: the move cancels it, and the overtaken timer is
/// ignored.
pub proof fn law_move_cancels_pending_final(
    state: InteractionState,
    release_at: u64,
    source: DragSource,
    moved_at: u64,
    timer_at: u64,
)
    requires
        state.phase.spec_is_dragging(),
    ensures
        ({
            let released = step(state, InputEvent::Release { now: release_at }).0;
            let resumed = step(released, InputEvent::Move { source, now: moved_at }).0;
            &&& resumed.phase == dragging(source)
            &&& step(resumed, InputEvent::QuiescenceElapsed { now: timer_at }) == (
                resumed,
                Trigger::Hold,
            )
        }),
{
}

} // verus!
