use image_browser::throttle::{
    DragSource, InputEvent, InteractionState, Phase, Trigger, PREVIEW_INTERVAL_MS, QUIESCENCE_MS,
};

fn slide(now: u64) -> InputEvent {
    InputEvent::Move { source: DragSource::Slider, now }
}

fn drag(now: u64) -> InputEvent {
    InputEvent::Move { source: DragSource::Pointer, now }
}

/// Feeds `n` moves spaced `interval` apart, the first at `start`, and
/// counts the previews.
fn previews_of_stream(machine: &mut InteractionState, start: u64, interval: u64, n: u64) -> u64 {
    let mut previews = 0;
    for i in 0..n {
        match machine.handle(slide(start + i * interval)) {
            Trigger::Preview => previews += 1,
            Trigger::Hold => {}
            other => panic!("a move triggered {:?}", other),
        }
    }
    previews
}

#[test]
fn thresholds_are_three_hundred_milliseconds() {
    assert_eq!(PREVIEW_INTERVAL_MS, 300);
    assert_eq!(QUIESCENCE_MS, 300);
}

#[test]
fn new_machine_is_idle() {
    let machine = InteractionState::new(42);
    assert_eq!(machine, InteractionState { phase: Phase::Idle, last_trigger: 42 });
    assert!(!machine.phase.is_dragging());
}

#[test]
fn move_within_the_interval_is_coalesced() {
    let mut machine = InteractionState::new(1_000);
    assert_eq!(machine.handle(slide(1_299)), Trigger::Hold);
    assert_eq!(machine, InteractionState { phase: Phase::DraggingSlider, last_trigger: 1_000 });
    assert_eq!(machine.handle(slide(1_300)), Trigger::Preview);
    assert_eq!(machine, InteractionState { phase: Phase::DraggingSlider, last_trigger: 1_300 });
    assert_eq!(machine.handle(drag(1_599)), Trigger::Hold);
    assert_eq!(machine.phase, Phase::DraggingPointer);
    assert!(machine.phase.is_dragging());
    assert_eq!(machine.handle(drag(1_600)), Trigger::Preview);
}

#[test]
fn clock_running_backwards_triggers_nothing() {
    let mut machine = InteractionState::new(5_000);
    assert_eq!(machine.handle(slide(10)), Trigger::Hold);
    assert_eq!(machine.last_trigger, 5_000);
}

#[test]
fn drag_stream_triggers_bounded_previews() {
    // ten moves a hundred milliseconds apart: at most ceil(1000 / 300) = 4.
    let mut machine = InteractionState::new(0);
    let previews = previews_of_stream(&mut machine, 10_000, 100, 10);
    assert_eq!(previews, 4);
    for (interval, n) in [(1u64, 1u64), (1, 1000), (7, 333), (150, 9), (299, 50), (299, 1)] {
        for since_last in [0u64, 1, 299, 300, 10_000] {
            let mut machine = InteractionState::new(50_000 - since_last);
            let previews = previews_of_stream(&mut machine, 50_000, interval, n);
            let bound = (n * interval + PREVIEW_INTERVAL_MS - 1) / PREVIEW_INTERVAL_MS;
            assert!(previews <= bound, "{previews} previews for {n} moves every {interval} ms");
        }
    }
}

#[test]
fn one_final_render_after_the_gesture() {
    let mut machine = InteractionState::new(0);
    previews_of_stream(&mut machine, 1_000, 50, 20);
    assert_eq!(
        machine.handle(InputEvent::Release { now: 2_000 }),
        Trigger::ScheduleFinal { delay_ms: 300 }
    );
    assert_eq!(machine.phase, Phase::Quiescing { deadline: 2_300 });
    assert_eq!(machine.handle(InputEvent::QuiescenceElapsed { now: 2_300 }), Trigger::Final);
    assert_eq!(machine.phase, Phase::Idle);
    assert_eq!(machine.handle(InputEvent::QuiescenceElapsed { now: 2_400 }), Trigger::Hold);
    assert_eq!(machine.handle(InputEvent::Release { now: 2_500 }), Trigger::Hold);
    assert_eq!(machine.phase, Phase::Idle);
}

#[test]
fn early_timer_is_ignored() {
    let mut machine = InteractionState::new(0);
    machine.handle(slide(1_000));
    machine.handle(InputEvent::Release { now: 1_100 });
    assert_eq!(machine.handle(InputEvent::QuiescenceElapsed { now: 1_399 }), Trigger::Hold);
    assert_eq!(machine.phase, Phase::Quiescing { deadline: 1_400 });
    assert_eq!(machine.handle(InputEvent::QuiescenceElapsed { now: 1_400 }), Trigger::Final);
}

#[test]
fn move_during_quiescence_cancels_the_final_render() {
    let mut machine = InteractionState::new(0);
    machine.handle(slide(1_000));
    machine.handle(InputEvent::Release { now: 1_100 });
    assert_eq!(machine.handle(slide(1_200)), Trigger::Hold);
    assert_eq!(machine.phase, Phase::DraggingSlider);
    // the timer of the first release runs out: nothing happens
    assert_eq!(machine.handle(InputEvent::QuiescenceElapsed { now: 1_400 }), Trigger::Hold);
    assert_eq!(machine.phase, Phase::DraggingSlider);
    // the second release starts a new period; the old timer's time is too early for it
    machine.handle(InputEvent::Release { now: 1_350 });
    assert_eq!(machine.handle(InputEvent::QuiescenceElapsed { now: 1_400 }), Trigger::Hold);
    assert_eq!(machine.handle(InputEvent::QuiescenceElapsed { now: 1_650 }), Trigger::Final);
    assert_eq!(machine.phase, Phase::Idle);
}

#[test]
fn filter_change_renders_at_once_only_when_idle() {
    let mut machine = InteractionState::new(0);
    assert_eq!(machine.handle(InputEvent::AlgorithmChanged), Trigger::Final);
    assert_eq!(machine.phase, Phase::Idle);
    machine.handle(drag(500));
    assert_eq!(machine.handle(InputEvent::AlgorithmChanged), Trigger::Hold);
    machine.handle(InputEvent::Release { now: 600 });
    assert_eq!(machine.handle(InputEvent::AlgorithmChanged), Trigger::Hold);
    assert_eq!(machine.phase, Phase::Quiescing { deadline: 900 });
}

#[test]
fn new_image_resets_to_idle() {
    let mut machine = InteractionState::new(0);
    machine.handle(drag(500));
    assert_eq!(machine.handle(InputEvent::ImageLoaded), Trigger::Hold);
    assert_eq!(machine, InteractionState { phase: Phase::Idle, last_trigger: 500 });
    machine.handle(drag(900));
    machine.handle(InputEvent::Release { now: 950 });
    machine.handle(InputEvent::ImageLoaded);
    assert_eq!(machine.handle(InputEvent::QuiescenceElapsed { now: 5_000 }), Trigger::Hold);
}

#[test]
fn deadline_stops_at_the_end_of_the_clock() {
    let mut machine = InteractionState::new(0);
    machine.handle(slide(u64::MAX - 5));
    assert_eq!(
        machine.handle(InputEvent::Release { now: u64::MAX - 5 }),
        Trigger::ScheduleFinal { delay_ms: 300 }
    );
    assert_eq!(machine.phase, Phase::Quiescing { deadline: u64::MAX });
    assert_eq!(machine.handle(InputEvent::QuiescenceElapsed { now: u64::MAX }), Trigger::Final);
}
