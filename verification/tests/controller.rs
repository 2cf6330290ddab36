use noise_generator::controller::{window_title, Controller, Phase, WindowModeState};
use noise_generator::event::{
    Action, Event, FramePlan, FrameStep, HorizontalAlign, KeyCode, Modifiers, OverlayRequest,
    Snapshot, VerticalAlign, OVERLAY_CHANNEL_BITS, OVERLAY_SCALE_BITS, THROTTLE_MILLIS,
};
use noise_generator::rate::{FrameRateSample, RateReading};
use noise_generator::seed::FrameSeed;
use noise_generator::surface::SurfaceConfig;

fn no_modifiers() -> Modifiers {
    Modifiers { shift: false, ctrl: false, alt: false, logo: false }
}

fn released(code: KeyCode) -> Event {
    Event::KeyReleased { code, modifiers: no_modifiers() }
}

fn at(now: u64) -> Snapshot {
    Snapshot::new(now, 800, 600)
}

#[test]
fn window_title_is_fixed() {
    assert_eq!(window_title(), "Noise Generator");
}

#[test]
fn starts_idle_windowed_and_empty() {
    let controller = Controller::new(800, 600, 123);
    assert_eq!(controller.phase, Phase::Idle);
    assert_eq!(controller.mode, WindowModeState { is_fullscreen: false, alt_held: false });
    assert_eq!(controller.seed, FrameSeed::new(0));
    assert_eq!(controller.rate, FrameRateSample::new(123));
    assert_eq!(controller.displayed, None);
    assert_eq!(controller.surface.active(), SurfaceConfig::new(800, 600));
}

#[test]
fn close_request_exits() {
    let mut controller = Controller::new(800, 600, 0);
    assert_eq!(controller.handle_event(Event::Close, at(0)), Action::Exit);
    assert_eq!(controller.phase, Phase::Exited);
}

#[test]
fn escape_release_exits() {
    let mut controller = Controller::new(800, 600, 0);
    assert_eq!(controller.handle_event(released(KeyCode::Escape), at(0)), Action::Exit);
    assert_eq!(controller.phase, Phase::Exited);
}

#[test]
fn nothing_happens_after_exit() {
    let mut controller = Controller::new(800, 600, 0);
    controller.handle_event(Event::ModifiersChanged { alt: true }, at(0));
    controller.handle_event(Event::Close, at(0));
    let frozen = controller;
    let events = [
        Event::Close,
        released(KeyCode::Return),
        released(KeyCode::Escape),
        Event::Resized { width: 10, height: 10 },
        Event::ScaleFactorChanged { width: 20, height: 20 },
        Event::ModifiersChanged { alt: false },
        Event::MainEventsCleared,
        Event::RedrawRequested,
    ];
    for event in events {
        assert_eq!(controller.handle_event(event, at(2_000_000_000)), Action::Exit);
        assert_eq!(controller, frozen);
    }
}

#[test]
fn return_with_alt_toggles_fullscreen() {
    let mut controller = Controller::new(800, 600, 0);
    controller.handle_event(Event::ModifiersChanged { alt: true }, at(0));
    assert!(controller.mode.alt_held);
    assert_eq!(
        controller.handle_event(released(KeyCode::Return), at(0)),
        Action::SetFullscreen { fullscreen: true }
    );
    assert!(controller.mode.is_fullscreen);
    assert_eq!(
        controller.handle_event(released(KeyCode::Return), at(0)),
        Action::SetFullscreen { fullscreen: false }
    );
    assert!(!controller.mode.is_fullscreen);
}

#[test]
fn return_without_alt_does_nothing() {
    let mut controller = Controller::new(800, 600, 0);
    let before = controller;
    assert_eq!(controller.handle_event(released(KeyCode::Return), at(0)), Action::Wait);
    assert_eq!(controller, before);
    controller.handle_event(Event::ModifiersChanged { alt: true }, at(0));
    controller.handle_event(Event::ModifiersChanged { alt: false }, at(0));
    assert_eq!(controller.handle_event(released(KeyCode::Return), at(0)), Action::Wait);
    assert_eq!(controller, before);
}

#[test]
fn modifiers_reported_with_the_key_are_not_consulted() {
    let mut controller = Controller::new(800, 600, 0);
    let with_alt = Event::KeyReleased {
        code: KeyCode::Return,
        modifiers: Modifiers { shift: false, ctrl: false, alt: true, logo: false },
    };
    assert_eq!(controller.handle_event(with_alt, at(0)), Action::Wait);
    assert!(!controller.mode.is_fullscreen);
    controller.handle_event(Event::ModifiersChanged { alt: true }, at(0));
    assert_eq!(
        controller.handle_event(released(KeyCode::Return), at(0)),
        Action::SetFullscreen { fullscreen: true }
    );
}

#[test]
fn fullscreen_toggle_leaves_render_state_alone() {
    let mut controller = Controller::new(800, 600, 0);
    controller.handle_event(Event::MainEventsCleared, at(10));
    controller.handle_event(Event::RedrawRequested, at(10));
    controller.handle_event(Event::ModifiersChanged { alt: true }, at(10));
    let before = controller;
    controller.handle_event(released(KeyCode::Return), at(10));
    assert_eq!(controller.seed, before.seed);
    assert_eq!(controller.rate, before.rate);
    assert_eq!(controller.surface, before.surface);
    assert_eq!(controller.displayed, before.displayed);
    assert_eq!(controller.phase, before.phase);
}

#[test]
fn other_keys_are_ignored() {
    let mut controller = Controller::new(800, 600, 0);
    controller.handle_event(Event::ModifiersChanged { alt: true }, at(0));
    let before = controller;
    assert_eq!(controller.handle_event(released(KeyCode::Other), at(0)), Action::Wait);
    assert_eq!(controller, before);
}

#[test]
fn tick_requests_a_redraw() {
    let mut controller = Controller::new(800, 600, 0);
    assert_eq!(
        controller.handle_event(Event::MainEventsCleared, at(1)),
        Action::RequestRedraw { refreshed: None }
    );
    assert_eq!(controller.phase, Phase::Idle);
    assert_eq!(controller.seed.value(), 1);
}

#[test]
fn empty_drawable_area_throttles() {
    assert_eq!(THROTTLE_MILLIS, 100);
    for (width, height) in [(0u32, 600u32), (800, 0), (0, 0), (0, u32::MAX), (u32::MAX, 0)] {
        let mut controller = Controller::new(800, 600, 0);
        controller.handle_event(Event::MainEventsCleared, at(1));
        let before = controller;
        let action =
            controller.handle_event(Event::RedrawRequested, Snapshot::new(2, width, height));
        assert_eq!(action, Action::Throttle { millis: 100 });
        assert_eq!(controller.phase, Phase::Throttled);
        assert_eq!(controller.rate, before.rate);
        assert_eq!(controller.seed, before.seed);
        assert_eq!(controller.surface, before.surface);
    }
}

#[test]
fn throttled_loop_renders_again_once_there_is_an_area() {
    let mut controller = Controller::new(800, 600, 0);
    controller.handle_event(Event::RedrawRequested, Snapshot::new(1, 0, 0));
    assert_eq!(controller.phase, Phase::Throttled);
    controller.handle_event(Event::MainEventsCleared, Snapshot::new(2, 0, 0));
    assert_eq!(controller.phase, Phase::Idle);
    let action = controller.handle_event(Event::RedrawRequested, Snapshot::new(3, 800, 600));
    assert!(matches!(action, Action::Render { .. }));
    assert_eq!(controller.phase, Phase::Rendering);
    assert_eq!(controller.rate.accumulated_frames, 1);
}

#[test]
fn frame_plan_centres_the_overlay() {
    let mut controller = Controller::new(800, 600, 0);
    controller.handle_event(Event::MainEventsCleared, at(1));
    let action = controller.handle_event(Event::RedrawRequested, Snapshot::new(2, 801, 601));
    let plan = match action {
        Action::Render { plan } => plan,
        other => panic!("expected a frame, got {:?}", other),
    };
    assert_eq!(plan.seed, FrameSeed::new(1));
    assert_eq!(plan.width, 801);
    assert_eq!(plan.height, 601);
    assert_eq!(plan.overlay, OverlayRequest::new(None, 801, 601));
    assert_eq!(plan.overlay.rate, None);
    assert_eq!(plan.overlay.position_x, 400);
    assert_eq!(plan.overlay.position_y, 300);
    assert_eq!(plan.overlay.h_align, HorizontalAlign::Center);
    assert_eq!(plan.overlay.v_align, VerticalAlign::Center);
    assert_eq!(f32::from_bits(plan.overlay.scale.bits()), 40.0);
    assert_eq!(f32::from_bits(plan.overlay.color.red.bits()), 1.0);
    assert_eq!(f32::from_bits(plan.overlay.color.green.bits()), 1.0);
    assert_eq!(f32::from_bits(plan.overlay.color.blue.bits()), 1.0);
    assert_eq!(f32::from_bits(plan.overlay.color.alpha.bits()), 1.0);
    assert_eq!(OVERLAY_CHANNEL_BITS, 1.0f32.to_bits());
    assert_eq!(OVERLAY_SCALE_BITS, 40.0f32.to_bits());
}

#[test]
fn frame_plan_shows_the_last_reading() {
    let mut controller = Controller::new(800, 600, 0);
    controller.handle_event(Event::RedrawRequested, at(0));
    controller.handle_event(Event::MainEventsCleared, at(500_000_000));
    let reading = RateReading { frames: 1, elapsed_nanos: 500_000_000 };
    let expected = FramePlan {
        seed: FrameSeed::new(1),
        surface: SurfaceConfig::new(800, 600),
        width: 800,
        height: 600,
        overlay: OverlayRequest::new(Some(reading), 800, 600),
    };
    assert_eq!(
        controller.handle_event(Event::RedrawRequested, at(500_000_001)),
        Action::Render { plan: expected }
    );
    controller.handle_event(Event::MainEventsCleared, at(600_000_000));
    assert_eq!(controller.displayed, Some(reading));
}

#[test]
fn frame_is_drawn_at_the_current_drawable_size() {
    let mut controller = Controller::new(800, 600, 0);
    controller.handle_event(Event::Resized { width: 1024, height: 768 }, at(0));
    match controller.handle_event(Event::RedrawRequested, Snapshot::new(1, 1000, 700)) {
        Action::Render { plan } => {
            assert_eq!((plan.width, plan.height), (1000, 700));
            assert_eq!((plan.overlay.position_x, plan.overlay.position_y), (500, 350));
            assert_eq!(plan.surface, SurfaceConfig::new(1024, 768));
        }
        other => panic!("expected a frame, got {:?}", other),
    }
    assert_eq!(controller.surface.active(), SurfaceConfig::new(1024, 768));
}

#[test]
fn replay_matches_event_by_event_handling() {
    let trace = vec![
        (Event::MainEventsCleared, at(100)),
        (Event::RedrawRequested, at(200)),
        (Event::ModifiersChanged { alt: true }, at(300)),
        (released(KeyCode::Return), at(400)),
        (Event::Resized { width: 320, height: 240 }, at(500)),
        (Event::MainEventsCleared, at(600_000_000)),
        (Event::RedrawRequested, Snapshot::new(600_000_001, 0, 240)),
        (released(KeyCode::Escape), at(700_000_000)),
        (Event::MainEventsCleared, at(800_000_000)),
    ];
    let mut stepped = Controller::new(800, 600, 0);
    let mut expected: Vec<Action> = Vec::new();
    for (event, snapshot) in &trace {
        expected.push(stepped.handle_event(*event, *snapshot));
    }
    let mut replayed = Controller::new(800, 600, 0);
    let actions = replayed.replay(&trace);
    assert_eq!(actions, expected);
    assert_eq!(replayed, stepped);
    assert_eq!(actions.len(), 9);
    assert_eq!(actions[3], Action::SetFullscreen { fullscreen: true });
    assert_eq!(
        actions[5],
        Action::RequestRedraw {
            refreshed: Some(RateReading { frames: 1, elapsed_nanos: 600_000_000 })
        }
    );
    assert_eq!(actions[6], Action::Throttle { millis: 100 });
    assert_eq!(actions[7], Action::Exit);
    assert_eq!(actions[8], Action::Exit);
    assert_eq!(replayed.seed.value(), 2);
}

#[test]
fn replay_of_nothing_changes_nothing() {
    let mut controller = Controller::new(800, 600, 9);
    let before = controller;
    assert_eq!(controller.replay(&Vec::new()), Vec::new());
    assert_eq!(controller, before);
}

#[test]
fn frame_steps_run_in_order() {
    let mut controller = Controller::new(800, 600, 0);
    let plan = match controller.handle_event(Event::RedrawRequested, at(1)) {
        Action::Render { plan } => plan,
        other => panic!("expected a frame, got {:?}", other),
    };
    assert_eq!(
        plan.steps(),
        vec![
            FrameStep::AcquireImage,
            FrameStep::MeasureOverlay,
            FrameStep::DrawEffect,
            FrameStep::DrawOverlay,
            FrameStep::Submit,
            FrameStep::Present,
            FrameStep::ReclaimStaging,
        ]
    );
}
