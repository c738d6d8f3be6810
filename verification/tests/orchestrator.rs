use frame_orchestrator::orchestrator::{Action, Event, FrameState, Orchestrator};
use frame_orchestrator::surface::SurfaceConfig;
use frame_orchestrator::texture::Extent3d;

const FRAME: [Event; 5] = [
    Event::RedrawRequested,
    Event::FrameAcquired,
    Event::CommandsRecorded,
    Event::CommandsSubmitted,
    Event::FramePresented,
];

const ALL: [Event; 11] = [
    Event::Resized { width: 10, height: 20 },
    Event::ScaleFactorChanged { width: 30, height: 40 },
    Event::RedrawRequested,
    Event::MainEventsCleared,
    Event::CloseRequested,
    Event::EscapePressed,
    Event::FrameAcquired,
    Event::AcquireFailed,
    Event::CommandsRecorded,
    Event::CommandsSubmitted,
    Event::FramePresented,
];

fn after(events: &[Event]) -> Orchestrator {
    let mut orchestrator = Orchestrator::new(800, 600);
    for event in events {
        orchestrator.handle_event(*event);
    }
    orchestrator
}

fn extent(width: u32, height: u32) -> Extent3d {
    Extent3d { width, height, depth: 1 }
}

#[test]
fn a_new_orchestrator_is_idle_and_configured_for_the_window() {
    let orchestrator = Orchestrator::new(800, 600);
    assert_eq!(orchestrator.state, FrameState::Idle);
    assert!(!orchestrator.closed);
    assert_eq!(orchestrator.config, SurfaceConfig::new(800, 600));
}

#[test]
fn a_frame_runs_through_its_five_states() {
    let mut orchestrator = Orchestrator::new(800, 600);
    assert_eq!(orchestrator.handle_event(Event::RedrawRequested), Action::AcquireFrame);
    assert_eq!(orchestrator.state, FrameState::Acquiring);
    assert_eq!(
        orchestrator.handle_event(Event::FrameAcquired),
        Action::Record { target: extent(800, 600) }
    );
    assert_eq!(orchestrator.state, FrameState::Recording);
    assert_eq!(orchestrator.handle_event(Event::CommandsRecorded), Action::Submit);
    assert_eq!(orchestrator.state, FrameState::Submitted);
    assert_eq!(orchestrator.handle_event(Event::CommandsSubmitted), Action::Present);
    assert_eq!(orchestrator.state, FrameState::Presenting);
    assert_eq!(orchestrator.handle_event(Event::FramePresented), Action::Wait);
    assert_eq!(orchestrator, Orchestrator::new(800, 600));
}

#[test]
fn frames_follow_one_another() {
    let mut orchestrator = Orchestrator::new(640, 480);
    for _ in 0..3 {
        let actions: Vec<Action> = FRAME.iter().map(|e| orchestrator.handle_event(*e)).collect();
        assert_eq!(
            actions,
            vec![
                Action::AcquireFrame,
                Action::Record { target: extent(640, 480) },
                Action::Submit,
                Action::Present,
                Action::Wait,
            ]
        );
    }
}

#[test]
fn the_frame_after_a_resize_is_recorded_into_the_new_size() {
    let mut orchestrator = Orchestrator::new(800, 600);
    assert_eq!(
        orchestrator.handle_event(Event::Resized { width: 400, height: 300 }),
        Action::Configure(SurfaceConfig::new(400, 300))
    );
    assert_eq!(orchestrator.config.width, 400);
    assert_eq!(orchestrator.config.height, 300);
    assert_eq!(orchestrator.state, FrameState::Idle);
    assert_eq!(orchestrator.handle_event(Event::RedrawRequested), Action::AcquireFrame);
    assert_eq!(
        orchestrator.handle_event(Event::FrameAcquired),
        Action::Record { target: extent(400, 300) }
    );
}

#[test]
fn a_resize_in_mid_frame_drops_the_frame_and_its_image() {
    for done in 1..5 {
        let mut orchestrator = after(&FRAME[..done]);
        assert!(orchestrator.state != FrameState::Idle);
        assert_eq!(
            orchestrator.handle_event(Event::Resized { width: 400, height: 300 }),
            Action::Configure(SurfaceConfig::new(400, 300))
        );
        assert_eq!(orchestrator.state, FrameState::Idle);
        for late in &FRAME[1..] {
            assert_eq!(orchestrator.handle_event(*late), Action::Wait);
            assert_eq!(orchestrator.state, FrameState::Idle);
        }
        assert_eq!(orchestrator.handle_event(Event::RedrawRequested), Action::AcquireFrame);
        assert_eq!(
            orchestrator.handle_event(Event::FrameAcquired),
            Action::Record { target: extent(400, 300) }
        );
    }
}

#[test]
fn a_changed_scale_factor_is_a_resize() {
    let mut scaled = Orchestrator::new(800, 600);
    let mut resized = Orchestrator::new(800, 600);
    assert_eq!(
        scaled.handle_event(Event::ScaleFactorChanged { width: 1600, height: 1200 }),
        resized.handle_event(Event::Resized { width: 1600, height: 1200 })
    );
    assert_eq!(scaled, resized);
    assert_eq!(scaled.config, SurfaceConfig::new(1600, 1200));
}

#[test]
fn the_same_size_twice_leaves_the_surface_as_once() {
    let event = Event::Resized { width: 1024, height: 768 };
    let mut once = Orchestrator::new(800, 600);
    let first = once.handle_event(event);
    let mut twice = once;
    let second = twice.handle_event(event);
    assert_eq!(first, second);
    assert_eq!(once, twice);
    assert_eq!(first, Action::Configure(SurfaceConfig::new(1024, 768)));
}

#[test]
fn the_surface_follows_the_last_size_reported() {
    let orchestrator = after(&[
        Event::Resized { width: 1, height: 2 },
        Event::RedrawRequested,
        Event::ScaleFactorChanged { width: 3, height: 4 },
        Event::MainEventsCleared,
        Event::Resized { width: 5, height: 6 },
        Event::RedrawRequested,
        Event::FrameAcquired,
    ]);
    assert_eq!(orchestrator.config, SurfaceConfig::new(5, 6));
    assert_eq!(orchestrator.state, FrameState::Recording);
}

#[test]
fn a_failed_acquisition_reconfigures_and_skips_the_frame() {
    let mut orchestrator = after(&[Event::Resized { width: 400, height: 300 }, Event::RedrawRequested]);
    assert_eq!(
        orchestrator.handle_event(Event::AcquireFailed),
        Action::Configure(SurfaceConfig::new(400, 300))
    );
    assert_eq!(orchestrator.state, FrameState::Idle);
    assert_eq!(orchestrator.handle_event(Event::CommandsRecorded), Action::Wait);
    assert_eq!(orchestrator.handle_event(Event::RedrawRequested), Action::AcquireFrame);
}

#[test]
fn no_second_image_is_acquired_while_a_frame_is_in_progress() {
    for done in 1..5 {
        let mut orchestrator = after(&FRAME[..done]);
        let before = orchestrator;
        assert_eq!(orchestrator.handle_event(Event::RedrawRequested), Action::Wait);
        assert_eq!(orchestrator, before);
    }
}

#[test]
fn events_out_of_turn_change_nothing() {
    let device = [
        Event::FrameAcquired,
        Event::AcquireFailed,
        Event::CommandsRecorded,
        Event::CommandsSubmitted,
        Event::FramePresented,
    ];
    let expected = [
        (FrameState::Idle, None),
        (FrameState::Acquiring, Some(0)),
        (FrameState::Recording, Some(2)),
        (FrameState::Submitted, Some(3)),
        (FrameState::Presenting, Some(4)),
    ];
    for (done, (state, awaited)) in expected.iter().enumerate() {
        let start = after(&FRAME[..done]);
        assert_eq!(start.state, *state);
        for (i, event) in device.iter().enumerate() {
            if Some(i) == *awaited || (done == 1 && i == 1) {
                continue;
            }
            let mut orchestrator = start;
            assert_eq!(orchestrator.handle_event(*event), Action::Wait);
            assert_eq!(orchestrator, start);
        }
    }
}

#[test]
fn cleared_events_ask_for_a_redraw() {
    for done in 0..5 {
        let mut orchestrator = after(&FRAME[..done]);
        let before = orchestrator;
        assert_eq!(orchestrator.handle_event(Event::MainEventsCleared), Action::RequestRedraw);
        assert_eq!(orchestrator, before);
    }
}

#[test]
fn closing_ends_the_loop_for_good() {
    for close in [Event::CloseRequested, Event::EscapePressed] {
        for done in 0..5 {
            let mut orchestrator = after(&FRAME[..done]);
            let before = orchestrator;
            assert_eq!(orchestrator.handle_event(close), Action::Exit);
            assert!(orchestrator.closed);
            assert_eq!(orchestrator.state, before.state);
            assert_eq!(orchestrator.config, before.config);
            let closed = orchestrator;
            for event in ALL {
                assert_eq!(orchestrator.handle_event(event), Action::Exit);
                assert_eq!(orchestrator, closed);
            }
        }
    }
}
