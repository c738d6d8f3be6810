use frame_orchestrator::startup::{
    device_request, Backends, PowerPreference, Startup, StartupAction, StartupError, StartupEvent,
};

const EVENTS: [StartupEvent; 5] = [
    StartupEvent::SurfaceCreated,
    StartupEvent::AdapterFound,
    StartupEvent::NoAdapterFound,
    StartupEvent::DeviceCreated,
    StartupEvent::DeviceRejected,
];

#[test]
fn the_request_is_for_any_vulkan_adapter() {
    let request = device_request();
    assert_eq!(request.power_preference, PowerPreference::Default);
    assert_eq!(
        request.backends,
        Backends {
            vulkan: true,
            metal: false,
            dx12: false,
            dx11: false,
            gl: false,
            browser_webgpu: false
        }
    );
    assert!(!request.anisotropic_filtering);
    assert_eq!(request.max_bind_groups, wgpu::Limits::default().max_bind_groups);
}

#[test]
fn startup_asks_for_the_adapter_and_then_for_the_device() {
    let request = device_request();
    let mut startup = Startup::Begin;
    assert_eq!(
        startup.step(StartupEvent::SurfaceCreated, request),
        StartupAction::RequestAdapter(request)
    );
    assert_eq!(startup, Startup::AwaitingAdapter);
    assert_eq!(
        startup.step(StartupEvent::AdapterFound, request),
        StartupAction::RequestDevice(request)
    );
    assert_eq!(startup, Startup::AwaitingDevice);
    assert_eq!(startup.step(StartupEvent::DeviceCreated, request), StartupAction::Proceed);
    assert_eq!(startup, Startup::Ready);
    for event in EVENTS {
        assert_eq!(startup.step(event, request), StartupAction::Proceed);
        assert_eq!(startup, Startup::Ready);
    }
}

#[test]
fn a_missing_adapter_ends_the_startup() {
    let request = device_request();
    let mut startup = Startup::AwaitingAdapter;
    assert_eq!(
        startup.step(StartupEvent::NoAdapterFound, request),
        StartupAction::Abort(StartupError::NoAdapter)
    );
    assert_eq!(startup, Startup::Failed(StartupError::NoAdapter));
    for event in EVENTS {
        assert_eq!(startup.step(event, request), StartupAction::Abort(StartupError::NoAdapter));
        assert_eq!(startup, Startup::Failed(StartupError::NoAdapter));
    }
}

#[test]
fn a_rejected_device_ends_the_startup() {
    let request = device_request();
    let mut startup = Startup::AwaitingDevice;
    assert_eq!(
        startup.step(StartupEvent::DeviceRejected, request),
        StartupAction::Abort(StartupError::DeviceRejected)
    );
    for event in EVENTS {
        assert_eq!(
            startup.step(event, request),
            StartupAction::Abort(StartupError::DeviceRejected)
        );
    }
}

#[test]
fn startup_events_out_of_turn_change_nothing() {
    let request = device_request();
    let awaited = [
        (Startup::Begin, vec![StartupEvent::SurfaceCreated]),
        (Startup::AwaitingAdapter, vec![StartupEvent::AdapterFound, StartupEvent::NoAdapterFound]),
        (Startup::AwaitingDevice, vec![StartupEvent::DeviceCreated, StartupEvent::DeviceRejected]),
    ];
    for (state, in_turn) in awaited {
        for event in EVENTS {
            if in_turn.contains(&event) {
                continue;
            }
            let mut startup = state;
            assert_eq!(startup.step(event, request), StartupAction::Wait);
            assert_eq!(startup, state);
        }
    }
}
