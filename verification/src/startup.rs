//! Getting a device: an adapter that can present to the surface, then a
//! logical device with its queue. Either step can fail, and a failure is
//! final.

use vstd::prelude::*;

verus! {

/// Which adapter to prefer where there are several.
#[derive(Copy, Clone, Debug, PartialEq, Eq, Structural)]
pub enum PowerPreference {
    Default,
    LowPower,
    HighPerformance,
}

/// The graphics backends that an adapter may come from.
#[derive(Copy, Clone, Debug, PartialEq, Eq, Structural)]
pub struct Backends {
    pub vulkan: bool,
    pub metal: bool,
    pub dx12: bool,
    pub dx11: bool,
    pub gl: bool,
    pub browser_webgpu: bool,
}

/// What is asked of the adapter and of the device. The adapter must always
/// be able to present to the surface of the window.
#[derive(Copy, Clone, Debug, PartialEq, Eq, Structural)]
pub struct DeviceRequest {
    pub power_preference: PowerPreference,
    pub backends: Backends,
    pub anisotropic_filtering: bool,
    pub max_bind_groups: u32,
}

/// Why there is no device.
#[derive(Copy, Clone, Debug, PartialEq, Eq, Structural)]
pub enum StartupError {
    /// No adapter of the backends asked for can present to the surface.
    NoAdapter,
    /// The adapter turned the device request down.
    DeviceRejected,
}

/// How far getting a device has come.
#[derive(Copy, Clone, Debug, PartialEq, Eq, Structural)]
pub enum Startup {
    /// Nothing has been asked for yet.
    Begin,
    /// The adapter has been asked for.
    AwaitingAdapter,
    /// There is an adapter, and the device has been asked for.
    AwaitingDevice,
    /// There is a device with its queue.
    Ready,
    /// There will be no device.
    Failed(StartupError),
}

/// What the caller reports while getting a device.
#[derive(Copy, Clone, Debug, PartialEq, Eq, Structural)]
pub enum StartupEvent {
    /// The surface of the window exists.
    SurfaceCreated,
    AdapterFound,
    NoAdapterFound,
    DeviceCreated,
    DeviceRejected,
}

/// What the caller is to do next.
#[derive(Copy, Clone, Debug, PartialEq, Eq, Structural)]
pub enum StartupAction {
    /// Nothing: the event came out of turn.
    Wait,
    /// Ask for an adapter as the request says, compatible with the surface.
    RequestAdapter(DeviceRequest),
    /// Ask the adapter for a device as the request says, and wait for it.
    RequestDevice(DeviceRequest),
    /// Go on to build resources and pipelines.
    Proceed,
    /// Give up and report the error.
    Abort(StartupError),
}

/// The request of this program: any Vulkan adapter, no anisotropic
/// filtering, four bind groups.
pub open spec fn spec_device_request() -> DeviceRequest {
    DeviceRequest {
        power_preference: PowerPreference::Default,
        backends: Backends {
            vulkan: true,
            metal: false,
            dx12: false,
            dx11: false,
            gl: false,
            browser_webgpu: false,
        },
        anisotropic_filtering: false,
        max_bind_groups: 4,
    }
}

/// The request of this program: any Vulkan adapter, no anisotropic
/// filtering, four bind groups.
pub fn device_request() -> (request: DeviceRequest)
    ensures
        request == spec_device_request(),
{
    DeviceRequest {
        power_preference: PowerPreference::Default,
        backends: Backends {
            vulkan: true,
            metal: false,
            dx12: false,
            dx11: false,
            gl: false,
            browser_webgpu: false,
        },
        anisotropic_filtering: false,
        max_bind_groups: 4,
    }
}

impl Startup {
    /// The state after an event, and the action that answers it. The adapter
    /// is asked for once the surface exists, the device once there is an
    /// adapter. A step that fails ends the startup: nothing is asked for
    /// again, and every later event is answered with the same error. Events
    /// out of turn change nothing.
    pub open spec fn spec_step(self, event: StartupEvent, request: DeviceRequest) -> (
        Startup,
        StartupAction,
    ) {
        match (self, event) {
            (Startup::Failed(error), _) => (self, StartupAction::Abort(error)),
            (Startup::Ready, _) => (self, StartupAction::Proceed),
            (Startup::Begin, StartupEvent::SurfaceCreated) => (
                Startup::AwaitingAdapter,
                StartupAction::RequestAdapter(request),
            ),
            (Startup::AwaitingAdapter, StartupEvent::AdapterFound) => (
                Startup::AwaitingDevice,
                StartupAction::RequestDevice(request),
            ),
            (Startup::AwaitingAdapter, StartupEvent::NoAdapterFound) => (
                Startup::Failed(StartupError::NoAdapter),
                StartupAction::Abort(StartupError::NoAdapter),
            ),
            (Startup::AwaitingDevice, StartupEvent::DeviceCreated) => (
                Startup::Ready,
                StartupAction::Proceed,
            ),
            (Startup::AwaitingDevice, StartupEvent::DeviceRejected) => (
                Startup::Failed(StartupError::DeviceRejected),
                StartupAction::Abort(StartupError::DeviceRejected),
            ),
            _ => (self, StartupAction::Wait),
        }
    }

    /// Takes one event and says what to do next.
    pub fn step(&mut self, event: StartupEvent, request: DeviceRequest) -> (action: StartupAction)
        ensures
            (*final(self), action) == old(self).spec_step(event, request),
    {
        match (*self, event) {
            (Startup::Failed(error), _) => StartupAction::Abort(error),
            (Startup::Ready, _) => StartupAction::Proceed,
            (Startup::Begin, StartupEvent::SurfaceCreated) => {
                *self = Startup::AwaitingAdapter;
                StartupAction::RequestAdapter(request)
            },
            (Startup::AwaitingAdapter, StartupEvent::AdapterFound) => {
                *self = Startup::AwaitingDevice;
                StartupAction::RequestDevice(request)
            },
            (Startup::AwaitingAdapter, StartupEvent::NoAdapterFound) => {
                *self = Startup::Failed(StartupError::NoAdapter);
                StartupAction::Abort(StartupError::NoAdapter)
            },
            (Startup::AwaitingDevice, StartupEvent::DeviceCreated) => {
                *self = Startup::Ready;
                StartupAction::Proceed
            },
            (Startup::AwaitingDevice, StartupEvent::DeviceRejected) => {
                *self = Startup::Failed(StartupError::DeviceRejected);
                StartupAction::Abort(StartupError::DeviceRejected)
            },
            _ => StartupAction::Wait,
        }
    }
}

/// A failed startup is not retried, and a device is asked for only of an
/// adapter that was found: after a failure no event leads to another
/// request, and the error reported stays the same.
pub proof fn lemma_failure_is_final(
    state: Startup,
    event: StartupEvent,
    request: DeviceRequest,
)
    ensures
        state matches Startup::Failed(error) ==> state.spec_step(event, request) == (
            state,
            StartupAction::Abort(error),
        ),
        state.spec_step(event, request).1 is RequestAdapter ==> state is Begin,
        state.spec_step(event, request).1 is RequestDevice ==> state is AwaitingAdapter && event
            is AdapterFound,
        state.spec_step(event, request).0 is Ready ==> state is Ready || (state is AwaitingDevice
            && event is DeviceCreated),
{
}

} // verus!
