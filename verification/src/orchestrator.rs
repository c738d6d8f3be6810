//! The frame loop as a state machine: events come in, from the window and
//! from the device, and for each the orchestrator says what to do next.

use crate::surface::SurfaceConfig;
use crate::texture::Extent3d;
use vstd::prelude::*;

verus! {

/// Where the current frame stands.
#[derive(Copy, Clone, Debug, PartialEq, Eq, Structural)]
pub enum FrameState {
    /// No frame is in progress.
    Idle,
    /// The next image of the swap chain has been asked for.
    Acquiring,
    /// An image is held and the commands of the frame are being recorded.
    Recording,
    /// The commands are finished and on their way to the queue.
    Submitted,
    /// The queue has the commands and the image is being handed back.
    Presenting,
}

/// What the loop reports to the orchestrator.
#[derive(Copy, Clone, Debug, PartialEq, Eq, Structural)]
pub enum Event {
    /// The window has a new physical size.
    Resized { width: u32, height: u32 },
    /// The window's scale factor changed, which gave it a new physical size.
    ScaleFactorChanged { width: u32, height: u32 },
    /// The window wants to be drawn.
    RedrawRequested,
    /// The window system has no more events for now.
    MainEventsCleared,
    /// The user closed the window.
    CloseRequested,
    /// The user pressed Escape.
    EscapePressed,
    /// The swap chain handed out its next image.
    FrameAcquired,
    /// The swap chain had no image to hand out: it is out of date.
    AcquireFailed,
    /// The commands of the frame are recorded.
    CommandsRecorded,
    /// The queue has taken the commands.
    CommandsSubmitted,
    /// The image has been handed back for display.
    FramePresented,
}

/// What the loop is to do next.
#[derive(Copy, Clone, Debug, PartialEq, Eq, Structural)]
pub enum Action {
    /// Nothing: wait for the next event.
    Wait,
    /// Leave the loop.
    Exit,
    /// Make a new swap chain with this configuration and drop the old one,
    /// with any image taken from it.
    Configure(SurfaceConfig),
    /// Ask the window for a redraw.
    RequestRedraw,
    /// Ask the swap chain for its next image.
    AcquireFrame,
    /// Record the commands of the frame into an image of this size.
    Record { target: Extent3d },
    /// Finish the encoder and submit the commands to the queue.
    Submit,
    /// Hand the image back for display.
    Present,
}

/// The state of the frame loop: the configuration of the surface, where the
/// current frame stands, and whether the loop has been told to end.
#[derive(Copy, Clone, Debug, PartialEq, Eq, Structural)]
pub struct Orchestrator {
    pub config: SurfaceConfig,
    pub state: FrameState,
    pub closed: bool,
}

impl Orchestrator {
    /// The orchestrator of a window of the given physical size, before its
    /// first frame.
    pub open spec fn spec_new(width: u32, height: u32) -> Orchestrator {
        Orchestrator {
            config: SurfaceConfig::spec_new(width, height),
            state: FrameState::Idle,
            closed: false,
        }
    }

    /// The state after an event, and the action that answers it.
    ///
    /// Once closed, the answer to everything is to leave. A new size always
    /// gives a new swap chain and ends the frame in progress, whose image
    /// belonged to the old one. A frame advances only by the event that its
    /// state waits for; a failed acquisition gives a new swap chain and no
    /// frame. Events that come out of turn change nothing.
    pub open spec fn spec_step(self, event: Event) -> (Orchestrator, Action) {
        if self.closed {
            (self, Action::Exit)
        } else {
            match event {
                Event::Resized { width, height } | Event::ScaleFactorChanged { width, height } => {
                    let config = self.config.spec_resized(width, height);
                    (
                        Orchestrator { config, state: FrameState::Idle, closed: false },
                        Action::Configure(config),
                    )
                },
                Event::CloseRequested | Event::EscapePressed => (
                    Orchestrator { closed: true, ..self },
                    Action::Exit,
                ),
                Event::MainEventsCleared => (self, Action::RequestRedraw),
                Event::RedrawRequested => match self.state {
                    FrameState::Idle => (
                        Orchestrator { state: FrameState::Acquiring, ..self },
                        Action::AcquireFrame,
                    ),
                    _ => (self, Action::Wait),
                },
                Event::FrameAcquired => match self.state {
                    FrameState::Acquiring => (
                        Orchestrator { state: FrameState::Recording, ..self },
                        Action::Record { target: self.config.spec_extent() },
                    ),
                    _ => (self, Action::Wait),
                },
                Event::AcquireFailed => match self.state {
                    FrameState::Acquiring => (
                        Orchestrator { state: FrameState::Idle, ..self },
                        Action::Configure(self.config),
                    ),
                    _ => (self, Action::Wait),
                },
                Event::CommandsRecorded => match self.state {
                    FrameState::Recording => (
                        Orchestrator { state: FrameState::Submitted, ..self },
                        Action::Submit,
                    ),
                    _ => (self, Action::Wait),
                },
                Event::CommandsSubmitted => match self.state {
                    FrameState::Submitted => (
                        Orchestrator { state: FrameState::Presenting, ..self },
                        Action::Present,
                    ),
                    _ => (self, Action::Wait),
                },
                Event::FramePresented => match self.state {
                    FrameState::Presenting => (
                        Orchestrator { state: FrameState::Idle, ..self },
                        Action::Wait,
                    ),
                    _ => (self, Action::Wait),
                },
            }
        }
    }

    /// Whether an image of the swap chain is held.
    pub open spec fn holds_image(self) -> bool {
        self.state is Recording || self.state is Submitted || self.state is Presenting
    }

    /// The orchestrator of a window of the given physical size, before its
    /// first frame.
    pub fn new(width: u32, height: u32) -> (orchestrator: Orchestrator)
        ensures
            orchestrator == Self::spec_new(width, height),
    {
        Orchestrator {
            config: SurfaceConfig::new(width, height),
            state: FrameState::Idle,
            closed: false,
        }
    }

    /// Takes one event and says what to do next.
    pub fn handle_event(&mut self, event: Event) -> (action: Action)
        ensures
            (*final(self), action) == old(self).spec_step(event),
    {
        if self.closed {
            return Action::Exit;
        }
        match event {
            Event::Resized { width, height } | Event::ScaleFactorChanged { width, height } => {
                self.config = self.config.resized(width, height);
                self.state = FrameState::Idle;
                Action::Configure(self.config)
            },
            Event::CloseRequested | Event::EscapePressed => {
                self.closed = true;
                Action::Exit
            },
            Event::MainEventsCleared => Action::RequestRedraw,
            Event::RedrawRequested => self.advance(
                FrameState::Idle,
                FrameState::Acquiring,
                Action::AcquireFrame,
            ),
            Event::FrameAcquired => {
                let target: Extent3d = self.config.extent();
                self.advance(FrameState::Acquiring, FrameState::Recording, Action::Record { target })
            },
            Event::AcquireFailed => {
                let again: Action = Action::Configure(self.config);
                self.advance(FrameState::Acquiring, FrameState::Idle, again)
            },
            Event::CommandsRecorded => self.advance(
                FrameState::Recording,
                FrameState::Submitted,
                Action::Submit,
            ),
            Event::CommandsSubmitted => self.advance(
                FrameState::Submitted,
                FrameState::Presenting,
                Action::Present,
            ),
            Event::FramePresented => self.advance(
                FrameState::Presenting,
                FrameState::Idle,
                Action::Wait,
            ),
        }
    }

    fn advance(&mut self, from: FrameState, to: FrameState, action: Action) -> (taken: Action)
        ensures
            old(self).state == from ==> *final(self) == (Orchestrator { state: to, ..*old(self) })
                && taken == action,
            old(self).state != from ==> *final(self) == *old(self) && taken == Action::Wait,
    {
        if self.state == from {
            self.state = to;
            action
        } else {
            Action::Wait
        }
    }
}

/// The state after a run of events, taken one after another.
pub open spec fn run(start: Orchestrator, events: Seq<Event>) -> Orchestrator
    decreases events.len(),
{
    if events.len() == 0 {
        start
    } else {
        run(start, events.drop_last()).spec_step(events.last()).0
    }
}

/// The physical size that the window last reported in a run of events, or
/// the size it started with.
pub open spec fn window_size(start: (u32, u32), events: Seq<Event>) -> (u32, u32)
    decreases events.len(),
{
    if events.len() == 0 {
        start
    } else {
        match events.last() {
            Event::Resized { width, height } | Event::ScaleFactorChanged { width, height } => (
                width,
                height,
            ),
            _ => window_size(start, events.drop_last()),
        }
    }
}

/// As long as the loop has not been told to end, the surface is configured
/// for the size that the window last reported, whatever events came and in
/// whatever order; format, usage and presentation mode never change.
pub proof fn lemma_surface_follows_window(start: Orchestrator, events: Seq<Event>)
    ensures
        run(start, events).closed ==> start.closed || exists|i: int|
            0 <= i < events.len() && (events[i] is CloseRequested || events[i] is EscapePressed),
        !run(start, events).closed ==> (
            run(start, events).config.width,
            run(start, events).config.height,
        ) == window_size((start.config.width, start.config.height), events),
        run(start, events).config.format == start.config.format,
        run(start, events).config.usage == start.config.usage,
        run(start, events).config.present_mode == start.config.present_mode,
    decreases events.len(),
{
    if events.len() > 0 {
        let before = events.drop_last();
        lemma_surface_follows_window(start, before);
        lemma_closed_stays_closed(start, before, events.last());
        if run(start, events).closed && !start.closed {
            if run(start, before).closed {
                let i = choose|i: int|
                    0 <= i < before.len() && (before[i] is CloseRequested || before[i]
                        is EscapePressed);
                assert(events[i] == before[i]);
            } else {
                assert(events[events.len() - 1] == events.last());
            }
        }
    }
}

/// Once told to end, the loop stays ended, and an open loop was never closed.
pub proof fn lemma_closed_stays_closed(start: Orchestrator, events: Seq<Event>, next: Event)
    ensures
        run(start, events).closed ==> run(start, events.push(next)).closed,
        run(start, events).closed ==> run(start, events.push(next)) == run(start, events),
{
    assert(events.push(next).drop_last() =~= events);
}

/// Telling the orchestrator the same size twice leaves it as telling it once
/// does, with the same configuration to apply.
pub proof fn lemma_resize_twice_is_resize_once(start: Orchestrator, width: u32, height: u32)
    ensures
        start.spec_step(Event::Resized { width, height }).0.spec_step(
            Event::Resized { width, height },
        ) == start.spec_step(Event::Resized { width, height }),
        start.spec_step(Event::ScaleFactorChanged { width, height }) == start.spec_step(
            Event::Resized { width, height },
        ),
{
}

/// The frame that follows a resize is recorded into an image of the new
/// size: the resize ends any frame in progress, so that the next image is
/// acquired from the swap chain made for the new size.
pub proof fn lemma_frame_after_resize(start: Orchestrator, width: u32, height: u32)
    requires
        !start.closed,
    ensures
        ({
            let (resized, configure) = start.spec_step(Event::Resized { width, height });
            let (acquiring, acquire) = resized.spec_step(Event::RedrawRequested);
            let (recording, record) = acquiring.spec_step(Event::FrameAcquired);
            &&& configure == Action::Configure(start.config.spec_resized(width, height))
            &&& !resized.holds_image()
            &&& acquire == Action::AcquireFrame
            &&& record == Action::Record { target: Extent3d { width, height, depth: 1 } }
            &&& recording.config == start.config.spec_resized(width, height)
        }),
{
}

/// A frame runs from idle to idle in five steps, and leaves the
/// configuration as it was.
pub proof fn lemma_frame_cycle(start: Orchestrator)
    requires
        !start.closed,
        start.state is Idle,
    ensures
        ({
            let (acquiring, acquire) = start.spec_step(Event::RedrawRequested);
            let (recording, record) = acquiring.spec_step(Event::FrameAcquired);
            let (submitted, submit) = recording.spec_step(Event::CommandsRecorded);
            let (presenting, present) = submitted.spec_step(Event::CommandsSubmitted);
            let (idle, wait) = presenting.spec_step(Event::FramePresented);
            &&& acquire == Action::AcquireFrame && acquiring.state is Acquiring
            &&& record == Action::Record { target: start.config.spec_extent() }
                && recording.state is Recording
            &&& submit == Action::Submit && submitted.state is Submitted
            &&& present == Action::Present && presenting.state is Presenting
            &&& wait == Action::Wait && idle == start
        }),
{
}

/// No image is acquired while another is held: an image is asked for only
/// from idle, and a held image is let go only by presenting it or by the
/// resize that replaces its swap chain.
pub proof fn lemma_one_image_at_a_time(before: Orchestrator, event: Event)
    ensures
        before.spec_step(event).1 is AcquireFrame ==> before.state is Idle
            && before.spec_step(event).0.state is Acquiring,
        before.holds_image() && !before.spec_step(event).0.holds_image() ==> event
            is FramePresented || event is Resized || event is ScaleFactorChanged,
        before.spec_step(event).1 matches Action::Record { target } ==> target
            == before.spec_step(event).0.config.spec_extent(),
{
}

} // verus!
