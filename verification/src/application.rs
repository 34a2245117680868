//! The application loop: one window, its renderer, and the decisions that
//! are taken for every event of the window.
//!
//! The loop itself runs outside this crate. For each event it calls
//! [`Application::dispatch`] and performs the actions it gets back, in order.
//! When it has been asked to acquire a frame it reports the outcome with
//! [`Application::frame_acquired`] and performs those actions too.

use vstd::prelude::*;
use crate::error::{AcquisitionError, EngineError};
use crate::renderer::{
    frame_commands, negotiated, negotiation_failure, surface_fault, FrameCommand, Renderer,
    SurfaceCapabilities, SurfaceConfiguration, SurfaceFault,
};
use crate::window::{Dimensions, Window};

pub mod laws;

verus! {

/// Where the event loop of an application stands.
#[derive(Debug, Clone, Copy, PartialEq, Eq, Structural)]
pub enum LoopState {
    /// The loop has not been started; it can be started once.
    NotStarted,
    /// The loop runs and events get the engine's own handling.
    Running,
    /// The loop runs and events are only shown to the observer.
    Observing,
    /// The loop has ended, after a close request or for want of memory.
    Stopped,
}

/// How the loop waits for the next event.
#[derive(Debug, Clone, Copy, PartialEq, Eq, Structural)]
pub enum ControlFlow {
    /// Spin without waiting: lowest latency, highest load.
    Poll,
    /// Sleep until an event arrives.
    Wait,
}

/// An event of a window, with sizes already in logical pixels.
#[derive(Debug, Clone, Copy, PartialEq, Eq, Structural)]
pub enum WindowEvent {
    /// The user asked for the window to be closed.
    CloseRequested,
    /// The window has the given size now.
    Resized(Dimensions),
    /// The scale factor has changed, and with it the size of the window.
    ScaleFactorChanged(Dimensions),
    /// Any other event of a window.
    Other,
}

/// An event of the loop.
#[derive(Debug, Clone, Copy, PartialEq, Eq, Structural)]
pub enum Event {
    /// An event of the window with the given identity.
    WindowEvent { window_id: u64, event: WindowEvent },
    /// All pending events have been handed out.
    MainEventsCleared,
    /// The window with the given identity wants to be drawn.
    RedrawRequested(u64),
    /// Any other event.
    Other,
}

/// What the loop is to do for the application.
#[derive(Debug, Clone, Copy, PartialEq, Eq)]
pub enum Action {
    /// Choose how the loop waits for the next event.
    SetControlFlow(ControlFlow),
    /// Show the event to the observer of the caller.
    Observe,
    /// End the loop.
    Exit,
    /// Give the window this inner size.
    SetInnerSize(Dimensions),
    /// Apply this configuration to the surface.
    Configure(SurfaceConfiguration),
    /// Ask the window to request a redraw.
    RequestRedraw,
    /// Acquire the next texture of the surface and report the outcome.
    AcquireFrame,
    /// Perform one step of recording and presenting the frame.
    Frame(FrameCommand),
    /// Make this fault known; the next frame is expected to succeed.
    Report(SurfaceFault),
}

/// The number of configurations of the surface that a sequence of actions
/// asks for.
pub open spec fn reconfigurations(actions: Seq<Action>) -> nat
    decreases actions.len(),
{
    if actions.len() == 0 {
        0
    } else {
        reconfigurations(actions.drop_last()) + if actions.last() is Configure {
            1nat
        } else {
            0nat
        }
    }
}

/// The number of frames that a sequence of actions asks to acquire.
pub open spec fn frame_requests(actions: Seq<Action>) -> nat
    decreases actions.len(),
{
    if actions.len() == 0 {
        0
    } else {
        frame_requests(actions.drop_last()) + if actions.last() is AcquireFrame {
            1nat
        } else {
            0nat
        }
    }
}

/// The event that asks for the window with the given identity to be closed.
pub open spec fn close_request(window_id: u64) -> Event {
    Event::WindowEvent { window_id, event: WindowEvent::CloseRequested }
}

/// The mode of waiting that goes with the choice between latency and load.
pub open spec fn control_flow_for(high_performance_mode: bool) -> ControlFlow {
    if high_performance_mode {
        ControlFlow::Poll
    } else {
        ControlFlow::Wait
    }
}

/// The outcome of a frame as the loop decides on it: the commands that were
/// planned, or the fault that kept the frame from being drawn.
pub type FrameOutcome = Result<Seq<FrameCommand>, SurfaceFault>;

/// What the loop hands to the application: an event, or the outcome of a
/// frame that it was asked to acquire.
pub enum Input {
    Event(Event),
    Frame(FrameOutcome),
}

/// The state of an application, as contracts speak of it.
pub struct ApplicationView {
    pub state: LoopState,
    pub control_flow: ControlFlow,
    pub window_id: u64,
    pub title: Seq<char>,
    pub size: Dimensions,
    pub config: SurfaceConfiguration,
}

impl ApplicationView {
    /// The window and the surface both have an area.
    pub open spec fn wf(self) -> bool {
        self.size.valid() && self.config.dimensions().valid()
    }

    /// The outcome of starting the loop: it starts where it has not been
    /// started before, with or without the engine's own handling of events
    /// and in the given mode of waiting, and is refused otherwise.
    pub open spec fn started(self, own_handling: bool, high_performance_mode: bool) -> Result<
        ApplicationView,
        EngineError,
    > {
        if self.state is NotStarted {
            Ok(
                ApplicationView {
                    state: if own_handling {
                        LoopState::Running
                    } else {
                        LoopState::Observing
                    },
                    control_flow: control_flow_for(high_performance_mode),
                    ..self
                },
            )
        } else {
            Err(EngineError::EventLoopElapsed)
        }
    }

    /// The state after a resize request: valid dimensions become the size of
    /// the window and of the surface, any others change nothing.
    pub open spec fn resized(self, dimensions: Dimensions) -> ApplicationView {
        if dimensions.valid() {
            ApplicationView {
                size: dimensions,
                config: self.config.with_dimensions(dimensions),
                ..self
            }
        } else {
            self
        }
    }

    /// What a resize request asks of the loop: for valid dimensions to size
    /// the window and then to configure the surface, once; else nothing.
    pub open spec fn resize_actions(self, dimensions: Dimensions) -> Seq<Action> {
        if dimensions.valid() {
            seq![
                Action::SetInnerSize(dimensions),
                Action::Configure(self.config.with_dimensions(dimensions)),
            ]
        } else {
            seq![]
        }
    }

    /// The state after the engine's own handling of an event.
    pub open spec fn handled(self, event: Event) -> ApplicationView {
        match event {
            Event::WindowEvent { window_id, event } => if window_id == self.window_id {
                match event {
                    WindowEvent::CloseRequested => ApplicationView {
                        state: LoopState::Stopped,
                        ..self
                    },
                    WindowEvent::Resized(dimensions) => self.resized(dimensions),
                    WindowEvent::ScaleFactorChanged(dimensions) => self.resized(dimensions),
                    WindowEvent::Other => self,
                }
            } else {
                self
            },
            _ => self,
        }
    }

    /// What the engine's own handling of an event asks of the loop.
    pub open spec fn handling(self, event: Event) -> Seq<Action> {
        match event {
            Event::WindowEvent { window_id, event } => if window_id == self.window_id {
                match event {
                    WindowEvent::CloseRequested => seq![Action::Exit],
                    WindowEvent::Resized(dimensions) => self.resize_actions(dimensions),
                    WindowEvent::ScaleFactorChanged(dimensions) => self.resize_actions(
                        dimensions,
                    ),
                    WindowEvent::Other => seq![],
                }
            } else {
                seq![]
            },
            Event::MainEventsCleared => seq![Action::RequestRedraw],
            Event::RedrawRequested(window_id) => if window_id == self.window_id {
                seq![Action::AcquireFrame]
            } else {
                seq![]
            },
            Event::Other => seq![],
        }
    }

    /// The state after an event has been dispatched. Only a running loop
    /// reacts to events.
    pub open spec fn dispatched(self, event: Event) -> ApplicationView {
        if self.state is Running {
            self.handled(event)
        } else {
            self
        }
    }

    /// What dispatching an event asks of the loop. A running or observing
    /// loop first chooses how to wait and shows the event to the observer;
    /// a running loop then handles the event itself. A loop that has not
    /// started or has stopped asks for nothing.
    pub open spec fn dispatch_actions(self, event: Event) -> Seq<Action> {
        match self.state {
            LoopState::Running => seq![
                Action::SetControlFlow(self.control_flow),
                Action::Observe,
            ] + self.handling(event),
            LoopState::Observing => seq![
                Action::SetControlFlow(self.control_flow),
                Action::Observe,
            ],
            _ => seq![],
        }
    }

    /// The state after the outcome of a frame is known. A lost surface is
    /// answered by a resize to the size the window has; memory that has run
    /// out stops the loop; nothing else changes the state.
    pub open spec fn concluded(self, outcome: FrameOutcome) -> ApplicationView {
        if self.state is Running {
            match outcome {
                Err(SurfaceFault::Lost) => self.resized(self.size),
                Err(SurfaceFault::OutOfMemory) => ApplicationView {
                    state: LoopState::Stopped,
                    ..self
                },
                _ => self,
            }
        } else {
            self
        }
    }

    /// What the outcome of a frame asks of the loop, where the loop runs: to
    /// perform the commands of the frame; for a lost surface to configure it
    /// again; for memory that has run out to end; and to report any other
    /// fault.
    pub open spec fn conclusion(self, outcome: FrameOutcome) -> Seq<Action> {
        if self.state is Running {
            match outcome {
                Ok(commands) => commands.map_values(|command: FrameCommand| Action::Frame(command)),
                Err(SurfaceFault::Lost) => self.resize_actions(self.size),
                Err(SurfaceFault::OutOfMemory) => seq![Action::Exit],
                Err(fault) => seq![Action::Report(fault)],
            }
        } else {
            seq![]
        }
    }

    /// The state after one input of the loop.
    pub open spec fn fed(self, input: Input) -> ApplicationView {
        match input {
            Input::Event(event) => self.dispatched(event),
            Input::Frame(outcome) => self.concluded(outcome),
        }
    }

    /// What one input of the loop asks of it.
    pub open spec fn fed_actions(self, input: Input) -> Seq<Action> {
        match input {
            Input::Event(event) => self.dispatch_actions(event),
            Input::Frame(outcome) => self.conclusion(outcome),
        }
    }

    /// The state after a sequence of inputs, taken in order.
    pub open spec fn after(self, inputs: Seq<Input>) -> ApplicationView
        decreases inputs.len(),
    {
        if inputs.len() == 0 {
            self
        } else {
            self.after(inputs.drop_last()).fed(inputs.last())
        }
    }

    /// Everything that a sequence of inputs asks of the loop, in order.
    pub open spec fn actions_over(self, inputs: Seq<Input>) -> Seq<Action>
        decreases inputs.len(),
    {
        if inputs.len() == 0 {
            seq![]
        } else {
            self.actions_over(inputs.drop_last()) + self.after(inputs.drop_last()).fed_actions(
                inputs.last(),
            )
        }
    }
}

/// The outcome of a frame as the loop decides on it, from the outcome of
/// acquiring the texture.
pub open spec fn frame_outcome(acquired: Result<(), wgpu::SurfaceError>) -> FrameOutcome {
    match acquired {
        Ok(_) => Ok(frame_commands()),
        Err(error) => Err(surface_fault(error)),
    }
}

/// The plan of a frame without the vector that holds it.
pub open spec fn planned(rendered: Result<Vec<FrameCommand>, SurfaceFault>) -> FrameOutcome {
    match rendered {
        Ok(commands) => Ok(commands@),
        Err(fault) => Err(fault),
    }
}

/// One window, the renderer of its surface, and the state of the loop that
/// serves them.
#[derive(Debug)]
pub struct Application {
    state: LoopState,
    control_flow: ControlFlow,
    window_id: u64,
    window: Window,
    renderer: Renderer,
}

impl View for Application {
    type V = ApplicationView;

    closed spec fn view(&self) -> ApplicationView {
        ApplicationView {
            state: self.state,
            control_flow: self.control_flow,
            window_id: self.window_id,
            title: self.window.title_text(),
            size: self.window.size(),
            config: self.renderer@,
        }
    }
}

impl Application {
    /// Makes the application of a window from the identity of the window and
    /// from what its surface supports.
    ///
    /// The surface is configured for the inner size of the window, as
    /// [`Renderer::new`] negotiates it; where negotiation fails, so does this.
    /// The loop of the new application has not been started.
    pub fn new(window_id: u64, window: Window, capabilities: &SurfaceCapabilities) -> (result:
        Result<Application, AcquisitionError>)
        ensures
            negotiation_failure(window.size(), *capabilities) matches Some(error) ==> result
                == Err::<Application, AcquisitionError>(error),
            negotiation_failure(window.size(), *capabilities) is None ==> result is Ok,
            result matches Ok(application) ==> application@.state == LoopState::NotStarted
                && application@.window_id == window_id && application@.title
                == window.title_text() && application@.size == window.size() && negotiated(
                window.size(),
                *capabilities,
                application@.config,
            ) && application@.wf(),
    {
        let size = window.inner_size();
        match Renderer::new(&size, capabilities) {
            Ok(renderer) => {
                Ok(
                    Application {
                        state: LoopState::NotStarted,
                        control_flow: ControlFlow::Wait,
                        window_id,
                        window,
                        renderer,
                    },
                )
            },
            Err(error) => Err(error),
        }
    }

    /// Renames the application: its window gets the new title.
    pub fn rename(&mut self, new_title: &str)
        ensures
            final(self)@ == (ApplicationView { title: new_title@, ..old(self)@ }),
            final(self)@.wf(),
    {
        self.window.set_title(new_title);
        proof {
            use_type_invariant(&self.window);
            use_type_invariant(&self.renderer);
        }
    }

    /// The application under a new name.
    pub fn with_name(self, new_title: &str) -> (renamed: Application)
        ensures
            renamed@ == (ApplicationView { title: new_title@, ..self@ }),
            renamed@.wf(),
    {
        let mut renamed = self;
        renamed.rename(new_title);
        renamed
    }

    /// Whether an event of the window has been dealt with before the engine's
    /// own handling, which then leaves it alone. No event ever has.
    pub fn processed(&self, _event: &WindowEvent) -> (handled: bool)
        ensures
            !handled,
    {
        false
    }

    /// Takes new dimensions for the window and its surface.
    ///
    /// Dimensions with a zero component are ignored: nothing changes and
    /// nothing is asked of the loop. Valid dimensions become the size of the
    /// window and of the surface, and the loop is asked to size the window
    /// and to configure the surface, also where the size is the one they had.
    pub fn resize(&mut self, new_dimensions: &Dimensions) -> (actions: Vec<Action>)
        ensures
            final(self)@ == old(self)@.resized(*new_dimensions),
            actions@ == old(self)@.resize_actions(*new_dimensions),
            !new_dimensions.valid() ==> final(self)@ == old(self)@,
            final(self)@.wf(),
    {
        proof {
            use_type_invariant(&self.window);
            use_type_invariant(&self.renderer);
        }
        let mut actions: Vec<Action> = Vec::new();
        if !self.window.set_inner_size(new_dimensions) {
            return actions;
        }
        match self.renderer.resize(new_dimensions) {
            Some(config) => {
                actions.push(Action::SetInnerSize(*new_dimensions));
                actions.push(Action::Configure(config));
            },
            None => {},
        }
        actions
    }

    /// Advances the state of the application before a frame is drawn. There
    /// is no such state yet, so nothing changes.
    pub fn update(&mut self)
        ensures
            final(self)@ == old(self)@,
            final(self)@.wf(),
    {
        proof {
            use_type_invariant(&self.window);
            use_type_invariant(&self.renderer);
        }
    }

    /// Starts the loop with the engine's own handling of events: closing the
    /// window on request, following its size and scale factor, and redrawing
    /// it regularly.
    ///
    /// The loop of an application can be started once. Where it has been
    /// started before, the call fails with [`EngineError::EventLoopElapsed`]
    /// and changes nothing. `high_performance_mode` makes the loop poll for
    /// events without waiting.
    pub fn run(&mut self, high_performance_mode: bool) -> (result: Result<(), EngineError>)
        ensures
            old(self)@.started(true, high_performance_mode) matches Ok(started) ==> result is Ok
                && final(self)@ == started,
            old(self)@.started(true, high_performance_mode) matches Err(error) ==> result == Err::<
                (),
                EngineError,
            >(error) && final(self)@ == old(self)@,
            final(self)@.wf(),
    {
        self.start(true, high_performance_mode)
    }

    /// Starts the loop without the engine's own handling of events: every
    /// event is shown to the observer and nothing else is done.
    ///
    /// Like [`Application::run`] it fails with
    /// [`EngineError::EventLoopElapsed`] where the loop has been started
    /// before.
    pub fn run_no_overhead(&mut self, high_performance_mode: bool) -> (result: Result<
        (),
        EngineError,
    >)
        ensures
            old(self)@.started(false, high_performance_mode) matches Ok(started) ==> result is Ok
                && final(self)@ == started,
            old(self)@.started(false, high_performance_mode) matches Err(error) ==> result == Err::<
                (),
                EngineError,
            >(error) && final(self)@ == old(self)@,
            final(self)@.wf(),
    {
        self.start(false, high_performance_mode)
    }

    fn start(&mut self, own_handling: bool, high_performance_mode: bool) -> (result: Result<
        (),
        EngineError,
    >)
        ensures
            old(self)@.started(own_handling, high_performance_mode) matches Ok(started) ==> result is Ok
                && final(self)@ == started,
            old(self)@.started(own_handling, high_performance_mode) matches Err(error) ==> result == Err::<
                (),
                EngineError,
            >(error) && final(self)@ == old(self)@,
            final(self)@.wf(),
    {
        proof {
            use_type_invariant(&self.window);
            use_type_invariant(&self.renderer);
        }
        match self.state {
            LoopState::NotStarted => {},
            _ => {
                return Err(EngineError::EventLoopElapsed);
            },
        }
        self.state = if own_handling {
            LoopState::Running
        } else {
            LoopState::Observing
        };
        self.control_flow = if high_performance_mode {
            ControlFlow::Poll
        } else {
            ControlFlow::Wait
        };
        Ok(())
    }

    /// Decides what one event of the loop calls for.
    ///
    /// While the loop runs, the result first chooses how the loop waits and
    /// shows the event to the observer. Then, with the engine's own handling:
    /// a close request of the window ends the loop; a new size or scale
    /// factor of the window is taken as a resize; when all events are
    /// cleared a redraw is requested; and a redraw request of the window asks
    /// for a frame to be acquired. Events of other windows and other events
    /// call for nothing more. Before the loop has started and after it has
    /// stopped, no event calls for anything.
    pub fn dispatch(&mut self, event: &Event) -> (actions: Vec<Action>)
        ensures
            final(self)@ == old(self)@.dispatched(*event),
            actions@ == old(self)@.dispatch_actions(*event),
            final(self)@.wf(),
    {
        proof {
            use_type_invariant(&self.window);
            use_type_invariant(&self.renderer);
        }
        let mut actions: Vec<Action> = Vec::new();
        match self.state {
            LoopState::Running => {},
            LoopState::Observing => {
                actions.push(Action::SetControlFlow(self.control_flow));
                actions.push(Action::Observe);
                return actions;
            },
            _ => {
                return actions;
            },
        }
        actions.push(Action::SetControlFlow(self.control_flow));
        actions.push(Action::Observe);
        let ghost before = self@;
        let ghost prefix = actions@;
        match event {
            Event::WindowEvent { window_id, event } => {
                if *window_id == self.window_id && !self.processed(event) {
                    match event {
                        WindowEvent::CloseRequested => {
                            self.state = LoopState::Stopped;
                            actions.push(Action::Exit);
                        },
                        WindowEvent::Resized(dimensions) => {
                            let mut resizing = self.resize(dimensions);
                            actions.append(&mut resizing);
                        },
                        WindowEvent::ScaleFactorChanged(dimensions) => {
                            let mut resizing = self.resize(dimensions);
                            actions.append(&mut resizing);
                        },
                        WindowEvent::Other => {},
                    }
                }
            },
            Event::MainEventsCleared => {
                actions.push(Action::RequestRedraw);
            },
            Event::RedrawRequested(window_id) => {
                if *window_id == self.window_id {
                    self.update();
                    actions.push(Action::AcquireFrame);
                }
            },
            Event::Other => {},
        }
        assert(actions@ =~= prefix + before.handling(*event));
        actions
    }

    /// Decides what the outcome of a frame calls for.
    ///
    /// While the loop runs with the engine's own handling: the commands of a
    /// frame that was planned are to be performed in order; a lost surface is
    /// configured again for the size that the window has, and the loop goes
    /// on; memory that has run out ends the loop; any other fault is reported
    /// and the loop goes on. In every other state of the loop the outcome is
    /// ignored.
    pub fn frame_rendered(&mut self, rendered: Result<Vec<FrameCommand>, SurfaceFault>) -> (actions:
        Vec<Action>)
        ensures
            final(self)@ == old(self)@.concluded(planned(rendered)),
            actions@ == old(self)@.conclusion(planned(rendered)),
            final(self)@.wf(),
    {
        proof {
            use_type_invariant(&self.window);
            use_type_invariant(&self.renderer);
        }
        let mut actions: Vec<Action> = Vec::new();
        match self.state {
            LoopState::Running => {},
            _ => {
                return actions;
            },
        }
        match rendered {
            Ok(commands) => {
                let mut i: usize = 0;
                while i < commands.len()
                    invariant
                        i <= commands.len(),
                        actions.len() == i,
                        forall|j: int| 0 <= j < i ==> actions[j] == Action::Frame(commands[j]),
                    decreases commands.len() - i,
                {
                    actions.push(Action::Frame(commands[i]));
                    i += 1;
                }
                assert(actions@ =~= commands@.map_values(
                    |command: FrameCommand| Action::Frame(command),
                ));
                actions
            },
            Err(SurfaceFault::Lost) => {
                let current_size = self.window.inner_size();
                self.resize(&current_size)
            },
            Err(SurfaceFault::OutOfMemory) => {
                self.state = LoopState::Stopped;
                actions.push(Action::Exit);
                actions
            },
            Err(fault) => {
                actions.push(Action::Report(fault));
                actions
            },
        }
    }

    /// Plans the frame from the outcome of acquiring the next texture of the
    /// surface, and decides what that calls for.
    ///
    /// This is [`Renderer::render`] followed by
    /// [`Application::frame_rendered`].
    pub fn frame_acquired(&mut self, acquired: Result<(), wgpu::SurfaceError>) -> (actions: Vec<
        Action,
    >)
        ensures
            final(self)@ == old(self)@.concluded(frame_outcome(acquired)),
            actions@ == old(self)@.conclusion(frame_outcome(acquired)),
            final(self)@.wf(),
    {
        let rendered = self.renderer.render(acquired);
        self.frame_rendered(rendered)
    }

    /// Where the loop stands.
    pub fn state(&self) -> (state: LoopState)
        ensures
            state == self@.state,
    {
        self.state
    }

    /// How the loop waits for events.
    pub fn control_flow(&self) -> (control_flow: ControlFlow)
        ensures
            control_flow == self@.control_flow,
    {
        self.control_flow
    }

    /// The identity of the window whose events the application handles.
    pub fn window_id(&self) -> (window_id: u64)
        ensures
            window_id == self@.window_id,
    {
        self.window_id
    }

    /// The window of the application.
    pub fn window(&self) -> (window: &Window)
        ensures
            window.title_text() == self@.title,
            window.size() == self@.size,
    {
        &self.window
    }

    /// The renderer of the surface of the window.
    pub fn renderer(&self) -> (renderer: &Renderer)
        ensures
            renderer@ == self@.config,
    {
        &self.renderer
    }

    /// The current configuration of the surface.
    pub fn config(&self) -> (configuration: SurfaceConfiguration)
        ensures
            configuration == self@.config,
            configuration.dimensions().valid(),
    {
        self.renderer.config()
    }
}

} // verus!
