use corrosive_engine::application::{
    Action, Application, ControlFlow, Event, LoopState, WindowEvent,
};
use corrosive_engine::error::{AcquisitionError, EngineError};
use corrosive_engine::renderer::{FrameCommand, SurfaceCapabilities, SurfaceFault};
use corrosive_engine::window::{create, Dimensions, Window};
use wgpu::{CompositeAlphaMode, PresentMode, SurfaceError, TextureFormat};
use winit::dpi::{LogicalSize, PhysicalSize};

const WINDOW: u64 = 7;
const OTHER_WINDOW: u64 = 8;

fn capabilities() -> SurfaceCapabilities {
    SurfaceCapabilities {
        formats: vec![TextureFormat::Bgra8Unorm, TextureFormat::Bgra8UnormSrgb],
        present_modes: vec![PresentMode::Fifo],
        alpha_modes: vec![CompositeAlphaMode::Opaque],
    }
}

fn application() -> Application {
    Application::new(WINDOW, Window::default(), &capabilities()).unwrap()
}

fn running() -> Application {
    let mut app = application();
    app.run(false).unwrap();
    app
}

fn window_event(window_id: u64, event: WindowEvent) -> Event {
    Event::WindowEvent { window_id, event }
}

fn logical(width: u32, height: u32, scale_factor: f64) -> Dimensions {
    let size: LogicalSize<u32> = PhysicalSize::new(width, height).to_logical(scale_factor);
    Dimensions::new(size.width, size.height)
}

fn size_of(app: &Application) -> (u32, u32) {
    (app.config().width, app.config().height)
}

const PREAMBLE: [Action; 2] = [Action::SetControlFlow(ControlFlow::Wait), Action::Observe];

fn after_preamble(actions: &[Action]) -> Vec<Action> {
    assert_eq!(&actions[..2], &PREAMBLE[..]);
    actions[2..].to_vec()
}

#[test]
fn new_configures_the_surface_for_the_window() {
    let app = application();
    assert_eq!(app.state(), LoopState::NotStarted);
    assert_eq!(app.window_id(), WINDOW);
    assert_eq!(app.window().title(), "Corrosive Application");
    assert_eq!(app.window().inner_size(), Dimensions::new(800, 600));
    assert_eq!(size_of(&app), (800, 600));
    assert_eq!(app.config().format, TextureFormat::Bgra8UnormSrgb);
    assert_eq!(app.config().present_mode, PresentMode::Fifo);
    assert_eq!(app.config().alpha_mode, CompositeAlphaMode::Opaque);
    assert_eq!(app.renderer().config(), app.config());
}

#[test]
fn new_fails_where_negotiation_fails() {
    let mut caps = capabilities();
    caps.formats.clear();
    let result = Application::new(WINDOW, Window::default(), &caps);
    assert_eq!(result.unwrap_err(), AcquisitionError::NoSurfaceFormat);
}

#[test]
fn rename_changes_the_title_only() {
    let mut app = application();
    let config = app.config();
    app.rename("Corrosive Editor");
    assert_eq!(app.window().title(), "Corrosive Editor");
    assert_eq!(app.window().inner_size(), Dimensions::new(800, 600));
    assert_eq!(app.config(), config);
    assert_eq!(app.state(), LoopState::NotStarted);
}

#[test]
fn with_name_builds_a_renamed_application() {
    let app = application().with_name("Corrosive Editor");
    assert_eq!(app.window().title(), "Corrosive Editor");
    assert_eq!(app.window_id(), WINDOW);
    assert_eq!(size_of(&app), (800, 600));
}

#[test]
fn no_event_counts_as_processed() {
    let app = application();
    assert!(!app.processed(&WindowEvent::CloseRequested));
    assert!(!app.processed(&WindowEvent::Resized(Dimensions::new(1, 1))));
    assert!(!app.processed(&WindowEvent::Other));
}

#[test]
fn run_selects_how_the_loop_waits() {
    let mut app = application();
    assert_eq!(app.run(false), Ok(()));
    assert_eq!(app.state(), LoopState::Running);
    assert_eq!(app.control_flow(), ControlFlow::Wait);
    let mut app = application();
    assert_eq!(app.run(true), Ok(()));
    assert_eq!(app.control_flow(), ControlFlow::Poll);
    assert_eq!(
        app.dispatch(&Event::Other),
        vec![Action::SetControlFlow(ControlFlow::Poll), Action::Observe]
    );
}

#[test]
fn run_a_second_time_fails_with_event_loop_elapsed() {
    let mut app = application();
    assert_eq!(app.run(false), Ok(()));
    assert_eq!(app.run(false), Err(EngineError::EventLoopElapsed));
    assert_eq!(app.run(true), Err(EngineError::EventLoopElapsed));
    assert_eq!(app.state(), LoopState::Running);
    assert_eq!(app.control_flow(), ControlFlow::Wait);
    assert_eq!(size_of(&app), (800, 600));
}

#[test]
fn run_after_the_loop_has_stopped_fails() {
    let mut app = running();
    app.dispatch(&window_event(WINDOW, WindowEvent::CloseRequested));
    assert_eq!(app.state(), LoopState::Stopped);
    assert_eq!(app.run(false), Err(EngineError::EventLoopElapsed));
    assert_eq!(app.run_no_overhead(false), Err(EngineError::EventLoopElapsed));
    assert_eq!(app.state(), LoopState::Stopped);
    assert_eq!(app.dispatch(&Event::RedrawRequested(WINDOW)), vec![]);
}

#[test]
fn run_after_run_no_overhead_fails() {
    let mut app = application();
    assert_eq!(app.run_no_overhead(true), Ok(()));
    assert_eq!(app.state(), LoopState::Observing);
    assert_eq!(app.run(false), Err(EngineError::EventLoopElapsed));
    assert_eq!(app.run_no_overhead(false), Err(EngineError::EventLoopElapsed));
    assert_eq!(app.state(), LoopState::Observing);
    assert_eq!(app.control_flow(), ControlFlow::Poll);
}

#[test]
fn run_no_overhead_only_shows_events_to_the_observer() {
    let mut app = application();
    app.run_no_overhead(false).unwrap();
    let events = [
        window_event(WINDOW, WindowEvent::CloseRequested),
        window_event(WINDOW, WindowEvent::Resized(Dimensions::new(1024, 768))),
        Event::MainEventsCleared,
        Event::RedrawRequested(WINDOW),
        Event::Other,
    ];
    for event in events.iter() {
        assert_eq!(app.dispatch(event), PREAMBLE.to_vec());
        assert_eq!(app.state(), LoopState::Observing);
        assert_eq!(size_of(&app), (800, 600));
    }
    assert_eq!(app.frame_rendered(Err(SurfaceFault::OutOfMemory)), vec![]);
    assert_eq!(app.state(), LoopState::Observing);
}

#[test]
fn nothing_is_dispatched_before_the_loop_starts() {
    let mut app = application();
    assert_eq!(app.dispatch(&Event::MainEventsCleared), vec![]);
    assert_eq!(app.dispatch(&window_event(WINDOW, WindowEvent::CloseRequested)), vec![]);
    assert_eq!(app.frame_rendered(Err(SurfaceFault::Lost)), vec![]);
    assert_eq!(app.state(), LoopState::NotStarted);
    assert_eq!(app.run(false), Ok(()));
}

#[test]
fn close_request_stops_the_loop() {
    let mut app = running();
    let actions = app.dispatch(&window_event(WINDOW, WindowEvent::CloseRequested));
    assert_eq!(after_preamble(&actions), vec![Action::Exit]);
    assert_eq!(app.state(), LoopState::Stopped);
}

#[test]
fn events_of_other_windows_are_left_alone() {
    let mut app = running();
    let events = [
        window_event(OTHER_WINDOW, WindowEvent::CloseRequested),
        window_event(OTHER_WINDOW, WindowEvent::Resized(Dimensions::new(1024, 768))),
        window_event(OTHER_WINDOW, WindowEvent::ScaleFactorChanged(Dimensions::new(400, 300))),
        Event::RedrawRequested(OTHER_WINDOW),
        window_event(WINDOW, WindowEvent::Other),
        Event::Other,
    ];
    for event in events.iter() {
        assert_eq!(app.dispatch(event), PREAMBLE.to_vec());
        assert_eq!(app.state(), LoopState::Running);
        assert_eq!(size_of(&app), (800, 600));
    }
}

#[test]
fn resized_window_reconfigures_the_surface() {
    let mut app = running();
    let before = app.config();
    let actions = app.dispatch(&window_event(
        WINDOW,
        WindowEvent::Resized(Dimensions::new(1024, 768)),
    ));
    let expected = corrosive_engine::renderer::SurfaceConfiguration {
        width: 1024,
        height: 768,
        ..before
    };
    assert_eq!(
        after_preamble(&actions),
        vec![
            Action::SetInnerSize(Dimensions::new(1024, 768)),
            Action::Configure(expected)
        ]
    );
    assert_eq!(app.config(), expected);
    assert_eq!(app.window().inner_size(), Dimensions::new(1024, 768));
    assert_eq!(app.state(), LoopState::Running);
}

#[test]
fn changed_scale_factor_reconfigures_the_surface() {
    let mut app = running();
    let dimensions = logical(1600, 1200, 2.0);
    assert_eq!(dimensions, Dimensions::new(800, 600));
    let dimensions = logical(1000, 500, 1.25);
    assert_eq!(dimensions, Dimensions::new(800, 400));
    let actions = app.dispatch(&window_event(
        WINDOW,
        WindowEvent::ScaleFactorChanged(dimensions),
    ));
    assert_eq!(after_preamble(&actions).len(), 2);
    assert_eq!(size_of(&app), (800, 400));
    assert_eq!(app.window().inner_size(), Dimensions::new(800, 400));
}

#[test]
fn resize_to_nothing_is_ignored() {
    let mut app = running();
    let before = app.config();
    for dimensions in [Dimensions::new(0, 0), Dimensions::new(0, 768), Dimensions::new(1024, 0)] {
        let actions = app.dispatch(&window_event(WINDOW, WindowEvent::Resized(dimensions)));
        assert_eq!(actions, PREAMBLE.to_vec());
        let actions =
            app.dispatch(&window_event(WINDOW, WindowEvent::ScaleFactorChanged(dimensions)));
        assert_eq!(actions, PREAMBLE.to_vec());
        assert_eq!(app.resize(&dimensions), vec![]);
        assert_eq!(app.config(), before);
        assert_eq!(app.window().inner_size(), Dimensions::new(800, 600));
    }
}

#[test]
fn of_two_resize_events_the_last_one_wins() {
    let mut app = running();
    app.dispatch(&window_event(WINDOW, WindowEvent::Resized(Dimensions::new(1024, 768))));
    app.dispatch(&window_event(WINDOW, WindowEvent::Resized(Dimensions::new(640, 480))));
    assert_eq!(size_of(&app), (640, 480));
    assert_eq!(app.window().inner_size(), Dimensions::new(640, 480));
}

#[test]
fn the_same_resize_twice_configures_twice() {
    let mut app = running();
    let event = window_event(WINDOW, WindowEvent::Resized(Dimensions::new(1024, 768)));
    let first = app.dispatch(&event);
    let second = app.dispatch(&event);
    assert_eq!(first, second);
    assert_eq!(
        second.iter().filter(|action| matches!(action, Action::Configure(_))).count(),
        1
    );
    assert_eq!(size_of(&app), (1024, 768));
}

#[test]
fn cleared_events_request_a_redraw() {
    let mut app = running();
    let actions = app.dispatch(&Event::MainEventsCleared);
    assert_eq!(after_preamble(&actions), vec![Action::RequestRedraw]);
}

#[test]
fn redraw_request_asks_for_a_frame() {
    let mut app = running();
    let actions = app.dispatch(&Event::RedrawRequested(WINDOW));
    assert_eq!(after_preamble(&actions), vec![Action::AcquireFrame]);
    assert_eq!(app.state(), LoopState::Running);
}

#[test]
fn update_changes_nothing() {
    let mut app = running();
    let config = app.config();
    app.update();
    assert_eq!(app.config(), config);
    assert_eq!(app.state(), LoopState::Running);
}

#[test]
fn acquired_frame_is_recorded_and_presented() {
    let mut app = running();
    let actions = app.frame_acquired(Ok(()));
    assert_eq!(
        actions,
        vec![
            Action::Frame(FrameCommand::CreateView),
            Action::Frame(FrameCommand::CreateEncoder),
            Action::Frame(FrameCommand::BeginRenderPass),
            Action::Frame(FrameCommand::SetPipeline),
            Action::Frame(FrameCommand::Draw {
                first_vertex: 0,
                end_vertex: 3,
                first_instance: 0,
                end_instance: 1
            }),
            Action::Frame(FrameCommand::EndRenderPass),
            Action::Frame(FrameCommand::Submit),
            Action::Frame(FrameCommand::Present),
        ]
    );
    assert_eq!(app.state(), LoopState::Running);
}

#[test]
fn rendered_frame_commands_are_handed_on_in_order() {
    let mut app = running();
    let actions = app.frame_rendered(Ok(vec![FrameCommand::Submit, FrameCommand::Present]));
    assert_eq!(
        actions,
        vec![Action::Frame(FrameCommand::Submit), Action::Frame(FrameCommand::Present)]
    );
    assert_eq!(app.frame_rendered(Ok(vec![])), vec![]);
}

#[test]
fn lost_surface_is_configured_again_once() {
    let mut app = running();
    app.dispatch(&window_event(WINDOW, WindowEvent::Resized(Dimensions::new(1024, 768))));
    let config = app.config();
    let actions = app.frame_acquired(Err(SurfaceError::Lost));
    assert_eq!(
        actions,
        vec![
            Action::SetInnerSize(Dimensions::new(1024, 768)),
            Action::Configure(config)
        ]
    );
    assert_eq!(app.state(), LoopState::Running);
    assert_eq!(app.config(), config);
    let next = app.dispatch(&Event::RedrawRequested(WINDOW));
    assert_eq!(after_preamble(&next), vec![Action::AcquireFrame]);
}

#[test]
fn out_of_memory_stops_the_loop_at_once() {
    let mut app = running();
    let actions = app.frame_acquired(Err(SurfaceError::OutOfMemory));
    assert_eq!(actions, vec![Action::Exit]);
    assert_eq!(app.state(), LoopState::Stopped);
    assert_eq!(app.dispatch(&Event::RedrawRequested(WINDOW)), vec![]);
    assert_eq!(app.dispatch(&Event::MainEventsCleared), vec![]);
    assert_eq!(app.frame_acquired(Ok(())), vec![]);
    assert_eq!(app.frame_acquired(Err(SurfaceError::Lost)), vec![]);
    assert_eq!(app.state(), LoopState::Stopped);
}

#[test]
fn other_faults_are_reported_and_the_loop_goes_on() {
    let mut app = running();
    let config = app.config();
    assert_eq!(
        app.frame_acquired(Err(SurfaceError::Timeout)),
        vec![Action::Report(SurfaceFault::Timeout)]
    );
    assert_eq!(
        app.frame_acquired(Err(SurfaceError::Outdated)),
        vec![Action::Report(SurfaceFault::Outdated)]
    );
    assert_eq!(
        app.frame_rendered(Err(SurfaceFault::Timeout)),
        vec![Action::Report(SurfaceFault::Timeout)]
    );
    assert_eq!(app.state(), LoopState::Running);
    assert_eq!(app.config(), config);
}

#[test]
fn window_of_800_by_600_through_resize_and_close() {
    let window = create(&Dimensions::new(800, 600), "Corrosive Editor".to_string()).unwrap();
    let mut app = Application::new(WINDOW, window, &capabilities()).unwrap();
    assert_eq!(size_of(&app), (800, 600));
    assert_eq!(app.run(false), Ok(()));

    app.dispatch(&window_event(WINDOW, WindowEvent::Resized(logical(1024, 768, 1.0))));
    assert_eq!(size_of(&app), (1024, 768));

    app.dispatch(&window_event(WINDOW, WindowEvent::Resized(logical(0, 0, 1.0))));
    assert_eq!(size_of(&app), (1024, 768));

    let actions = app.dispatch(&window_event(WINDOW, WindowEvent::CloseRequested));
    assert_eq!(after_preamble(&actions), vec![Action::Exit]);
    assert_eq!(app.state(), LoopState::Stopped);
}
