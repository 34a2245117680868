//! What holds of the application loop whatever it is fed: the laws that
//! the step functions of [`ApplicationView`] obey.

use vstd::prelude::*;
use crate::application::{
    close_request, frame_requests, reconfigurations, Action, ApplicationView, Event, FrameOutcome,
    Input,
};
use crate::error::EngineError;
use crate::renderer::{FrameCommand, SurfaceFault};
use crate::window::Dimensions;

verus! {

/// An application keeps an area for its window and its surface through
/// every resize, every event and every frame.
pub proof fn lemma_area_is_kept(
    application: ApplicationView,
    dimensions: Dimensions,
    event: Event,
    outcome: FrameOutcome,
)
    requires
        application.wf(),
    ensures
        application.resized(dimensions).wf(),
        application.dispatched(event).wf(),
        application.concluded(outcome).wf(),
{
}

/// The format, the presentation mode and the alpha mode of the surface are
/// fixed: no event and no frame changes them.
pub proof fn lemma_negotiated_modes_are_fixed(
    application: ApplicationView,
    event: Event,
    outcome: FrameOutcome,
)
    ensures
        application.dispatched(event).config.format == application.config.format,
        application.dispatched(event).config.present_mode == application.config.present_mode,
        application.dispatched(event).config.alpha_mode == application.config.alpha_mode,
        application.concluded(outcome).config.format == application.config.format,
        application.concluded(outcome).config.present_mode == application.config.present_mode,
        application.concluded(outcome).config.alpha_mode == application.config.alpha_mode,
{
}

/// A resize to dimensions with a zero component changes nothing and asks for
/// nothing.
pub proof fn lemma_invalid_resize_is_ignored(application: ApplicationView, dimensions: Dimensions)
    requires
        !dimensions.valid(),
    ensures
        application.resized(dimensions) == application,
        application.resize_actions(dimensions) == Seq::<Action>::empty(),
{
}

/// Of two valid resizes in a row the last one wins: window and surface have
/// the size of the second, and the loop was asked each time to configure the
/// surface for the size just given.
pub proof fn lemma_resize_last_write_wins(
    application: ApplicationView,
    first: Dimensions,
    second: Dimensions,
)
    requires
        first.valid(),
        second.valid(),
    ensures
        application.resized(first).resized(second) == application.resized(second),
        application.resized(first).resized(second).size == second,
        application.resized(first).resized(second).config.dimensions() == second,
        application.resized(first).resize_actions(second) == application.resize_actions(second),
{
}

/// A valid resize can be repeated: the second request for the same
/// dimensions leaves the state as the first left it, and still asks the loop
/// to configure the surface, exactly once.
pub proof fn lemma_resize_repeats(application: ApplicationView, dimensions: Dimensions)
    requires
        dimensions.valid(),
    ensures
        application.resized(dimensions).resized(dimensions) == application.resized(dimensions),
        application.resized(dimensions).resize_actions(dimensions) == application.resize_actions(
            dimensions,
        ),
        reconfigurations(application.resized(dimensions).resize_actions(dimensions)) == 1,
{
    lemma_valid_resize_reconfigures_once(application.resized(dimensions), dimensions);
}

/// A valid resize asks the loop to configure the surface exactly once, for
/// the new dimensions, and asks for no frame.
pub proof fn lemma_valid_resize_reconfigures_once(
    application: ApplicationView,
    dimensions: Dimensions,
)
    requires
        dimensions.valid(),
    ensures
        reconfigurations(application.resize_actions(dimensions)) == 1,
        frame_requests(application.resize_actions(dimensions)) == 0,
        application.resize_actions(dimensions).last() == Action::Configure(
            application.resized(dimensions).config,
        ),
{
    let actions = application.resize_actions(dimensions);
    assert(actions.drop_last() =~= seq![Action::SetInnerSize(dimensions)]);
    assert(actions.drop_last().drop_last() =~= Seq::<Action>::empty());
    reveal_with_fuel(reconfigurations, 3);
    reveal_with_fuel(frame_requests, 3);
}

/// The loop of an application starts once. After it has been started, with
/// or without the engine's own handling, every further start is refused with
/// `EventLoopElapsed`, whatever has been dispatched in between.
pub proof fn lemma_loop_starts_once(
    application: ApplicationView,
    first_handling: bool,
    first_mode: bool,
    event: Event,
    outcome: FrameOutcome,
    second_handling: bool,
    second_mode: bool,
)
    ensures
        application.started(first_handling, first_mode) matches Ok(running) ==> running.started(
            second_handling,
            second_mode,
        ) == Err::<ApplicationView, EngineError>(EngineError::EventLoopElapsed),
        application.started(first_handling, first_mode) matches Ok(running)
            ==> running.dispatched(event).started(second_handling, second_mode) == Err::<
            ApplicationView,
            EngineError,
        >(EngineError::EventLoopElapsed),
        application.started(first_handling, first_mode) matches Ok(running)
            ==> running.concluded(outcome).started(second_handling, second_mode) == Err::<
            ApplicationView,
            EngineError,
        >(EngineError::EventLoopElapsed),
{
}

/// A loop that has been started never counts as not started again.
pub proof fn lemma_started_loop_stays_started(
    application: ApplicationView,
    event: Event,
    outcome: FrameOutcome,
)
    requires
        !(application.state is NotStarted),
    ensures
        !(application.dispatched(event).state is NotStarted),
        !(application.concluded(outcome).state is NotStarted),
{
}

/// A lost surface is answered, while the loop runs, by exactly one
/// configuration of the surface, for the size that the window has, before any
/// further frame is asked for; and the loop goes on running.
pub proof fn lemma_lost_surface_reconfigures_once(application: ApplicationView)
    requires
        application.wf(),
        application.state is Running,
    ensures
        reconfigurations(application.conclusion(Err(SurfaceFault::Lost))) == 1,
        frame_requests(application.conclusion(Err(SurfaceFault::Lost))) == 0,
        application.conclusion(Err(SurfaceFault::Lost)).last() == Action::Configure(
            application.config.with_dimensions(application.size),
        ),
        application.concluded(Err(SurfaceFault::Lost)).state is Running,
        application.concluded(Err(SurfaceFault::Lost)).config.dimensions() == application.size,
{
    lemma_valid_resize_reconfigures_once(application, application.size);
}

/// Memory that has run out ends the loop in the very step in which it is
/// seen: the loop is told to exit and nothing else, and the application has
/// stopped.
pub proof fn lemma_out_of_memory_stops(application: ApplicationView)
    requires
        application.state is Running,
    ensures
        application.conclusion(Err(SurfaceFault::OutOfMemory)) == seq![Action::Exit],
        frame_requests(application.conclusion(Err(SurfaceFault::OutOfMemory))) == 0,
        application.concluded(Err(SurfaceFault::OutOfMemory)).state is Stopped,
{
    let actions = application.conclusion(Err(SurfaceFault::OutOfMemory));
    assert(actions.drop_last() =~= Seq::<Action>::empty());
    reveal_with_fuel(frame_requests, 2);
}

/// A close request of the window ends the loop in the step in which it is
/// dispatched.
pub proof fn lemma_close_request_stops(application: ApplicationView)
    requires
        application.state is Running,
    ensures
        application.dispatched(close_request(application.window_id)).state is Stopped,
        application.handling(close_request(application.window_id)) == seq![Action::Exit],
{
}

/// A loop that has stopped stays stopped and asks for nothing: no event and
/// no outcome of a frame makes it act, so no further frame is ever asked for.
pub proof fn lemma_stopped_is_final(
    application: ApplicationView,
    event: Event,
    outcome: FrameOutcome,
)
    requires
        application.state is Stopped,
    ensures
        application.dispatched(event) == application,
        application.concluded(outcome) == application,
        application.dispatch_actions(event) == Seq::<Action>::empty(),
        application.conclusion(outcome) == Seq::<Action>::empty(),
        frame_requests(application.dispatch_actions(event)) == 0,
        frame_requests(application.conclusion(outcome)) == 0,
{
}

/// A running loop stops only on a close request of its window or when memory
/// has run out.
pub proof fn lemma_loop_stops_only_on_close_or_out_of_memory(
    application: ApplicationView,
    event: Event,
    outcome: FrameOutcome,
)
    requires
        application.state is Running,
    ensures
        application.dispatched(event).state is Stopped <==> event == close_request(
            application.window_id,
        ),
        application.concluded(outcome).state is Stopped <==> outcome == Err::<
            Seq<FrameCommand>,
            SurfaceFault,
        >(SurfaceFault::OutOfMemory),
        !(application.dispatched(event).state is Stopped) ==> application.dispatched(
            event,
        ).state is Running,
        !(application.concluded(outcome).state is Stopped) ==> application.concluded(
            outcome,
        ).state is Running,
{
}

/// Whatever the loop is fed, the window and the surface keep an area, the
/// format, the presentation mode and the alpha mode of the surface stay as
/// they were negotiated, the identity and the title of the window and the
/// mode of waiting stay, and a loop that has been started stays started.
pub proof fn lemma_invariants_hold_throughout(application: ApplicationView, inputs: Seq<Input>)
    requires
        application.wf(),
    ensures
        application.after(inputs).wf(),
        application.after(inputs).config.format == application.config.format,
        application.after(inputs).config.present_mode == application.config.present_mode,
        application.after(inputs).config.alpha_mode == application.config.alpha_mode,
        application.after(inputs).window_id == application.window_id,
        application.after(inputs).title == application.title,
        application.after(inputs).control_flow == application.control_flow,
        !(application.state is NotStarted) ==> !(application.after(inputs).state is NotStarted),
    decreases inputs.len(),
{
    if inputs.len() > 0 {
        lemma_invariants_hold_throughout(application, inputs.drop_last());
    }
}

/// A loop that does not run is silent: before it has started and after it
/// has stopped, no sequence of inputs changes the application or asks
/// anything of the loop.
pub proof fn lemma_idle_loop_is_silent(application: ApplicationView, inputs: Seq<Input>)
    requires
        application.state is NotStarted || application.state is Stopped,
    ensures
        application.after(inputs) == application,
        application.actions_over(inputs) == Seq::<Action>::empty(),
        frame_requests(application.actions_over(inputs)) == 0,
        reconfigurations(application.actions_over(inputs)) == 0,
    decreases inputs.len(),
{
    if inputs.len() > 0 {
        lemma_idle_loop_is_silent(application, inputs.drop_last());
        assert(application.actions_over(inputs) =~= Seq::<Action>::empty());
    }
}

/// After memory has run out no frame is asked for again, whatever the loop
/// is fed from then on.
pub proof fn lemma_no_frame_after_out_of_memory(application: ApplicationView, inputs: Seq<Input>)
    requires
        application.state is Running,
    ensures
        application.concluded(Err(SurfaceFault::OutOfMemory)).after(inputs).state is Stopped,
        frame_requests(
            application.concluded(Err(SurfaceFault::OutOfMemory)).actions_over(inputs),
        ) == 0,
{
    lemma_idle_loop_is_silent(application.concluded(Err(SurfaceFault::OutOfMemory)), inputs);
}

/// Every start of a loop that has been started before is refused with
/// `EventLoopElapsed`, whether the loop still runs or has stopped.
pub proof fn lemma_second_start_is_refused(
    application: ApplicationView,
    own_handling: bool,
    high_performance_mode: bool,
)
    requires
        !(application.state is NotStarted),
    ensures
        application.started(own_handling, high_performance_mode) == Err::<
            ApplicationView,
            EngineError,
        >(EngineError::EventLoopElapsed),
{
}

} // verus!
