//! The render loop: what a frame submits, what follows when a frame could
//! not be had, and what each event of the window calls for.

use crate::parameters::Parameters;
use crate::pipelines::FULL_SCREEN_VERTICES;
use crate::queue::{in_turn, Command, QueueState};
use vstd::prelude::*;

verus! {

/// Microseconds in a second.
pub const MICROS_PER_SECOND: u64 = 1_000_000;

/// What one frame does once the surface has given a texture to draw on:
/// under one holding of the queue lock a single pass draws the two
/// triangles that cover the screen; the frame is shown when the lock is
/// free again.
pub open spec fn frame_sequence() -> Seq<Command> {
    seq![
        Command::LockQueue,
        Command::RenderPass { vertices: FULL_SCREEN_VERTICES, instances: 1 },
        Command::Submit,
        Command::UnlockQueue,
        Command::Present,
    ]
}

/// Lists what one frame does.
pub fn render_commands() -> (commands: Vec<Command>)
    ensures
        commands@ == frame_sequence(),
        in_turn(commands@),
{
    let commands = vec![
        Command::LockQueue,
        Command::RenderPass { vertices: FULL_SCREEN_VERTICES, instances: 1 },
        Command::Submit,
        Command::UnlockQueue,
        Command::Present,
    ];
    assert(commands@ =~= frame_sequence());
    proof {
        lemma_frame_keeps_turn();
    }
    commands
}

/// A frame uses the queue in turn: it takes the lock once, encodes its one
/// pass, submits, gives the lock back, and only then shows the frame.
pub proof fn lemma_frame_keeps_turn()
    ensures
        in_turn(frame_sequence()),
{
    let frame = frame_sequence();
    let four = frame.drop_last();
    let three = four.drop_last();
    let two = three.drop_last();
    let one = two.drop_last();
    let none = one.drop_last();
    assert(none.len() == 0);
    assert(QueueState::Free.after_all(none) == QueueState::Free);
    assert(one.last() == Command::LockQueue);
    assert(QueueState::Free.after_all(one) == QueueState::Encoding);
    assert(QueueState::Free.after_all(two) == QueueState::Encoding);
    assert(QueueState::Free.after_all(three) == QueueState::Submitted);
    assert(QueueState::Free.after_all(four) == QueueState::Free);
}

/// Least time between two frames, in microseconds: a second divided by the
/// target rate, rounded down.
pub open spec fn frame_interval(target_ticks_per_second: u32) -> int
    recommends
        target_ticks_per_second > 0,
{
    MICROS_PER_SECOND as int / target_ticks_per_second as int
}

/// Computes how long after a redraw the next one is due.
pub fn frame_interval_micros(target_ticks_per_second: u32) -> (micros: u64)
    requires
        target_ticks_per_second > 0,
    ensures
        micros == frame_interval(target_ticks_per_second),
{
    MICROS_PER_SECOND / (target_ticks_per_second as u64)
}

/// Why the surface gave no texture to draw on.
#[derive(Debug, Clone, Copy, PartialEq, Eq, Structural)]
pub enum SurfaceError {
    /// The texture did not come in time.
    Timeout,
    /// The surface has changed and must be set up again.
    Outdated,
    /// The surface is gone.
    Lost,
    /// No memory is left.
    OutOfMemory,
}

/// What the render loop does after a frame.
#[derive(Debug, Clone, Copy, PartialEq, Eq, Structural)]
pub enum FrameAction {
    /// The frame was shown; go on.
    Proceed,
    /// Set the surface up again with the configuration it had; this frame is
    /// skipped.
    Reconfigure,
    /// Leave the event loop; the run is over.
    Exit,
    /// Report the error; this frame is skipped and the loop goes on.
    Report(SurfaceError),
}

/// The action that follows the given outcome of a frame.
pub open spec fn frame_action(outcome: Result<(), SurfaceError>) -> FrameAction {
    match outcome {
        Ok(_) => FrameAction::Proceed,
        Err(SurfaceError::Lost) => FrameAction::Reconfigure,
        Err(SurfaceError::OutOfMemory) => FrameAction::Exit,
        Err(error) => FrameAction::Report(error),
    }
}

/// Decides what follows a frame. A lost surface is set up again; want of
/// memory ends the run; any other error is reported and costs one frame.
pub fn after_render(outcome: Result<(), SurfaceError>) -> (action: FrameAction)
    ensures
        action == frame_action(outcome),
        action == FrameAction::Reconfigure <==> outcome == Err::<(), SurfaceError>(
            SurfaceError::Lost,
        ),
        action == FrameAction::Exit <==> outcome == Err::<(), SurfaceError>(
            SurfaceError::OutOfMemory,
        ),
        action == FrameAction::Proceed <==> outcome is Ok,
{
    match outcome {
        Ok(_) => FrameAction::Proceed,
        Err(SurfaceError::Lost) => FrameAction::Reconfigure,
        Err(SurfaceError::OutOfMemory) => FrameAction::Exit,
        Err(error) => FrameAction::Report(error),
    }
}

/// A key that the loop tells apart.
#[derive(Debug, Clone, Copy, PartialEq, Eq, Structural)]
pub enum Key {
    Escape,
    KeyR,
    Other,
}

/// An event of the window, as far as the loop tells events apart.
#[derive(Debug, Clone, Copy, PartialEq, Eq, Structural)]
pub enum Event {
    /// The time until which the loop was to wait has come.
    ResumeTimeReached,
    /// The user asks to close the window.
    CloseRequested,
    /// The window is to be drawn.
    RedrawRequested,
    /// A key went down or came up.
    KeyboardInput { key: Key, pressed: bool },
    /// Anything else.
    Other,
}

/// What an event calls for.
#[derive(Debug, Clone, Copy, PartialEq, Eq, Structural)]
pub enum Reaction {
    /// Nothing.
    Ignore,
    /// Ask the window for a redraw.
    RequestRedraw,
    /// Have the loop wake up again after `wait_micros` microseconds, then
    /// render a frame.
    Render { wait_micros: u64 },
    /// Leave the event loop.
    Exit,
}

/// The reaction to an event at the given tick rate.
pub open spec fn reaction(target_ticks_per_second: u32, event: Event) -> Reaction {
    match event {
        Event::ResumeTimeReached => Reaction::RequestRedraw,
        Event::CloseRequested => Reaction::Exit,
        Event::RedrawRequested => Reaction::Render {
            wait_micros: frame_interval(target_ticks_per_second) as u64,
        },
        Event::KeyboardInput { key: Key::Escape, pressed: true } => Reaction::Exit,
        Event::KeyboardInput { .. } => Reaction::Ignore,
        Event::Other => Reaction::Ignore,
    }
}

/// Decides what an event of the window calls for. Frames are drawn no
/// faster than ticks are made: each redraw sets the time of the next.
/// Closing the window and pressing escape end the run; no other key does
/// anything.
pub fn on_event(params: &Parameters, event: Event) -> (answer: Reaction)
    requires
        event == Event::RedrawRequested ==> params.target_ticks_per_second > 0,
    ensures
        answer == reaction(params.target_ticks_per_second, event),
{
    match event {
        Event::ResumeTimeReached => Reaction::RequestRedraw,
        Event::CloseRequested => Reaction::Exit,
        Event::RedrawRequested => Reaction::Render {
            wait_micros: frame_interval_micros(params.target_ticks_per_second),
        },
        Event::KeyboardInput { key: Key::Escape, pressed: true } => Reaction::Exit,
        Event::KeyboardInput { .. } => Reaction::Ignore,
        Event::Other => Reaction::Ignore,
    }
}

/// Picks the format for the surface from the formats that it offers, given
/// for each, in the surface's order of preference, whether it is sRGB: the
/// first that is sRGB, or the first of all where none is.
pub fn choose_surface_format(srgb: &Vec<bool>) -> (chosen: usize)
    requires
        srgb.len() > 0,
    ensures
        chosen < srgb.len(),
        srgb@[chosen as int] || (chosen == 0 && !srgb@.contains(true)),
        forall|j: int| 0 <= j < chosen ==> !srgb@[j],
{
    let mut i: usize = 0;
    while i < srgb.len()
        invariant
            i <= srgb.len(),
            forall|j: int| 0 <= j < i ==> !srgb@[j],
        decreases srgb.len() - i,
    {
        if srgb[i] {
            return i;
        }
        i += 1;
    }
    assert(!srgb@.contains(true)) by {
        if srgb@.contains(true) {
            let j = choose|j: int| 0 <= j < srgb@.len() && srgb@[j] == true;
            assert(!srgb@[j]);
        }
    }
    0
}

} // verus!
