//! The decisions of the application loop: what a signal of the window system
//! asks for, and whether the loop goes on after a frame.
//!
//! The window, the event loop and the logging are the driver's. It reports
//! each signal here and carries out the action that comes back.

use vstd::prelude::*;
use crate::graphics::gpu::{FrameError, Gpu};
use crate::graphics::surface_config::clamp_extent;

verus! {

/// A signal of the window system, as far as the loop tells signals apart.
#[derive(Clone, Copy, Debug, PartialEq, Eq, Structural)]
pub enum WindowSignal {
    /// The window has a new size in pixels. Either dimension may be zero.
    Resized { width: u32, height: u32 },
    /// The user asked for the window to be closed.
    CloseRequested,
    /// The window was destroyed.
    Destroyed,
    /// The window asks for a new frame.
    RedrawRequested,
    /// Any other signal.
    Other,
}

/// What the loop does about a signal or a frame.
#[derive(Clone, Copy, Debug, PartialEq, Eq, Structural)]
pub enum AppAction {
    /// Nothing: the loop goes on.
    Ignore,
    /// Resize the surface to this size, which is at least one pixel each way.
    Resize { width: u32, height: u32 },
    /// Ask for the next redraw and render one frame.
    Render,
    /// Leave the loop.
    Exit,
}

/// The action for a signal. Before the application is set up, and for a
/// window that is not its own, every signal is ignored. A new size is clamped
/// and handed to the surface; a close request and the window's destruction
/// end the loop; a redraw request renders a frame.
pub open spec fn dispatch(initialized: bool, own_window: bool, signal: WindowSignal) -> AppAction {
    if !initialized || !own_window {
        AppAction::Ignore
    } else {
        match signal {
            WindowSignal::Resized { width, height } => AppAction::Resize {
                width: clamp_extent(width),
                height: clamp_extent(height),
            },
            WindowSignal::CloseRequested => AppAction::Exit,
            WindowSignal::Destroyed => AppAction::Exit,
            WindowSignal::RedrawRequested => AppAction::Render,
            WindowSignal::Other => AppAction::Ignore,
        }
    }
}

/// The action after a frame. A fatal failure ends the loop. A frame that was
/// presented, and one that was skipped for a transient failure, leave it
/// running.
pub open spec fn after_frame(result: Result<(), FrameError>) -> AppAction {
    match result {
        Err(FrameError::Fatal) => AppAction::Exit,
        _ => AppAction::Ignore,
    }
}

/// Decides on a signal of the window system, as [`dispatch`] says.
pub fn window_event(initialized: bool, own_window: bool, signal: WindowSignal) -> (action:
    AppAction)
    ensures
        action == dispatch(initialized, own_window, signal),
        action matches AppAction::Resize { width, height } ==> width >= 1 && height >= 1,
{
    if !initialized || !own_window {
        return AppAction::Ignore;
    }
    match signal {
        WindowSignal::Resized { width, height } => {
            let (width, height) = Gpu::surface_size(width, height);
            AppAction::Resize { width, height }
        },
        WindowSignal::CloseRequested | WindowSignal::Destroyed => AppAction::Exit,
        WindowSignal::RedrawRequested => AppAction::Render,
        WindowSignal::Other => AppAction::Ignore,
    }
}

/// Decides whether the loop goes on after a frame, as [`after_frame`] says.
pub fn frame_done(result: Result<(), FrameError>) -> (action: AppAction)
    ensures
        action == after_frame(result),
{
    match result {
        Err(FrameError::Fatal) => AppAction::Exit,
        _ => AppAction::Ignore,
    }
}

/// The loop never passes a zero dimension on: whatever size the window
/// system reports, a resize that is dispatched has at least one pixel each
/// way.
pub proof fn lemma_dispatch_clamps(initialized: bool, own_window: bool, signal: WindowSignal)
    ensures
        dispatch(initialized, own_window, signal) matches AppAction::Resize { width, height }
            ==> width >= 1 && height >= 1,
{
}

/// A fatal failure is never swallowed: the loop goes on after a frame only
/// where the frame did not fail fatally.
pub proof fn lemma_fatal_ends_loop(result: Result<(), FrameError>)
    ensures
        after_frame(result) == AppAction::Exit <==> result == Err::<(), FrameError>(
            FrameError::Fatal,
        ),
{
}

} // verus!
