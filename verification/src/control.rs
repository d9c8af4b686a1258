//! The decision of the control loop: what to do after an event of the
//! window system.

use vstd::prelude::*;

verus! {

/// Width of the window that is asked for at start-up, in logical pixels.
pub const DEFAULT_WINDOW_WIDTH: u32 = 640;

/// Height of the window that is asked for at start-up, in logical pixels.
pub const DEFAULT_WINDOW_HEIGHT: u32 = 480;

/// The events that the control loop tells apart.
#[derive(Clone, Copy, Debug, PartialEq, Eq)]
pub enum Event {
    /// The user asked to close a window; `own_window` says whether it is the
    /// window that is rendered to.
    CloseRequested { own_window: bool },
    /// The window is to be drawn again.
    RedrawRequested,
    /// Anything else.
    Other,
}

/// What the control loop does next.
#[derive(Clone, Copy, Debug, PartialEq, Eq)]
pub enum ControlFlow {
    /// Sleep until the next event.
    Wait,
    /// Render one frame, then sleep until the next event.
    Tick,
    /// Leave the loop.
    Exit,
}

/// The control flow after `event`: a request to close the rendered window
/// ends the loop, a request to redraw renders a frame, and everything else
/// is waited out.
pub open spec fn control_flow_after(event: Event) -> ControlFlow {
    match event {
        Event::CloseRequested { own_window: true } => ControlFlow::Exit,
        Event::RedrawRequested => ControlFlow::Tick,
        _ => ControlFlow::Wait,
    }
}

/// Decides what the control loop does after `event`.
pub fn on_event(event: Event) -> (next: ControlFlow)
    ensures
        next == control_flow_after(event),
{
    match event {
        Event::CloseRequested { own_window } => if own_window {
            ControlFlow::Exit
        } else {
            ControlFlow::Wait
        },
        Event::RedrawRequested => ControlFlow::Tick,
        Event::Other => ControlFlow::Wait,
    }
}

} // verus!
