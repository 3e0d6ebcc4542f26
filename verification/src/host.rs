//! What the simulation asks of the loop that hosts it.
//!
//! The host owns the window and the presentation surface. It reports what
//! happened as a [`Signal`] and carries out the [`Action`] that comes back;
//! the agents never see the window.

use vstd::prelude::*;

verus! {

/// Something the host loop observed.
#[derive(Clone, Copy, Debug, PartialEq, Eq, Structural)]
pub enum Signal {
    /// The user asked for the window to be closed.
    CloseRequested,
    /// The exit key was pressed.
    ExitKey,
    /// The window now has the given size in physical pixels.
    Resized { width: u32, height: u32 },
    /// All pending events have been handled: time for an update tick.
    UpdateTick,
    /// The window wants its contents drawn: time for a redraw tick.
    RedrawTick,
    /// The presentation surface could not be resized.
    ResizeFailed,
    /// The frame could not be presented.
    PresentFailed,
    /// Anything else.
    Other,
}

/// What the host is to do next.
#[derive(Clone, Copy, Debug, PartialEq, Eq, Structural)]
pub enum Action {
    /// Leave the loop.
    Exit,
    /// Resize the presentation surface; the canvas keeps its size.
    ResizeSurface { width: u32, height: u32 },
    /// Advance every agent by one step, then ask for a redraw.
    Update,
    /// Stamp every agent into the frame, then present it.
    Redraw,
    /// Nothing.
    Ignore,
}

/// The action that answers a signal. Close requests, the exit key and both
/// surface failures end the loop; a resize is passed on to the surface with
/// the size unchanged; the two ticks ask for their work; everything else is
/// ignored.
pub open spec fn reaction(signal: Signal) -> Action {
    match signal {
        Signal::CloseRequested | Signal::ExitKey => Action::Exit,
        Signal::ResizeFailed | Signal::PresentFailed => Action::Exit,
        Signal::Resized { width, height } => Action::ResizeSurface { width, height },
        Signal::UpdateTick => Action::Update,
        Signal::RedrawTick => Action::Redraw,
        Signal::Other => Action::Ignore,
    }
}

/// Whether a signal ends the loop.
pub open spec fn is_fatal(signal: Signal) -> bool {
    signal is CloseRequested || signal is ExitKey || signal is ResizeFailed
        || signal is PresentFailed
}

/// Decides what the host does about `signal`.
pub fn react(signal: Signal) -> (action: Action)
    ensures
        action == reaction(signal),
        action is Exit <==> is_fatal(signal),
{
    match signal {
        Signal::CloseRequested => Action::Exit,
        Signal::ExitKey => Action::Exit,
        Signal::Resized { width, height } => Action::ResizeSurface { width, height },
        Signal::UpdateTick => Action::Update,
        Signal::RedrawTick => Action::Redraw,
        Signal::ResizeFailed => Action::Exit,
        Signal::PresentFailed => Action::Exit,
        Signal::Other => Action::Ignore,
    }
}

} // verus!
