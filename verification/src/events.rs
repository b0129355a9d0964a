//! Window-system event policy.
//!
//! The windowing collaborator owns the platform event loop and forwards its
//! events; the engine reacts to exactly two of them. A redraw request
//! drives one render-loop tick, a close request drives teardown, and every
//! other event is ignored.

use vstd::prelude::*;

verus! {

/// The window-system events the engine distinguishes.
#[derive(Clone, Copy, PartialEq, Eq, Structural, Debug)]
pub enum WindowEvent {
    CloseRequested,
    RedrawRequested,
    Other,
}

/// What the event loop does in response to an event.
#[derive(Clone, Copy, PartialEq, Eq, Structural, Debug)]
pub enum LoopAction {
    /// Leave the loop and tear the engine down.
    Exit,
    /// Drive one tick of the render loop.
    Draw,
    /// Do nothing.
    Ignore,
}

/// Maps an event to the loop's reaction: close exits, redraw draws one
/// frame, everything else is ignored.
pub fn handle_event(event: WindowEvent) -> (action: LoopAction)
    ensures
        event is CloseRequested <==> action is Exit,
        event is RedrawRequested <==> action is Draw,
        event is Other <==> action is Ignore,
{
    match event {
        WindowEvent::CloseRequested => LoopAction::Exit,
        WindowEvent::RedrawRequested => LoopAction::Draw,
        WindowEvent::Other => LoopAction::Ignore,
    }
}

} // verus!
