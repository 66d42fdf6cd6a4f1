//! How a window answers its event loop.
//!
//! The loop itself belongs to the platform. What is decided here is the
//! answer to each thing it reports: stop when the window is asked to close,
//! draw a frame whenever the loop has run out of events, and let everything
//! else pass.

use vstd::prelude::*;

verus! {

/// What the event loop reports, as far as a window tells things apart.
#[derive(Debug, Clone, Copy, PartialEq, Eq, Structural)]
pub enum Signal {
    /// The platform asks the window to close.
    CloseRequested,
    /// Every pending event has been handled and the loop is about to wait.
    AboutToWait,
    /// Anything else.
    Other,
}

/// What the window does in answer to a signal.
#[derive(Debug, Clone, Copy, PartialEq, Eq, Structural)]
pub enum Reaction {
    /// Leave the event loop.
    Exit,
    /// Draw one frame.
    Draw,
    /// Do nothing.
    Ignore,
}

/// The answer to one signal: a close request ends the loop, an idle loop
/// draws, and nothing else has any effect.
pub fn react(signal: Signal) -> (reaction: Reaction)
    ensures
        reaction is Exit <==> signal is CloseRequested,
        reaction is Draw <==> signal is AboutToWait,
        reaction is Ignore <==> signal is Other,
{
    match signal {
        Signal::CloseRequested => Reaction::Exit,
        Signal::AboutToWait => Reaction::Draw,
        Signal::Other => Reaction::Ignore,
    }
}

} // verus!
