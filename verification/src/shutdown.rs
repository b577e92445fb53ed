//! The shutdown hook's side of supervision: which window events end it.

use vstd::prelude::*;
use crate::slot::HandleSlot;

verus! {

/// A window event, as far as supervision cares.
#[derive(Clone, Copy, Debug, PartialEq, Eq, Structural)]
pub enum WindowEvent {
    /// The window was destroyed.
    Destroyed,
    /// Anything else: moved, resized, focused and so on.
    Other,
}

impl WindowEvent {
    /// Whether the hook has to take the handle out of the slot and kill the
    /// child. Only the destruction of the window asks for that; every other
    /// event is ignored.
    pub fn ends_supervision(&self) -> (ends: bool)
        ensures
            ends == (*self is Destroyed),
    {
        match self {
            WindowEvent::Destroyed => true,
            WindowEvent::Other => false,
        }
    }
}

/// The hook's work once the window is known to be destroyed.
///
/// `access` is the slot if the hook could reach it, and `None` if the shared
/// state was never set up or its lock could not be taken. A handle that is
/// present is taken out and handed over to be killed, and the slot is left
/// released; in every other case the hook does nothing, and says so by
/// returning `None`.
pub fn on_destroyed<H>(access: Option<&mut HandleSlot<H>>) -> (to_kill: Option<H>)
    ensures
        match access {
            Some(slot) => to_kill == slot@.held() && final(slot)@ == slot@.after_release(),
            None => to_kill is None,
        },
{
    match access {
        Some(slot) => slot.release(),
        None => None,
    }
}

} // verus!
