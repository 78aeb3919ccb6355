//! The global shortcut and what a key event on it brings about.

use vstd::prelude::*;
use crate::surface::{Visibility, VisibilityController, WindowRequest};

verus! {

/// A registered key combination, known by the number under which the
/// platform reports events on it.
#[derive(Clone, Copy, Debug, PartialEq, Eq, Structural)]
pub struct Shortcut {
    pub id: u32,
}

/// The two states of a key event.
#[derive(Clone, Copy, Debug, PartialEq, Eq, Structural)]
pub enum ShortcutState {
    Pressed,
    Released,
}

/// A key event on a registered key combination.
#[derive(Clone, Copy, Debug, PartialEq, Eq, Structural)]
pub struct ShortcutEvent {
    pub shortcut: Shortcut,
    pub state: ShortcutState,
}

/// Whether `event` is a press of `binding`.
pub open spec fn is_press_of(binding: Shortcut, event: ShortcutEvent) -> bool {
    event.shortcut == binding && event.state == ShortcutState::Pressed
}

/// The visibility that follows `event` from `surface`, with `binding` bound.
pub open spec fn surface_after_event(
    binding: Shortcut,
    surface: Visibility,
    event: ShortcutEvent,
) -> Visibility {
    if is_press_of(binding, event) {
        Visibility::Visible
    } else {
        surface
    }
}

/// The listener on the one key combination that is bound.
pub struct ShortcutListener {
    binding: Shortcut,
}

impl ShortcutListener {
    /// The key combination that is bound.
    pub closed spec fn binding(&self) -> Shortcut {
        self.binding
    }

    /// A listener on `binding`.
    pub fn new(binding: Shortcut) -> (listener: ShortcutListener)
        ensures
            listener.binding() == binding,
    {
        ShortcutListener { binding }
    }

    /// The key combination that is bound.
    pub fn bound_shortcut(&self) -> (binding: Shortcut)
        ensures
            binding == self.binding(),
    {
        self.binding
    }

    /// Shows the surface on a press of the bound combination. A release, or
    /// an event on another combination, changes nothing and asks nothing.
    pub fn on_event(&self, event: ShortcutEvent, controller: &mut VisibilityController) -> (request:
        Option<WindowRequest>)
        ensures
            final(controller).surface() == surface_after_event(
                self.binding(),
                old(controller).surface(),
                event,
            ),
            request == if is_press_of(self.binding(), event) {
                Some(WindowRequest::ShowAndFocus)
            } else {
                None
            },
    {
        if event.shortcut == self.binding {
            match event.state {
                ShortcutState::Pressed => Some(controller.show_window()),
                ShortcutState::Released => None,
            }
        } else {
            None
        }
    }
}

} // verus!
