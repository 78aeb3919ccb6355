//! The launcher surface and the controller that shows and hides it.

use vstd::prelude::*;

verus! {

/// Whether the launcher surface is on screen.
#[derive(Clone, Copy, Debug, PartialEq, Eq, Structural)]
pub enum Visibility {
    Hidden,
    Visible,
}

/// What the window system is asked to do with the surface.
#[derive(Clone, Copy, Debug, PartialEq, Eq, Structural)]
pub enum WindowRequest {
    /// Put the surface on screen and give it the input focus.
    ShowAndFocus,
    /// Take the surface off screen.
    Hide,
}

/// The one place that changes the visibility of the surface.
pub struct VisibilityController {
    surface: Visibility,
}

impl VisibilityController {
    /// The visibility of the surface.
    pub closed spec fn surface(&self) -> Visibility {
        self.surface
    }

    /// A controller for a surface that starts out as `initial`.
    pub fn new(initial: Visibility) -> (controller: VisibilityController)
        ensures
            controller.surface() == initial,
    {
        VisibilityController { surface: initial }
    }

    /// The visibility of the surface.
    pub fn visibility(&self) -> (state: Visibility)
        ensures
            state == self.surface(),
    {
        self.surface
    }

    /// Makes the surface visible, whatever it was, and asks for the focus.
    pub fn show_window(&mut self) -> (request: WindowRequest)
        ensures
            final(self).surface() == Visibility::Visible,
            request == WindowRequest::ShowAndFocus,
    {
        self.surface = Visibility::Visible;
        WindowRequest::ShowAndFocus
    }

    /// Makes the surface hidden, whatever it was.
    pub fn hide_window(&mut self) -> (request: WindowRequest)
        ensures
            final(self).surface() == Visibility::Hidden,
            request == WindowRequest::Hide,
    {
        self.surface = Visibility::Hidden;
        WindowRequest::Hide
    }
}

} // verus!
