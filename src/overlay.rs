//! How the side that owns the indicator reacts to toggle messages.
use vstd::prelude::*;
use crate::state::ToggleEvent;

verus! {

/// What to do with the indicator window.
#[derive(Clone, Copy, Debug, PartialEq, Eq, Structural)]
pub enum OverlayCommand {
    /// Create the window centred at `(x, y)` and show it.
    Create { x: i32, y: i32 },
    /// Move the existing window to be centred at `(x, y)` and show it.
    MoveAndShow { x: i32, y: i32 },
    /// Hide the existing window, keeping it for later use.
    Hide,
    /// Nothing to do.
    Nothing,
}

pub open spec fn overlay_command_spec(window_exists: bool, ev: ToggleEvent) -> OverlayCommand {
    match ev {
        ToggleEvent::Show { x, y } => if window_exists {
            OverlayCommand::MoveAndShow { x, y }
        } else {
            OverlayCommand::Create { x, y }
        },
        ToggleEvent::Hide => if window_exists {
            OverlayCommand::Hide
        } else {
            OverlayCommand::Nothing
        },
    }
}

/// The reaction to `ev`: a show creates the window on first use and moves it
/// afterwards; a hide hides the window if there is one.
pub fn overlay_command(window_exists: bool, ev: ToggleEvent) -> (r: OverlayCommand)
    ensures
        r == overlay_command_spec(window_exists, ev),
{
    match ev {
        ToggleEvent::Show { x, y } => if window_exists {
            OverlayCommand::MoveAndShow { x, y }
        } else {
            OverlayCommand::Create { x, y }
        },
        ToggleEvent::Hide => if window_exists {
            OverlayCommand::Hide
        } else {
            OverlayCommand::Nothing
        },
    }
}

} // verus!
