//! Deciding from one mouse sample whether a toggle gesture is under way.
use vstd::prelude::*;

verus! {

/// One reading of the mouse: which buttons are down and where the cursor is.
#[derive(Clone, Copy, Debug, PartialEq, Eq, Structural)]
pub struct MouseSample {
    pub left: bool,
    pub middle: bool,
    pub right: bool,
    pub x: i32,
    pub y: i32,
}

/// The middle button always triggers; while scrolling, the left and right
/// buttons do too.
pub open spec fn is_trigger(s: MouseSample, scroll_mode: bool) -> bool {
    s.middle || (scroll_mode && (s.left || s.right))
}

/// No button is down.
pub open spec fn is_released(s: MouseSample) -> bool {
    !s.left && !s.middle && !s.right
}

/// Whether button `i` is marked down in a pressed-button table; an index past
/// the end of the table reads as up.
pub open spec fn pressed_at(pressed: Seq<bool>, i: int) -> bool {
    0 <= i < pressed.len() && pressed[i]
}

impl MouseSample {
    /// Builds a sample from a table indexed by button number (1 left, 2
    /// middle, 3 right) and the cursor position.
    pub fn from_buttons(pressed: &Vec<bool>, x: i32, y: i32) -> (r: MouseSample)
        ensures
            r.left == pressed_at(pressed@, 1),
            r.middle == pressed_at(pressed@, 2),
            r.right == pressed_at(pressed@, 3),
            r.x == x,
            r.y == y,
    {
        let n = pressed.len();
        let left = n > 1 && pressed[1];
        let middle = n > 2 && pressed[2];
        let right = n > 3 && pressed[3];
        MouseSample { left, middle, right, x, y }
    }
}

/// Whether this sample starts, or keeps alive, a toggle gesture.
pub fn sample_trigger(s: &MouseSample, scroll_mode: bool) -> (r: bool)
    ensures
        r == is_trigger(*s, scroll_mode),
{
    s.middle || (scroll_mode && (s.left || s.right))
}

} // verus!
