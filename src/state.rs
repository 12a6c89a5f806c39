//! The scroll state shared by the sampling side: the mode flag and the anchor,
//! which are only ever changed together.
use vstd::prelude::*;

verus! {

/// A message for the side that owns the indicator.
#[derive(Clone, Copy, Debug, PartialEq, Eq, Structural)]
pub enum ToggleEvent {
    /// Show the indicator centred at the anchor.
    Show { x: i32, y: i32 },
    /// Hide the indicator.
    Hide,
}

/// What a scroll state holds: the mode and, while scrolling, the anchor.
pub struct ScrollView {
    pub scroll_mode: bool,
    pub anchor: Option<(i32, i32)>,
}

/// The mode flag together with its anchor. The anchor is present exactly
/// while the mode is on.
pub struct ScrollState {
    scroll_mode: bool,
    anchor: Option<(i32, i32)>,
}

/// The message that announces the mode `on`, anchored at `(x, y)` when on.
pub open spec fn event_for(on: bool, x: i32, y: i32) -> ToggleEvent {
    if on {
        ToggleEvent::Show { x, y }
    } else {
        ToggleEvent::Hide
    }
}

impl View for ScrollState {
    type V = ScrollView;

    closed spec fn view(&self) -> ScrollView {
        ScrollView { scroll_mode: self.scroll_mode, anchor: self.anchor }
    }
}

impl ScrollState {
    /// The mode and the anchor agree.
    pub open spec fn wf(&self) -> bool {
        self@.scroll_mode == (self@.anchor is Some)
    }

    /// The idle state: mode off, no anchor.
    pub fn new() -> (r: ScrollState)
        ensures
            r.wf(),
            !r@.scroll_mode,
            r@.anchor is None,
    {
        ScrollState { scroll_mode: false, anchor: None }
    }

    pub fn scroll_mode(&self) -> (r: bool)
        ensures
            r == self@.scroll_mode,
    {
        self.scroll_mode
    }

    pub fn anchor(&self) -> (r: Option<(i32, i32)>)
        ensures
            r == self@.anchor,
    {
        self.anchor
    }

    /// Flips the mode; turning it on anchors at `(x, y)`, turning it off drops
    /// the anchor. Returns the message that announces the new mode.
    pub fn toggle(&mut self, x: i32, y: i32) -> (r: ToggleEvent)
        requires
            old(self).wf(),
        ensures
            final(self).wf(),
            final(self)@.scroll_mode == !old(self)@.scroll_mode,
            final(self)@.anchor == (if final(self)@.scroll_mode {
                Some((x, y))
            } else {
                None
            }),
            r == event_for(final(self)@.scroll_mode, x, y),
    {
        if self.scroll_mode {
            self.scroll_mode = false;
            self.anchor = None;
            ToggleEvent::Hide
        } else {
            self.scroll_mode = true;
            self.anchor = Some((x, y));
            ToggleEvent::Show { x, y }
        }
    }
}

} // verus!
