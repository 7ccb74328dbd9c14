//! What a view hands to the terminal backend when it is drawn.
use vstd::prelude::*;

verus! {

/// Nominal track length of the scrollbar drawn beside every pane.
pub const SCROLL_TRACK_LENGTH: usize = 100;

/// The rectangular region of the terminal that a view is given to draw into.
#[derive(Clone, Copy, Debug, PartialEq, Eq, Structural)]
pub struct Area {
    pub x: u16,
    pub y: u16,
    pub width: u16,
    pub height: u16,
}

impl Area {
    pub open spec fn can_advance(self) -> bool {
        self.y + self.height <= u16::MAX
    }

    /// The region of the same size that starts right below this one.
    pub open spec fn below_spec(self) -> Area {
        Area { x: self.x, y: (self.y + self.height) as u16, width: self.width, height: self.height }
    }

    pub fn below(&self) -> (r: Area)
        requires
            self.can_advance(),
        ensures
            r == self.below_spec(),
    {
        Area { x: self.x, y: self.y + self.height, width: self.width, height: self.height }
    }
}

/// Position of a scrollbar: the length of its track and where its thumb is.
#[derive(Clone, Copy, Debug, PartialEq, Eq, Structural)]
pub struct ScrollTracker {
    pub content_length: usize,
    pub position: usize,
}

impl ScrollTracker {
    pub open spec fn new_spec() -> ScrollTracker {
        ScrollTracker { content_length: 0, position: 0 }
    }

    pub open spec fn reset_spec(content_length: usize) -> ScrollTracker {
        ScrollTracker { content_length, position: 0 }
    }

    /// A tracker with an empty track and its thumb at the start.
    pub fn new() -> (r: ScrollTracker)
        ensures
            r == ScrollTracker::new_spec(),
    {
        ScrollTracker { content_length: 0, position: 0 }
    }

    /// Puts the thumb back at the start of a track of the given length.
    pub fn reset(&mut self, content_length: usize)
        ensures
            *final(self) == ScrollTracker::reset_spec(content_length),
    {
        self.content_length = content_length;
        self.position = 0;
    }
}

/// One line of a pane, drawn highlighted or in the default style.
#[derive(Debug)]
pub struct StyledLine {
    pub text: String,
    pub highlighted: bool,
}

/// Everything the backend needs to draw one bordered, scrollable pane, and
/// the region where the next pane below it may go.
#[derive(Debug)]
pub struct Pane {
    pub area: Area,
    pub title: Option<String>,
    pub lines: Vec<StyledLine>,
    pub scroll: u16,
    pub scrollbar: ScrollTracker,
    pub next: Area,
}

} // verus!
