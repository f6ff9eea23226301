//! Scrolling a text pane by whole pages.

use vstd::prelude::*;

verus! {

/// A page move.
#[derive(Debug, Clone, Copy, PartialEq, Eq, Structural)]
pub enum ScrollReq {
    Up,
    Down,
}

/// The first line shown of a text of `size` lines.
#[derive(Debug)]
pub struct ViewScroller {
    size: u16,
    current: u16,
}

/// Where a move by `height` lines from `current` in a text of `size` lines
/// ends: it is made only if it stays within the text.
pub open spec fn scrolled(current: u16, size: u16, height: u16, req: ScrollReq) -> u16 {
    match req {
        ScrollReq::Up => if current >= height {
            (current - height) as u16
        } else {
            current
        },
        ScrollReq::Down => if current + height < size {
            (current + height) as u16
        } else {
            current
        },
    }
}

impl ViewScroller {
    /// The number of lines of the text.
    pub closed spec fn size(&self) -> u16 {
        self.size
    }

    /// The first line shown.
    pub closed spec fn offset(&self) -> u16 {
        self.current
    }

    /// Moves a page of `height` lines, if the move stays within the text, and
    /// gives the first line shown then.
    pub fn handle(&mut self, height: u16, req: ScrollReq) -> (r: u16)
        ensures
            final(self).size() == old(self).size(),
            final(self).offset() == scrolled(old(self).offset(), old(self).size(), height, req),
            r == final(self).offset(),
    {
        match req {
            ScrollReq::Up => {
                if self.current >= height {
                    self.current = self.current - height;
                }
            },
            ScrollReq::Down => {
                if (self.current as u32) + (height as u32) < self.size as u32 {
                    self.current = self.current + height;
                }
            },
        }
        self.current
    }

    /// A text of `size` lines, shown from its first line.
    pub fn new(size: u16) -> (r: Self)
        ensures
            r.size() == size,
            r.offset() == 0,
    {
        ViewScroller { size, current: 0 }
    }

    /// The first line shown.
    pub fn cur(&self) -> (r: u16)
        ensures
            r == self.offset(),
    {
        self.current
    }
}

impl From<u16> for ViewScroller {
    /// A text of `size` lines, shown from its first line.
    fn from(size: u16) -> (r: Self) {
        ViewScroller::new(size)
    }
}

impl vstd::std_specs::convert::FromSpecImpl<u16> for ViewScroller {
    open spec fn obeys_from_spec() -> bool {
        true
    }

    closed spec fn from_spec(size: u16) -> ViewScroller {
        ViewScroller { size, current: 0 }
    }
}

} // verus!
