use vstd::prelude::*;

pub mod comments_popup;
pub mod parent;
pub mod selection;
pub mod table;
pub mod ticket_relation;
pub mod ticket_transition;

verus! {

/// Whether a widget used a key event or left it for its caller.
#[derive(Clone, Copy, Debug, PartialEq, Eq, Structural)]
pub enum EventState {
    Consumed,
    NotConsumed,
}

impl EventState {
    pub fn is_consumed(&self) -> (r: bool)
        ensures
            r == (*self == EventState::Consumed),
    {
        *self == EventState::Consumed
    }
}

/// Whether key presses move a cursor or go into a text buffer.
#[derive(Clone, Copy, Debug, PartialEq, Eq, Structural)]
pub enum InputMode {
    Normal,
    Editing,
}

/// A rectangle of the terminal, in cells.
#[derive(Clone, Copy, Debug, PartialEq, Eq, Structural)]
pub struct Area {
    pub x: u16,
    pub y: u16,
    pub width: u16,
    pub height: u16,
}

/// The rectangle of at most `width` by `height` cells that sits in the
/// middle of a frame: as large as asked where the frame has the room, as
/// large as the frame where it has not.
pub open spec fn centered(frame_width: u16, frame_height: u16, width: u16, height: u16) -> Area {
    Area {
        x: if frame_width > width {
            ((frame_width - width) / 2) as u16
        } else {
            0
        },
        y: if frame_height > height {
            ((frame_height - height) / 2) as u16
        } else {
            0
        },
        width: if frame_width < width {
            frame_width
        } else {
            width
        },
        height: if frame_height < height {
            frame_height
        } else {
            height
        },
    }
}

/// Places a rectangle of at most `width` by `height` cells in the middle of
/// a frame.
pub fn centered_area(frame_width: u16, frame_height: u16, width: u16, height: u16) -> (r: Area)
    ensures
        r == centered(frame_width, frame_height, width, height),
        r.x + r.width <= frame_width,
        r.y + r.height <= frame_height,
{
    Area {
        x: if frame_width > width {
            (frame_width - width) / 2
        } else {
            0
        },
        y: if frame_height > height {
            (frame_height - height) / 2
        } else {
            0
        },
        width: if frame_width < width {
            frame_width
        } else {
            width
        },
        height: if frame_height < height {
            frame_height
        } else {
            height
        },
    }
}

} // verus!
