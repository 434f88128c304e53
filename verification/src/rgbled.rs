use vstd::prelude::*;

use crate::state::Status;

verus! {

/// A colour for the status indicator, one byte per channel. The indicator
/// driver itself lives with the hardware; the library only decides which
/// colour each display category gets.
#[derive(Clone, Copy, Debug, PartialEq, Eq, Structural)]
pub struct RGB8 {
    pub r: u8,
    pub g: u8,
    pub b: u8,
}

impl RGB8 {
    /// Builds a colour from its three channels.
    pub fn new(r: u8, g: u8, b: u8) -> (c: RGB8)
        ensures
            c == (RGB8 { r, g, b }),
    {
        RGB8 { r, g, b }
    }
}

/// The colour that belongs to each display category.
pub open spec fn color_of(status: Status) -> RGB8 {
    match status {
        Status::Initializing => RGB8 { r: 10, g: 10, b: 0 },
        Status::Ready => RGB8 { r: 0, g: 10, b: 0 },
        Status::Collecting => RGB8 { r: 0, g: 0, b: 10 },
        Status::Sending => RGB8 { r: 0, g: 10, b: 10 },
        Status::Error => RGB8 { r: 10, g: 0, b: 0 },
        Status::Recovering => RGB8 { r: 10, g: 0, b: 10 },
    }
}

impl From<Status> for RGB8 {
    fn from(status: Status) -> RGB8 {
        match status {
            Status::Initializing => RGB8::new(10, 10, 0),
            Status::Ready => RGB8::new(0, 10, 0),
            Status::Collecting => RGB8::new(0, 0, 10),
            Status::Sending => RGB8::new(0, 10, 10),
            Status::Error => RGB8::new(10, 0, 0),
            Status::Recovering => RGB8::new(10, 0, 10),
        }
    }
}

impl vstd::std_specs::convert::FromSpecImpl<Status> for RGB8 {
    open spec fn obeys_from_spec() -> bool {
        true
    }

    open spec fn from_spec(status: Status) -> RGB8 {
        color_of(status)
    }
}

} // verus!
