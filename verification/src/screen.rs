//! The playing field.

use vstd::prelude::*;
use crate::units::{MAX_SCREEN, SQUARE_MAX_SIZE};

verus! {

/// The extent of the screen, in thousandths of a pixel.
#[derive(Clone, Copy, Debug, PartialEq, Eq, Structural)]
pub struct Screen {
    pub width: u32,
    pub height: u32,
}

impl Screen {
    /// A screen holds the largest obstacle, and is no larger than
    /// `MAX_SCREEN` either way.
    pub open spec fn wf(self) -> bool {
        &&& SQUARE_MAX_SIZE <= self.width <= MAX_SCREEN
        &&& SQUARE_MAX_SIZE <= self.height <= MAX_SCREEN
    }

    /// The screen of the given extent, where there is one.
    pub fn new(width: u32, height: u32) -> (r: Option<Screen>)
        ensures
            r.is_some() <==> (Screen { width, height }).wf(),
            r matches Some(s) ==> s == (Screen { width, height }),
    {
        if SQUARE_MAX_SIZE <= width && width <= MAX_SCREEN && SQUARE_MAX_SIZE <= height && height
            <= MAX_SCREEN {
            Some(Screen { width, height })
        } else {
            None
        }
    }
}

} // verus!
