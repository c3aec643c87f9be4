//! The icons of the open and closed states, served as they are.

use vstd::prelude::*;

verus! {

/// A PNG picture.
pub type Image = Vec<u8>;

/// File name of the icon of an open space.
pub const ICON_OPEN: &'static str = "open.png";

/// File name of the icon of a closed space.
pub const ICON_CLOSED: &'static str = "closed.png";

/// The two state icons.
#[derive(Debug, Clone, PartialEq)]
pub struct Icons {
    pub open: Image,
    pub closed: Image,
}

impl Icons {
    /// Icons made of the two pictures.
    pub fn new(open: Image, closed: Image) -> (r: Self)
        ensures
            r.open == open,
            r.closed == closed,
    {
        Icons { open, closed }
    }
}

} // verus!
