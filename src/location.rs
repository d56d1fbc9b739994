use vstd::prelude::*;
use crate::terminal::Position;

verus! {

/// A place in document space: `x` is the column, `y` the line.
#[derive(Clone, Copy, Debug, PartialEq, Eq, Structural)]
pub struct Location {
    pub x: usize,
    pub y: usize,
}

impl Location {
    /// The first column of the first line.
    pub fn origin() -> (r: Location)
        ensures
            r.x == 0,
            r.y == 0,
    {
        Location { x: 0, y: 0 }
    }
}

impl From<Location> for Position {
    fn from(location: Location) -> (r: Position)
        ensures
            r.col == location.x,
            r.row == location.y,
    {
        Position { col: location.x, row: location.y }
    }
}

impl vstd::std_specs::convert::FromSpecImpl<Location> for Position {
    open spec fn obeys_from_spec() -> bool {
        true
    }

    open spec fn from_spec(location: Location) -> Position {
        Position { col: location.x, row: location.y }
    }
}

} // verus!
