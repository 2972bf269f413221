use vstd::prelude::*;

use crate::geometry::RoomName;

verus! {

/// Harvests in a source-keeper room.
#[derive(Clone, Debug, PartialEq, Eq, Structural)]
pub struct SKMiner {
    pub home: Option<RoomName>,
}

impl SKMiner {
    pub fn new(home: Option<RoomName>) -> (r: Self)
        ensures
            r == (Self { home }),
    {
        Self { home }
    }
}

} // verus!
