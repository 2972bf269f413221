use vstd::prelude::*;

use crate::geometry::RoomName;

verus! {

/// Pulls creeps that cannot move.
#[derive(Clone, Debug, PartialEq, Eq, Structural)]
pub struct Puller {
    pub home: Option<RoomName>,
}

impl Puller {
    pub fn new(home: Option<RoomName>) -> (r: Self)
        ensures
            r == (Self { home }),
    {
        Self { home }
    }
}

} // verus!
