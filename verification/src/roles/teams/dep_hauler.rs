use vstd::prelude::*;

use crate::geometry::RoomName;

verus! {

/// Carries what a deposit squad mines.
#[derive(Clone, Debug)]
pub struct DepositHauler {
    pub squad_id: Option<String>,
    pub home: Option<RoomName>,
}

impl DepositHauler {
    pub fn new(squad_id: Option<String>, home: Option<RoomName>) -> (r: Self)
        ensures
            r == (Self { squad_id, home }),
    {
        Self { squad_id, home }
    }
}

} // verus!
