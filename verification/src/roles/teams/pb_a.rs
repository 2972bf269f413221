use vstd::prelude::*;

use crate::geometry::RoomName;

verus! {

/// Attacks a power bank.
#[derive(Clone, Debug)]
pub struct PBAttacker {
    pub squad_id: Option<String>,
    pub home: Option<RoomName>,
}

impl PBAttacker {
    pub fn new(squad_id: Option<String>, home: Option<RoomName>) -> (r: Self)
        ensures
            r == (Self { squad_id, home }),
    {
        Self { squad_id, home }
    }
}

} // verus!
