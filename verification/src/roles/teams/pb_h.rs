use vstd::prelude::*;

use crate::geometry::RoomName;

verus! {

/// Heals a power bank attacker.
#[derive(Clone, Debug)]
pub struct PBHealer {
    pub squad_id: Option<String>,
    pub home: Option<RoomName>,
}

impl PBHealer {
    pub fn new(squad_id: Option<String>, home: Option<RoomName>) -> (r: Self)
        ensures
            r == (Self { squad_id, home }),
    {
        Self { squad_id, home }
    }
}

} // verus!
