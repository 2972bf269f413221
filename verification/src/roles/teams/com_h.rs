use vstd::prelude::*;

use crate::geometry::RoomName;
use crate::body::{body_parts, fixed_body, Body, BodyPart};

verus! {

/// Healer of a combat squad.
#[derive(Clone, Debug)]
pub struct ComHealer {
    pub squad_id: Option<String>,
    pub home: Option<RoomName>,
}

impl ComHealer {
    pub fn new(squad_id: Option<String>, home: Option<RoomName>) -> (r: Self)
        ensures
            r == (Self { squad_id, home }),
    {
        Self { squad_id, home }
    }

    /// The body this role is spawned with, whatever the energy.
    pub fn body(&self, room_energy: u32) -> (b: Body)
        ensures
            body_parts(b) == seq![BodyPart::Move],
    {
        let parts = [BodyPart::Move];
        assert(parts@ =~= seq![BodyPart::Move]);
        fixed_body(&parts)
    }
}

} // verus!
