use vstd::prelude::*;

use crate::geometry::RoomName;
use crate::body::{body_parts, build_body, spec_build_body, Body, BodyPart, Priority};

verus! {

/// Heavy ranged attacker.
#[derive(Clone, Debug, PartialEq, Eq, Structural)]
pub struct Destroyer {
    pub home: Option<RoomName>,
}

impl Destroyer {
    pub fn new(home: Option<RoomName>) -> (r: Self)
        ensures
            r == (Self { home }),
    {
        Self { home }
    }

    /// The body: grown from its base by its scale unit while energy and the
    /// part limit allow.
    pub fn body(&self, room_energy: u32) -> (b: Body)
        ensures
            body_parts(b) == spec_build_body(seq![BodyPart::Tough, BodyPart::RangedAttack, BodyPart::RangedAttack, BodyPart::RangedAttack, BodyPart::RangedAttack], seq![BodyPart::Heal, BodyPart::Heal, BodyPart::Heal, BodyPart::Tough, BodyPart::Tough, BodyPart::Move, BodyPart::Move, BodyPart::RangedAttack, BodyPart::RangedAttack], room_energy as int, 50 as int, Some(Priority::Pvp)),
    {
        let base = [BodyPart::Tough, BodyPart::RangedAttack, BodyPart::RangedAttack, BodyPart::RangedAttack, BodyPart::RangedAttack];
        let scale = [BodyPart::Heal, BodyPart::Heal, BodyPart::Heal, BodyPart::Tough, BodyPart::Tough, BodyPart::Move, BodyPart::Move, BodyPart::RangedAttack, BodyPart::RangedAttack];
        assert(base@ =~= seq![BodyPart::Tough, BodyPart::RangedAttack, BodyPart::RangedAttack, BodyPart::RangedAttack, BodyPart::RangedAttack]);
        assert(scale@ =~= seq![BodyPart::Heal, BodyPart::Heal, BodyPart::Heal, BodyPart::Tough, BodyPart::Tough, BodyPart::Move, BodyPart::Move, BodyPart::RangedAttack, BodyPart::RangedAttack]);
        build_body(&base, &scale, room_energy, 50, Some(Priority::Pvp))
    }
}

} // verus!
