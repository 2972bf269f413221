use vstd::prelude::*;

use crate::geometry::RoomName;
use crate::body::{body_parts, build_body, spec_build_body, Body, BodyPart, Priority};

verus! {

/// Dismantler that heals itself.
#[derive(Clone, Debug, PartialEq, Eq, Structural)]
pub struct DismantlerWithHeal {
    pub home: Option<RoomName>,
}

impl DismantlerWithHeal {
    pub fn new(home: Option<RoomName>) -> (r: Self)
        ensures
            r == (Self { home }),
    {
        Self { home }
    }

    /// The body: grown from its base by its scale unit while energy and the
    /// part limit allow.
    pub fn body(&self, room_energy: u32) -> (b: Body)
        ensures
            body_parts(b) == spec_build_body(seq![BodyPart::Work, BodyPart::Move], seq![BodyPart::Work, BodyPart::Heal, BodyPart::Move, BodyPart::Move], room_energy as int, 50 as int, Some(Priority::Default)),
    {
        let base = [BodyPart::Work, BodyPart::Move];
        let scale = [BodyPart::Work, BodyPart::Heal, BodyPart::Move, BodyPart::Move];
        assert(base@ =~= seq![BodyPart::Work, BodyPart::Move]);
        assert(scale@ =~= seq![BodyPart::Work, BodyPart::Heal, BodyPart::Move, BodyPart::Move]);
        build_body(&base, &scale, room_energy, 50, Some(Priority::Default))
    }
}

} // verus!
