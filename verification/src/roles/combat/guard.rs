use vstd::prelude::*;

use crate::geometry::RoomName;
use crate::body::{body_parts, build_body, spec_build_body, Body, BodyPart, Priority};
use crate::resources::Resource;
use crate::shelter::{boost_task, spec_boost_task, HomeView};
use crate::units::CreepInfo;
use crate::tasks::Task;

verus! {

/// Melee guard of its home room.
#[derive(Clone, Debug, PartialEq, Eq, Structural)]
pub struct Guard {
    pub home: Option<RoomName>,
}

impl Guard {
    pub fn new(home: Option<RoomName>) -> (r: Self)
        ensures
            r == (Self { home }),
    {
        Self { home }
    }

    /// The body: grown from its base by its scale unit while energy and the
    /// part limit allow.
    pub fn body(&self, room_energy: u32) -> (b: Body)
        ensures
            body_parts(b) == spec_build_body(seq![BodyPart::Attack, BodyPart::Move, BodyPart::Attack, BodyPart::Move, BodyPart::Attack, BodyPart::Move, BodyPart::Attack, BodyPart::Move, BodyPart::Attack, BodyPart::Move], seq![BodyPart::Attack, BodyPart::Move, BodyPart::Move, BodyPart::Heal], room_energy as int, 50 as int, Some(Priority::Pvp)),
    {
        let base = [BodyPart::Attack, BodyPart::Move, BodyPart::Attack, BodyPart::Move, BodyPart::Attack, BodyPart::Move, BodyPart::Attack, BodyPart::Move, BodyPart::Attack, BodyPart::Move];
        let scale = [BodyPart::Attack, BodyPart::Move, BodyPart::Move, BodyPart::Heal];
        assert(base@ =~= seq![BodyPart::Attack, BodyPart::Move, BodyPart::Attack, BodyPart::Move, BodyPart::Attack, BodyPart::Move, BodyPart::Attack, BodyPart::Move, BodyPart::Attack, BodyPart::Move]);
        assert(scale@ =~= seq![BodyPart::Attack, BodyPart::Move, BodyPart::Move, BodyPart::Heal]);
        build_body(&base, &scale, room_energy, 50, Some(Priority::Pvp))
    }

    /// Boosts wanted by a creep with `ticks_to_live` left: only fresh creeps
    /// are worth boosting.
    pub fn boosts(&self, ticks_to_live: Option<u32>) -> (b: Vec<(BodyPart, [Resource; 2])>)
        ensures
            b@ == if ticks_to_live matches Some(t) && t > 1400 {
                seq![(BodyPart::Attack, [Resource::CatalyzedUtriumAcid, Resource::UtriumAcid])]
            } else {
                Seq::<(BodyPart, [Resource; 2])>::empty()
            },
    {
        let mut v: Vec<(BodyPart, [Resource; 2])> = Vec::new();
        if ticks_to_live.is_some() && ticks_to_live.unwrap() > 1400 {
            v.push((BodyPart::Attack, [Resource::CatalyzedUtriumAcid, Resource::UtriumAcid]));
        }
        v
    }
}


impl Guard {
    /// Boost if a lab offers it; else defend the home room from its ramparts.
    pub fn get_task(&self, creep: &CreepInfo, home: &HomeView) -> (t: Task)
        requires
            creep.body@.len() <= 50,
        ensures
            t == match home.available_boost {
                Some(b) => spec_boost_task(*creep, b),
                None => Task::DefendHome,
            },
    {
        match home.available_boost {
            Some(b) => boost_task(creep, b),
            None => Task::DefendHome,
        }
    }
}

} // verus!
