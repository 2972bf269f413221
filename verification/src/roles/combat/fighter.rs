use vstd::prelude::*;

use crate::body::{body_parts, build_body, spec_build_body, Body, BodyPart, Priority};
use crate::geometry::RoomName;
use crate::resources::Resource;
use crate::shelter::{boost_task, spec_boost_task, HomeView};
use crate::units::CreepInfo;
use crate::tasks::Task;

verus! {

/// Ranged fighter sent to protect or attack a target room.
#[derive(Clone, Debug, PartialEq, Eq, Structural)]
pub struct Fighter {
    pub target: Option<RoomName>,
    pub home: Option<RoomName>,
    pub boost: bool,
}

pub open spec fn fighter_base(boost: bool) -> Seq<BodyPart> {
    if boost {
        seq![BodyPart::RangedAttack, BodyPart::RangedAttack, BodyPart::RangedAttack, BodyPart::RangedAttack, BodyPart::RangedAttack]
    } else {
        seq![BodyPart::Move, BodyPart::Move, BodyPart::Move, BodyPart::Move, BodyPart::Move]
    }
}

pub open spec fn fighter_scale(boost: bool) -> Seq<BodyPart> {
    if boost {
        seq![BodyPart::Heal, BodyPart::Heal, BodyPart::Tough, BodyPart::Tough, BodyPart::Move, BodyPart::Move, BodyPart::RangedAttack, BodyPart::RangedAttack, BodyPart::RangedAttack]
    } else {
        seq![BodyPart::Tough, BodyPart::RangedAttack, BodyPart::RangedAttack, BodyPart::Move, BodyPart::Move, BodyPart::Move, BodyPart::Move, BodyPart::Heal, BodyPart::Heal]
    }
}

impl Fighter {
    pub fn new(target: RoomName, home: RoomName, boost: bool) -> (r: Self)
        ensures
            r == (Self { target: Some(target), home: Some(home), boost }),
    {
        Self { target: Some(target), home: Some(home), boost }
    }

    /// The body: a boosted fighter trades legs for weapons, as boosted legs
    /// carry more.
    pub fn body(&self, room_energy: u32) -> (b: Body)
        ensures
            body_parts(b) == spec_build_body(fighter_base(self.boost), fighter_scale(self.boost), room_energy as int, 50, Some(Priority::Pvp)),
    {
        if self.boost {
            let base = [BodyPart::RangedAttack, BodyPart::RangedAttack, BodyPart::RangedAttack, BodyPart::RangedAttack, BodyPart::RangedAttack];
            let scale = [BodyPart::Heal, BodyPart::Heal, BodyPart::Tough, BodyPart::Tough, BodyPart::Move, BodyPart::Move, BodyPart::RangedAttack, BodyPart::RangedAttack, BodyPart::RangedAttack];
            assert(base@ =~= fighter_base(true));
            assert(scale@ =~= fighter_scale(true));
            build_body(&base, &scale, room_energy, 50, Some(Priority::Pvp))
        } else {
            let base = [BodyPart::Move, BodyPart::Move, BodyPart::Move, BodyPart::Move, BodyPart::Move];
            let scale = [BodyPart::Tough, BodyPart::RangedAttack, BodyPart::RangedAttack, BodyPart::Move, BodyPart::Move, BodyPart::Move, BodyPart::Move, BodyPart::Heal, BodyPart::Heal];
            assert(base@ =~= fighter_base(false));
            assert(scale@ =~= fighter_scale(false));
            build_body(&base, &scale, room_energy, 50, Some(Priority::Pvp))
        }
    }

    /// Boosts wanted: only a boosted fighter with more than a thousand ticks
    /// left asks for them.
    pub fn boosts(&self, ticks_to_live: Option<u32>) -> (b: Vec<(BodyPart, [Resource; 2])>)
        ensures
            b@ == if self.boost && (ticks_to_live matches Some(t) && t > 1000) {
                seq![
                    (BodyPart::Move, [Resource::CatalyzedZynthiumAlkalide, Resource::ZynthiumAlkalide]),
                    (BodyPart::RangedAttack, [Resource::CatalyzedKeaniumAlkalide, Resource::KeaniumAlkalide]),
                    (BodyPart::Heal, [Resource::CatalyzedLemergiumAlkalide, Resource::LemergiumAlkalide]),
                    (BodyPart::Tough, [Resource::CatalyzedGhodiumAlkalide, Resource::GhodiumAlkalide]),
                ]
            } else {
                Seq::<(BodyPart, [Resource; 2])>::empty()
            },
    {
        let mut v: Vec<(BodyPart, [Resource; 2])> = Vec::new();
        if self.boost && ticks_to_live.is_some() && ticks_to_live.unwrap() > 1000 {
            v.push((BodyPart::Move, [Resource::CatalyzedZynthiumAlkalide, Resource::ZynthiumAlkalide]));
            v.push((BodyPart::RangedAttack, [Resource::CatalyzedKeaniumAlkalide, Resource::KeaniumAlkalide]));
            v.push((BodyPart::Heal, [Resource::CatalyzedLemergiumAlkalide, Resource::LemergiumAlkalide]));
            v.push((BodyPart::Tough, [Resource::CatalyzedGhodiumAlkalide, Resource::GhodiumAlkalide]));
        }
        v
    }
}


impl Fighter {
    /// Boost if a lab offers it; else protect the target room; else idle.
    pub fn get_task(&self, creep: &CreepInfo, home: &HomeView) -> (t: Task)
        requires
            creep.body@.len() <= 50,
        ensures
            t == match home.available_boost {
                Some(b) => spec_boost_task(*creep, b),
                None => match self.target {
                    Some(target) => Task::Protect(target, None),
                    None => Task::Idle(1),
                },
            },
    {
        match home.available_boost {
            Some(b) => boost_task(creep, b),
            None => match self.target {
                Some(target) => Task::Protect(target, None),
                None => Task::default(),
            },
        }
    }
}

} // verus!
