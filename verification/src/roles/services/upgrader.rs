use vstd::prelude::*;

use crate::geometry::RoomName;
use crate::body::{body_parts, build_body, spec_build_body, Body, BodyPart, Priority};
use crate::resources::Resource;
use crate::shelter::{boost_task, spec_boost_task, HomeView};
use crate::units::CreepInfo;
use crate::tasks::Task;

verus! {

/// Upgrades the home controller.
#[derive(Clone, Debug, PartialEq, Eq, Structural)]
pub struct Upgrader {
    pub home: Option<RoomName>,
}

impl Upgrader {
    pub fn new(home: Option<RoomName>) -> (r: Self)
        ensures
            r == (Self { home }),
    {
        Self { home }
    }

    /// The body: grown from its base by its scale unit while energy and the
    /// part limit allow.
    pub fn body(&self, room_energy: u32, home_controller_level: Option<u8>) -> (b: Body)
        ensures
            body_parts(b) == spec_build_body(seq![BodyPart::Carry], seq![BodyPart::Work, BodyPart::Work, BodyPart::Work, BodyPart::Work, BodyPart::Work, BodyPart::Move], room_energy as int, spec_limit_for_controller_level(home_controller_level) as int, Some(Priority::Default)),
    {
        let limit = limit_based_on_controller_level(home_controller_level);
        let base = [BodyPart::Carry];
        let scale = [BodyPart::Work, BodyPart::Work, BodyPart::Work, BodyPart::Work, BodyPart::Work, BodyPart::Move];
        assert(base@ =~= seq![BodyPart::Carry]);
        assert(scale@ =~= seq![BodyPart::Work, BodyPart::Work, BodyPart::Work, BodyPart::Work, BodyPart::Work, BodyPart::Move]);
        build_body(&base, &scale, room_energy, limit, Some(Priority::Default))
    }

    /// Boosts wanted by a creep with `ticks_to_live` left: only fresh creeps
    /// are worth boosting.
    pub fn boosts(&self, ticks_to_live: Option<u32>) -> (b: Vec<(BodyPart, [Resource; 2])>)
        ensures
            b@ == if ticks_to_live matches Some(t) && t > 1450 {
                seq![(BodyPart::Work, [Resource::CatalyzedGhodiumAcid, Resource::GhodiumAcid])]
            } else {
                Seq::<(BodyPart, [Resource; 2])>::empty()
            },
    {
        let mut v: Vec<(BodyPart, [Resource; 2])> = Vec::new();
        if ticks_to_live.is_some() && ticks_to_live.unwrap() > 1450 {
            v.push((BodyPart::Work, [Resource::CatalyzedGhodiumAcid, Resource::GhodiumAcid]));
        }
        v
    }

    /// Ticks before death at which a replacement is ordered.
    pub fn respawn_timeout(&self, creep_body_len: Option<usize>) -> (t: Option<usize>)
        requires
            creep_body_len matches Some(n) ==> n <= 50,
        ensures
            t == match creep_body_len { Some(n) => Some((n * 3) as usize), None => Some(0usize) },
    {
        match creep_body_len {
            Some(n) => Some(n * 3),
            None => Some(0),
        }
    }
}

/// Part limit of an upgrader: a room at the top controller level only
/// accepts limited upgrading, so its upgraders stay small.
pub open spec fn spec_limit_for_controller_level(home_controller_level: Option<u8>) -> usize {
    if home_controller_level == Some(8u8) {
        19
    } else {
        50
    }
}

/// Part limit of an upgrader, given the level of the home controller (if
/// the home room and its controller are visible).
pub fn limit_based_on_controller_level(home_controller_level: Option<u8>) -> (r: usize)
    ensures
        r == spec_limit_for_controller_level(home_controller_level),
{
    match home_controller_level {
        Some(level) => if level == 8 {
            19
        } else {
            50
        },
        None => 50,
    }
}


impl Upgrader {
    /// Boost if a lab offers it; else upgrade from the controller's
    /// container when carrying energy, or refill from it when empty.
    pub fn get_task(&self, creep: &CreepInfo, home: &HomeView) -> (t: Task)
        requires
            creep.body@.len() <= 50,
        ensures
            t == match home.available_boost {
                Some(b) => spec_boost_task(*creep, b),
                None => match home.upgrade_container {
                    Some((id, pos)) => if creep.store_energy > 0 {
                        Task::Upgrade(home.controller_id, Some(id))
                    } else {
                        Task::TakeFromStructure(pos, id, Resource::Energy, None)
                    },
                    None => Task::Idle(1),
                },
            },
    {
        match home.available_boost {
            Some(b) => boost_task(creep, b),
            None => match home.upgrade_container {
                Some((id, pos)) => if creep.store_energy > 0 {
                    Task::Upgrade(home.controller_id, Some(id))
                } else {
                    Task::TakeFromStructure(pos, id, Resource::Energy, None)
                },
                None => Task::Idle(1),
            },
        }
    }
}

} // verus!
