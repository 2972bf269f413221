use vstd::prelude::*;

use crate::geometry::{Position, RoomName};
use crate::tasks::ObjectId;
use crate::body::{body_parts, build_body, spec_build_body, Body, BodyPart, Priority};
use crate::resources::Resource;
use crate::shelter::{boost_task, spec_boost_task, HomeView};
use crate::units::CreepInfo;
use crate::tasks::{Task, Walker};

verus! {

/// Upgrades the controller of another room.
#[derive(Clone, Debug, PartialEq, Eq, Structural)]
pub struct RemoteUpgrader {
    pub home: Option<RoomName>,
    pub workplace: Option<Position>,
    pub ctrl: ObjectId,
    pub boost: bool,
}

impl RemoteUpgrader {
    pub fn new(home: Option<RoomName>, workplace: Option<Position>, ctrl: ObjectId, boost: bool) -> (r: Self)
        ensures
            r == (Self { home, workplace, ctrl, boost }),
    {
        Self { home, workplace, ctrl, boost }
    }

    /// The body: without boosts a balanced worker, with boosts mostly work
    /// and legs.
    pub fn body(&self, room_energy: u32) -> (b: Body)
        ensures
            body_parts(b) == if self.boost {
                spec_build_body(seq![BodyPart::Carry], seq![BodyPart::Work, BodyPart::Move, BodyPart::Work, BodyPart::Move, BodyPart::Work, BodyPart::Move, BodyPart::Carry], room_energy as int, 50, Some(Priority::Default))
            } else {
                spec_build_body(seq![BodyPart::Work, BodyPart::Carry, BodyPart::Move], seq![BodyPart::Work, BodyPart::Carry, BodyPart::Move], room_energy as int, 50, Some(Priority::Default))
            },
    {
        if self.boost {
            let base = [BodyPart::Carry];
            let scale = [BodyPart::Work, BodyPart::Move, BodyPart::Work, BodyPart::Move, BodyPart::Work, BodyPart::Move, BodyPart::Carry];
            assert(base@ =~= seq![BodyPart::Carry]);
            assert(scale@ =~= seq![BodyPart::Work, BodyPart::Move, BodyPart::Work, BodyPart::Move, BodyPart::Work, BodyPart::Move, BodyPart::Carry]);
            build_body(&base, &scale, room_energy, 50, Some(Priority::Default))
        } else {
            let base = [BodyPart::Work, BodyPart::Carry, BodyPart::Move];
            let scale = [BodyPart::Work, BodyPart::Carry, BodyPart::Move];
            assert(base@ =~= seq![BodyPart::Work, BodyPart::Carry, BodyPart::Move]);
            assert(scale@ =~= seq![BodyPart::Work, BodyPart::Carry, BodyPart::Move]);
            build_body(&base, &scale, room_energy, 50, Some(Priority::Default))
        }
    }

    /// Boosts wanted by a creep with `ticks_to_live` left: only fresh creeps
    /// are worth boosting.
    pub fn boosts(&self, ticks_to_live: Option<u32>) -> (b: Vec<(BodyPart, [Resource; 2])>)
        ensures
            b@ == if self.boost && (ticks_to_live matches Some(t) && t > 1450) {
                seq![(BodyPart::Carry, [Resource::CatalyzedKeaniumAcid, Resource::KeaniumAcid])]
            } else {
                Seq::<(BodyPart, [Resource; 2])>::empty()
            },
    {
        let mut v: Vec<(BodyPart, [Resource; 2])> = Vec::new();
        if self.boost && ticks_to_live.is_some() && ticks_to_live.unwrap() > 1450 {
            v.push((BodyPart::Carry, [Resource::CatalyzedKeaniumAcid, Resource::KeaniumAcid]));
        }
        v
    }

    /// Ticks before death at which a replacement is ordered.
    pub fn respawn_timeout(&self, creep_body_len: Option<usize>) -> (t: Option<usize>)
        requires
            creep_body_len matches Some(n) ==> n <= 50,
        ensures
            t == Some(750usize),
    {
        Some(750)
    }
}


impl RemoteUpgrader {
    /// Boost if a lab offers it; with energy, upgrade the target controller;
    /// without, harvest the source next to the workplace, or travel to the
    /// workplace's room when it has none in sight.
    pub fn get_task(&self, creep: &CreepInfo, home: &HomeView) -> (t: Task)
        requires
            creep.body@.len() <= 50,
        ensures
            t == match home.available_boost {
                Some(b) => spec_boost_task(*creep, b),
                None => if creep.store_energy > 0 {
                    Task::Upgrade(self.ctrl, None)
                } else {
                    match self.workplace {
                        Some(w) => match home.source_near_workplace {
                            Some(source) => Task::Harvest(w, source),
                            None => Task::MoveMe(w.room, Walker::Exploring(false)),
                        },
                        None => Task::Idle(1),
                    }
                },
            },
    {
        match home.available_boost {
            Some(b) => boost_task(creep, b),
            None => if creep.store_energy > 0 {
                Task::Upgrade(self.ctrl, None)
            } else {
                match self.workplace {
                    Some(w) => match home.source_near_workplace {
                        Some(source) => Task::Harvest(w, source),
                        None => Task::MoveMe(w.room, Walker::Exploring(false)),
                    },
                    None => Task::default(),
                }
            },
        }
    }
}

} // verus!
