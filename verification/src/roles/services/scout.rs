use rand::Rng;
use vstd::prelude::*;

use crate::geometry::{Position, RoomName};
use crate::body::{body_parts, fixed_body, Body, BodyPart};
use crate::units::CreepInfo;
use crate::tasks::{Task, Walker};

verus! {

/// Explores rooms.
#[derive(Clone, Debug, PartialEq, Eq, Structural)]
pub struct Scout {
    pub home: Option<RoomName>,
    pub target: Option<Position>,
}

impl Scout {
    pub fn new(home: Option<RoomName>, target: Option<Position>) -> (r: Self)
        ensures
            r == (Self { home, target }),
    {
        Self { home, target }
    }

    /// The body this role is spawned with, whatever the energy.
    pub fn body(&self, room_energy: u32) -> (b: Body)
        ensures
            body_parts(b) == seq![BodyPart::Move],
    {
        let parts = [BodyPart::Move];
        assert(parts@ =~= seq![BodyPart::Move]);
        fixed_body(&parts)
    }

    /// Ticks before death at which a replacement is ordered.
    pub fn respawn_timeout(&self, creep_body_len: Option<usize>) -> (t: Option<usize>)
        requires
            creep_body_len matches Some(n) ==> n <= 50,
        ensures
            t == Some(1usize),
    {
        Some(1)
    }
}


/// Picks an index uniformly in `from..to` with the thread's random
/// generator (`rand::Rng::gen_range`); the range must not be empty.
#[verifier::external_body]
pub fn get_random(from: usize, to: usize) -> (r: usize)
    requires
        from < to,
    ensures
        from <= r < to,
{
    rand::thread_rng().gen_range(from..to)
}

/// The wandering task through the exit at `index`: into that room when it
/// is open to play, else a tick of idling.
pub open spec fn spec_wander(exits: Seq<(RoomName, bool)>, index: int) -> Task {
    if exits[index].1 {
        Task::MoveMe(exits[index].0, Walker::Exploring(false))
    } else {
        Task::Idle(1)
    }
}

/// Wander through the exit at `index` (the one picked at random).
pub fn wander(exits: &[(RoomName, bool)], index: usize) -> (t: Task)
    requires
        index < exits@.len(),
    ensures
        t == spec_wander(exits@, index as int),
{
    let (room_name, normal) = exits[index];
    if normal {
        Task::MoveMe(room_name, Walker::Exploring(false))
    } else {
        Task::default()
    }
}

impl Scout {
    /// With a target: provoke hostiles once in the target room, travel there
    /// before. Without one: wander through a random exit (any but the last
    /// listed) when that room is open to play, idle otherwise.
    pub fn get_task(&self, creep: &CreepInfo, exits: &[(RoomName, bool)]) -> (t: Task)
        requires
            self.target is None ==> exits@.len() >= 2,
        ensures
            match self.target {
                Some(target) => t == if creep.pos.room == target.room {
                    Task::Provoke(5, 10)
                } else {
                    Task::MoveMe(target.room, Walker::Exploring(false))
                },
                None => exists|i: int| 0 <= i < exits@.len() - 1 && t == spec_wander(exits@, i),
            },
    {
        match self.target {
            Some(target) => if creep.pos.room == target.room {
                Task::Provoke(5, 10)
            } else {
                Task::MoveMe(target.room, Walker::Exploring(false))
            },
            None => {
                let index = get_random(0, exits.len() - 1);
                wander(exits, index)
            },
        }
    }
}

} // verus!
