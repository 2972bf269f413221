use vstd::prelude::*;

use crate::geometry::{Position, RoomName};
use crate::body::{body_parts, build_body, spec_build_body, Body, BodyPart, Priority};
use crate::shelter::{first_near, spec_first_near, HomeView};
use crate::tasks::Task;

verus! {

/// Harvests the room mineral.
#[derive(Clone, Debug, PartialEq, Eq, Structural)]
pub struct MineralMiner {
    pub workplace: Option<Position>,
    pub home: Option<RoomName>,
}

impl MineralMiner {
    pub fn new(workplace: Option<Position>, home: Option<RoomName>) -> (r: Self)
        ensures
            r == (Self { workplace, home }),
    {
        Self { workplace, home }
    }

    /// The body: grown from its base by its scale unit while energy and the
    /// part limit allow.
    pub fn body(&self, room_energy: u32) -> (b: Body)
        ensures
            body_parts(b) == spec_build_body(seq![BodyPart::Work, BodyPart::Work, BodyPart::Move], seq![BodyPart::Work, BodyPart::Work, BodyPart::Move], room_energy as int, 50 as int, Some(Priority::Default)),
    {
        let base = [BodyPart::Work, BodyPart::Work, BodyPart::Move];
        let scale = [BodyPart::Work, BodyPart::Work, BodyPart::Move];
        assert(base@ =~= seq![BodyPart::Work, BodyPart::Work, BodyPart::Move]);
        assert(scale@ =~= seq![BodyPart::Work, BodyPart::Work, BodyPart::Move]);
        build_body(&base, &scale, room_energy, 50, Some(Priority::Default))
    }
}


impl MineralMiner {
    /// Harvest the mineral next to the workplace while it holds anything.
    pub fn get_task(&self, home: &HomeView) -> (t: Task)
        ensures
            t == match self.workplace {
                Some(w) => match spec_first_near(home.minerals@, w, true) {
                    Some(m) => Task::HarvestMineral(w, m.id),
                    None => Task::Idle(1),
                },
                None => Task::Idle(1),
            },
    {
        match self.workplace {
            Some(w) => match first_near(&home.minerals, w, true) {
                Some(m) => Task::HarvestMineral(w, m.id),
                None => Task::default(),
            },
            None => Task::default(),
        }
    }
}

} // verus!
