use vstd::prelude::*;

use crate::geometry::{Position, RoomName};
use crate::body::{body_parts, build_body, spec_build_body, Body, BodyPart, Priority};
use crate::shelter::{first_near, spec_first_near, HomeView};
use crate::tasks::Task;

verus! {

/// Harvests one energy source.
#[derive(Clone, Debug, PartialEq, Eq, Structural)]
pub struct Miner {
    pub workplace: Option<Position>,
    pub home: Option<RoomName>,
}

impl Miner {
    pub fn new(workplace: Option<Position>, home: Option<RoomName>) -> (r: Self)
        ensures
            r == (Self { workplace, home }),
    {
        Self { workplace, home }
    }

    /// The body: grown from its base by its scale unit while energy and the
    /// part limit allow.
    pub fn body(&self, room_energy: u32, source: Option<SourceEffects>) -> (b: Body)
        ensures
            body_parts(b) == spec_build_body(seq![BodyPart::Carry], seq![BodyPart::Work, BodyPart::Work, BodyPart::Move], room_energy as int, spec_limit_for_source(source) as int, Some(Priority::Default)),
    {
        let limit = limit_based_on_source_effects(source);
        let base = [BodyPart::Carry];
        let scale = [BodyPart::Work, BodyPart::Work, BodyPart::Move];
        assert(base@ =~= seq![BodyPart::Carry]);
        assert(scale@ =~= seq![BodyPart::Work, BodyPart::Work, BodyPart::Move]);
        build_body(&base, &scale, room_energy, limit, Some(Priority::Default))
    }

    /// Ticks before death at which a replacement is ordered.
    pub fn respawn_timeout(&self, creep_body_len: Option<usize>) -> (t: Option<usize>)
        requires
            creep_body_len matches Some(n) ==> n <= 50,
        ensures
            t == match creep_body_len { Some(n) => Some((n * 3) as usize), None => Some(0usize) },
    {
        match creep_body_len {
            Some(n) => Some(n * 3),
            None => Some(0),
        }
    }
}

/// Energy capacity of a source in a source-keeper room.
pub const SOURCE_ENERGY_KEEPER_CAPACITY: u32 = 4000;

/// What the part limit of a miner reads of the source next to its workplace.
#[derive(Clone, Copy, Debug, PartialEq, Eq, Structural)]
pub struct SourceEffects {
    /// `Some(level)` when a regenerate-source power acts on the source
    /// (`level` as the game reports it), `None` otherwise.
    pub regen: Option<Option<u8>>,
    pub energy_capacity: u32,
}

/// Part limit of a miner: more work parts for a source that regenerates
/// faster.
pub open spec fn spec_limit_for_source(source: Option<SourceEffects>) -> usize {
    match source {
        None => 10,
        Some(s) => match s.regen {
            Some(level) => if level == Some(1u8) {
                13
            } else if level == Some(2u8) {
                16
            } else if level == Some(3u8) {
                19
            } else if level == Some(4u8) {
                22
            } else if level == Some(5u8) {
                25
            } else {
                10
            },
            None => if s.energy_capacity == SOURCE_ENERGY_KEEPER_CAPACITY {
                19
            } else {
                10
            },
        },
    }
}

/// Part limit of a miner, given the source next to its workplace (`None`
/// when there is no workplace, its room is not visible or no source is
/// adjacent).
pub fn limit_based_on_source_effects(source: Option<SourceEffects>) -> (r: usize)
    ensures
        r == spec_limit_for_source(source),
{
    match source {
        None => 10,
        Some(s) => match s.regen {
            Some(level) => match level {
                Some(1) => 13,
                Some(2) => 16,
                Some(3) => 19,
                Some(4) => 22,
                Some(5) => 25,
                _ => 10,
            },
            None => if s.energy_capacity == SOURCE_ENERGY_KEEPER_CAPACITY {
                19
            } else {
                10
            },
        },
    }
}


impl Miner {
    /// Harvest the source next to the workplace, forever.
    pub fn get_task(&self, home: &HomeView) -> (t: Task)
        ensures
            t == match self.workplace {
                Some(w) => match spec_first_near(home.sources@, w, false) {
                    Some(s) => Task::HarvestEnergyForever(w, s.id),
                    None => Task::Idle(1),
                },
                None => Task::Idle(1),
            },
    {
        match self.workplace {
            Some(w) => match first_near(&home.sources, w, false) {
                Some(s) => Task::HarvestEnergyForever(w, s.id),
                None => Task::default(),
            },
            None => Task::default(),
        }
    }
}

} // verus!
