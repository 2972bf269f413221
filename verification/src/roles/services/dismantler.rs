use vstd::prelude::*;

use crate::geometry::RoomName;
use crate::body::{body_parts, build_body, spec_build_body, Body, BodyPart, Priority};
use crate::resources::Resource;
use crate::requests::{deref_opt, find_first, spec_find_first, KindTag, Request, Status};
use crate::shelter::{boost_task, spec_boost_task, spec_picked, task_only, HomeView, Picked, TaskChoice, Choice, CreepAction};
use crate::units::CreepInfo;
use crate::tasks::Task;

verus! {

/// Immobile dismantler, pulled to its work.
#[derive(Clone, Debug, PartialEq, Eq, Structural)]
pub struct Dismantler {
    pub home: Option<RoomName>,
}

impl Dismantler {
    pub fn new(home: Option<RoomName>) -> (r: Self)
        ensures
            r == (Self { home }),
    {
        Self { home }
    }

    /// The body: grown from its base by its scale unit while energy and the
    /// part limit allow.
    pub fn body(&self, room_energy: u32) -> (b: Body)
        ensures
            body_parts(b) == spec_build_body(seq![BodyPart::Work], seq![BodyPart::Work], room_energy as int, 50 as int, None),
    {
        let base = [BodyPart::Work];
        let scale = [BodyPart::Work];
        assert(base@ =~= seq![BodyPart::Work]);
        assert(scale@ =~= seq![BodyPart::Work]);
        build_body(&base, &scale, room_energy, 50, None)
    }

    /// Boosts wanted by a creep with `ticks_to_live` left: only fresh creeps
    /// are worth boosting.
    pub fn boosts(&self, ticks_to_live: Option<u32>) -> (b: Vec<(BodyPart, [Resource; 2])>)
        ensures
            b@ == if ticks_to_live matches Some(t) && t > 1400 {
                seq![(BodyPart::Work, [Resource::CatalyzedZynthiumAcid, Resource::ZynthiumAcid])]
            } else {
                Seq::<(BodyPart, [Resource; 2])>::empty()
            },
    {
        let mut v: Vec<(BodyPart, [Resource; 2])> = Vec::new();
        if ticks_to_live.is_some() && ticks_to_live.unwrap() > 1400 {
            v.push((BodyPart::Work, [Resource::CatalyzedZynthiumAcid, Resource::ZynthiumAcid]));
        }
        v
    }
}


/// The dismantle request this creep already works on.
pub fn get_active_job<'a>(requests: &'a [Request], creep_name: &str) -> (r: Option<&'a Request>)
    ensures
        deref_opt(r) == spec_find_first(requests@, seq![KindTag::Dismantle], seq![Status::InProgress], Some(creep_name@)),
{
    let kinds = [KindTag::Dismantle];
    let statuses = [Status::InProgress];
    assert(kinds@ =~= seq![KindTag::Dismantle]);
    assert(statuses@ =~= seq![Status::InProgress]);
    find_first(requests, &kinds, &statuses, Some(creep_name))
}

/// The first dismantle request waiting for a creep.
pub fn get_new_job<'a>(requests: &'a [Request]) -> (r: Option<&'a Request>)
    ensures
        deref_opt(r) == spec_find_first(requests@, seq![KindTag::Dismantle], seq![Status::Created, Status::Spawning], None),
{
    let kinds = [KindTag::Dismantle];
    let statuses = [Status::Created, Status::Spawning];
    assert(kinds@ =~= seq![KindTag::Dismantle]);
    assert(statuses@ =~= seq![Status::Created, Status::Spawning]);
    find_first(requests, &kinds, &statuses, None)
}


impl Dismantler {
    /// Boost if a lab offers it; else carry on with this creep's dismantle
    /// request; else join a waiting one; else idle.
    pub fn get_task<'a>(&self, creep: &CreepInfo, home: &'a HomeView) -> (t: TaskChoice<'a>)
        requires
            creep.body@.len() <= 50,
        ensures
            spec_picked(t) == match home.available_boost {
                Some(b) => task_only(spec_boost_task(*creep, b)),
                None => match spec_find_first(home.requests@, seq![KindTag::Dismantle], seq![Status::InProgress], Some(creep.name@)) {
                    Some(r) => (Picked::Resume(r), None),
                    None => match spec_find_first(home.requests@, seq![KindTag::Dismantle], seq![Status::Created, Status::Spawning], None) {
                        Some(r) => (Picked::Join(r), None),
                        None => task_only(Task::Idle(1)),
                    },
                },
            },
    {
        match home.available_boost {
            Some(b) => TaskChoice { choice: Choice::Task(boost_task(creep, b)), action: None },
            None => match get_active_job(&home.requests, creep.name.as_str()) {
                Some(req) => TaskChoice { choice: Choice::Resume(req), action: None },
                None => match get_new_job(&home.requests) {
                    Some(req) => TaskChoice { choice: Choice::Join(req), action: None },
                    None => TaskChoice { choice: Choice::Task(Task::default()), action: None },
                },
            },
        }
    }
}

} // verus!
