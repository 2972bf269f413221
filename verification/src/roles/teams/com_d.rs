use vstd::prelude::*;

use crate::geometry::RoomName;
use crate::body::{body_parts, build_body, spec_build_body, Body, BodyPart, Priority};
use crate::resources::Resource;
use crate::requests::{deref_opt, find_first, spec_find_first, KindTag, Request, Status};
use crate::shelter::{spec_picked, task_only, HomeView, Picked, TaskChoice, Choice};
use crate::tasks::Task;

verus! {

/// Dismantler of a combat squad.
#[derive(Clone, Debug)]
pub struct ComDismantler {
    pub squad_id: Option<String>,
    pub home: Option<RoomName>,
}

impl ComDismantler {
    pub fn new(squad_id: Option<String>, home: Option<RoomName>) -> (r: Self)
        ensures
            r == (Self { squad_id, home }),
    {
        Self { squad_id, home }
    }

    /// The body: grown from its base by its scale unit while energy and the
    /// part limit allow.
    pub fn body(&self, room_energy: u32) -> (b: Body)
        ensures
            body_parts(b) == spec_build_body(seq![BodyPart::Tough, BodyPart::Work, BodyPart::Work, BodyPart::Work, BodyPart::Move], seq![BodyPart::Tough, BodyPart::Work, BodyPart::Work, BodyPart::Work, BodyPart::Move], room_energy as int, 50 as int, None),
    {
        let base = [BodyPart::Tough, BodyPart::Work, BodyPart::Work, BodyPart::Work, BodyPart::Move];
        let scale = [BodyPart::Tough, BodyPart::Work, BodyPart::Work, BodyPart::Work, BodyPart::Move];
        assert(base@ =~= seq![BodyPart::Tough, BodyPart::Work, BodyPart::Work, BodyPart::Work, BodyPart::Move]);
        assert(scale@ =~= seq![BodyPart::Tough, BodyPart::Work, BodyPart::Work, BodyPart::Work, BodyPart::Move]);
        build_body(&base, &scale, room_energy, 50, None)
    }

    /// Boosts wanted by a creep with `ticks_to_live` left: only fresh creeps
    /// are worth boosting.
    pub fn boosts(&self, ticks_to_live: Option<u32>) -> (b: Vec<(BodyPart, [Resource; 2])>)
        ensures
            b@ == if ticks_to_live matches Some(t) && t > 1300 {
                seq![(BodyPart::Move, [Resource::CatalyzedZynthiumAlkalide, Resource::ZynthiumAlkalide]), (BodyPart::Work, [Resource::CatalyzedZynthiumAcid, Resource::ZynthiumAcid]), (BodyPart::Tough, [Resource::CatalyzedGhodiumAlkalide, Resource::GhodiumAlkalide])]
            } else {
                Seq::<(BodyPart, [Resource; 2])>::empty()
            },
    {
        let mut v: Vec<(BodyPart, [Resource; 2])> = Vec::new();
        if ticks_to_live.is_some() && ticks_to_live.unwrap() > 1300 {
            v.push((BodyPart::Move, [Resource::CatalyzedZynthiumAlkalide, Resource::ZynthiumAlkalide]));
            v.push((BodyPart::Work, [Resource::CatalyzedZynthiumAcid, Resource::ZynthiumAcid]));
            v.push((BodyPart::Tough, [Resource::CatalyzedGhodiumAlkalide, Resource::GhodiumAlkalide]));
        }
        v
    }
}


/// The powerbank request the squad works on.
pub fn get_request<'a>(requests: &'a [Request], squad_id: &str) -> (r: Option<&'a Request>)
    ensures
        deref_opt(r) == spec_find_first(requests@, seq![KindTag::Powerbank], seq![Status::InProgress, Status::Carry], Some(squad_id@)),
{
    let kinds = [KindTag::Powerbank];
    let statuses = [Status::InProgress, Status::Carry];
    assert(kinds@ =~= seq![KindTag::Powerbank]);
    assert(statuses@ =~= seq![Status::InProgress, Status::Carry]);
    find_first(requests, &kinds, &statuses, Some(squad_id))
}


impl ComDismantler {
    /// Join, with the squad, the request the squad works on; else idle.
    pub fn get_task<'a>(&self, home: &'a HomeView) -> (t: TaskChoice<'a>)
        ensures
            spec_picked(t) == match self.squad_id {
                Some(sid) => match spec_find_first(home.requests@, seq![KindTag::Powerbank], seq![Status::InProgress, Status::Carry], Some(sid@)) {
                    Some(r) => (Picked::JoinSquad(r), None),
                    None => task_only(Task::Idle(1)),
                },
                None => task_only(Task::Idle(1)),
            },
    {
        match &self.squad_id {
            Some(sid) => match get_request(&home.requests, sid.as_str()) {
                Some(req) => TaskChoice { choice: Choice::JoinSquad(req), action: None },
                None => TaskChoice { choice: Choice::Task(Task::default()), action: None },
            },
            None => TaskChoice { choice: Choice::Task(Task::default()), action: None },
        }
    }
}

} // verus!
