use vstd::prelude::*;

use crate::geometry::RoomName;
use crate::body::{body_parts, build_body, spec_build_body, Body, BodyPart, Priority};
use crate::requests::{deref_opt, find_first, spec_find_first, KindTag, Request, Status};
use crate::shelter::{spec_picked, task_only, HomeView, Picked, TaskChoice, Choice};
use crate::tasks::Task;

verus! {

/// Mines a deposit.
#[derive(Clone, Debug)]
pub struct DepositMiner {
    pub squad_id: Option<String>,
    pub home: Option<RoomName>,
}

impl DepositMiner {
    pub fn new(squad_id: Option<String>, home: Option<RoomName>) -> (r: Self)
        ensures
            r == (Self { squad_id, home }),
    {
        Self { squad_id, home }
    }

    /// The body: grown from its base by its scale unit while energy and the
    /// part limit allow.
    pub fn body(&self, room_energy: u32) -> (b: Body)
        ensures
            body_parts(b) == spec_build_body(seq![BodyPart::Work, BodyPart::Work, BodyPart::Carry, BodyPart::Move, BodyPart::Move], seq![BodyPart::Work, BodyPart::Work, BodyPart::Work, BodyPart::Work, BodyPart::Carry, BodyPart::Move, BodyPart::Move, BodyPart::Move, BodyPart::Move], room_energy as int, 50 as int, None),
    {
        let base = [BodyPart::Work, BodyPart::Work, BodyPart::Carry, BodyPart::Move, BodyPart::Move];
        let scale = [BodyPart::Work, BodyPart::Work, BodyPart::Work, BodyPart::Work, BodyPart::Carry, BodyPart::Move, BodyPart::Move, BodyPart::Move, BodyPart::Move];
        assert(base@ =~= seq![BodyPart::Work, BodyPart::Work, BodyPart::Carry, BodyPart::Move, BodyPart::Move]);
        assert(scale@ =~= seq![BodyPart::Work, BodyPart::Work, BodyPart::Work, BodyPart::Work, BodyPart::Carry, BodyPart::Move, BodyPart::Move, BodyPart::Move, BodyPart::Move]);
        build_body(&base, &scale, room_energy, 50, None)
    }
}


/// The deposit request the squad works on.
pub fn get_request<'a>(requests: &'a [Request], squad_id: &str) -> (r: Option<&'a Request>)
    ensures
        deref_opt(r) == spec_find_first(requests@, seq![KindTag::Deposit], seq![Status::InProgress, Status::Carry], Some(squad_id@)),
{
    let kinds = [KindTag::Deposit];
    let statuses = [Status::InProgress, Status::Carry];
    assert(kinds@ =~= seq![KindTag::Deposit]);
    assert(statuses@ =~= seq![Status::InProgress, Status::Carry]);
    find_first(requests, &kinds, &statuses, Some(squad_id))
}


impl DepositMiner {
    /// Join, with the squad, the request the squad works on; else idle.
    pub fn get_task<'a>(&self, home: &'a HomeView) -> (t: TaskChoice<'a>)
        ensures
            spec_picked(t) == match self.squad_id {
                Some(sid) => match spec_find_first(home.requests@, seq![KindTag::Deposit], seq![Status::InProgress, Status::Carry], Some(sid@)) {
                    Some(r) => (Picked::JoinSquad(r), None),
                    None => task_only(Task::Idle(1)),
                },
                None => task_only(Task::Idle(1)),
            },
    {
        match &self.squad_id {
            Some(sid) => match get_request(&home.requests, sid.as_str()) {
                Some(req) => TaskChoice { choice: Choice::JoinSquad(req), action: None },
                None => TaskChoice { choice: Choice::Task(Task::default()), action: None },
            },
            None => TaskChoice { choice: Choice::Task(Task::default()), action: None },
        }
    }
}

} // verus!
