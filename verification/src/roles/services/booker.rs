use vstd::prelude::*;

use crate::geometry::RoomName;
use crate::body::{body_parts, build_body, spec_build_body, Body, BodyPart, Priority};
use crate::requests::{deref_opt, find_first, spec_find_first, KindTag, Request, Status};
use crate::shelter::{spec_picked, task_only, HomeView, Picked, TaskChoice, Choice, CreepAction};
use crate::units::CreepInfo;
use crate::tasks::Task;

verus! {

/// Reserves remote controllers.
#[derive(Clone, Debug, PartialEq, Eq, Structural)]
pub struct Booker {
    pub home: Option<RoomName>,
}

impl Booker {
    pub fn new(home: Option<RoomName>) -> (r: Self)
        ensures
            r == (Self { home }),
    {
        Self { home }
    }

    /// The body: grown from its base by its scale unit while energy and the
    /// part limit allow.
    pub fn body(&self, room_energy: u32) -> (b: Body)
        ensures
            body_parts(b) == spec_build_body(seq![BodyPart::Move, BodyPart::Claim], seq![BodyPart::Move, BodyPart::Claim], room_energy as int, 14 as int, Some(Priority::Default)),
    {
        let base = [BodyPart::Move, BodyPart::Claim];
        let scale = [BodyPart::Move, BodyPart::Claim];
        assert(base@ =~= seq![BodyPart::Move, BodyPart::Claim]);
        assert(scale@ =~= seq![BodyPart::Move, BodyPart::Claim]);
        build_body(&base, &scale, room_energy, 14, Some(Priority::Default))
    }
}


/// The reservation request this creep already works on.
pub fn get_active_job<'a>(requests: &'a [Request], creep_name: &str) -> (r: Option<&'a Request>)
    ensures
        deref_opt(r) == spec_find_first(requests@, seq![KindTag::Book], seq![Status::InProgress], Some(creep_name@)),
{
    let kinds = [KindTag::Book];
    let statuses = [Status::InProgress];
    assert(kinds@ =~= seq![KindTag::Book]);
    assert(statuses@ =~= seq![Status::InProgress]);
    find_first(requests, &kinds, &statuses, Some(creep_name))
}

/// The first reservation request waiting for a creep.
pub fn get_new_job<'a>(requests: &'a [Request]) -> (r: Option<&'a Request>)
    ensures
        deref_opt(r) == spec_find_first(requests@, seq![KindTag::Book], seq![Status::Spawning], None),
{
    let kinds = [KindTag::Book];
    let statuses = [Status::Spawning];
    assert(kinds@ =~= seq![KindTag::Book]);
    assert(statuses@ =~= seq![Status::Spawning]);
    find_first(requests, &kinds, &statuses, None)
}


impl Booker {
    /// Carry on with the request this creep works on; else join a waiting
    /// one; else idle.
    pub fn get_task<'a>(&self, creep: &CreepInfo, home: &'a HomeView) -> (t: TaskChoice<'a>)
        ensures
            spec_picked(t) == match spec_find_first(home.requests@, seq![KindTag::Book], seq![Status::InProgress], Some(creep.name@)) {
                Some(r) => (Picked::Resume(r), None),
                None => match spec_find_first(home.requests@, seq![KindTag::Book], seq![Status::Spawning], None) {
                    Some(r) => (Picked::Join(r), None),
                    None => task_only(Task::Idle(1)),
                },
            },
    {
        match get_active_job(&home.requests, creep.name.as_str()) {
            Some(req) => TaskChoice { choice: Choice::Resume(req), action: None },
            None => match get_new_job(&home.requests) {
                Some(req) => TaskChoice { choice: Choice::Join(req), action: None },
                None => TaskChoice { choice: Choice::Task(Task::default()), action: None },
            },
        }
    }
}

} // verus!
