use vstd::prelude::*;

use crate::geometry::RoomName;
use crate::body::{body_parts, build_body, spec_build_body, Body, BodyPart, Priority};
use crate::requests::{deref_opt, find_first, or_else, spec_find_first, KindTag, Request, Status};
use crate::shelter::{boost_task, spec_boost_task, spec_picked, task_only, HomeView, Picked, TaskChoice, Choice};
use crate::units::CreepInfo;
use crate::tasks::Task;

verus! {

/// Ranged defender of its home room.
#[derive(Clone, Debug, PartialEq, Eq, Structural)]
pub struct Defender {
    pub home: Option<RoomName>,
}

impl Defender {
    pub fn new(home: Option<RoomName>) -> (r: Self)
        ensures
            r == (Self { home }),
    {
        Self { home }
    }

    /// The body: grown from its base by its scale unit while energy and the
    /// part limit allow.
    pub fn body(&self, room_energy: u32) -> (b: Body)
        ensures
            body_parts(b) == spec_build_body(seq![BodyPart::RangedAttack, BodyPart::Move], seq![BodyPart::RangedAttack, BodyPart::Heal, BodyPart::Move, BodyPart::Move], room_energy as int, 50 as int, Some(Priority::Default)),
    {
        let base = [BodyPart::RangedAttack, BodyPart::Move];
        let scale = [BodyPart::RangedAttack, BodyPart::Heal, BodyPart::Move, BodyPart::Move];
        assert(base@ =~= seq![BodyPart::RangedAttack, BodyPart::Move]);
        assert(scale@ =~= seq![BodyPart::RangedAttack, BodyPart::Heal, BodyPart::Move, BodyPart::Move]);
        build_body(&base, &scale, room_energy, 50, Some(Priority::Default))
    }
}


/// The defence request in progress.
fn get_request_in_progress<'a>(requests: &'a [Request]) -> (r: Option<&'a Request>)
    ensures
        deref_opt(r) == spec_find_first(requests@, seq![KindTag::Defend], seq![Status::InProgress], None),
{
    let kinds = [KindTag::Defend];
    let statuses = [Status::InProgress];
    assert(kinds@ =~= seq![KindTag::Defend]);
    assert(statuses@ =~= seq![Status::InProgress]);
    find_first(requests, &kinds, &statuses, None)
}

/// The first defence request waiting.
fn get_request_waiting<'a>(requests: &'a [Request]) -> (r: Option<&'a Request>)
    ensures
        deref_opt(r) == spec_find_first(requests@, seq![KindTag::Defend], seq![Status::Created], None),
{
    let kinds = [KindTag::Defend];
    let statuses = [Status::Created];
    assert(kinds@ =~= seq![KindTag::Defend]);
    assert(statuses@ =~= seq![Status::Created]);
    find_first(requests, &kinds, &statuses, None)
}

/// The defence request for this creep: one in progress first, else one
/// waiting.
pub fn get_request<'a>(requests: &'a [Request]) -> (r: Option<&'a Request>)
    ensures
        deref_opt(r) == or_else(
            spec_find_first(requests@, seq![KindTag::Defend], seq![Status::InProgress], None),
            spec_find_first(requests@, seq![KindTag::Defend], seq![Status::Created], None),
        ),
{
    match get_request_in_progress(requests) {
        Some(r) => Some(r),
        None => get_request_waiting(requests),
    }
}


impl Defender {
    /// Boost if a lab offers it; else join the room's defence request; else
    /// defend the room the creep is in.
    pub fn get_task<'a>(&self, creep: &CreepInfo, home: &'a HomeView) -> (t: TaskChoice<'a>)
        requires
            creep.body@.len() <= 50,
        ensures
            spec_picked(t) == match home.available_boost {
                Some(b) => task_only(spec_boost_task(*creep, b)),
                None => match or_else(
                    spec_find_first(home.requests@, seq![KindTag::Defend], seq![Status::InProgress], None),
                    spec_find_first(home.requests@, seq![KindTag::Defend], seq![Status::Created], None),
                ) {
                    Some(r) => (Picked::Join(r), None),
                    None => task_only(Task::Defend(creep.pos.room, false)),
                },
            },
    {
        match home.available_boost {
            Some(b) => TaskChoice { choice: Choice::Task(boost_task(creep, b)), action: None },
            None => match get_request(&home.requests) {
                Some(req) => TaskChoice { choice: Choice::Join(req), action: None },
                None => TaskChoice { choice: Choice::Task(Task::Defend(creep.pos.room, false)), action: None },
            },
        }
    }
}

} // verus!
