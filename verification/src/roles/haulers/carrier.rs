use vstd::prelude::*;

use crate::geometry::RoomName;
use crate::body::{body_parts, build_body, spec_build_body, Body, BodyPart, Priority};
use crate::requests::{deref_opt, find_first, or_else, spec_find_first, KindTag, Request, Status};
use crate::shelter::{spec_picked, task_only, HomeView, Picked, TaskChoice, Choice, CreepAction};
use crate::units::CreepInfo;
use crate::tasks::Task;

verus! {

/// Long-range carrier.
#[derive(Clone, Debug, PartialEq, Eq, Structural)]
pub struct Carrier {
    pub home: Option<RoomName>,
}

impl Carrier {
    pub fn new(home: Option<RoomName>) -> (r: Self)
        ensures
            r == (Self { home }),
    {
        Self { home }
    }

    /// The body: grown from its base by its scale unit while energy and the
    /// part limit allow.
    pub fn body(&self, room_energy: u32) -> (b: Body)
        ensures
            body_parts(b) == spec_build_body(seq![BodyPart::Carry, BodyPart::Move], seq![BodyPart::Carry, BodyPart::Move], room_energy as int, 50 as int, None),
    {
        let base = [BodyPart::Carry, BodyPart::Move];
        let scale = [BodyPart::Carry, BodyPart::Move];
        assert(base@ =~= seq![BodyPart::Carry, BodyPart::Move]);
        assert(scale@ =~= seq![BodyPart::Carry, BodyPart::Move]);
        build_body(&base, &scale, room_energy, 50, None)
    }
}


/// The long range withdraw request in progress.
fn get_request_in_progress<'a>(requests: &'a [Request], creep_name: &str) -> (r: Option<&'a Request>)
    ensures
        deref_opt(r) == spec_find_first(requests@, seq![KindTag::LongRangeWithdraw], seq![Status::InProgress], Some(creep_name@)),
{
    let kinds = [KindTag::LongRangeWithdraw];
    let statuses = [Status::InProgress];
    assert(kinds@ =~= seq![KindTag::LongRangeWithdraw]);
    assert(statuses@ =~= seq![Status::InProgress]);
    find_first(requests, &kinds, &statuses, Some(creep_name))
}

/// The first long range withdraw request waiting.
fn get_request_waiting<'a>(requests: &'a [Request]) -> (r: Option<&'a Request>)
    ensures
        deref_opt(r) == spec_find_first(requests@, seq![KindTag::LongRangeWithdraw], seq![Status::Spawning], None),
{
    let kinds = [KindTag::LongRangeWithdraw];
    let statuses = [Status::Spawning];
    assert(kinds@ =~= seq![KindTag::LongRangeWithdraw]);
    assert(statuses@ =~= seq![Status::Spawning]);
    find_first(requests, &kinds, &statuses, None)
}

/// The long range withdraw request for this creep: one in progress first, else one
/// waiting.
pub fn get_request<'a>(requests: &'a [Request], creep_name: &str) -> (r: Option<&'a Request>)
    ensures
        deref_opt(r) == or_else(
            spec_find_first(requests@, seq![KindTag::LongRangeWithdraw], seq![Status::InProgress], Some(creep_name@)),
            spec_find_first(requests@, seq![KindTag::LongRangeWithdraw], seq![Status::Spawning], None),
        ),
{
    match get_request_in_progress(requests, creep_name) {
        Some(r) => Some(r),
        None => get_request_waiting(requests),
    }
}


impl Carrier {
    /// A loaded carrier takes its first resource to the storage (or drops it
    /// when there is none); an empty one with more than 350 ticks left joins
    /// its long-range withdraw request; otherwise it retires.
    pub fn get_task<'a>(&self, creep: &CreepInfo, home: &'a HomeView) -> (t: TaskChoice<'a>)
        requires
            creep.store_used > 0 ==> creep.store_types@.len() > 0,
        ensures
            spec_picked(t) == if creep.store_used > 0 {
                match home.storage {
                    Some(s) => task_only(Task::DeliverToStructure(s.pos, s.id, creep.store_types@[0], None)),
                    None => (Picked::Task(Task::Idle(1)), Some(CreepAction::Drop(creep.store_types@[0]))),
                }
            } else if creep.ticks_to_live matches Some(tl) && tl > 350 && or_else(
                spec_find_first(home.requests@, seq![KindTag::LongRangeWithdraw], seq![Status::InProgress], Some(creep.name@)),
                spec_find_first(home.requests@, seq![KindTag::LongRangeWithdraw], seq![Status::Spawning], None),
            ) is Some {
                (Picked::Join(or_else(
                    spec_find_first(home.requests@, seq![KindTag::LongRangeWithdraw], seq![Status::InProgress], Some(creep.name@)),
                    spec_find_first(home.requests@, seq![KindTag::LongRangeWithdraw], seq![Status::Spawning], None),
                ).unwrap()), None)
            } else {
                (Picked::Task(Task::Idle(1)), Some(CreepAction::Suicide))
            },
    {
        if creep.store_used > 0 {
            let resource = creep.store_types[0];
            match home.storage {
                Some(s) => TaskChoice { choice: Choice::Task(Task::DeliverToStructure(s.pos, s.id, resource, None)), action: None },
                None => TaskChoice { choice: Choice::Task(Task::Idle(1)), action: Some(CreepAction::Drop(resource)) },
            }
        } else {
            let fresh = match creep.ticks_to_live {
                Some(tl) => tl > 350,
                None => false,
            };
            if fresh {
                if let Some(req) = get_request(&home.requests, creep.name.as_str()) {
                    return TaskChoice { choice: Choice::Join(req), action: None };
                }
            }
            TaskChoice { choice: Choice::Task(Task::Idle(1)), action: Some(CreepAction::Suicide) }
        }
    }
}

} // verus!
