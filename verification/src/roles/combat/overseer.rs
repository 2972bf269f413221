use vstd::prelude::*;

use crate::geometry::RoomName;
use crate::body::{body_parts, build_body, spec_build_body, Body, BodyPart, Priority};
use crate::requests::{deref_opt, find_first, or_else, spec_find_first, KindTag, Request, Status};
use crate::shelter::{spec_picked, task_only, HomeView, Picked, TaskChoice, Choice, CreepAction};
use crate::units::CreepInfo;
use crate::tasks::Task;

verus! {

/// Keeps source keepers of a remote room busy.
#[derive(Clone, Debug, PartialEq, Eq, Structural)]
pub struct Overseer {
    pub workroom: Option<RoomName>,
    pub home: Option<RoomName>,
}

impl Overseer {
    pub fn new(workroom: Option<RoomName>, home: Option<RoomName>) -> (r: Self)
        ensures
            r == (Self { workroom, home }),
    {
        Self { workroom, home }
    }

    /// The body: grown from its base by its scale unit while energy and the
    /// part limit allow.
    pub fn body(&self, room_energy: u32) -> (b: Body)
        ensures
            body_parts(b) == spec_build_body(seq![BodyPart::Attack, BodyPart::Move, BodyPart::Attack, BodyPart::Move, BodyPart::Attack, BodyPart::Move, BodyPart::Attack, BodyPart::Move, BodyPart::Attack, BodyPart::Move], seq![BodyPart::Attack, BodyPart::Move, BodyPart::Move, BodyPart::Heal], room_energy as int, 50 as int, Some(Priority::Default)),
    {
        let base = [BodyPart::Attack, BodyPart::Move, BodyPart::Attack, BodyPart::Move, BodyPart::Attack, BodyPart::Move, BodyPart::Attack, BodyPart::Move, BodyPart::Attack, BodyPart::Move];
        let scale = [BodyPart::Attack, BodyPart::Move, BodyPart::Move, BodyPart::Heal];
        assert(base@ =~= seq![BodyPart::Attack, BodyPart::Move, BodyPart::Attack, BodyPart::Move, BodyPart::Attack, BodyPart::Move, BodyPart::Attack, BodyPart::Move, BodyPart::Attack, BodyPart::Move]);
        assert(scale@ =~= seq![BodyPart::Attack, BodyPart::Move, BodyPart::Move, BodyPart::Heal]);
        build_body(&base, &scale, room_energy, 50, Some(Priority::Default))
    }

    /// Ticks before death at which a replacement is ordered.
    pub fn respawn_timeout(&self, creep_body_len: Option<usize>) -> (t: Option<usize>)
        requires
            creep_body_len matches Some(n) ==> n <= 50,
        ensures
            t == match creep_body_len { Some(n) => Some((n * 3 + 100) as usize), None => Some(0usize) },
    {
        match creep_body_len {
            Some(n) => Some(n * 3 + 100),
            None => Some(0),
        }
    }
}


/// The invader core request in progress.
fn get_request_in_progress<'a>(requests: &'a [Request], creep_name: &str) -> (r: Option<&'a Request>)
    ensures
        deref_opt(r) == spec_find_first(requests@, seq![KindTag::Crash], seq![Status::InProgress], Some(creep_name@)),
{
    let kinds = [KindTag::Crash];
    let statuses = [Status::InProgress];
    assert(kinds@ =~= seq![KindTag::Crash]);
    assert(statuses@ =~= seq![Status::InProgress]);
    find_first(requests, &kinds, &statuses, Some(creep_name))
}

/// The first invader core request waiting.
fn get_request_waiting<'a>(requests: &'a [Request]) -> (r: Option<&'a Request>)
    ensures
        deref_opt(r) == spec_find_first(requests@, seq![KindTag::Crash], seq![Status::Spawning], None),
{
    let kinds = [KindTag::Crash];
    let statuses = [Status::Spawning];
    assert(kinds@ =~= seq![KindTag::Crash]);
    assert(statuses@ =~= seq![Status::Spawning]);
    find_first(requests, &kinds, &statuses, None)
}

/// The invader core request for this creep: one in progress first, else one
/// waiting.
pub fn get_request<'a>(requests: &'a [Request], creep_name: &str) -> (r: Option<&'a Request>)
    ensures
        deref_opt(r) == or_else(
            spec_find_first(requests@, seq![KindTag::Crash], seq![Status::InProgress], Some(creep_name@)),
            spec_find_first(requests@, seq![KindTag::Crash], seq![Status::Spawning], None),
        ),
{
    match get_request_in_progress(requests, creep_name) {
        Some(r) => Some(r),
        None => get_request_waiting(requests),
    }
}


impl Overseer {
    /// Watch the work room if the role has one; else join the invader-core
    /// request assigned to this creep or waiting for one.
    pub fn get_task<'a>(&self, creep: &CreepInfo, home: &'a HomeView) -> (t: TaskChoice<'a>)
        ensures
            spec_picked(t) == match self.workroom {
                Some(rn) => task_only(Task::Oversee(rn, None)),
                None => match or_else(
                    spec_find_first(home.requests@, seq![KindTag::Crash], seq![Status::InProgress], Some(creep.name@)),
                    spec_find_first(home.requests@, seq![KindTag::Crash], seq![Status::Spawning], None),
                ) {
                    Some(r) => (Picked::Join(r), None),
                    None => task_only(Task::Idle(1)),
                },
            },
    {
        match self.workroom {
            Some(rn) => TaskChoice { choice: Choice::Task(Task::Oversee(rn, None)), action: None },
            None => match get_request(&home.requests, creep.name.as_str()) {
                Some(req) => TaskChoice { choice: Choice::Join(req), action: None },
                None => TaskChoice { choice: Choice::Task(Task::default()), action: None },
            },
        }
    }
}

} // verus!
