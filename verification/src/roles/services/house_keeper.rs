use vstd::prelude::*;

use crate::geometry::RoomName;
use crate::body::{body_parts, build_body, spec_build_body, Body, BodyPart, Priority};
use crate::resources::Resource;
use crate::requests::{created_key, deref_opt, spec_matches, find_earliest, find_first, find_most_damaged, is_first_min, repair_hits_key, spec_find_first, KindTag, Request, Status};
use crate::shelter::{boost_task, spec_boost_task, spec_picked, task_only, HomeView, Picked, TaskChoice, Choice, CreepAction};
use crate::units::CreepInfo;
use crate::tasks::{ObjectId, Task};
use crate::geometry::Position;

verus! {

/// Repairs and builds in its home room.
#[derive(Clone, Debug, PartialEq, Eq, Structural)]
pub struct HouseKeeper {
    pub home: Option<RoomName>,
    pub boost: bool,
}

impl HouseKeeper {
    pub fn new(home: Option<RoomName>, boost: bool) -> (r: Self)
        ensures
            r == (Self { home, boost }),
    {
        Self { home, boost }
    }

    /// The body: grown from its base by its scale unit while energy and the
    /// part limit allow.
    pub fn body(&self, room_energy: u32) -> (b: Body)
        ensures
            body_parts(b) == spec_build_body(seq![BodyPart::Work, BodyPart::Carry, BodyPart::Move], seq![BodyPart::Work, BodyPart::Carry, BodyPart::Move], room_energy as int, 50 as int, Some(Priority::Default)),
    {
        let base = [BodyPart::Work, BodyPart::Carry, BodyPart::Move];
        let scale = [BodyPart::Work, BodyPart::Carry, BodyPart::Move];
        assert(base@ =~= seq![BodyPart::Work, BodyPart::Carry, BodyPart::Move]);
        assert(scale@ =~= seq![BodyPart::Work, BodyPart::Carry, BodyPart::Move]);
        build_body(&base, &scale, room_energy, 50, Some(Priority::Default))
    }

    /// Boosts wanted by a creep with `ticks_to_live` left: only fresh creeps
    /// are worth boosting.
    pub fn boosts(&self, ticks_to_live: Option<u32>) -> (b: Vec<(BodyPart, [Resource; 2])>)
        ensures
            b@ == if ticks_to_live matches Some(t) && t > 800 {
                seq![(BodyPart::Work, [Resource::CatalyzedLemergiumAcid, Resource::LemergiumAcid])]
            } else {
                Seq::<(BodyPart, [Resource; 2])>::empty()
            },
    {
        let mut v: Vec<(BodyPart, [Resource; 2])> = Vec::new();
        if ticks_to_live.is_some() && ticks_to_live.unwrap() > 800 {
            v.push((BodyPart::Work, [Resource::CatalyzedLemergiumAcid, Resource::LemergiumAcid]));
        }
        v
    }

    /// Ticks before death at which a replacement is ordered.
    pub fn respawn_timeout(&self, creep_body_len: Option<usize>) -> (t: Option<usize>)
        requires
            creep_body_len matches Some(n) ==> n <= 50,
        ensures
            t == match creep_body_len { Some(n) => Some((n * 3) as usize), None => Some(0usize) },
    {
        match creep_body_len {
            Some(n) => Some(n * 3),
            None => Some(0),
        }
    }
}


/// The repair or build request this creep already works on.
pub fn get_active_job<'a>(requests: &'a [Request], creep_name: &str) -> (r: Option<&'a Request>)
    ensures
        deref_opt(r) == spec_find_first(requests@, seq![KindTag::Repair, KindTag::Build], seq![Status::InProgress], Some(creep_name@)),
{
    let kinds = [KindTag::Repair, KindTag::Build];
    let statuses = [Status::InProgress];
    assert(kinds@ =~= seq![KindTag::Repair, KindTag::Build]);
    assert(statuses@ =~= seq![Status::InProgress]);
    find_first(requests, &kinds, &statuses, Some(creep_name))
}

/// The build request filed earliest among those nobody works on yet.
pub fn get_earlier_build<'a>(requests: &'a [Request]) -> (r: Option<&'a Request>)
    ensures
        is_first_min(requests@, seq![KindTag::Build], seq![Status::Created], created_key(), deref_opt(r)),
{
    let kinds = [KindTag::Build];
    let statuses = [Status::Created];
    assert(kinds@ =~= seq![KindTag::Build]);
    assert(statuses@ =~= seq![Status::Created]);
    find_earliest(requests, &kinds, &statuses)
}

/// The repair request for the most damaged structure among those nobody
/// works on yet.
pub fn get_most_out_of_order<'a>(requests: &'a [Request]) -> (r: Option<&'a Request>)
    ensures
        is_first_min(requests@, seq![KindTag::Repair], seq![Status::Created], repair_hits_key(), deref_opt(r)),
{
    let statuses = [Status::Created];
    assert(statuses@ =~= seq![Status::Created]);
    find_most_damaged(requests, &statuses)
}

/// Some build request waits for a creep.
pub open spec fn any_new_build(requests: Seq<Request>) -> bool {
    exists|j: int| 0 <= j < requests.len() && #[trigger] spec_matches(requests[j], seq![KindTag::Build], seq![Status::Created], None)
}

/// A new job: the earliest build request waiting for a creep; when there is
/// none, the waiting repair request with the fewest hit points.
pub fn get_new_job<'a>(requests: &'a [Request]) -> (r: Option<&'a Request>)
    ensures
        spec_new_job(requests@, deref_opt(r)),
{
    match get_earlier_build(requests) {
        Some(r) => Some(r),
        None => get_most_out_of_order(requests),
    }
}


/// A new job for a house keeper, as `get_new_job` picks it: the earliest
/// waiting build request when there is one, else the waiting repair
/// request with the fewest hit points (the first of equals), else none.
pub open spec fn spec_new_job(requests: Seq<Request>, r: Option<Request>) -> bool {
    if any_new_build(requests) {
        is_first_min(requests, seq![KindTag::Build], seq![Status::Created], created_key(), r)
    } else {
        is_first_min(requests, seq![KindTag::Repair], seq![Status::Created], repair_hits_key(), r)
    }
}

/// Energy for an empty house keeper: the closest energy container when it
/// has room, else the storage when it holds over 10000, else idle.
pub open spec fn spec_find_energy(creep: CreepInfo, home: HomeView, closest_energy_container: Option<(Position, ObjectId)>) -> Task {
    match closest_energy_container {
        Some((pos, id)) if creep.store_free > 0 => Task::TakeFromStructure(pos, id, Resource::Energy, None),
        _ => match home.storage {
            Some(s) if s.used_energy > 10000 => Task::TakeFromStructure(s.pos, s.id, Resource::Energy, None),
            _ => Task::Idle(1),
        },
    }
}

fn find_energy(creep: &CreepInfo, home: &HomeView, closest_energy_container: Option<(Position, ObjectId)>) -> (t: Task)
    ensures
        t == spec_find_energy(*creep, *home, closest_energy_container),
{
    if creep.store_free > 0 {
        if let Some((pos, id)) = closest_energy_container {
            return Task::TakeFromStructure(pos, id, Resource::Energy, None);
        }
    }
    if let Some(s) = home.storage {
        if s.used_energy > 10000 {
            return Task::TakeFromStructure(s.pos, s.id, Resource::Energy, None);
        }
    }
    Task::default()
}

impl HouseKeeper {
    /// Boost if a lab offers it; an empty keeper fetches energy; during an
    /// invasion it repairs the weakest perimeter rampart; otherwise it carries
    /// on with its repair or build request, or joins a new one (the earliest
    /// build first, else the worst repair).
    pub fn get_task<'a>(&self, creep: &CreepInfo, home: &'a HomeView, closest_energy_container: Option<(Position, ObjectId)>) -> (t: TaskChoice<'a>)
        requires
            creep.body@.len() <= 50,
        ensures
            match home.available_boost {
                Some(b) => spec_picked(t) == task_only(spec_boost_task(*creep, b)),
                None => if creep.store_energy == 0 {
                    spec_picked(t) == task_only(spec_find_energy(*creep, *home, closest_energy_container))
                } else if home.invasion && home.lowest_perimeter is Some {
                    match home.lowest_perimeter {
                        Some((id, pos)) => spec_picked(t) == task_only(Task::Repair(id, pos, 25)),
                        None => false,
                    }
                } else {
                    match spec_find_first(home.requests@, seq![KindTag::Repair, KindTag::Build], seq![Status::InProgress], Some(creep.name@)) {
                        Some(r) => spec_picked(t) == (Picked::Resume(r), None::<CreepAction>),
                        None => match t.choice {
                            Choice::Join(r) => t.action is None && spec_new_job(home.requests@, Some(*r)),
                            _ => spec_new_job(home.requests@, None) && spec_picked(t) == task_only(Task::Idle(1)),
                        },
                    }
                },
            },
    {
        if let Some(b) = home.available_boost {
            return TaskChoice { choice: Choice::Task(boost_task(creep, b)), action: None };
        }
        if creep.store_energy == 0 {
            return TaskChoice { choice: Choice::Task(find_energy(creep, home, closest_energy_container)), action: None };
        }
        if home.invasion {
            if let Some((id, pos)) = home.lowest_perimeter {
                return TaskChoice { choice: Choice::Task(Task::Repair(id, pos, 25)), action: None };
            }
        }
        if let Some(req) = get_active_job(&home.requests, creep.name.as_str()) {
            return TaskChoice { choice: Choice::Resume(req), action: None };
        }
        match get_new_job(&home.requests) {
            Some(req) => TaskChoice { choice: Choice::Join(req), action: None },
            None => TaskChoice { choice: Choice::Task(Task::default()), action: None },
        }
    }
}

} // verus!
