use vstd::prelude::*;

use crate::geometry::RoomName;
use crate::body::{body_parts, build_body, spec_build_body, Body, BodyPart, Priority};
use crate::requests::{deref_opt, find_first, spec_find_first, KindTag, Request, Status};
use crate::shelter::{spec_picked, task_only, HomeView, Picked, TaskChoice, Choice, CreepAction};
use crate::units::CreepInfo;
use crate::tasks::Task;
use crate::resources::Resource;

verus! {

/// Fills spawns and extensions and empties containers.
#[derive(Clone, Debug, PartialEq, Eq, Structural)]
pub struct Hauler {
    pub home: Option<RoomName>,
    pub periodic: bool,
}

impl Hauler {
    pub fn new(home: Option<RoomName>, periodic: bool) -> (r: Self)
        ensures
            r == (Self { home, periodic }),
    {
        Self { home, periodic }
    }

    /// The body: grown from its base by its scale unit while energy and the
    /// part limit allow.
    pub fn body(&self, room_energy: u32) -> (b: Body)
        ensures
            body_parts(b) == spec_build_body(seq![BodyPart::Carry, BodyPart::Carry, BodyPart::Move], seq![BodyPart::Carry, BodyPart::Carry, BodyPart::Move], room_energy as int, 50 as int, Some(Priority::Default)),
    {
        let base = [BodyPart::Carry, BodyPart::Carry, BodyPart::Move];
        let scale = [BodyPart::Carry, BodyPart::Carry, BodyPart::Move];
        assert(base@ =~= seq![BodyPart::Carry, BodyPart::Carry, BodyPart::Move]);
        assert(scale@ =~= seq![BodyPart::Carry, BodyPart::Carry, BodyPart::Move]);
        build_body(&base, &scale, room_energy, 50, Some(Priority::Default))
    }

    /// Ticks before death at which a replacement is ordered.
    pub fn respawn_timeout(&self, creep_body_len: Option<usize>) -> (t: Option<usize>)
        requires
            creep_body_len matches Some(n) ==> n <= 50,
        ensures
            t == match creep_body_len { Some(n) => Some((n * 3) as usize), None => Some(0usize) },
    {
        match creep_body_len {
            Some(n) => Some(n * 3),
            None => Some(0),
        }
    }
}


/// The withdraw or pickup request this creep already works on.
pub fn get_active_job<'a>(requests: &'a [Request], creep_name: &str) -> (r: Option<&'a Request>)
    ensures
        deref_opt(r) == spec_find_first(requests@, seq![KindTag::Withdraw, KindTag::Pickup], seq![Status::InProgress], Some(creep_name@)),
{
    let kinds = [KindTag::Withdraw, KindTag::Pickup];
    let statuses = [Status::InProgress];
    assert(kinds@ =~= seq![KindTag::Withdraw, KindTag::Pickup]);
    assert(statuses@ =~= seq![Status::InProgress]);
    find_first(requests, &kinds, &statuses, Some(creep_name))
}

/// The first withdraw or pickup request nobody works on yet.
pub fn get_new_job<'a>(requests: &'a [Request]) -> (r: Option<&'a Request>)
    ensures
        deref_opt(r) == spec_find_first(requests@, seq![KindTag::Withdraw, KindTag::Pickup], seq![Status::Created], None),
{
    let kinds = [KindTag::Withdraw, KindTag::Pickup];
    let statuses = [Status::Created];
    assert(kinds@ =~= seq![KindTag::Withdraw, KindTag::Pickup]);
    assert(statuses@ =~= seq![Status::Created]);
    find_first(requests, &kinds, &statuses, None)
}


/// A structure with `free_capacity` can be filled by the creep when the
/// creep's energy covers it, or when the creep is full of energy.
pub open spec fn spec_can_fill(free_capacity: i32, creep: CreepInfo) -> bool {
    free_capacity >= 0 && (free_capacity <= creep.store_energy || creep.store_energy == creep.store_capacity)
}

pub fn can_fill(str_free_capacity: i32, creep: &CreepInfo) -> (r: bool)
    ensures
        r == spec_can_fill(str_free_capacity, *creep),
{
    let energy_in_store = creep.store_energy;
    if str_free_capacity < 0 {
        false
    } else {
        let free_capacity = str_free_capacity as u32;
        free_capacity <= energy_in_store || energy_in_store == creep.store_capacity
    }
}

/// Energy to fetch while a spawn or extension waits: from the storage when
/// it holds over 2000, else from the factory when it holds over 1000.
pub open spec fn spec_take_energy(home: HomeView) -> Option<Task> {
    if home.closest_empty_structure is Some {
        match home.storage {
            Some(s) if s.used_energy > 2000 => Some(Task::TakeFromStructure(s.pos, s.id, Resource::Energy, None)),
            _ => match home.factory {
                Some(f) if f.used_energy > 1000 => Some(Task::TakeFromStructure(f.pos, f.id, Resource::Energy, None)),
                _ => None,
            },
        }
    } else {
        None
    }
}

fn take_energy(home: &HomeView) -> (t: Option<Task>)
    ensures
        t == spec_take_energy(*home),
{
    if home.closest_empty_structure.is_none() {
        return None;
    }
    if let Some(s) = home.storage {
        if s.used_energy > 2000 {
            return Some(Task::TakeFromStructure(s.pos, s.id, Resource::Energy, None));
        }
    }
    if let Some(f) = home.factory {
        if f.used_energy > 1000 {
            return Some(Task::TakeFromStructure(f.pos, f.id, Resource::Energy, None));
        }
    }
    None
}

impl Hauler {
    /// Carry on with this creep's withdraw or pickup request; a loaded hauler
    /// fills the closest empty spawn or extension it can fill, else unloads
    /// to a storage with room, else drops its load; an empty one joins a
    /// waiting request or fetches energy for empty structures.
    pub fn get_task<'a>(&self, creep: &CreepInfo, home: &'a HomeView) -> (t: TaskChoice<'a>)
        requires
            creep.store_used > 0 ==> creep.store_types@.len() > 0,
        ensures
            spec_picked(t) == match spec_find_first(home.requests@, seq![KindTag::Withdraw, KindTag::Pickup], seq![Status::InProgress], Some(creep.name@)) {
                Some(r) => (Picked::Resume(r), None),
                None => if creep.store_used > 0 {
                    match home.closest_empty_structure {
                        Some((target, free)) if spec_can_fill(free, *creep) => task_only(Task::FillStructure(target)),
                        _ => match home.storage {
                            Some(s) if s.free_total > 5000 => task_only(Task::DeliverToStructure(s.pos, s.id, creep.store_types@[0], None)),
                            _ => (Picked::Task(Task::Idle(1)), Some(CreepAction::Drop(creep.store_types@[0]))),
                        },
                    }
                } else {
                    match spec_find_first(home.requests@, seq![KindTag::Withdraw, KindTag::Pickup], seq![Status::Created], None) {
                        Some(r) => (Picked::Join(r), None),
                        None => match spec_take_energy(*home) {
                            Some(task) => task_only(task),
                            None => task_only(Task::Idle(1)),
                        },
                    }
                },
            },
    {
        if let Some(req) = get_active_job(&home.requests, creep.name.as_str()) {
            return TaskChoice { choice: Choice::Resume(req), action: None };
        }
        if creep.store_used > 0 {
            let resource = creep.store_types[0];
            if let Some((target, free)) = home.closest_empty_structure {
                if can_fill(free, creep) {
                    return TaskChoice { choice: Choice::Task(Task::FillStructure(target)), action: None };
                }
            }
            if let Some(s) = home.storage {
                if s.free_total > 5000 {
                    return TaskChoice {
                        choice: Choice::Task(Task::DeliverToStructure(s.pos, s.id, resource, None)),
                        action: None,
                    };
                }
            }
            TaskChoice { choice: Choice::Task(Task::Idle(1)), action: Some(CreepAction::Drop(resource)) }
        } else {
            match get_new_job(&home.requests) {
                Some(req) => TaskChoice { choice: Choice::Join(req), action: None },
                None => match take_energy(home) {
                    Some(task) => TaskChoice { choice: Choice::Task(task), action: None },
                    None => TaskChoice { choice: Choice::Task(Task::default()), action: None },
                },
            }
        }
    }
}

} // verus!
