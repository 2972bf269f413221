use vstd::prelude::*;

use crate::geometry::RoomName;
use crate::body::{body_parts, build_body, spec_build_body, Body, BodyPart, Priority};
use crate::requests::{deref_opt, find_first, spec_find_first, KindTag, Request, Status};
use crate::shelter::{spec_picked, task_only, HomeView, Picked, TaskChoice, Choice, CreepAction};
use crate::units::CreepInfo;
use crate::tasks::Task;
use crate::resources::Resource;
use crate::constants::MIN_ENERGY_CAPACITY;

verus! {

/// Moves resources between storage, terminal and links.
#[derive(Clone, Debug, PartialEq, Eq, Structural)]
pub struct Trader {
    pub home: Option<RoomName>,
}

impl Trader {
    pub fn new(home: Option<RoomName>) -> (r: Self)
        ensures
            r == (Self { home }),
    {
        Self { home }
    }

    /// The body: grown from its base by its scale unit while energy and the
    /// part limit allow.
    pub fn body(&self, room_energy: u32) -> (b: Body)
        ensures
            body_parts(b) == spec_build_body(seq![BodyPart::Carry, BodyPart::Carry, BodyPart::Move], seq![BodyPart::Carry, BodyPart::Carry, BodyPart::Move], room_energy as int, 30 as int, Some(Priority::Default)),
    {
        let base = [BodyPart::Carry, BodyPart::Carry, BodyPart::Move];
        let scale = [BodyPart::Carry, BodyPart::Carry, BodyPart::Move];
        assert(base@ =~= seq![BodyPart::Carry, BodyPart::Carry, BodyPart::Move]);
        assert(scale@ =~= seq![BodyPart::Carry, BodyPart::Carry, BodyPart::Move]);
        build_body(&base, &scale, room_energy, 30, Some(Priority::Default))
    }

    /// Ticks before death at which a replacement is ordered.
    pub fn respawn_timeout(&self, creep_body_len: Option<usize>) -> (t: Option<usize>)
        requires
            creep_body_len matches Some(n) ==> n <= 50,
        ensures
            t == match creep_body_len { Some(n) => Some((n * 3) as usize), None => Some(0usize) },
    {
        match creep_body_len {
            Some(n) => Some(n * 3),
            None => Some(0),
        }
    }
}


/// The carry request this creep already works on.
pub fn get_active_job<'a>(requests: &'a [Request], creep_name: &str) -> (r: Option<&'a Request>)
    ensures
        deref_opt(r) == spec_find_first(requests@, seq![KindTag::Carry], seq![Status::InProgress], Some(creep_name@)),
{
    let kinds = [KindTag::Carry];
    let statuses = [Status::InProgress];
    assert(kinds@ =~= seq![KindTag::Carry]);
    assert(statuses@ =~= seq![Status::InProgress]);
    find_first(requests, &kinds, &statuses, Some(creep_name))
}

/// The first carry request waiting for a creep.
pub fn get_new_job<'a>(requests: &'a [Request]) -> (r: Option<&'a Request>)
    ensures
        deref_opt(r) == spec_find_first(requests@, seq![KindTag::Carry], seq![Status::Created], None),
{
    let kinds = [KindTag::Carry];
    let statuses = [Status::Created];
    assert(kinds@ =~= seq![KindTag::Carry]);
    assert(statuses@ =~= seq![Status::Created]);
    find_first(requests, &kinds, &statuses, None)
}


impl Trader {
    /// Carry on with this creep's carry request; a loaded trader fills the
    /// empty sender link with energy, else unloads to a storage with room,
    /// else idles; an empty one empties a full receiver link, refills the
    /// sender from a storage holding enough energy, or, with more than ten
    /// ticks left, joins a waiting carry request.
    pub fn get_task<'a>(&self, creep: &CreepInfo, home: &'a HomeView) -> (t: TaskChoice<'a>)
        requires
            creep.store_used > 0 ==> creep.store_types@.len() > 0,
        ensures
            spec_picked(t) == match spec_find_first(home.requests@, seq![KindTag::Carry], seq![Status::InProgress], Some(creep.name@)) {
                Some(r) => (Picked::Resume(r), None),
                None => if creep.store_used > 0 {
                    let resource = creep.store_types@[0];
                    match home.empty_sender {
                        Some(sender) if resource == Resource::Energy => task_only(Task::DeliverToStructure(sender.pos, sender.id, Resource::Energy, None)),
                        _ => match home.storage {
                            Some(bank) if bank.free_total > 10_000 => task_only(Task::DeliverToStructure(bank.pos, bank.id, resource, None)),
                            _ => task_only(Task::Idle(1)),
                        },
                    }
                } else {
                    match home.full_receiver {
                        Some(link) => task_only(Task::TakeFromStructure(link.pos, link.id, Resource::Energy, None)),
                        None => match (home.empty_sender, home.storage) {
                            (Some(_), Some(s)) if s.used_energy > MIN_ENERGY_CAPACITY => task_only(Task::TakeFromStructure(s.pos, s.id, Resource::Energy, None)),
                            _ => if creep.ticks_to_live matches Some(tl) && tl > 10 {
                                match spec_find_first(home.requests@, seq![KindTag::Carry], seq![Status::Created], None) {
                                    Some(r) => (Picked::Join(r), None),
                                    None => task_only(Task::Idle(1)),
                                }
                            } else {
                                task_only(Task::Idle(1))
                            },
                        },
                    }
                },
            },
    {
        if let Some(req) = get_active_job(&home.requests, creep.name.as_str()) {
            return TaskChoice { choice: Choice::Resume(req), action: None };
        }
        if creep.store_used > 0 {
            let resource = creep.store_types[0];
            if let Some(sender) = home.empty_sender {
                if resource == Resource::Energy {
                    return TaskChoice {
                        choice: Choice::Task(Task::DeliverToStructure(sender.pos, sender.id, Resource::Energy, None)),
                        action: None,
                    };
                }
            }
            if let Some(bank) = home.storage {
                if bank.free_total > 10_000 {
                    return TaskChoice {
                        choice: Choice::Task(Task::DeliverToStructure(bank.pos, bank.id, resource, None)),
                        action: None,
                    };
                }
            }
            return TaskChoice { choice: Choice::Task(Task::Idle(1)), action: None };
        }
        if let Some(link) = home.full_receiver {
            return TaskChoice {
                choice: Choice::Task(Task::TakeFromStructure(link.pos, link.id, Resource::Energy, None)),
                action: None,
            };
        }
        if home.empty_sender.is_some() {
            if let Some(s) = home.storage {
                if s.used_energy > MIN_ENERGY_CAPACITY {
                    return TaskChoice {
                        choice: Choice::Task(Task::TakeFromStructure(s.pos, s.id, Resource::Energy, None)),
                        action: None,
                    };
                }
            }
        }
        let fresh = match creep.ticks_to_live {
            Some(tl) => tl > 10,
            None => false,
        };
        if fresh {
            if let Some(req) = get_new_job(&home.requests) {
                return TaskChoice { choice: Choice::Join(req), action: None };
            }
        }
        TaskChoice { choice: Choice::Task(Task::default()), action: None }
    }
}

} // verus!
