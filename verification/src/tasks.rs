use vstd::prelude::*;

use crate::geometry::{Position, RoomName};
use crate::requests::{names_distinct, squads_wf, Request, RequestKind, Squad};
use crate::resources::Resource;
use crate::roles::Role;

pub mod moves;
pub mod work;
pub mod harvest;
pub mod logistics;
pub mod deposit;
pub mod powerbank;
pub mod combat;
pub mod resume;
pub mod run;

verus! {

/// Identifier of a game object (the packed form of the game's object id).
#[derive(Clone, Copy, Debug, PartialEq, Eq, Structural, Hash)]
pub struct ObjectId {
    pub packed: u128,
}

/// How a creep walks towards a goal.
#[derive(Clone, Copy, Debug, PartialEq, Eq, Structural)]
pub enum Walker {
    /// Normal travel; `true` keeps clear of source keepers' lairs.
    Exploring(bool),
    Aggressive,
    Berserk,
    Flee,
    Immobile,
    Reinforcing,
    Therapeutic,
}

/// Which of the hostiles in the room a walk keeps clear of.
#[derive(Clone, Copy, Debug, PartialEq, Eq, Structural)]
pub enum Avoid {
    Nobody,
    /// Hostiles with an attack or ranged attack part.
    Attackers,
    /// Hostiles with a ranged attack part.
    Ranged,
    /// Hostiles whose attack or ranged attack part still works.
    ActiveAttackers,
    /// Every hostile.
    Hostiles,
}

/// Where a creep should move this tick: `target`, stopping within `range`,
/// walking as `walker`, keeping clear of the hostiles `avoid` names.
#[derive(Clone, Copy, Debug, PartialEq, Eq, Structural)]
pub struct MovementGoal {
    pub walker: Walker,
    pub target: Position,
    pub range: u32,
    pub avoid: Avoid,
}

pub open spec fn goal(walker: Walker, target: Position, range: u32, avoid: Avoid) -> MovementGoal {
    MovementGoal { walker, target, range, avoid }
}

/// A structure that takes energy from haulers.
#[derive(Clone, Copy, Debug, PartialEq, Eq, Structural)]
pub struct FillTarget {
    pub pos: Position,
    pub id: ObjectId,
}

/// What a creep is busy with; a task is carried from tick to tick.
#[derive(Clone, Debug)]
pub enum Task {
    DefendHome,
    /// Travel into a room; done once inside.
    MoveMe(RoomName, Walker),
    Portal(Position),
    Flee(u32),
    Escape(Position),
    Provoke(u32, u32),
    Hide(Position, u32),
    Build(Option<ObjectId>, Position),
    Repair(ObjectId, Position, u8),
    HarvestEnergyForever(Position, ObjectId),
    HarvestMineral(Position, ObjectId),
    Harvest(Position, ObjectId),
    HarvestAndUpgrade(Position, ObjectId, ObjectId),
    PowerbankAttack(Position, ObjectId, Vec<String>),
    PowerbankHeal(Position, ObjectId, Vec<String>),
    PowerbankCarry(Position, ObjectId),
    DepositHarvest(Position, ObjectId),
    DepositCarry(Position),
    Upgrade(ObjectId, Option<ObjectId>),
    TakeResource(ObjectId),
    FillStructure(FillTarget),
    Dismantle(ObjectId, Position),
    CombatDismantle(ObjectId, Position, Vec<String>),
    PullTo(String, Position),
    TakeFromStructure(Position, ObjectId, Resource, Option<u32>),
    DeliverToStructure(Position, ObjectId, Resource, Option<u32>),
    Withdraw(Position, ObjectId, Vec<(Resource, Option<u32>)>),
    LongRangeWithdraw(Position, ObjectId, Resource, u32),
    GenerateSafeMode(Position, ObjectId, ObjectId),
    Carry(ObjectId, ObjectId, Resource, u32),
    Boost(ObjectId, Option<u32>),
    Book(ObjectId, Position),
    Claim(ObjectId, Position),
    Crash(ObjectId, Position),
    HealAll,
    FindHeal(RoomName),
    Oversee(RoomName, Option<(Position, u32)>),
    Protect(RoomName, Option<Position>),
    /// Defend a room; the flag tells whether the room asked for it.
    Defend(RoomName, bool),
    Idle(u32),
    Speak,
}

/// The task of a creep with nothing to do.
pub open spec fn default_task() -> Task {
    Task::Idle(1)
}

impl Task {
    /// Idle for a tick.
    pub fn default() -> (t: Task)
        ensures
            t == default_task(),
    {
        Task::Idle(1)
    }
}

/// The outcome of running a task for a tick.
#[derive(Debug)]
pub enum TaskResult {
    /// Start the given task right away, within the same tick.
    RunAnother(Task),
    /// Keep the task for the next tick, and move as the goal says.
    StillWorking(Task, Option<MovementGoal>),
    /// The room request behind the task is done.
    ResolveRequest(Task),
    /// The room request behind the task is partly done; store its new state.
    UpdateRequest(Task),
    /// Keep the first task, and file the second as a new room request.
    AddNewRequest(Task, Task, Option<MovementGoal>),
    Suicide,
    Completed,
    /// Give the task up and pick another in the same tick.
    Abort,
}

/// The task that carries out a room request.
pub open spec fn spec_task_from_kind(kind: RequestKind) -> Task {
    match kind {
        RequestKind::Claim { id, pos } => Task::Claim(id, pos),
        RequestKind::Book { id, pos } => Task::Book(id, pos),
        RequestKind::Build { id, pos } => Task::Build(id, pos),
        RequestKind::Repair { id, pos, attempts_max, .. } => Task::Repair(id, pos, attempts_max),
        RequestKind::Defend { room_name } => Task::Defend(room_name, true),
        RequestKind::Carry { from, to, resource, amount } => Task::Carry(from, to, resource, amount),
        RequestKind::Withdraw { pos, id, resources } => Task::Withdraw(pos, id, resources),
        RequestKind::LongRangeWithdraw { pos, id, resource, amount } => Task::LongRangeWithdraw(
            pos,
            id,
            resource,
            amount,
        ),
        RequestKind::SafeMode { pos, id, storage_id } => Task::GenerateSafeMode(pos, id, storage_id),
        RequestKind::Pickup { id } => Task::TakeResource(id),
        RequestKind::Pull { creep_name, destination } => Task::PullTo(creep_name, destination),
        RequestKind::Dismantle { id, workplace } => Task::Dismantle(id, workplace),
        RequestKind::Crash { id, pos } => Task::Crash(id, pos),
        _ => Task::Idle(10),
    }
}

/// The task for a room request; requests no creep can serve alone (deposits
/// and power banks) give a ten-tick idle.
pub fn task_from_request_kind(kind: RequestKind) -> (t: Task)
    ensures
        t == spec_task_from_kind(kind),
{
    match kind {
        RequestKind::Claim { id, pos } => Task::Claim(id, pos),
        RequestKind::Book { id, pos } => Task::Book(id, pos),
        RequestKind::Build { id, pos } => Task::Build(id, pos),
        RequestKind::Repair { id, pos, attempts_max, .. } => Task::Repair(id, pos, attempts_max),
        RequestKind::Defend { room_name } => Task::Defend(room_name, true),
        RequestKind::Carry { from, to, resource, amount } => Task::Carry(from, to, resource, amount),
        RequestKind::Withdraw { pos, id, resources } => Task::Withdraw(pos, id, resources),
        RequestKind::LongRangeWithdraw { pos, id, resource, amount } => Task::LongRangeWithdraw(
            pos,
            id,
            resource,
            amount,
        ),
        RequestKind::SafeMode { pos, id, storage_id } => Task::GenerateSafeMode(pos, id, storage_id),
        RequestKind::Pickup { id } => Task::TakeResource(id),
        RequestKind::Pull { creep_name, destination } => Task::PullTo(creep_name, destination),
        RequestKind::Dismantle { id, workplace } => Task::Dismantle(id, workplace),
        RequestKind::Crash { id, pos } => Task::Crash(id, pos),
        _ => Task::Idle(10),
    }
}

/// The squad members a task carries: those of the powerbank and combat
/// dismantling tasks; other tasks carry none.
pub open spec fn task_members(t: Task) -> Option<Seq<String>> {
    match t {
        Task::PowerbankAttack(_, _, m) => Some(m@),
        Task::PowerbankHeal(_, _, m) => Some(m@),
        Task::CombatDismantle(_, _, m) => Some(m@),
        _ => None,
    }
}

/// A task lists each of its squad members once.
pub open spec fn members_listed_once(t: Task) -> bool {
    task_members(t) matches Some(m) ==> names_distinct(m)
}

/// `t` carries no squad members, or exactly `members`.
pub open spec fn keeps_members(t: Task, members: Seq<String>) -> bool {
    task_members(t) is None || task_members(t) == Some(members)
}

/// Every task a result keeps, runs or reports carries no squad members, or
/// exactly `members`.
pub open spec fn result_keeps_members(r: TaskResult, members: Seq<String>) -> bool {
    match r {
        TaskResult::RunAnother(t) => keeps_members(t, members),
        TaskResult::StillWorking(t, _) => keeps_members(t, members),
        TaskResult::ResolveRequest(t) => keeps_members(t, members),
        TaskResult::UpdateRequest(t) => keeps_members(t, members),
        TaskResult::AddNewRequest(a, b, _) => keeps_members(a, members) && keeps_members(b, members),
        _ => true,
    }
}

/// Every task a result keeps, runs or reports lists its squad members once.
pub open spec fn result_members_listed_once(r: TaskResult) -> bool {
    match r {
        TaskResult::RunAnother(t) => members_listed_once(t),
        TaskResult::StillWorking(t, _) => members_listed_once(t),
        TaskResult::ResolveRequest(t) => members_listed_once(t),
        TaskResult::UpdateRequest(t) => members_listed_once(t),
        TaskResult::AddNewRequest(a, b, _) => members_listed_once(a) && members_listed_once(b),
        _ => true,
    }
}

/// A result that keeps a member list that names each creep once lists
/// every task's members once.
pub proof fn lemma_kept_members_stay_distinct(r: TaskResult, members: Seq<String>)
    requires
        names_distinct(members),
        result_keeps_members(r, members),
    ensures
        result_members_listed_once(r),
{
}

/// Members of the first squad of the request named `squad_id`.
pub open spec fn spec_squad_members(squads: Seq<Squad>, squad_id: Seq<char>) -> Option<Vec<String>>
    decreases squads.len(),
{
    if squads.len() == 0 {
        None
    } else if squads[0].id@ == squad_id {
        Some(squads[0].members)
    } else {
        spec_squad_members(squads.drop_first(), squad_id)
    }
}

proof fn lemma_squad_members_listed(squads: Seq<Squad>, squad_id: Seq<char>)
    requires
        squads_wf(squads),
    ensures
        spec_squad_members(squads, squad_id) matches Some(m) ==> names_distinct(m@),
    decreases squads.len(),
{
    if squads.len() > 0 {
        assert(names_distinct(squads[0].members@));
        let rest = squads.drop_first();
        assert forall|i: int| 0 <= i < rest.len() implies names_distinct(#[trigger] rest[i].members@) by {
            assert(rest[i] == squads[i + 1]);
        }
        lemma_squad_members_listed(rest, squad_id);
    }
}

fn squad_members(all_squads: Vec<Squad>, squad_id: &str) -> (r: Option<Vec<String>>)
    ensures
        r == spec_squad_members(all_squads@, squad_id@),
{
    let mut squads = all_squads;
    let ghost all = squads@;
    let mut i: usize = 0;
    assert(all.skip(0) =~= all);
    while i < squads.len()
        invariant
            squads@ == all,
            all == all_squads@,
            i <= all.len(),
            spec_squad_members(all, squad_id@) == spec_squad_members(all.skip(i as int), squad_id@),
        decreases all.len() - i,
    {
        proof {
            assert(all.skip(i as int).drop_first() =~= all.skip(i + 1));
        }
        if crate::requests::str_eq(squads[i].id.as_str(), squad_id) {
            assert(all.skip(i as int)[0] == all[i as int]);
            let squad = squads.remove(i);
            return Some(squad.members);
        }
        i = i + 1;
    }
    None
}

/// Squad members for a squad role: the members of the role's squad when the
/// role has a squad and the request lists it.
pub open spec fn spec_members_for(squad_id: Option<String>, squads: Seq<Squad>) -> Option<Vec<String>> {
    match squad_id {
        Some(sid) => spec_squad_members(squads, sid@),
        None => None,
    }
}

/// The task a creep of `role` takes for a room request: team roles turn
/// deposit and power-bank requests into their part of the team's work; any
/// other pairing goes by the request alone.
pub open spec fn spec_task_from_request(req: Request, role: Role) -> Task {
    match (req.kind, role) {
        (RequestKind::Deposit { pos, .. }, Role::DepositHauler(_)) => Task::DepositCarry(pos),
        (RequestKind::Deposit { pos, id }, Role::DepositMiner(_)) => Task::DepositHarvest(pos, id),
        (RequestKind::Powerbank { pos, id }, Role::PBAttacker(a)) => match spec_members_for(
            a.squad_id,
            req.squads@,
        ) {
            Some(members) => Task::PowerbankAttack(pos, id, members),
            None => default_task(),
        },
        (RequestKind::Powerbank { pos, id }, Role::PBHealer(h)) => match spec_members_for(
            h.squad_id,
            req.squads@,
        ) {
            Some(members) => Task::PowerbankHeal(pos, id, members),
            None => default_task(),
        },
        (RequestKind::Powerbank { pos, id }, Role::PBCarrier(_)) => Task::PowerbankCarry(pos, id),
        (kind, _) => spec_task_from_kind(kind),
    }
}

/// The task a creep of `role` takes for the request `req`.
pub fn task_from_request(req: Request, role: &Role) -> (t: Task)
    ensures
        t == spec_task_from_request(req, *role),
        squads_wf(req.squads@) ==> members_listed_once(t),
{
    proof {
        if squads_wf(req.squads@) {
            if role is PBAttacker && role->PBAttacker_0.squad_id is Some {
                lemma_squad_members_listed(req.squads@, role->PBAttacker_0.squad_id->0@);
            }
            if role is PBHealer && role->PBHealer_0.squad_id is Some {
                lemma_squad_members_listed(req.squads@, role->PBHealer_0.squad_id->0@);
            }
        }
    }
    let Request { kind, squads, .. } = req;
    match kind {
        RequestKind::Deposit { pos, id } => match role {
            Role::DepositHauler(_) => Task::DepositCarry(pos),
            Role::DepositMiner(_) => Task::DepositHarvest(pos, id),
            _ => task_from_request_kind(RequestKind::Deposit { pos, id }),
        },
        RequestKind::Powerbank { pos, id } => match role {
            Role::PBAttacker(a) => match &a.squad_id {
                Some(sid) => match squad_members(squads, sid.as_str()) {
                    Some(members) => Task::PowerbankAttack(pos, id, members),
                    None => Task::default(),
                },
                None => Task::default(),
            },
            Role::PBHealer(h) => match &h.squad_id {
                Some(sid) => match squad_members(squads, sid.as_str()) {
                    Some(members) => Task::PowerbankHeal(pos, id, members),
                    None => Task::default(),
                },
                None => Task::default(),
            },
            Role::PBCarrier(_) => Task::PowerbankCarry(pos, id),
            _ => task_from_request_kind(RequestKind::Powerbank { pos, id }),
        },
        other => task_from_request_kind(other),
    }
}

/// A carry request becomes a carry task from the request's source to its
/// destination, with the same resource and amount; whatever the role, a
/// carry request is taken as it is.
pub proof fn lemma_carry_request_task(from: ObjectId, to: ObjectId, resource: Resource, amount: u32, req: Request, role: Role)
    ensures
        spec_task_from_kind(RequestKind::Carry { from, to, resource, amount }) == Task::Carry(from, to, resource, amount),
        req.kind == (RequestKind::Carry { from, to, resource, amount }) ==> spec_task_from_request(req, role) == Task::Carry(from, to, resource, amount),
{
}

} // verus!
