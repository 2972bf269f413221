use vstd::prelude::*;

use crate::roles::{spec_movement_profile, spec_respawn_timeout, MovementProfile, Role};
use crate::geometry::{Position, RoomName};
use crate::orders::Step;
use crate::tasks::moves::{spec_idle_step, spec_move_me_step};
use crate::tasks::{MovementGoal, Task, TaskResult, Walker};
use crate::units::CreepInfo;

verus! {

/// What a creep remembers between ticks.
#[derive(Debug)]
pub struct CreepMemory {
    pub role: Role,
    /// A replacement was already ordered (or the creep is retiring).
    pub respawned: bool,
    /// The task it is busy with.
    pub task: Option<Task>,
}

impl CreepMemory {
    pub fn new(role: Role) -> (m: Self)
        ensures
            m.role == role,
            !m.respawned,
            m.task is None,
    {
        CreepMemory { role, respawned: false, task: None }
    }
}

/// What a creep does with the outcome of a task run.
#[derive(Debug)]
pub enum Next {
    /// Keep the task for the next tick and walk as the goal says.
    Keep(Task, Option<MovementGoal>),
    /// Start the given task right away, within the same tick.
    RunNow(Task),
    /// Ask the role for a fresh task and run it at once.
    PickAnother,
    /// Tell the home room that the request behind the task is done.
    Resolve(Task),
    /// Store the task's progress in the home room's request.
    Update(Task),
    /// Keep the first task, file the second as a request of the home room,
    /// and walk.
    AddRequest(Task, Task, Option<MovementGoal>),
    /// Mark the creep as replaced, show a skull and retire it.
    Retire,
    /// Nothing more this tick.
    Rest,
}

/// The decision after the first run of a tick. Handymen keep no room
/// requests, so their progress is not stored.
pub open spec fn spec_after_run(result: TaskResult, handyman: bool) -> Next {
    match result {
        TaskResult::StillWorking(task, g) => Next::Keep(task, g),
        TaskResult::RunAnother(task) => Next::RunNow(task),
        TaskResult::ResolveRequest(task) => Next::Resolve(task),
        TaskResult::UpdateRequest(task) => if handyman { Next::Rest } else { Next::Update(task) },
        TaskResult::AddNewRequest(task, other, g) => Next::AddRequest(task, other, g),
        TaskResult::Abort => Next::PickAnother,
        TaskResult::Suicide => Next::Retire,
        TaskResult::Completed => Next::Rest,
    }
}

pub fn after_run(result: TaskResult, handyman: bool) -> (n: Next)
    ensures
        n == spec_after_run(result, handyman),
{
    match result {
        TaskResult::StillWorking(task, g) => Next::Keep(task, g),
        TaskResult::RunAnother(task) => Next::RunNow(task),
        TaskResult::ResolveRequest(task) => Next::Resolve(task),
        TaskResult::UpdateRequest(task) => {
            if handyman {
                Next::Rest
            } else {
                Next::Update(task)
            }
        },
        TaskResult::AddNewRequest(task, other, g) => Next::AddRequest(task, other, g),
        TaskResult::Abort => Next::PickAnother,
        TaskResult::Suicide => Next::Retire,
        TaskResult::Completed => Next::Rest,
    }
}

/// The decision after a second run in the same tick: only a task still at
/// work is kept; anything else ends the tick.
pub open spec fn spec_after_second_run(result: TaskResult) -> Next {
    match result {
        TaskResult::StillWorking(task, g) => Next::Keep(task, g),
        _ => Next::Rest,
    }
}

pub fn after_second_run(result: TaskResult) -> (n: Next)
    ensures
        n == spec_after_second_run(result),
{
    match result {
        TaskResult::StillWorking(task, g) => Next::Keep(task, g),
        _ => Next::Rest,
    }
}

/// A creep not yet replaced orders its replacement once it has fewer ticks
/// to live than its role's respawn timeout (none counts as zero).
pub open spec fn spec_should_respawn(respawned: bool, ticks_to_live: Option<u32>, timeout: Option<usize>) -> bool {
    !respawned && (ticks_to_live matches Some(t) && (t as int) < match timeout {
        Some(x) => x as int,
        None => 0,
    })
}

pub fn should_respawn(respawned: bool, ticks_to_live: Option<u32>, timeout: Option<usize>) -> (r: bool)
    ensures
        r == spec_should_respawn(respawned, ticks_to_live, timeout),
{
    if respawned {
        return false;
    }
    let limit: usize = match timeout {
        Some(x) => x,
        None => 0,
    };
    match ticks_to_live {
        Some(t) => (t as u64) < (limit as u64),
        None => false,
    }
}

/// Order the replacement of the creep when it is due: marks the memory and
/// tells whether the home room should queue the role for spawning.
pub fn try_respawn(memory: &mut CreepMemory, creep: &CreepInfo) -> (r: bool)
    requires
        creep.body@.len() <= 50,
    ensures
        r == spec_should_respawn(old(memory).respawned, creep.ticks_to_live, spec_respawn_timeout(old(memory).role, Some(creep.body@.len() as usize))),
        final(memory).role == old(memory).role,
        final(memory).task == old(memory).task,
        final(memory).respawned == (old(memory).respawned || r),
{
    let timeout = memory.role.respawn_timeout(Some(creep.body.len()));
    let due = should_respawn(memory.respawned, creep.ticks_to_live, timeout);
    if due {
        memory.respawned = true;
    }
    due
}

/// A creep walks by itself this tick: no fatigue and not moved as cargo.
pub open spec fn spec_can_move(role: Role, creep: CreepInfo, fatigue: u32) -> bool {
    fatigue == 0 && spec_movement_profile(role, creep.hits as int, creep.hits_max as int, creep.store_used as int) != Some(MovementProfile::Cargo)
}

pub fn can_move(role: &Role, creep: &CreepInfo, fatigue: u32) -> (r: bool)
    ensures
        r == spec_can_move(*role, *creep, fatigue),
{
    if fatigue != 0 {
        return false;
    }
    match role.get_movement_profile(creep) {
        Some(MovementProfile::Cargo) => false,
        _ => true,
    }
}

/// A replacement is ordered once: once the memory records it, no later call
/// orders another, whatever the ticks left.
pub proof fn lemma_respawn_ordered_once(ticks_to_live: Option<u32>, timeout: Option<usize>)
    ensures
        !spec_should_respawn(true, ticks_to_live, timeout),
{
}

/// A creep that reaches the room it travels to, or runs out of ticks to
/// idle, takes up a fresh task in the same tick; until then it keeps
/// travelling or idling.
pub proof fn lemma_done_moving_or_idling_picks_another(at: Position, room: RoomName, walker: Walker, ticks: u32,
    travel: Step, rest: Step, handyman: bool)
    requires
        spec_move_me_step(at, room, walker, travel),
        spec_idle_step(ticks, rest),
    ensures
        at.room == room ==> spec_after_run(travel.result, handyman) == Next::PickAnother,
        at.room != room ==> (spec_after_run(travel.result, handyman) matches Next::Keep(Task::MoveMe(r, w), Some(_)) && r == room && w == walker),
        ticks == 0 ==> spec_after_run(rest.result, handyman) == Next::PickAnother,
        ticks > 0 ==> (spec_after_run(rest.result, handyman) matches Next::Keep(Task::Idle(n), None) && n == ticks - 1),
{
}

/// What the first run's result leads to: a finished request is reported
/// done to the home room with the very task that finished it, progress on
/// a request is stored (but for handymen, which keep no room request), a
/// kept task stays with its goal, and a task given up makes room for a
/// fresh one.
pub proof fn lemma_first_run_reports(t: Task, other: Task, g: Option<MovementGoal>, handyman: bool)
    ensures
        spec_after_run(TaskResult::ResolveRequest(t), handyman) == Next::Resolve(t),
        spec_after_run(TaskResult::UpdateRequest(t), false) == Next::Update(t),
        spec_after_run(TaskResult::UpdateRequest(t), true) == Next::Rest,
        spec_after_run(TaskResult::StillWorking(t, g), handyman) == Next::Keep(t, g),
        spec_after_run(TaskResult::RunAnother(t), handyman) == Next::RunNow(t),
        spec_after_run(TaskResult::AddNewRequest(t, other, g), handyman) == Next::AddRequest(t, other, g),
        spec_after_run(TaskResult::Abort, handyman) == Next::PickAnother,
        spec_after_run(TaskResult::Suicide, handyman) == Next::Retire,
        spec_after_run(TaskResult::Completed, handyman) == Next::Rest,
{
}

/// After a second run in the same tick only a task still at work is kept,
/// with its goal; any other result ends the creep's tick.
pub proof fn lemma_second_run_keeps_only_work(r: TaskResult)
    ensures
        r matches TaskResult::StillWorking(t, g) ==> spec_after_second_run(r) == Next::Keep(t, g),
        !(r is StillWorking) ==> spec_after_second_run(r) == Next::Rest,
{
}

} // verus!
