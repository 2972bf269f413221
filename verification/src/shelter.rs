use vstd::prelude::*;

use crate::body::BodyPart;
use crate::geometry::{Position, RoomName};
use crate::requests::Request;
use crate::resources::Resource;
use crate::tasks::{FillTarget, ObjectId, Task};
use crate::units::{count_part, spec_count_part, CreepInfo};

verus! {

/// A structure with a store, as the task choice sees it.
#[derive(Clone, Copy, Debug, PartialEq, Eq, Structural)]
pub struct StoreView {
    pub pos: Position,
    pub id: ObjectId,
    /// Units of energy held.
    pub used_energy: u32,
    /// Units of any resource held.
    pub used_total: u32,
    /// Free capacity for any resource.
    pub free_total: i32,
}

/// A lab that can boost the creep, and the part it boosts.
#[derive(Clone, Copy, Debug, PartialEq, Eq, Structural)]
pub struct AvailableBoost {
    pub lab: ObjectId,
    pub part: BodyPart,
}

/// A source or mineral of the home room.
#[derive(Clone, Copy, Debug, PartialEq, Eq, Structural)]
pub struct Deposit {
    pub id: ObjectId,
    pub pos: Position,
    /// Ticks until the deposit refills; `None` while it holds resources.
    pub ticks_to_regeneration: Option<u32>,
}

/// What a creep's choice of task reads of its home room this tick.
#[derive(Clone, Debug)]
pub struct HomeView {
    pub name: RoomName,
    pub controller_id: ObjectId,
    pub controller_pos: Position,
    /// The container within two tiles of the controller, if any.
    pub upgrade_container: Option<(ObjectId, Position)>,
    pub storage: Option<StoreView>,
    pub factory: Option<StoreView>,
    /// The link next to the storage when it is empty.
    pub empty_sender: Option<StoreView>,
    /// The link that receives energy when it is full.
    pub full_receiver: Option<StoreView>,
    /// The spawn, extension or tower closest to the creep that lacks energy,
    /// with its free capacity.
    pub closest_empty_structure: Option<(FillTarget, i32)>,
    /// Hostile creeps are inside the walls.
    pub invasion: bool,
    /// The rampart of the perimeter with the fewest hit points.
    pub lowest_perimeter: Option<(ObjectId, Position)>,
    pub sources: Vec<Deposit>,
    pub minerals: Vec<Deposit>,
    /// The source next to a given workplace, if the room has one there.
    pub source_near_workplace: Option<ObjectId>,
    /// A lab ready to apply one of the boosts the creep asked for.
    pub available_boost: Option<AvailableBoost>,
    pub requests: Vec<Request>,
}

/// Where a chosen task comes from.
#[derive(Debug)]
pub enum Choice<'a> {
    /// A task chosen outright.
    Task(Task),
    /// Carry on with a request the creep already works on: its task.
    Resume(&'a Request),
    /// Join the request (take it from the room, add the creep, put it back)
    /// and take its task.
    Join(&'a Request),
    /// Join the request with the creep's squad and take the task the role
    /// plays in it.
    JoinSquad(&'a Request),
}

/// Something the creep does at once while choosing its task.
#[derive(Clone, Copy, Debug, PartialEq, Eq, Structural)]
pub enum CreepAction {
    Drop(Resource),
    Suicide,
}

/// A creep's choice of task, and what it does at once.
#[derive(Debug)]
pub struct TaskChoice<'a> {
    pub choice: Choice<'a>,
    pub action: Option<CreepAction>,
}

/// A choice of task as a value: the task, or the request it comes from.
pub enum Picked {
    Task(Task),
    Resume(Request),
    Join(Request),
    JoinSquad(Request),
}

/// What a `TaskChoice` chose, and the action that goes with it.
pub open spec fn spec_picked(t: TaskChoice) -> (Picked, Option<CreepAction>) {
    (
        match t.choice {
            Choice::Task(task) => Picked::Task(task),
            Choice::Resume(r) => Picked::Resume(*r),
            Choice::Join(r) => Picked::Join(*r),
            Choice::JoinSquad(r) => Picked::JoinSquad(*r),
        },
        t.action,
    )
}

pub open spec fn task_only(task: Task) -> (Picked, Option<CreepAction>) {
    (Picked::Task(task), None)
}

/// The boost task for the parts the lab boosts: all parts of that kind.
pub open spec fn spec_boost_task(creep: CreepInfo, boost: AvailableBoost) -> Task {
    Task::Boost(boost.lab, Some(spec_count_part(creep.body@, boost.part) as u32))
}

/// Go to the lab and boost every part of the kind it boosts.
pub fn boost_task(creep: &CreepInfo, boost: AvailableBoost) -> (t: Task)
    requires
        creep.body@.len() <= 50,
    ensures
        t == spec_boost_task(*creep, boost),
{
    let n = count_part(&creep.body, boost.part);
    Task::Boost(boost.lab, Some(n as u32))
}

/// A creep's state the task choice relies on: its body fits the game's
/// fifty parts, and whatever it carries is listed.
pub open spec fn creep_ok(creep: CreepInfo) -> bool {
    &&& creep.body@.len() <= 50
    &&& creep.store_used > 0 ==> creep.store_types@.len() > 0
}

/// The first deposit next to `pos` (only among full ones when `full_only`).
pub open spec fn spec_first_near(deposits: Seq<Deposit>, pos: Position, full_only: bool) -> Option<Deposit>
    decreases deposits.len(),
{
    if deposits.len() == 0 {
        None
    } else if crate::geometry::spec_near(pos, deposits[0].pos) && (!full_only
        || deposits[0].ticks_to_regeneration is None) {
        Some(deposits[0])
    } else {
        spec_first_near(deposits.drop_first(), pos, full_only)
    }
}

/// The first deposit next to `pos`, skipping empty ones when `full_only`.
pub fn first_near(deposits: &[Deposit], pos: Position, full_only: bool) -> (r: Option<Deposit>)
    ensures
        r == spec_first_near(deposits@, pos, full_only),
{
    let mut i: usize = 0;
    assert(deposits@.skip(0) =~= deposits@);
    while i < deposits.len()
        invariant
            i <= deposits@.len(),
            spec_first_near(deposits@, pos, full_only) == spec_first_near(deposits@.skip(i as int), pos, full_only),
        decreases deposits@.len() - i,
    {
        proof {
            assert(deposits@.skip(i as int).drop_first() =~= deposits@.skip(i + 1));
        }
        let d = deposits[i];
        if crate::geometry::is_near_to(pos, d.pos) && (!full_only || d.ticks_to_regeneration.is_none()) {
            return Some(d);
        }
        i = i + 1;
    }
    None
}

} // verus!
