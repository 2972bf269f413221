use vstd::prelude::*;

use crate::commons::{closest_by, filter_fn, lemma_fold_bounds, spec_closest_fold, units_valid, Filter, Unit};
use crate::geometry::{get_range_to, spec_range, Position, RoomName};
use crate::orders::{same_step, is_await, is_done, Order, Outcome, Pending, Sign, Step, Tick};
use crate::resources::Resource;
use crate::tasks::moves::{no_orders, say, step, still, FLEE_RANGE};
use crate::tasks::work::{done, walk};
use crate::tasks::{goal, Avoid, ObjectId, Task, TaskResult, Walker};
use crate::units::{held, spec_held, CreepInfo};

verus! {

/// Half the store's capacity.
pub open spec fn spec_half_capacity(capacity: u32) -> u32 {
    if capacity > 0 { capacity / 2 } else { 0 }
}

pub fn half_capacity(capacity: u32) -> (r: u32)
    ensures
        r == spec_half_capacity(capacity),
{
    if capacity > 0 { capacity / 2 } else { 0 }
}

/// A store counts as full from 96% of its capacity on.
pub open spec fn spec_is_full(used: u32, capacity: u32) -> bool {
    used >= capacity - capacity / 25
}

pub fn is_full(used: u32, capacity: u32) -> (r: bool)
    ensures
        r == spec_is_full(used, capacity),
{
    used >= capacity - capacity / 25
}

/// Whether another job pays better than waiting at an empty source: it
/// regenerates in over a hundred ticks, or in over thirty with the creep
/// more than half full of energy.
pub open spec fn spec_better_work(ticks_to_regeneration: Option<u32>, energy: u32, capacity: u32) -> bool {
    ticks_to_regeneration matches Some(t) && (t > 100 || (t > 30 && energy > capacity / 2))
}

pub fn better_work(ticks_to_regeneration: Option<u32>, energy: u32, capacity: u32) -> (r: bool)
    ensures
        r == spec_better_work(ticks_to_regeneration, energy, capacity),
{
    match ticks_to_regeneration {
        Some(t) => t > 100 || (t > 30 && energy > capacity / 2),
        None => false,
    }
}

/// Whether a store with `free` units of free capacity takes `amount` more
/// (the amount is read as a signed number, as the game's API does).
pub open spec fn spec_has_enough_space(free: i32, amount: u32) -> bool {
    free >= amount as i32
}

pub fn has_enough_space(free: i32, amount: u32) -> (r: bool)
    ensures
        r == spec_has_enough_space(free, amount),
{
    free >= amount as i32
}

/// The first link or container within a tile of the workplace.
#[derive(Clone, Copy, Debug, PartialEq, Eq, Structural)]
pub struct NearStore {
    pub is_link: bool,
    pub id: ObjectId,
    /// Free capacity of its store.
    pub free: i32,
}

/// Before fleeing, hand the first resource held to the container (or, for
/// energy, the link) next to the workplace when it has room, else drop it.
pub open spec fn spec_transfer_or_drop(me: CreepInfo, near: Option<NearStore>) -> Seq<Order> {
    if me.store_types@.len() == 0 {
        Seq::empty()
    } else {
        let r = me.store_types@[0];
        match near {
            Some(n) => if !n.is_link && spec_has_enough_space(n.free, spec_held(me.store@, r)) {
                seq![Order::Transfer(n.id, r, None)]
            } else if n.is_link && r == Resource::Energy && spec_has_enough_space(n.free, spec_held(me.store@, Resource::Energy)) {
                seq![Order::Transfer(n.id, Resource::Energy, None)]
            } else {
                seq![Order::Drop(r)]
            },
            None => seq![Order::Drop(r)],
        }
    }
}

pub fn transfer_or_drop(me: &CreepInfo, near: Option<NearStore>) -> (v: Vec<Order>)
    ensures
        v@ == spec_transfer_or_drop(*me, near),
{
    let mut v: Vec<Order> = Vec::new();
    if me.store_types.len() == 0 {
        return v;
    }
    let r = me.store_types[0];
    match near {
        Some(n) => {
            if !n.is_link && has_enough_space(n.free, held(&me.store, r)) {
                v.push(Order::Transfer(n.id, r, None));
            } else if n.is_link && r == Resource::Energy && has_enough_space(n.free, held(&me.store, Resource::Energy)) {
                v.push(Order::Transfer(n.id, Resource::Energy, None));
            } else {
                v.push(Order::Drop(r));
            }
        },
        None => v.push(Order::Drop(r)),
    }
    v
}

/// The closest creep passing the filter (see `spec_closest_fold`), if
/// within `range`.
pub open spec fn spec_attacker_within(hostiles: Seq<Unit>, at: Position, range: int, f: Filter) -> Option<Unit> {
    match spec_closest_fold(hostiles, at, filter_fn(f)) {
        Some(i) => if spec_range(hostiles[i].pos, at) <= range { Some(hostiles[i]) } else { None },
        None => None,
    }
}

pub fn attacker_within(hostiles: &[Unit], at: Position, range: u32, f: Filter) -> (r: Option<Position>)
    requires
        at.valid(),
        units_valid(hostiles@),
    ensures
        r == match spec_attacker_within(hostiles@, at, range as int, f) {
            Some(u) => Some(u.pos),
            None => None::<Position>,
        },
{
    match closest_by(at, hostiles, f) {
        Some(k) => {
            proof {
                lemma_fold_bounds(hostiles@, at, filter_fn(f));
            }
            if get_range_to(hostiles[k].pos, at) <= range {
                Some(hostiles[k].pos)
            } else {
                None
            }
        },
        None => None,
    }
}

/// What a stationary energy miner reads around its workplace.
#[derive(Clone, Copy, Debug)]
pub struct MinerSurroundings {
    /// The source still exists.
    pub source_found: bool,
    /// The first link of this player within a tile of the workplace that has
    /// room for energy.
    pub link: Option<ObjectId>,
    /// The first container on the workplace, with its hit points and
    /// maximum.
    pub container: Option<(ObjectId, u32, u32)>,
    /// The farthest of this player's container or road sites within three
    /// tiles of the workplace.
    pub site: Option<ObjectId>,
    /// The first link or container within a tile of the workplace.
    pub near: Option<NearStore>,
}

/// The work done at the workplace, with the source found and no hostile
/// near.
pub open spec fn spec_mine_orders(id: ObjectId, me: CreepInfo, around: MinerSurroundings) -> Seq<Order> {
    if me.store_energy > spec_half_capacity(me.store_capacity) {
        match around.link {
            Some(l) => seq![Order::Say(Sign::Pickaxe, false), Order::Harvest(id), Order::Transfer(l, Resource::Energy, None)],
            None => match around.container {
                Some((c, hits, hits_max)) => if hits < hits_max - 25000 {
                    seq![Order::Say(Sign::Hammer, false), Order::Repair(c)]
                } else {
                    seq![Order::Say(Sign::Pickaxe, false), Order::Harvest(id), Order::Transfer(c, Resource::Energy, None)]
                },
                None => match around.site {
                    Some(cs) => seq![Order::Say(Sign::Hammer, false), Order::Build(cs)],
                    None => seq![Order::Say(Sign::Pickaxe, false), Order::Harvest(id)],
                },
            },
        }
    } else {
        seq![Order::Say(Sign::Pickaxe, false), Order::Harvest(id)]
    }
}

/// The branch of `harvest_energy_forever` that weighs a container's hit
/// points against its maximum less 25000: no escape or flight, at the
/// workplace with the source there, more than half full, no link but a
/// container.
pub open spec fn reaches_container_check(workplace: Position, me: CreepInfo, home: Option<RoomName>, need_escape: bool, hostiles: Seq<Unit>, around: MinerSurroundings) -> bool {
    &&& !((home matches Some(h) && h != workplace.room) && need_escape)
    &&& spec_attacker_within(hostiles, me.pos, 4, Filter::Attackers) is None
    &&& me.pos == workplace
    &&& around.source_found
    &&& me.store_energy > spec_half_capacity(me.store_capacity)
    &&& around.link is None
    &&& around.container is Some
}

/// A container the miner weighs has at least 25000 maximum hit points (the
/// weighing subtracts that much).
pub open spec fn container_check_fits(workplace: Position, me: CreepInfo, home: Option<RoomName>, need_escape: bool, hostiles: Seq<Unit>, around: MinerSurroundings) -> bool {
    reaches_container_check(workplace, me, home, need_escape, hostiles, around) ==> (around.container matches Some(c) && c.2 >= 25000)
}

/// Whether `harvest_energy_forever` takes these inputs: see
/// `container_check_fits`.
pub fn container_check_ok(workplace: Position, me: &CreepInfo, home: Option<RoomName>, need_escape: bool, hostiles: &[Unit], around: MinerSurroundings) -> (r: bool)
    requires
        me.pos.valid(),
        units_valid(hostiles@),
    ensures
        r == container_check_fits(workplace, *me, home, need_escape, hostiles@, around),
{
    let away = match home {
        Some(h) => h != workplace.room,
        None => false,
    };
    if away && need_escape {
        return true;
    }
    if attacker_within(hostiles, me.pos, 4, Filter::Attackers).is_some() {
        return true;
    }
    if me.pos != workplace || !around.source_found || me.store_energy <= half_capacity(me.store_capacity) {
        return true;
    }
    match (around.link, around.container) {
        (None, Some(c)) => c.2 >= 25000,
        _ => true,
    }
}

/// The contract of `harvest_energy_forever`, as a predicate of its result.
pub open spec fn spec_harvest_energy_forever_step(workplace: Position, id: ObjectId, me: CreepInfo, home: Option<RoomName>, need_escape: bool, hostiles: Seq<Unit>, exit: Option<Position>, around: MinerSurroundings, s: Step) -> bool {
    same_step(s, if (home matches Some(h) && h != workplace.room) && need_escape {
            match exit {
                Some(e) => (still(Task::Escape(e), Some(goal(Walker::Exploring(false), e, 0, Avoid::Attackers))), spec_transfer_or_drop(me, around.near)),
                None => (TaskResult::Abort, spec_transfer_or_drop(me, around.near)),
            }
        } else if spec_attacker_within(hostiles, me.pos, 4, Filter::Attackers) is Some {
            (still(Task::Flee(FLEE_RANGE), Some(goal(Walker::Flee, spec_attacker_within(hostiles, me.pos, 4, Filter::Attackers)->0.pos, FLEE_RANGE, Avoid::Attackers))),
                spec_transfer_or_drop(me, around.near))
        } else if me.pos != workplace {
            (still(Task::HarvestEnergyForever(workplace, id), Some(goal(Walker::Exploring(false), workplace, 0, Avoid::Attackers))), Seq::empty())
        } else if around.source_found {
            (still(Task::HarvestEnergyForever(workplace, id), None), spec_mine_orders(id, me, around))
        } else {
            (still(Task::Idle(1), None), seq![Order::Say(Sign::Smoking, false)])
        })
}

/// Mine energy at `workplace` for good: away from home with danger
/// (`need_escape`) unload and leave by `exit`; with an attacker within four
/// tiles unload and flee; off the workplace walk there; at it harvest, and
/// past half full pass the energy to a link or container next to it (after
/// repairing the container when worn, or building a site nearby when there
/// is no container).
pub fn harvest_energy_forever(
    workplace: Position,
    id: ObjectId,
    me: &CreepInfo,
    home: Option<RoomName>,
    need_escape: bool,
    hostiles: &[Unit],
    exit: Option<Position>,
    around: MinerSurroundings,
) -> (s: Step)
    requires
        me.pos.valid(),
        units_valid(hostiles@),
        container_check_fits(workplace, *me, home, need_escape, hostiles@, around),
    ensures
        spec_harvest_energy_forever_step(workplace, id, *me, home, need_escape, hostiles@, exit, around, s),
{
    let away = match home {
        Some(h) => h != workplace.room,
        None => false,
    };
    if away && need_escape {
        let v = transfer_or_drop(me, around.near);
        return match exit {
            Some(e) => step(TaskResult::StillWorking(Task::Escape(e), walk(Walker::Exploring(false), e, 0, Avoid::Attackers)), v),
            None => step(TaskResult::Abort, v),
        };
    }
    match attacker_within(hostiles, me.pos, 4, Filter::Attackers) {
        Some(apos) => {
            let v = transfer_or_drop(me, around.near);
            return step(TaskResult::StillWorking(Task::Flee(FLEE_RANGE), walk(Walker::Flee, apos, FLEE_RANGE, Avoid::Attackers)), v);
        },
        None => {},
    }
    if me.pos != workplace {
        return step(TaskResult::StillWorking(Task::HarvestEnergyForever(workplace, id), walk(Walker::Exploring(false), workplace, 0, Avoid::Attackers)), no_orders());
    }
    if !around.source_found {
        return step(TaskResult::StillWorking(Task::Idle(1), None), say(Sign::Smoking, false));
    }
    let mut v = no_orders();
    if me.store_energy > half_capacity(me.store_capacity) {
        match around.link {
            Some(l) => {
                v.push(Order::Say(Sign::Pickaxe, false));
                v.push(Order::Harvest(id));
                v.push(Order::Transfer(l, Resource::Energy, None));
            },
            None => match around.container {
                Some((c, hits, hits_max)) => {
                    if hits < hits_max - 25000 {
                        v.push(Order::Say(Sign::Hammer, false));
                        v.push(Order::Repair(c));
                    } else {
                        v.push(Order::Say(Sign::Pickaxe, false));
                        v.push(Order::Harvest(id));
                        v.push(Order::Transfer(c, Resource::Energy, None));
                    }
                },
                None => match around.site {
                    Some(cs) => {
                        v.push(Order::Say(Sign::Hammer, false));
                        v.push(Order::Build(cs));
                    },
                    None => {
                        v.push(Order::Say(Sign::Pickaxe, false));
                        v.push(Order::Harvest(id));
                    },
                },
            },
        }
    } else {
        v.push(Order::Say(Sign::Pickaxe, false));
        v.push(Order::Harvest(id));
    }
    step(TaskResult::StillWorking(Task::HarvestEnergyForever(workplace, id), None), v)
}

/// `a > b` as std orders options: nothing below everything.
pub open spec fn opt_gt(a: Option<u32>, b: Option<u32>) -> bool {
    match (a, b) {
        (Some(x), Some(y)) => x > y,
        (Some(_), None) => true,
        (None, _) => false,
    }
}

/// The contract of `harvest_minerals`, as a predicate of its result.
pub open spec fn spec_harvest_minerals_step(workplace: Position, id: ObjectId, me: CreepInfo, need_escape: bool, hostiles: Seq<Unit>, exit: Option<Position>, mineral: Option<Option<u32>>, s: Step) -> bool {
    same_step(s, if need_escape {
            match exit {
                Some(e) => (still(Task::Escape(e), Some(goal(Walker::Exploring(false), e, 0, Avoid::Attackers))), Seq::<Order>::empty()),
                None => (TaskResult::Abort, Seq::<Order>::empty()),
            }
        } else if spec_attacker_within(hostiles, me.pos, 4, Filter::Attackers) is Some {
            (still(Task::Flee(FLEE_RANGE), Some(goal(Walker::Flee, spec_attacker_within(hostiles, me.pos, 4, Filter::Attackers)->0.pos, FLEE_RANGE, Avoid::Attackers))), Seq::empty())
        } else if me.pos != workplace {
            (still(Task::HarvestMineral(workplace, id), Some(goal(Walker::Exploring(false), workplace, 0, Avoid::Attackers))), Seq::empty())
        } else {
            match mineral {
                Some(ttr) => if opt_gt(ttr, me.ticks_to_live) {
                    (TaskResult::Suicide, Seq::empty())
                } else {
                    (still(Task::HarvestMineral(workplace, id), None), seq![Order::Say(Sign::Pickaxe, false), Order::Harvest(id)])
                },
                None => (TaskResult::Abort, Seq::empty()),
            }
        })
}

/// Mine the mineral `id` at `workplace`; `mineral` is its time to
/// regeneration, when it exists. A miner that dies before the mineral
/// regenerates retires.
pub fn harvest_minerals(workplace: Position, id: ObjectId, me: &CreepInfo, need_escape: bool, hostiles: &[Unit], exit: Option<Position>, mineral: Option<Option<u32>>) -> (s: Step)
    requires
        me.pos.valid(),
        units_valid(hostiles@),
    ensures
        spec_harvest_minerals_step(workplace, id, *me, need_escape, hostiles@, exit, mineral, s),
{
    if need_escape {
        return match exit {
            Some(e) => step(TaskResult::StillWorking(Task::Escape(e), walk(Walker::Exploring(false), e, 0, Avoid::Attackers)), no_orders()),
            None => step(TaskResult::Abort, no_orders()),
        };
    }
    match attacker_within(hostiles, me.pos, 4, Filter::Attackers) {
        Some(apos) => {
            return step(TaskResult::StillWorking(Task::Flee(FLEE_RANGE), walk(Walker::Flee, apos, FLEE_RANGE, Avoid::Attackers)), no_orders());
        },
        None => {},
    }
    if me.pos != workplace {
        return step(TaskResult::StillWorking(Task::HarvestMineral(workplace, id), walk(Walker::Exploring(false), workplace, 0, Avoid::Attackers)), no_orders());
    }
    match mineral {
        Some(ttr) => {
            let later = match (ttr, me.ticks_to_live) {
                (Some(x), Some(y)) => x > y,
                (Some(_), None) => true,
                (None, _) => false,
            };
            if later {
                step(TaskResult::Suicide, no_orders())
            } else {
                let mut v = say(Sign::Pickaxe, false);
                v.push(Order::Harvest(id));
                step(TaskResult::StillWorking(Task::HarvestMineral(workplace, id), None), v)
            }
        },
        None => step(TaskResult::Abort, no_orders()),
    }
}

/// The contract of `harvest_until_full`, as a predicate of its result.
pub open spec fn spec_harvest_until_full_step(workplace: Position, id: ObjectId, me: CreepInfo, source: Option<Option<u32>>, t: Tick) -> bool {
    if me.pos != workplace {
            is_done(t, still(Task::Harvest(workplace, id), Some(goal(Walker::Exploring(false), workplace, 0, Avoid::Attackers))), Seq::empty())
        } else if !spec_is_full(me.store_used, me.store_capacity) {
            match source {
                Some(ttr) => is_await(t, seq![Order::Say(Sign::Pickaxe, false)], Order::Harvest(id),
                    Pending::Harvest(workplace, id, spec_better_work(ttr, me.store_energy, me.store_capacity))),
                None => is_done(t, TaskResult::Abort, Seq::empty()),
            }
        } else {
            is_done(t, TaskResult::Completed, Seq::empty())
        }
}

/// Harvest source `id` at `workplace` until full; `source` is the source's
/// time to regeneration when it exists. The harvest intent's outcome
/// decides the rest (see `resume_harvest`).
pub fn harvest_until_full(workplace: Position, id: ObjectId, me: &CreepInfo, source: Option<Option<u32>>) -> (t: Tick)
    ensures
        spec_harvest_until_full_step(workplace, id, *me, source, t),
{
    if me.pos != workplace {
        done(TaskResult::StillWorking(Task::Harvest(workplace, id), walk(Walker::Exploring(false), workplace, 0, Avoid::Attackers)), no_orders())
    } else if !is_full(me.store_used, me.store_capacity) {
        match source {
            Some(ttr) => Tick::Await(say(Sign::Pickaxe, false), Order::Harvest(id), Pending::Harvest(workplace, id, better_work(ttr, me.store_energy, me.store_capacity))),
            None => done(TaskResult::Abort, no_orders()),
        }
    } else {
        done(TaskResult::Completed, no_orders())
    }
}

/// After the harvest intent: an empty source while better work waits gives
/// the task up; anything else goes on harvesting.
pub fn resume_harvest(workplace: Position, id: ObjectId, better: bool, o: Outcome) -> (s: Step)
    ensures
        s.orders@ == Seq::<Order>::empty(),
        s.result == if o == Outcome::NotEnoughResources && better {
            TaskResult::Abort
        } else {
            still(Task::Harvest(workplace, id), None)
        },
{
    if o == Outcome::NotEnoughResources && better {
        step(TaskResult::Abort, no_orders())
    } else {
        step(TaskResult::StillWorking(Task::Harvest(workplace, id), None), no_orders())
    }
}

/// The contract of `harvest_and_upgrade`, as a predicate of its result.
pub open spec fn spec_harvest_and_upgrade_step(workplace: Position, id: ObjectId, ctrl_id: ObjectId, me: CreepInfo, source_found: bool, controller_found: bool, s: Step) -> bool {
    same_step(s, if me.pos != workplace {
            (still(Task::HarvestAndUpgrade(workplace, id, ctrl_id), Some(goal(Walker::Exploring(false), workplace, 0, Avoid::Attackers))), Seq::<Order>::empty())
        } else if !spec_is_full(me.store_used, me.store_capacity) {
            if source_found {
                (still(Task::HarvestAndUpgrade(workplace, id, ctrl_id), None), if controller_found {
                    seq![Order::Say(Sign::Pickaxe, false), Order::Harvest(id), Order::UpgradeController(ctrl_id)]
                } else {
                    seq![Order::Say(Sign::Pickaxe, false), Order::Harvest(id)]
                })
            } else {
                (TaskResult::Abort, Seq::empty())
            }
        } else {
            (TaskResult::Completed, Seq::empty())
        })
}

/// Harvest and upgrade at once at `workplace` until full.
pub fn harvest_and_upgrade(workplace: Position, id: ObjectId, ctrl_id: ObjectId, me: &CreepInfo, source_found: bool, controller_found: bool) -> (s: Step)
    ensures
        spec_harvest_and_upgrade_step(workplace, id, ctrl_id, *me, source_found, controller_found, s),
{
    if me.pos != workplace {
        step(TaskResult::StillWorking(Task::HarvestAndUpgrade(workplace, id, ctrl_id), walk(Walker::Exploring(false), workplace, 0, Avoid::Attackers)), no_orders())
    } else if !is_full(me.store_used, me.store_capacity) {
        if source_found {
            let mut v = say(Sign::Pickaxe, false);
            v.push(Order::Harvest(id));
            if controller_found {
                v.push(Order::UpgradeController(ctrl_id));
            }
            step(TaskResult::StillWorking(Task::HarvestAndUpgrade(workplace, id, ctrl_id), None), v)
        } else {
            step(TaskResult::Abort, no_orders())
        }
    } else {
        step(TaskResult::Completed, no_orders())
    }
}

} // verus!
