use vstd::prelude::*;

use crate::constants::CLOSE_RANGE_ACTION;
use crate::geometry::{is_near_to, is_room_edge, spec_edge_xy, spec_near, Position};
use crate::orders::{same_step, is_await, is_done, Order, Outcome, Pending, Sign, Step, Tick};
use crate::resources::Resource;
use crate::tasks::moves::{no_orders, say, step, still};
use crate::tasks::work::{done, walk};
use crate::tasks::{goal, Avoid, FillTarget, MovementGoal, ObjectId, Task, TaskResult, Walker};
use crate::units::{held, spec_held, CreepInfo};

verus! {

/// Walk to `pos`, stopping next to it.
pub open spec fn close_goal(pos: Position, avoid: Avoid) -> Option<MovementGoal> {
    Some(goal(Walker::Exploring(false), pos, CLOSE_RANGE_ACTION, avoid))
}

/// The contract of `take_resource`, as a predicate of its result.
pub open spec fn spec_take_resource_step(id: ObjectId, me: CreepInfo, resource: Option<Position>, avoid: Avoid, t: Tick) -> bool {
    match resource {
            Some(rpos) => if spec_near(me.pos, rpos) {
                is_await(t, Seq::empty(), Order::Pickup(id), Pending::Pickup(id))
            } else {
                is_done(t, still(Task::TakeResource(id), close_goal(rpos, avoid)), Seq::empty())
            },
            None => is_done(t, TaskResult::ResolveRequest(Task::TakeResource(id)), Seq::empty()),
        }
}

/// Pick up the dropped resource `id`, lying at `resource` when it still
/// exists.
pub fn take_resource(id: ObjectId, me: &CreepInfo, resource: Option<Position>, avoid: Avoid) -> (t: Tick)
    ensures
        spec_take_resource_step(id, *me, resource, avoid, t),
{
    match resource {
        Some(rpos) => {
            if is_near_to(me.pos, rpos) {
                Tick::Await(no_orders(), Order::Pickup(id), Pending::Pickup(id))
            } else {
                done(TaskResult::StillWorking(Task::TakeResource(id), walk(Walker::Exploring(false), rpos, CLOSE_RANGE_ACTION, avoid)), no_orders())
            }
        },
        None => done(TaskResult::ResolveRequest(Task::TakeResource(id)), no_orders()),
    }
}

/// After the pickup: the request is done either way; a success shows it.
pub fn resume_pickup(id: ObjectId, o: Outcome) -> (s: Step)
    ensures
        s.result == TaskResult::ResolveRequest(Task::TakeResource(id)),
        s.orders@ == if o == Outcome::Done { seq![Order::Say(Sign::MoneyBag, false)] } else { Seq::<Order>::empty() },
{
    if o == Outcome::Done {
        step(TaskResult::ResolveRequest(Task::TakeResource(id)), say(Sign::MoneyBag, false))
    } else {
        step(TaskResult::ResolveRequest(Task::TakeResource(id)), no_orders())
    }
}

/// The TakeFromStructure step: `target` is the structure (its position and
/// the units of `resource` it holds) when it exists.
pub open spec fn spec_take_from(pos: Position, id: ObjectId, resource: Resource, amount: Option<u32>, me: CreepInfo, target: Option<(Position, u32)>, avoid: Avoid, t: Tick) -> bool {
    match target {
        Some((tpos, used)) => if (amount matches Some(a) ==> used >= a) {
            if spec_near(me.pos, tpos) {
                is_await(t, Seq::empty(), Order::Withdraw(id, resource, amount), Pending::TakeFrom(pos, id, resource, amount, false))
            } else {
                is_done(t, still(Task::TakeFromStructure(pos, id, resource, amount), close_goal(pos, avoid)), Seq::empty())
            }
        } else {
            is_done(t, TaskResult::Abort, Seq::empty())
        },
        None => if me.pos.room != pos.room {
            is_done(t, still(Task::TakeFromStructure(pos, id, resource, amount), close_goal(pos, avoid)), Seq::empty())
        } else {
            is_done(t, TaskResult::Abort, Seq::empty())
        },
    }
}

/// Withdraw `amount` (or all) of `resource` from the structure `id` at
/// `pos`, when it holds that much.
pub fn take_from_structure(pos: Position, id: ObjectId, resource: Resource, amount: Option<u32>, me: &CreepInfo, target: Option<(Position, u32)>, avoid: Avoid) -> (t: Tick)
    ensures
        spec_take_from(pos, id, resource, amount, *me, target, avoid, t),
{
    match target {
        Some((tpos, used)) => {
            let enough = match amount {
                Some(a) => used >= a,
                None => true,
            };
            if enough {
                if is_near_to(me.pos, tpos) {
                    Tick::Await(no_orders(), Order::Withdraw(id, resource, amount), Pending::TakeFrom(pos, id, resource, amount, false))
                } else {
                    done(TaskResult::StillWorking(Task::TakeFromStructure(pos, id, resource, amount), walk(Walker::Exploring(false), pos, CLOSE_RANGE_ACTION, avoid)), no_orders())
                }
            } else {
                done(TaskResult::Abort, no_orders())
            }
        },
        None => {
            if me.pos.room != pos.room {
                done(TaskResult::StillWorking(Task::TakeFromStructure(pos, id, resource, amount), walk(Walker::Exploring(false), pos, CLOSE_RANGE_ACTION, avoid)), no_orders())
            } else {
                done(TaskResult::Abort, no_orders())
            }
        },
    }
}

/// After a withdrawal: done on success; short of the amount, try once more
/// for whatever is there; any other refusal gives up.
pub fn resume_take_from(pos: Position, id: ObjectId, resource: Resource, amount: Option<u32>, retried: bool, o: Outcome) -> (t: Tick)
    ensures
        if o == Outcome::Done {
            is_done(t, TaskResult::Completed, seq![Order::Say(Sign::MoneyBag, false)])
        } else if o == Outcome::NotEnoughResources && !retried {
            is_await(t, Seq::empty(), Order::Withdraw(id, resource, None), Pending::TakeFrom(pos, id, resource, amount, true))
        } else {
            is_done(t, TaskResult::Abort, Seq::empty())
        },
{
    if o == Outcome::Done {
        done(TaskResult::Completed, say(Sign::MoneyBag, false))
    } else if o == Outcome::NotEnoughResources && !retried {
        Tick::Await(no_orders(), Order::Withdraw(id, resource, None), Pending::TakeFrom(pos, id, resource, amount, true))
    } else {
        done(TaskResult::Abort, no_orders())
    }
}

/// The DeliverToStructure step: `target` is the structure (its position and
/// free capacity for `resource`) when it exists.
pub open spec fn spec_deliver(pos: Position, id: ObjectId, resource: Resource, amount: Option<u32>, me: CreepInfo, target: Option<(Position, i32)>, avoid: Avoid, t: Tick) -> bool {
    match target {
        Some((tpos, free)) => if free == 0 {
            is_done(t, TaskResult::Abort, Seq::empty())
        } else if spec_near(me.pos, tpos) {
            is_await(t, Seq::empty(), Order::Transfer(id, resource, amount), Pending::Deliver(pos, id, resource, amount))
        } else {
            is_done(t, still(Task::DeliverToStructure(pos, id, resource, amount), close_goal(pos, avoid)), Seq::empty())
        },
        None => if me.pos.room != pos.room {
            is_done(t, still(Task::DeliverToStructure(pos, id, resource, amount), close_goal(pos, avoid)), Seq::empty())
        } else {
            is_done(t, TaskResult::Abort, Seq::empty())
        },
    }
}

/// Transfer `amount` (or all) of `resource` to the structure `id` at `pos`,
/// unless it is full.
pub fn deliver_to_structure(pos: Position, id: ObjectId, resource: Resource, amount: Option<u32>, me: &CreepInfo, target: Option<(Position, i32)>, avoid: Avoid) -> (t: Tick)
    ensures
        spec_deliver(pos, id, resource, amount, *me, target, avoid, t),
{
    match target {
        Some((tpos, free)) => {
            if free == 0 {
                done(TaskResult::Abort, no_orders())
            } else if is_near_to(me.pos, tpos) {
                Tick::Await(no_orders(), Order::Transfer(id, resource, amount), Pending::Deliver(pos, id, resource, amount))
            } else {
                done(TaskResult::StillWorking(Task::DeliverToStructure(pos, id, resource, amount), walk(Walker::Exploring(false), pos, CLOSE_RANGE_ACTION, avoid)), no_orders())
            }
        },
        None => {
            if me.pos.room != pos.room {
                done(TaskResult::StillWorking(Task::DeliverToStructure(pos, id, resource, amount), walk(Walker::Exploring(false), pos, CLOSE_RANGE_ACTION, avoid)), no_orders())
            } else {
                done(TaskResult::Abort, no_orders())
            }
        },
    }
}

/// After a transfer: done (and shown) on success, else given up.
pub fn resume_deliver(o: Outcome) -> (s: Step)
    ensures
        (s.result, s.orders@) == if o == Outcome::Done {
            (TaskResult::Completed, seq![Order::Say(Sign::Done, false)])
        } else {
            (TaskResult::Abort, Seq::<Order>::empty())
        },
{
    if o == Outcome::Done {
        step(TaskResult::Completed, say(Sign::Done, false))
    } else {
        step(TaskResult::Abort, no_orders())
    }
}

/// The contract of `fill_structure`, as a predicate of its result.
pub open spec fn spec_fill_structure_step(target: FillTarget, me: CreepInfo, s: Step) -> bool {
    same_step(s, if spec_near(me.pos, target.pos) {
            (TaskResult::Completed, seq![Order::Say(Sign::Valve, false), Order::Transfer(target.id, Resource::Energy, None)])
        } else {
            (still(Task::DeliverToStructure(target.pos, target.id, Resource::Energy, None), close_goal(target.pos, Avoid::Attackers)), seq![Order::Say(Sign::WalkingToFill, false)])
        })
}

/// Fill a structure with energy: next to it transfer, else walk there (the
/// task becomes a delivery).
pub fn fill_structure(target: FillTarget, me: &CreepInfo) -> (s: Step)
    ensures
        spec_fill_structure_step(target, *me, s),
{
    if is_near_to(me.pos, target.pos) {
        let mut v = say(Sign::Valve, false);
        v.push(Order::Transfer(target.id, Resource::Energy, None));
        step(TaskResult::Completed, v)
    } else {
        step(TaskResult::StillWorking(Task::DeliverToStructure(target.pos, target.id, Resource::Energy, None), walk(Walker::Exploring(false), target.pos, CLOSE_RANGE_ACTION, Avoid::Attackers)), say(Sign::WalkingToFill, false))
    }
}

/// Which way a Withdraw task ends a tick.
#[derive(Clone, Copy, Debug, PartialEq, Eq, Structural)]
pub enum Ending {
    Still,
    Resolve,
    Update,
}

/// How a Withdraw task ends a tick, given how its first withdrawal went
/// (the ending, the entries left, the walk): walking goes on; a withdrawal
/// done drops the first entry and ends the request when none are left
/// (else stores the rest); anything else ends the request.
pub open spec fn spec_withdraw_after(resources: Seq<(Resource, Option<u32>)>, inner: TaskResult) -> (Ending, Seq<(Resource, Option<u32>)>, Option<MovementGoal>) {
    match inner {
        TaskResult::StillWorking(_, g) => (Ending::Still, resources, g),
        TaskResult::Completed => if resources.len() == 0 {
            (Ending::Resolve, resources, None)
        } else if resources.len() == 1 {
            (Ending::Resolve, resources.drop_first(), None)
        } else {
            (Ending::Update, resources.drop_first(), None)
        },
        _ => (Ending::Resolve, resources, None),
    }
}

/// `r` is a Withdraw task for `pos` and `id` ending as `e`.
pub open spec fn is_withdraw_result(r: TaskResult, pos: Position, id: ObjectId, e: (Ending, Seq<(Resource, Option<u32>)>, Option<MovementGoal>)) -> bool {
    match e.0 {
        Ending::Still => r matches TaskResult::StillWorking(Task::Withdraw(p, i, l), g) && p == pos && i == id && l@ == e.1 && g == e.2,
        Ending::Resolve => r matches TaskResult::ResolveRequest(Task::Withdraw(p, i, l)) && p == pos && i == id && l@ == e.1,
        Ending::Update => r matches TaskResult::UpdateRequest(Task::Withdraw(p, i, l)) && p == pos && i == id && l@ == e.1,
    }
}

pub fn withdraw_after(pos: Position, id: ObjectId, resources: Vec<(Resource, Option<u32>)>, inner: TaskResult) -> (r: TaskResult)
    ensures
        is_withdraw_result(r, pos, id, spec_withdraw_after(resources@, inner)),
{
    let mut resources = resources;
    match inner {
        TaskResult::StillWorking(_, g) => TaskResult::StillWorking(Task::Withdraw(pos, id, resources), g),
        TaskResult::Completed => {
            if resources.len() > 0 {
                resources.remove(0);
            }
            if resources.len() == 0 {
                TaskResult::ResolveRequest(Task::Withdraw(pos, id, resources))
            } else {
                TaskResult::UpdateRequest(Task::Withdraw(pos, id, resources))
            }
        },
        _ => TaskResult::ResolveRequest(Task::Withdraw(pos, id, resources)),
    }
}

/// `t` is decided with these orders, as a Withdraw task ending as `e`.
pub open spec fn is_withdraw_done(t: Tick, orders: Seq<Order>, pos: Position, id: ObjectId, e: (Ending, Seq<(Resource, Option<u32>)>, Option<MovementGoal>)) -> bool {
    t matches Tick::Done(s) && s.orders@ == orders && is_withdraw_result(s.result, pos, id, e)
}

/// The contract of `withdraw`, as a predicate of its result.
pub open spec fn spec_withdraw_step(pos: Position, id: ObjectId, resources: Vec<(Resource, Option<u32>)>, me: CreepInfo, target: Option<(Position, u32)>, t: Tick) -> bool {
    (resources@.len() == 0 ==> is_done(t, TaskResult::ResolveRequest(Task::Withdraw(pos, id, resources)), Seq::empty())) && (resources@.len() > 0 ==> exists|inner: Tick|
            #[trigger] spec_take_from(pos, id, resources@[0].0, resources@[0].1, me, target, Avoid::Attackers, inner) && match inner {
                Tick::Done(si) => is_withdraw_done(t, si.orders@, pos, id, spec_withdraw_after(resources@, si.result)),
                Tick::Await(vi, oi, pi) => is_await(t, vi@, oi, Pending::InWithdraw(pos, id, resources, Box::new(pi))),
            })
}

/// Withdraw the listed resources from structure `id` at `pos`, one per
/// tick, the first entry first; `target` is as for `take_from_structure`
/// for the first entry's resource.
pub fn withdraw(pos: Position, id: ObjectId, resources: Vec<(Resource, Option<u32>)>, me: &CreepInfo, target: Option<(Position, u32)>) -> (t: Tick)
    ensures
        spec_withdraw_step(pos, id, resources, *me, target, t),
{
    if resources.len() == 0 {
        return done(TaskResult::ResolveRequest(Task::Withdraw(pos, id, resources)), no_orders());
    }
    let (r, a) = resources[0];
    let inner = take_from_structure(pos, id, r, a, me, target, Avoid::Attackers);
    match inner {
        Tick::Done(s) => {
            let result = withdraw_after(pos, id, resources, s.result);
            Tick::Done(Step { result, orders: s.orders })
        },
        Tick::Await(v, o, p) => Tick::Await(v, o, Pending::InWithdraw(pos, id, resources, Box::new(p))),
    }
}

/// How a long range withdrawal of `amount` ends a tick, given how its
/// withdrawal of `take` units went.
pub open spec fn spec_long_range_after(pos: Position, id: ObjectId, resource: Resource, amount: u32, take: u32, inner: TaskResult) -> TaskResult {
    match inner {
        TaskResult::StillWorking(_, g) => TaskResult::StillWorking(Task::LongRangeWithdraw(pos, id, resource, amount), g),
        TaskResult::Completed => if take < amount {
            TaskResult::UpdateRequest(Task::LongRangeWithdraw(pos, id, resource, (amount - take) as u32))
        } else {
            TaskResult::ResolveRequest(Task::LongRangeWithdraw(pos, id, resource, amount))
        },
        _ => TaskResult::ResolveRequest(Task::LongRangeWithdraw(pos, id, resource, amount)),
    }
}

pub fn long_range_after(pos: Position, id: ObjectId, resource: Resource, amount: u32, take: u32, inner: TaskResult) -> (r: TaskResult)
    ensures
        r == spec_long_range_after(pos, id, resource, amount, take, inner),
{
    match inner {
        TaskResult::StillWorking(_, g) => TaskResult::StillWorking(Task::LongRangeWithdraw(pos, id, resource, amount), g),
        TaskResult::Completed => {
            if take < amount {
                TaskResult::UpdateRequest(Task::LongRangeWithdraw(pos, id, resource, amount - take))
            } else {
                TaskResult::ResolveRequest(Task::LongRangeWithdraw(pos, id, resource, amount))
            }
        },
        _ => TaskResult::ResolveRequest(Task::LongRangeWithdraw(pos, id, resource, amount)),
    }
}

/// How much a long range withdrawal takes this trip: as much of `amount`
/// as the store has room for (the free capacity read as unsigned, as the
/// game's API does).
pub open spec fn spec_take_amount(store_free: i32, amount: u32) -> u32 {
    let free = #[verifier::truncate] (store_free as u32);
    if free < amount { free } else { amount }
}

/// The contract of `long_range_withdraw`, as a predicate of its result.
pub open spec fn spec_long_range_withdraw_step(pos: Position, id: ObjectId, resource: Resource, amount: u32, me: CreepInfo, target: Option<(Position, u32)>, t: Tick) -> bool {
    exists|inner: Tick|
            #[trigger] spec_take_from(pos, id, resource, Some(spec_take_amount(me.store_free, amount)), me, target, Avoid::Attackers, inner) && match inner {
                Tick::Done(si) => is_done(t, spec_long_range_after(pos, id, resource, amount, spec_take_amount(me.store_free, amount), si.result), si.orders@),
                Tick::Await(vi, oi, pi) => is_await(t, vi@, oi, Pending::InLongRange(pos, id, resource, amount, spec_take_amount(me.store_free, amount), Box::new(pi))),
            }
}

/// Fetch `amount` of `resource` from a structure far away, a store-full at
/// a time.
pub fn long_range_withdraw(pos: Position, id: ObjectId, resource: Resource, amount: u32, me: &CreepInfo, target: Option<(Position, u32)>) -> (t: Tick)
    ensures
        spec_long_range_withdraw_step(pos, id, resource, amount, *me, target, t),
{
    let free = #[verifier::truncate] (me.store_free as u32);
    let take = if free < amount { free } else { amount };
    assert(take == spec_take_amount(me.store_free, amount));
    let inner = take_from_structure(pos, id, resource, Some(take), me, target, Avoid::Attackers);
    let ghost gi = inner;
    assert(spec_take_from(pos, id, resource, Some(take), *me, target, Avoid::Attackers, gi));
    match inner {
        Tick::Done(s) => {
            let result = long_range_after(pos, id, resource, amount, take, s.result);
            Tick::Done(Step { result, orders: s.orders })
        },
        Tick::Await(v, o, p) => Tick::Await(v, o, Pending::InLongRange(pos, id, resource, amount, take, Box::new(p))),
    }
}

/// The contract of `generate_safe_mode`, as a predicate of its result.
pub open spec fn spec_generate_safe_mode_step(pos: Position, id: ObjectId, storage_id: ObjectId, me: CreepInfo, controller: Option<Position>, storage: Option<Position>, t: Tick) -> bool {
    if spec_held(me.store@, Resource::Ghodium) >= 1000 {
            match controller {
                Some(cpos) => if spec_near(me.pos, cpos) {
                    is_await(t, Seq::empty(), Order::GenerateSafeMode(id), Pending::SafeMode(pos, id, storage_id))
                } else {
                    is_done(t, still(Task::GenerateSafeMode(pos, id, storage_id), close_goal(pos, Avoid::Attackers)), Seq::empty())
                },
                None => if me.pos.room != pos.room {
                    is_done(t, still(Task::GenerateSafeMode(pos, id, storage_id), close_goal(pos, Avoid::Attackers)), Seq::empty())
                } else {
                    is_done(t, TaskResult::Abort, Seq::empty())
                },
            }
        } else {
            match storage {
                Some(spos) => is_done(t, still(Task::TakeFromStructure(spos, storage_id, Resource::Ghodium, Some(1000)), close_goal(spos, Avoid::Attackers)), Seq::empty()),
                None => is_done(t, TaskResult::Abort, Seq::empty()),
            }
        }
}

/// Generate a safe mode at controller `id`: with a thousand ghodium held go
/// to the controller (at `controller`, if it exists), else fetch the
/// ghodium from the storage (at `storage`, if it exists).
pub fn generate_safe_mode(pos: Position, id: ObjectId, storage_id: ObjectId, me: &CreepInfo, controller: Option<Position>, storage: Option<Position>) -> (t: Tick)
    ensures
        spec_generate_safe_mode_step(pos, id, storage_id, *me, controller, storage, t),
{
    if held(&me.store, Resource::Ghodium) >= 1000 {
        match controller {
            Some(cpos) => {
                if is_near_to(me.pos, cpos) {
                    Tick::Await(no_orders(), Order::GenerateSafeMode(id), Pending::SafeMode(pos, id, storage_id))
                } else {
                    done(TaskResult::StillWorking(Task::GenerateSafeMode(pos, id, storage_id), walk(Walker::Exploring(false), pos, CLOSE_RANGE_ACTION, Avoid::Attackers)), no_orders())
                }
            },
            None => {
                if me.pos.room != pos.room {
                    done(TaskResult::StillWorking(Task::GenerateSafeMode(pos, id, storage_id), walk(Walker::Exploring(false), pos, CLOSE_RANGE_ACTION, Avoid::Attackers)), no_orders())
                } else {
                    done(TaskResult::Abort, no_orders())
                }
            },
        }
    } else {
        match storage {
            Some(spos) => done(TaskResult::StillWorking(Task::TakeFromStructure(spos, storage_id, Resource::Ghodium, Some(1000)), walk(Walker::Exploring(false), spos, CLOSE_RANGE_ACTION, Avoid::Attackers)), no_orders()),
            None => done(TaskResult::Abort, no_orders()),
        }
    }
}

/// After generating the safe mode: done (and shown) on success, else given
/// up.
pub fn resume_safe_mode(pos: Position, id: ObjectId, storage_id: ObjectId, o: Outcome) -> (s: Step)
    ensures
        (s.result, s.orders@) == if o == Outcome::Done {
            (TaskResult::ResolveRequest(Task::GenerateSafeMode(pos, id, storage_id)), seq![Order::Say(Sign::Done, false)])
        } else {
            (TaskResult::Abort, Seq::<Order>::empty())
        },
{
    if o == Outcome::Done {
        step(TaskResult::ResolveRequest(Task::GenerateSafeMode(pos, id, storage_id)), say(Sign::Done, false))
    } else {
        step(TaskResult::Abort, no_orders())
    }
}

/// The creep holds the whole amount, or is full of the resource.
pub open spec fn spec_has_enough_or_full(me: CreepInfo, resource: Resource, amount: u32) -> bool {
    spec_held(me.store@, resource) >= amount || spec_held(me.store@, resource) == me.store_capacity
}

pub fn has_enough_or_full(me: &CreepInfo, resource: Resource, amount: u32) -> (r: bool)
    ensures
        r == spec_has_enough_or_full(*me, resource, amount),
{
    let h = held(&me.store, resource);
    h >= amount || h == me.store_capacity
}

/// The first resource type held other than `exclude`.
pub open spec fn spec_get_resource(types: Seq<Resource>, exclude: Resource) -> Option<Resource>
    decreases types.len(),
{
    if types.len() == 0 {
        None
    } else if types[0] != exclude {
        Some(types[0])
    } else {
        spec_get_resource(types.drop_first(), exclude)
    }
}

pub fn get_resource(types: &[Resource], exclude: Resource) -> (r: Option<Resource>)
    ensures
        r == spec_get_resource(types@, exclude),
{
    let mut i: usize = 0;
    assert(types@.skip(0) =~= types@);
    while i < types.len()
        invariant
            i <= types@.len(),
            spec_get_resource(types@, exclude) == spec_get_resource(types@.skip(i as int), exclude),
        decreases types@.len() - i,
    {
        proof {
            assert(types@.skip(i as int).drop_first() =~= types@.skip(i + 1));
        }
        if types[i] != exclude {
            return Some(types[i]);
        }
        i = i + 1;
    }
    None
}

/// How a Carry task ends a tick given how its delivery of `current` units
/// went: all delivered ends the request, part of it stores the rest;
/// walking goes on; anything else ends the request.
pub open spec fn spec_carry_deliver_after(from: ObjectId, to: ObjectId, resource: Resource, amount: u32, current: u32, inner: TaskResult) -> TaskResult {
    match inner {
        TaskResult::Completed => if current >= amount {
            TaskResult::ResolveRequest(Task::Carry(from, to, resource, 0))
        } else {
            TaskResult::UpdateRequest(Task::Carry(from, to, resource, (amount - current) as u32))
        },
        TaskResult::StillWorking(_, g) => TaskResult::StillWorking(Task::Carry(from, to, resource, amount), g),
        _ => TaskResult::ResolveRequest(Task::Carry(from, to, resource, amount)),
    }
}

pub fn carry_deliver_after(from: ObjectId, to: ObjectId, resource: Resource, amount: u32, current: u32, inner: TaskResult) -> (r: TaskResult)
    ensures
        r == spec_carry_deliver_after(from, to, resource, amount, current, inner),
{
    match inner {
        TaskResult::Completed => {
            if current >= amount {
                TaskResult::ResolveRequest(Task::Carry(from, to, resource, 0))
            } else {
                TaskResult::UpdateRequest(Task::Carry(from, to, resource, amount - current))
            }
        },
        TaskResult::StillWorking(_, g) => TaskResult::StillWorking(Task::Carry(from, to, resource, amount), g),
        _ => TaskResult::ResolveRequest(Task::Carry(from, to, resource, amount)),
    }
}

/// How a Carry task ends a tick after unloading or fetching: a refusal ends
/// the request, anything else stands.
pub open spec fn spec_carry_other_after(from: ObjectId, to: ObjectId, resource: Resource, amount: u32, inner: TaskResult) -> TaskResult {
    match inner {
        TaskResult::Abort => TaskResult::ResolveRequest(Task::Carry(from, to, resource, amount)),
        other => other,
    }
}

pub fn carry_other_after(from: ObjectId, to: ObjectId, resource: Resource, amount: u32, inner: TaskResult) -> (r: TaskResult)
    ensures
        r == spec_carry_other_after(from, to, resource, amount, inner),
{
    match inner {
        TaskResult::Abort => TaskResult::ResolveRequest(Task::Carry(from, to, resource, amount)),
        other => other,
    }
}

/// A store that takes what a creep unloads.
#[derive(Clone, Copy, Debug, PartialEq, Eq, Structural)]
pub struct Bank {
    pub pos: Position,
    pub id: ObjectId,
    /// Free capacity for the resource to unload.
    pub free: i32,
}

/// The units a Carry task delivers this trip.
pub open spec fn spec_current(me: CreepInfo, resource: Resource, amount: u32) -> u32 {
    let h = spec_held(me.store@, resource);
    if amount < h { amount } else { h }
}

/// The units a Carry task asks for when fetching: the rest of the amount,
/// or everything when the amount exceeds the store.
pub open spec fn spec_additional(me: CreepInfo, resource: Resource, amount: u32) -> Option<u32> {
    if amount > me.store_capacity { None } else { Some((amount - spec_held(me.store@, resource)) as u32) }
}

/// The Carry step, given the inner step it runs (if any) and what it makes
/// of it.
pub open spec fn spec_carry(from: ObjectId, to: ObjectId, resource: Resource, amount: u32, me: CreepInfo,
    to_target: Option<(Position, i32)>, bank: Option<Bank>, from_target: Option<(Position, u32)>, t: Tick) -> bool {
    if spec_has_enough_or_full(me, resource, amount) {
        match to_target {
            Some((tpos, free)) => {
                let current = spec_current(me, resource, amount);
                exists|inner: Tick| #[trigger] spec_deliver(tpos, to, resource, Some(current), me, Some((tpos, free)), Avoid::Attackers, inner) && match inner {
                    Tick::Done(si) => is_done(t, spec_carry_deliver_after(from, to, resource, amount, current, si.result), si.orders@),
                    Tick::Await(vi, oi, pi) => is_await(t, vi@, oi, Pending::InCarryDeliver(from, to, resource, amount, current, Box::new(pi))),
                }
            },
            None => is_done(t, TaskResult::ResolveRequest(Task::Carry(from, to, resource, amount)), Seq::empty()),
        }
    } else if spec_get_resource(me.store_types@, resource) is Some {
        match bank {
            Some(b) => exists|inner: Tick| #[trigger] spec_deliver(b.pos, b.id, spec_get_resource(me.store_types@, resource)->0, None, me, Some((b.pos, b.free)), Avoid::Attackers, inner) && match inner {
                Tick::Done(si) => is_done(t, spec_carry_other_after(from, to, resource, amount, si.result), si.orders@),
                Tick::Await(vi, oi, pi) => is_await(t, vi@, oi, Pending::InCarryOther(from, to, resource, amount, Box::new(pi))),
            },
            None => is_done(t, TaskResult::ResolveRequest(Task::Carry(from, to, resource, amount)), Seq::empty()),
        }
    } else {
        match from_target {
            Some((fpos, used)) => exists|inner: Tick| #[trigger] spec_take_from(fpos, from, resource, spec_additional(me, resource, amount), me, Some((fpos, used)), Avoid::Attackers, inner) && match inner {
                Tick::Done(si) => is_done(t, spec_carry_other_after(from, to, resource, amount, si.result), si.orders@),
                Tick::Await(vi, oi, pi) => is_await(t, vi@, oi, Pending::InCarryOther(from, to, resource, amount, Box::new(pi))),
            },
            None => is_done(t, TaskResult::ResolveRequest(Task::Carry(from, to, resource, amount)), Seq::empty()),
        }
    }
}

/// Carry `amount` of `resource` from structure `from` to structure `to`:
/// holding enough (or full), deliver; holding something else, unload it
/// into `bank` (the home room's bank); else fetch the rest from `from`.
/// `to_target` and `from_target` are those structures when they exist (as
/// for `deliver_to_structure` and `take_from_structure`).
pub fn carry(from: ObjectId, to: ObjectId, resource: Resource, amount: u32, me: &CreepInfo,
    to_target: Option<(Position, i32)>, bank: Option<Bank>, from_target: Option<(Position, u32)>) -> (t: Tick)
    ensures
        spec_carry(from, to, resource, amount, *me, to_target, bank, from_target, t),
{
    if has_enough_or_full(me, resource, amount) {
        match to_target {
            Some((tpos, free)) => {
                let h = held(&me.store, resource);
                let current = if amount < h { amount } else { h };
                let inner = deliver_to_structure(tpos, to, resource, Some(current), me, Some((tpos, free)), Avoid::Attackers);
                match inner {
                    Tick::Done(s) => {
                        let result = carry_deliver_after(from, to, resource, amount, current, s.result);
                        Tick::Done(Step { result, orders: s.orders })
                    },
                    Tick::Await(v, o, p) => Tick::Await(v, o, Pending::InCarryDeliver(from, to, resource, amount, current, Box::new(p))),
                }
            },
            None => done(TaskResult::ResolveRequest(Task::Carry(from, to, resource, amount)), no_orders()),
        }
    } else {
        match get_resource(&me.store_types, resource) {
            Some(useless) => match bank {
                Some(b) => {
                    let inner = deliver_to_structure(b.pos, b.id, useless, None, me, Some((b.pos, b.free)), Avoid::Attackers);
                    match inner {
                        Tick::Done(s) => {
                            let result = carry_other_after(from, to, resource, amount, s.result);
                            Tick::Done(Step { result, orders: s.orders })
                        },
                        Tick::Await(v, o, p) => Tick::Await(v, o, Pending::InCarryOther(from, to, resource, amount, Box::new(p))),
                    }
                },
                None => done(TaskResult::ResolveRequest(Task::Carry(from, to, resource, amount)), no_orders()),
            },
            None => match from_target {
                Some((fpos, used)) => {
                    let additional = if amount > me.store_capacity {
                        None
                    } else {
                        Some(amount - held(&me.store, resource))
                    };
                    let inner = take_from_structure(fpos, from, resource, additional, me, Some((fpos, used)), Avoid::Attackers);
                    match inner {
                        Tick::Done(s) => {
                            let result = carry_other_after(from, to, resource, amount, s.result);
                            Tick::Done(Step { result, orders: s.orders })
                        },
                        Tick::Await(v, o, p) => Tick::Await(v, o, Pending::InCarryOther(from, to, resource, amount, Box::new(p))),
                    }
                },
                None => done(TaskResult::ResolveRequest(Task::Carry(from, to, resource, amount)), no_orders()),
            },
        }
    }
}

/// The first of `candidates` on the border of its room (the walkable tiles
/// around a puller, when it stands on a border tile).
pub open spec fn spec_edge_position(candidates: Seq<Position>) -> Option<Position>
    decreases candidates.len(),
{
    if candidates.len() == 0 {
        None
    } else if spec_edge_xy(candidates[0].x as int, candidates[0].y as int) {
        Some(candidates[0])
    } else {
        spec_edge_position(candidates.drop_first())
    }
}

pub fn get_edge_position(candidates: &[Position]) -> (r: Option<Position>)
    ensures
        r == spec_edge_position(candidates@),
{
    let mut i: usize = 0;
    assert(candidates@.skip(0) =~= candidates@);
    while i < candidates.len()
        invariant
            i <= candidates@.len(),
            spec_edge_position(candidates@) == spec_edge_position(candidates@.skip(i as int)),
        decreases candidates@.len() - i,
    {
        proof {
            assert(candidates@.skip(i as int).drop_first() =~= candidates@.skip(i + 1));
        }
        if is_room_edge(candidates[i]) {
            return Some(candidates[i]);
        }
        i = i + 1;
    }
    None
}

/// The contract of `pull_to`, as a predicate of its result.
pub open spec fn spec_pull_to_step(name: String, destination: Position, me: CreepInfo, cargo: Option<Position>, beside: Option<Position>, s: Step) -> bool {
    ({
            let pulling = seq![Order::Pull(name)];
            let keep = Task::PullTo(name, destination);
            same_step(s, match cargo {
                Some(cpos) => if cpos != destination {
                    if spec_near(me.pos, cpos) {
                        if me.pos == destination {
                            (still(keep, Some(goal(Walker::Exploring(false), cpos, 0, Avoid::Attackers))), pulling)
                        } else if spec_edge_xy(cpos.x as int, cpos.y as int) && spec_edge_xy(me.pos.x as int, me.pos.y as int) {
                            (still(keep, Some(goal(Walker::Exploring(false), destination, 0, Avoid::Attackers))), pulling)
                        } else if spec_edge_xy(me.pos.x as int, me.pos.y as int) {
                            match beside {
                                Some(b) => (still(keep, Some(goal(Walker::Exploring(false), b, 0, Avoid::Attackers))), pulling),
                                None => (still(keep, None), Seq::empty()),
                            }
                        } else {
                            (still(keep, Some(goal(Walker::Exploring(false), destination, 0, Avoid::Attackers))), pulling)
                        }
                    } else if !spec_edge_xy(cpos.x as int, cpos.y as int) {
                        (still(keep, Some(goal(Walker::Exploring(false), cpos, 1, Avoid::Attackers))), Seq::empty())
                    } else {
                        (still(keep, None), seq![Order::Say(Sign::Smoking, false)])
                    }
                } else {
                    (TaskResult::ResolveRequest(keep), Seq::empty())
                },
                None => (still(keep, None), Seq::empty()),
            })
        })
}

/// Pull the creep `name` (at `cargo`, when alive) to `destination`; a
/// puller on a border tile steps aside to `beside` (a border tile next to
/// it) to let the cargo through.
pub fn pull_to(name: String, destination: Position, me: &CreepInfo, cargo: Option<Position>, beside: Option<Position>) -> (s: Step)
    ensures
        spec_pull_to_step(name, destination, *me, cargo, beside, s),
{
    let keep = Task::PullTo(name.clone(), destination);
    match cargo {
        Some(cpos) => {
            if cpos != destination {
                if is_near_to(me.pos, cpos) {
                    let mut pulling: Vec<Order> = Vec::new();
                    pulling.push(Order::Pull(name));
                    if me.pos == destination {
                        step(TaskResult::StillWorking(keep, walk(Walker::Exploring(false), cpos, 0, Avoid::Attackers)), pulling)
                    } else if is_room_edge(cpos) && is_room_edge(me.pos) {
                        step(TaskResult::StillWorking(keep, walk(Walker::Exploring(false), destination, 0, Avoid::Attackers)), pulling)
                    } else if is_room_edge(me.pos) {
                        match beside {
                            Some(b) => step(TaskResult::StillWorking(keep, walk(Walker::Exploring(false), b, 0, Avoid::Attackers)), pulling),
                            None => step(TaskResult::StillWorking(keep, None), no_orders()),
                        }
                    } else {
                        step(TaskResult::StillWorking(keep, walk(Walker::Exploring(false), destination, 0, Avoid::Attackers)), pulling)
                    }
                } else if !is_room_edge(cpos) {
                    step(TaskResult::StillWorking(keep, walk(Walker::Exploring(false), cpos, 1, Avoid::Attackers)), no_orders())
                } else {
                    step(TaskResult::StillWorking(keep, None), say(Sign::Smoking, false))
                }
            } else {
                step(TaskResult::ResolveRequest(keep), no_orders())
            }
        },
        None => step(TaskResult::StillWorking(keep, None), no_orders()),
    }
}

/// Every withdrawal done shortens the list of a withdraw task by its first
/// entry; the request ends when the last entry is done.
pub proof fn lemma_withdraw_list_shrinks(resources: Seq<(Resource, Option<u32>)>)
    requires
        resources.len() > 0,
    ensures
        spec_withdraw_after(resources, TaskResult::Completed).1 == resources.drop_first(),
        spec_withdraw_after(resources, TaskResult::Completed).1.len() == resources.len() - 1,
        (spec_withdraw_after(resources, TaskResult::Completed).0 == Ending::Resolve) == (resources.len() == 1),
{
}

} // verus!
