use vstd::prelude::*;

use crate::commons::{units_valid, Filter, Unit};
use crate::constants::{CLOSE_RANGE_ACTION, LONG_RANGE_ACTION};
use crate::geometry::{in_range_to, is_near_to, is_room_edge, spec_edge_xy, spec_near, spec_range, Position};
use crate::orders::{same_step, is_await, is_done, Order, Pending, Sign, Step, Tick};
use crate::resources::Resource;
use crate::tasks::harvest::{attacker_within, spec_attacker_within};
use crate::tasks::logistics::{deliver_to_structure, spec_deliver, spec_take_from, take_from_structure, take_resource, Bank};
use crate::tasks::moves::{no_orders, say, step, still, FLEE_RANGE};
use crate::tasks::work::{done, walk};
use crate::tasks::{goal, result_keeps_members, Avoid, ObjectId, Task, TaskResult, Walker};
use crate::units::{held, spec_held, CreepInfo};

verus! {

/// The contract of `pb_attack`, as a predicate of its result.
pub open spec fn spec_pb_attack_step(pos: Position, id: ObjectId, members: Vec<String>, me: CreepInfo, partner: Option<Position>, hostiles: Seq<Unit>, powerbank_found: bool, s: Step) -> bool {
    ({
            let keep = Task::PowerbankAttack(pos, id, members);
            same_step(s, if partner matches Some(h) && (spec_near(me.pos, h) || spec_edge_xy(me.pos.x as int, me.pos.y as int)) {
                if me.pos.room != pos.room {
                    (still(keep, Some(goal(Walker::Exploring(false), pos, CLOSE_RANGE_ACTION, Avoid::Ranged))), Seq::<Order>::empty())
                } else if spec_attacker_within(hostiles, me.pos, 4, Filter::Ranged) is Some {
                    (still(Task::Flee(FLEE_RANGE), Some(goal(Walker::Flee, spec_attacker_within(hostiles, me.pos, 4, Filter::Ranged)->0.pos, FLEE_RANGE, Avoid::Ranged))), Seq::empty())
                } else if spec_attacker_within(hostiles, me.pos, 7, Filter::Ranged) is Some {
                    (still(keep, None), Seq::empty())
                } else if spec_near(me.pos, pos) {
                    (still(keep, None), if powerbank_found { seq![Order::Attack(id)] } else { seq![Order::Suicide] })
                } else {
                    (still(keep, Some(goal(Walker::Exploring(false), pos, 1, Avoid::Ranged))), Seq::empty())
                }
            } else {
                (TaskResult::Completed, Seq::empty())
            })
        })
}

/// Attack the powerbank `id` at `pos` beside the healer (`partner`, the
/// first other squad member, when alive): keep away from ranged attackers
/// within four tiles and stop hitting while one is within seven (to keep
/// hit points full); without the healer beside, wait for the squad.
pub fn pb_attack(pos: Position, id: ObjectId, members: Vec<String>, me: &CreepInfo, partner: Option<Position>, hostiles: &[Unit], powerbank_found: bool) -> (s: Step)
    requires
        me.pos.valid(),
        units_valid(hostiles@),
    ensures
        spec_pb_attack_step(pos, id, members, *me, partner, hostiles@, powerbank_found, s),
{
    let beside = match partner {
        Some(h) => is_near_to(me.pos, h) || is_room_edge(me.pos),
        None => false,
    };
    if !beside {
        return step(TaskResult::Completed, no_orders());
    }
    if me.pos.room != pos.room {
        return step(TaskResult::StillWorking(Task::PowerbankAttack(pos, id, members), walk(Walker::Exploring(false), pos, CLOSE_RANGE_ACTION, Avoid::Ranged)), no_orders());
    }
    match attacker_within(hostiles, me.pos, 4, Filter::Ranged) {
        Some(apos) => {
            return step(TaskResult::StillWorking(Task::Flee(FLEE_RANGE), walk(Walker::Flee, apos, FLEE_RANGE, Avoid::Ranged)), no_orders());
        },
        None => {},
    }
    if attacker_within(hostiles, me.pos, 7, Filter::Ranged).is_some() {
        return step(TaskResult::StillWorking(Task::PowerbankAttack(pos, id, members), None), no_orders());
    }
    if is_near_to(me.pos, pos) {
        let mut v = no_orders();
        if powerbank_found {
            v.push(Order::Attack(id));
        } else {
            v.push(Order::Suicide);
        }
        step(TaskResult::StillWorking(Task::PowerbankAttack(pos, id, members), None), v)
    } else {
        step(TaskResult::StillWorking(Task::PowerbankAttack(pos, id, members), walk(Walker::Exploring(false), pos, 1, Avoid::Ranged)), no_orders())
    }
}

/// The contract of `pb_heal`, as a predicate of its result.
pub open spec fn spec_pb_heal_step(pos: Position, id: ObjectId, members: Vec<String>, me: CreepInfo, partner: Option<(ObjectId, Position)>, s: Step) -> bool {
    ({
            let keep = Task::PowerbankHeal(pos, id, members);
            same_step(s, match partner {
                Some((aid, apos)) => if spec_near(apos, pos) && spec_near(me.pos, apos) {
                    (still(keep, None), if me.hits < me.hits_max { seq![Order::Heal(me.id)] } else { seq![Order::Heal(aid)] })
                } else {
                    (still(keep, Some(goal(Walker::Therapeutic, apos, 0, Avoid::Ranged))), Seq::<Order>::empty())
                },
                None => if spec_near(me.pos, pos) {
                    (TaskResult::Completed, seq![Order::Suicide])
                } else {
                    (TaskResult::Completed, seq![Order::Heal(me.id)])
                },
            })
        })
}

/// Heal the attacker (`partner`, the first other squad member, when alive)
/// while it hits the powerbank at `pos`, healing itself first when hurt;
/// else follow it. Without an attacker: retire by the powerbank, else heal
/// itself and wait for the squad.
pub fn pb_heal(pos: Position, id: ObjectId, members: Vec<String>, me: &CreepInfo, partner: Option<(ObjectId, Position)>) -> (s: Step)
    ensures
        spec_pb_heal_step(pos, id, members, *me, partner, s),
{
    match partner {
        Some((aid, apos)) => {
            if is_near_to(apos, pos) && is_near_to(me.pos, apos) {
                let mut v = no_orders();
                if me.hits < me.hits_max {
                    v.push(Order::Heal(me.id));
                } else {
                    v.push(Order::Heal(aid));
                }
                step(TaskResult::StillWorking(Task::PowerbankHeal(pos, id, members), None), v)
            } else {
                step(TaskResult::StillWorking(Task::PowerbankHeal(pos, id, members), walk(Walker::Therapeutic, apos, 0, Avoid::Ranged)), no_orders())
            }
        },
        None => {
            let mut v = no_orders();
            if is_near_to(me.pos, pos) {
                v.push(Order::Suicide);
            } else {
                v.push(Order::Heal(me.id));
            }
            step(TaskResult::Completed, v)
        },
    }
}

/// How a powerbank carrier's delivery ends the tick: walking goes on as
/// the carry task; any other end retires the carrier after the delivery.
pub open spec fn spec_pb_carry_after(pos: Position, id: ObjectId, inner: TaskResult, orders: Seq<Order>) -> (TaskResult, Seq<Order>) {
    match inner {
        TaskResult::StillWorking(_, g) => (TaskResult::StillWorking(Task::PowerbankCarry(pos, id), g), orders),
        other => (other, orders.push(Order::Suicide)),
    }
}

pub fn pb_carry_after(pos: Position, id: ObjectId, inner: Step) -> (s: Step)
    ensures
        (s.result, s.orders@) == spec_pb_carry_after(pos, id, inner.result, inner.orders@),
{
    let mut orders = inner.orders;
    match inner.result {
        TaskResult::StillWorking(_, g) => Step { result: TaskResult::StillWorking(Task::PowerbankCarry(pos, id), g), orders },
        other => {
            orders.push(Order::Suicide);
            Step { result: other, orders }
        },
    }
}

/// What a powerbank carrier reads around the powerbank once it is gone: the
/// first ruin holding power (its position, id and power) and the first pile
/// of more than fifty power on the ground.
#[derive(Clone, Copy, Debug)]
pub struct Leftovers {
    pub ruin: Option<(Position, ObjectId, u32)>,
    pub dropped: Option<(ObjectId, Position)>,
}

/// The contract of `pb_carry`, as a predicate of its result.
pub open spec fn spec_pb_carry_step(pos: Position, id: ObjectId, me: CreepInfo, hostiles: Seq<Unit>, place: Option<Bank>, powerbank_found: bool, left: Leftovers, t: Tick) -> bool {
    if spec_held(me.store@, Resource::Power) > 0 {
            match place {
                Some(b) => exists|inner: Tick| #[trigger] spec_deliver(b.pos, b.id, Resource::Power, None, me, Some((b.pos, b.free)), Avoid::Ranged, inner) && match inner {
                    Tick::Done(si) => is_done(t, spec_pb_carry_after(pos, id, si.result, si.orders@).0, spec_pb_carry_after(pos, id, si.result, si.orders@).1),
                    Tick::Await(vi, oi, pi) => is_await(t, vi@, oi, Pending::InPowerCarry(pos, id, Box::new(pi))),
                },
                None => is_done(t, TaskResult::Completed, Seq::empty()),
            }
        } else if me.pos.room != pos.room {
            is_done(t, still(Task::PowerbankCarry(pos, id), Some(goal(Walker::Exploring(false), pos, CLOSE_RANGE_ACTION, Avoid::Ranged))), Seq::empty())
        } else if spec_attacker_within(hostiles, me.pos, 4, crate::commons::Filter::Ranged) is Some {
            is_done(t, still(Task::Flee(FLEE_RANGE), Some(goal(Walker::Flee, spec_attacker_within(hostiles, me.pos, 4, crate::commons::Filter::Ranged)->0.pos, FLEE_RANGE, Avoid::Ranged))), Seq::empty())
        } else if spec_attacker_within(hostiles, me.pos, 7, crate::commons::Filter::Ranged) is Some {
            is_done(t, still(Task::PowerbankCarry(pos, id), None), Seq::empty())
        } else if spec_range(me.pos, pos) <= 3 {
            if !powerbank_found {
                match left.ruin {
                    Some((rpos, rid, used)) => spec_take_from(rpos, rid, Resource::Power, None, me, Some((rpos, used)), Avoid::Ranged, t),
                    None => match left.dropped {
                        Some((did, dpos)) => if spec_near(me.pos, dpos) {
                            is_await(t, Seq::empty(), Order::Pickup(did), Pending::Pickup(did))
                        } else {
                            is_done(t, still(Task::TakeResource(did), Some(goal(Walker::Exploring(false), dpos, CLOSE_RANGE_ACTION, Avoid::Ranged))), Seq::empty())
                        },
                        None => is_done(t, TaskResult::Completed, seq![Order::Suicide]),
                    },
                }
            } else {
                is_done(t, still(Task::PowerbankCarry(pos, id), None), seq![Order::Say(Sign::Smoking, true)])
            }
        } else {
            is_done(t, still(Task::PowerbankCarry(pos, id), Some(goal(Walker::Exploring(true), pos, LONG_RANGE_ACTION, Avoid::Ranged))), Seq::empty())
        }
}

/// Carry the power of the powerbank `id` at `pos` home: holding power,
/// deliver it to `place` (the home's place to store) and retire; else go
/// to the powerbank's room, keep away from ranged attackers, wait by the
/// powerbank while it stands, then empty its ruin or pick up the dropped
/// power, and retire when nothing is left.
pub fn pb_carry(pos: Position, id: ObjectId, me: &CreepInfo, hostiles: &[Unit], place: Option<Bank>, powerbank_found: bool, left: Leftovers) -> (t: Tick)
    requires
        me.pos.valid(),
        pos.valid(),
        units_valid(hostiles@),
    ensures
        spec_pb_carry_step(pos, id, *me, hostiles@, place, powerbank_found, left, t),
{
    if held(&me.store, Resource::Power) > 0 {
        return match place {
            Some(b) => {
                let inner = deliver_to_structure(b.pos, b.id, Resource::Power, None, me, Some((b.pos, b.free)), Avoid::Ranged);
                let ghost gi = inner;
                match inner {
                    Tick::Done(s) => Tick::Done(pb_carry_after(pos, id, s)),
                    Tick::Await(v, o, p) => Tick::Await(v, o, Pending::InPowerCarry(pos, id, Box::new(p))),
                }
            },
            None => done(TaskResult::Completed, no_orders()),
        };
    }
    if me.pos.room != pos.room {
        return done(TaskResult::StillWorking(Task::PowerbankCarry(pos, id), walk(Walker::Exploring(false), pos, CLOSE_RANGE_ACTION, Avoid::Ranged)), no_orders());
    }
    match attacker_within(hostiles, me.pos, 4, crate::commons::Filter::Ranged) {
        Some(apos) => {
            return done(TaskResult::StillWorking(Task::Flee(FLEE_RANGE), walk(Walker::Flee, apos, FLEE_RANGE, Avoid::Ranged)), no_orders());
        },
        None => {},
    }
    if attacker_within(hostiles, me.pos, 7, crate::commons::Filter::Ranged).is_some() {
        return done(TaskResult::StillWorking(Task::PowerbankCarry(pos, id), None), no_orders());
    }
    if in_range_to(me.pos, pos, 3) {
        if !powerbank_found {
            match left.ruin {
                Some((rpos, rid, used)) => take_from_structure(rpos, rid, Resource::Power, None, me, Some((rpos, used)), Avoid::Ranged),
                None => match left.dropped {
                    Some((did, dpos)) => take_resource(did, me, Some(dpos), Avoid::Ranged),
                    None => {
                        let mut v = no_orders();
                        v.push(Order::Suicide);
                        done(TaskResult::Completed, v)
                    },
                },
            }
        } else {
            done(TaskResult::StillWorking(Task::PowerbankCarry(pos, id), None), say(Sign::Smoking, true))
        }
    } else {
        done(TaskResult::StillWorking(Task::PowerbankCarry(pos, id), walk(Walker::Exploring(true), pos, LONG_RANGE_ACTION, Avoid::Ranged)), no_orders())
    }
}

/// The first ruin holding power, among ruins given as (position, id, power
/// held).
pub open spec fn spec_find_ruin(ruins: Seq<(Position, ObjectId, u32)>) -> Option<(Position, ObjectId, u32)>
    decreases ruins.len(),
{
    if ruins.len() == 0 {
        None
    } else if ruins[0].2 > 0 {
        Some(ruins[0])
    } else {
        spec_find_ruin(ruins.drop_first())
    }
}

pub fn find_ruin(ruins: &[(Position, ObjectId, u32)]) -> (r: Option<(Position, ObjectId, u32)>)
    ensures
        r == spec_find_ruin(ruins@),
{
    let mut i: usize = 0;
    assert(ruins@.skip(0) =~= ruins@);
    while i < ruins.len()
        invariant
            i <= ruins@.len(),
            spec_find_ruin(ruins@) == spec_find_ruin(ruins@.skip(i as int)),
        decreases ruins@.len() - i,
    {
        proof {
            assert(ruins@.skip(i as int).drop_first() =~= ruins@.skip(i + 1));
        }
        if ruins[i].2 > 0 {
            return Some(ruins[i]);
        }
        i = i + 1;
    }
    None
}

/// A powerbank attacker's tick keeps its squad's member list as it was:
/// every task it keeps or reports carries the same members, or none.
pub proof fn lemma_pb_attack_keeps_members(pos: Position, id: ObjectId, members: Vec<String>, me: CreepInfo, partner: Option<Position>, hostiles: Seq<Unit>, powerbank_found: bool, s: Step)
    requires
        spec_pb_attack_step(pos, id, members, me, partner, hostiles, powerbank_found, s),
    ensures
        result_keeps_members(s.result, members@),
{
}

/// A powerbank healer's tick keeps its squad's member list as it was:
/// every task it keeps or reports carries the same members, or none.
pub proof fn lemma_pb_heal_keeps_members(pos: Position, id: ObjectId, members: Vec<String>, me: CreepInfo, partner: Option<(ObjectId, Position)>, s: Step)
    requires
        spec_pb_heal_step(pos, id, members, me, partner, s),
    ensures
        result_keeps_members(s.result, members@),
{
}

} // verus!
