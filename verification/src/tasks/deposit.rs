use vstd::prelude::*;

use crate::body::BodyPart;
use crate::commons::{units_valid, Filter, Unit};
use crate::constants::CLOSE_RANGE_ACTION;
use crate::geometry::{in_range_to, is_near_to, spec_near, spec_range, Position};
use crate::orders::{same_step, Order, Sign, Step};
use crate::resources::Resource;
use crate::tasks::harvest::{attacker_within, is_full, spec_attacker_within, spec_is_full};
use crate::tasks::moves::{no_orders, say, step, still, FLEE_RANGE};
use crate::tasks::work::walk;
use crate::tasks::{goal, Avoid, ObjectId, Task, TaskResult, Walker};
use crate::units::{has_part, held, spec_has_part, spec_held, CreepInfo};

verus! {

/// A creep of this player next to `to` that can carry (a live carry part)
/// and does not mine (no work part at all): the first such.
pub open spec fn is_mule_for(to: Position) -> spec_fn(Unit) -> bool {
    |u: Unit| spec_near(u.pos, to) && spec_has_part(seq![BodyPart::Carry], u.body@, true) && !spec_has_part(seq![BodyPart::Work], u.body@, false)
}

/// A creep of this player with a work part (alive or not) holding
/// something.
pub open spec fn is_loaded_miner(u: Unit) -> bool {
    spec_has_part(seq![BodyPart::Work], u.body@, false) && u.store_used > 0
}

/// The first element of `s` passing `p`, by index.
pub open spec fn first_index<T>(s: Seq<T>, p: spec_fn(T) -> bool) -> Option<int>
    decreases s.len(),
{
    if s.len() == 0 {
        None
    } else if p(s.last()) {
        match first_index(s.drop_last(), p) {
            Some(i) => Some(i),
            None => Some(s.len() - 1),
        }
    } else {
        first_index(s.drop_last(), p)
    }
}

/// The index `first_index` finds holds an element satisfying the test,
/// and no earlier one does.
pub proof fn lemma_first_index<T>(s: Seq<T>, p: spec_fn(T) -> bool)
    ensures
        first_index(s, p) matches Some(i) ==> 0 <= i < s.len() && p(s[i]) && forall|j: int| 0 <= j < i ==> !p(#[trigger] s[j]),
        first_index(s, p) is None ==> forall|j: int| 0 <= j < s.len() ==> !p(#[trigger] s[j]),
    decreases s.len(),
{
    if s.len() > 0 {
        lemma_first_index(s.drop_last(), p);
        assert forall|j: int| 0 <= j < s.len() - 1 implies s.drop_last()[j] == s[j] by {}
    }
}

/// Stepping a prefix by one: the first index in the longer prefix.
pub proof fn lemma_first_index_step<T>(s: Seq<T>, p: spec_fn(T) -> bool, i: int)
    requires
        0 <= i < s.len(),
    ensures
        first_index(s.take(i + 1), p) == if first_index(s.take(i), p) is Some {
            first_index(s.take(i), p)
        } else if p(s[i]) {
            Some(i)
        } else {
            None
        },
{
    assert(s.take(i + 1).drop_last() =~= s.take(i));
}

/// A hauler next to `to` to hand the mined goods to.
pub fn get_near_by_hauler(to: Position, mine: &[Unit]) -> (r: Option<usize>)
    ensures
        crate::commons::opt_int(r) == first_index(mine@, is_mule_for(to)),
{
    let carry = [BodyPart::Carry];
    let work = [BodyPart::Work];
    assert(carry@ =~= seq![BodyPart::Carry]);
    assert(work@ =~= seq![BodyPart::Work]);
    let mut i: usize = 0;
    while i < mine.len()
        invariant
            carry@ == seq![BodyPart::Carry],
            work@ == seq![BodyPart::Work],
            i <= mine@.len(),
            first_index(mine@.take(i as int), is_mule_for(to)) is None,
        decreases mine@.len() - i,
    {
        proof {
            lemma_first_index_step(mine@, is_mule_for(to), i as int);
        }
        let u = &mine[i];
        if is_near_to(u.pos, to) && has_part(&carry, &u.body, true) && !has_part(&work, &u.body, false) {
            proof {
                lemma_first_index_prefix(mine@, is_mule_for(to), i as int);
            }
            return Some(i);
        }
        i = i + 1;
    }
    proof {
        assert(mine@.take(mine@.len() as int) =~= mine@);
    }
    None
}

/// The first index in the whole sequence is the first in a prefix that has
/// one.
pub proof fn lemma_first_index_prefix<T>(s: Seq<T>, p: spec_fn(T) -> bool, i: int)
    requires
        0 <= i < s.len(),
        first_index(s.take(i), p) is None,
        p(s[i]),
    ensures
        first_index(s, p) == Some(i),
{
    lemma_first_index_step(s, p, i);
    lemma_first_index_extend(s, p, i + 1);
}

/// Once a prefix has a first index, longer prefixes keep it.
pub proof fn lemma_first_index_extend<T>(s: Seq<T>, p: spec_fn(T) -> bool, n: int)
    requires
        0 <= n <= s.len(),
        first_index(s.take(n), p) is Some,
    ensures
        first_index(s, p) == first_index(s.take(n), p),
    decreases s.len() - n,
{
    if n == s.len() {
        assert(s.take(n) =~= s);
    } else {
        lemma_first_index_step(s, p, n);
        lemma_first_index_extend(s, p, n + 1);
    }
}

/// A miner of this player holding something.
pub fn loaded_miner(mine: &[Unit]) -> (r: Option<usize>)
    ensures
        crate::commons::opt_int(r) == first_index(mine@, |u: Unit| is_loaded_miner(u)),
{
    let work = [BodyPart::Work];
    assert(work@ =~= seq![BodyPart::Work]);
    let ghost p = |u: Unit| is_loaded_miner(u);
    let mut i: usize = 0;
    while i < mine.len()
        invariant
            work@ == seq![BodyPart::Work],
            p == (|u: Unit| is_loaded_miner(u)),
            i <= mine@.len(),
            first_index(mine@.take(i as int), p) is None,
        decreases mine@.len() - i,
    {
        proof {
            lemma_first_index_step(mine@, p, i as int);
        }
        let u = &mine[i];
        if has_part(&work, &u.body, false) && u.store_used > 0 {
            proof {
                lemma_first_index_prefix(mine@, p, i as int);
            }
            return Some(i);
        }
        i = i + 1;
    }
    proof {
        assert(mine@.take(mine@.len() as int) =~= mine@);
    }
    None
}

/// A tombstone and the resource types it holds.
#[derive(Clone, Debug)]
pub struct TombStore {
    pub pos: Position,
    pub id: ObjectId,
    pub types: Vec<Resource>,
}

/// The first tombstone holding something other than energy, with the first
/// such resource.
pub open spec fn spec_loaded_tomb(tombs: Seq<TombStore>) -> Option<(Position, ObjectId, Resource)>
    decreases tombs.len(),
{
    if tombs.len() == 0 {
        None
    } else {
        match crate::tasks::logistics::spec_get_resource(tombs[0].types@, Resource::Energy) {
            Some(r) => Some((tombs[0].pos, tombs[0].id, r)),
            None => spec_loaded_tomb(tombs.drop_first()),
        }
    }
}

pub fn loaded_tomb(tombs: &[TombStore]) -> (r: Option<(Position, ObjectId, Resource)>)
    ensures
        r == spec_loaded_tomb(tombs@),
{
    let mut i: usize = 0;
    assert(tombs@.skip(0) =~= tombs@);
    while i < tombs.len()
        invariant
            i <= tombs@.len(),
            spec_loaded_tomb(tombs@) == spec_loaded_tomb(tombs@.skip(i as int)),
        decreases tombs@.len() - i,
    {
        proof {
            assert(tombs@.skip(i as int).drop_first() =~= tombs@.skip(i + 1));
        }
        match crate::tasks::logistics::get_resource(&tombs[i].types, Resource::Energy) {
            Some(r) => {
                return Some((tombs[i].pos, tombs[i].id, r));
            },
            None => {},
        }
        i = i + 1;
    }
    None
}

/// What a deposit miner reads of the deposit.
#[derive(Clone, Copy, Debug, PartialEq, Eq, Structural)]
pub struct DepositView {
    pub cooldown: u32,
    pub deposit_type: Resource,
}

/// The contract of `deposit_mine`, as a predicate of its result.
pub open spec fn spec_deposit_mine_step(pos: Position, id: ObjectId, me: CreepInfo, hostiles: Seq<Unit>, deposit: Option<DepositView>, mule: Option<ObjectId>, s: Step) -> bool {
    same_step(s, if me.pos.room != pos.room {
            (TaskResult::RunAnother(Task::MoveMe(pos.room, Walker::Exploring(false))), Seq::<Order>::empty())
        } else if spec_attacker_within(hostiles, me.pos, 4, Filter::Attackers) is Some {
            (still(Task::Flee(FLEE_RANGE), Some(goal(Walker::Flee, spec_attacker_within(hostiles, me.pos, 4, Filter::Attackers)->0.pos, 5, Avoid::Attackers))), Seq::empty())
        } else if spec_near(me.pos, pos) {
            match deposit {
                Some(d) => (still(Task::DepositHarvest(pos, id), None), if d.cooldown == 0 && me.store_free > 0 {
                    seq![Order::Harvest(id)]
                } else if spec_held(me.store@, d.deposit_type) > 0 && mule is Some {
                    seq![Order::Transfer(mule->0, d.deposit_type, None)]
                } else {
                    seq![Order::Say(Sign::Smoking, true)]
                }),
                None => (TaskResult::ResolveRequest(Task::DepositHarvest(pos, id)), Seq::empty()),
            }
        } else {
            (still(Task::DepositHarvest(pos, id), Some(goal(Walker::Exploring(true), pos, CLOSE_RANGE_ACTION, Avoid::Attackers))), Seq::empty())
        })
}

/// Mine the deposit `id` at `pos`, handing the goods to a hauler next to
/// the miner (`mule`, see `get_near_by_hauler`).
pub fn deposit_mine(pos: Position, id: ObjectId, me: &CreepInfo, hostiles: &[Unit], deposit: Option<DepositView>, mule: Option<ObjectId>) -> (s: Step)
    requires
        me.pos.valid(),
        units_valid(hostiles@),
    ensures
        spec_deposit_mine_step(pos, id, *me, hostiles@, deposit, mule, s),
{
    if me.pos.room != pos.room {
        return step(TaskResult::RunAnother(Task::MoveMe(pos.room, Walker::Exploring(false))), no_orders());
    }
    match attacker_within(hostiles, me.pos, 4, Filter::Attackers) {
        Some(apos) => {
            return step(TaskResult::StillWorking(Task::Flee(FLEE_RANGE), walk(Walker::Flee, apos, 5, Avoid::Attackers)), no_orders());
        },
        None => {},
    }
    if is_near_to(me.pos, pos) {
        match deposit {
            Some(d) => {
                let mut v = no_orders();
                if d.cooldown == 0 && me.store_free > 0 {
                    v.push(Order::Harvest(id));
                } else if held(&me.store, d.deposit_type) > 0 && mule.is_some() {
                    v.push(Order::Transfer(mule.unwrap(), d.deposit_type, None));
                } else {
                    v.push(Order::Say(Sign::Smoking, true));
                }
                step(TaskResult::StillWorking(Task::DepositHarvest(pos, id), None), v)
            },
            None => step(TaskResult::ResolveRequest(Task::DepositHarvest(pos, id)), no_orders()),
        }
    } else {
        step(TaskResult::StillWorking(Task::DepositHarvest(pos, id), walk(Walker::Exploring(true), pos, CLOSE_RANGE_ACTION, Avoid::Attackers)), no_orders())
    }
}

/// The DepositCarry step with nothing to unload and no tombstone to empty.
pub open spec fn spec_deposit_carry_rest(pos: Position, me: CreepInfo, hostiles: Seq<Unit>, miner: Option<Position>) -> TaskResult {
    if me.pos.room != pos.room {
        still(Task::DepositCarry(pos), Some(goal(Walker::Exploring(false), pos, 4, Avoid::Attackers)))
    } else if miner is Some {
        still(Task::DepositCarry(pos), Some(goal(Walker::Exploring(true), miner->0, CLOSE_RANGE_ACTION, Avoid::Attackers)))
    } else if spec_attacker_within(hostiles, me.pos, 4, Filter::Attackers) is Some {
        still(Task::Flee(FLEE_RANGE), Some(goal(Walker::Flee, spec_attacker_within(hostiles, me.pos, 4, Filter::Attackers)->0.pos, 5, Avoid::Attackers)))
    } else if !(spec_range(me.pos, pos) <= 4) {
        still(Task::DepositCarry(pos), Some(goal(Walker::Exploring(true), pos, 4, Avoid::Attackers)))
    } else {
        still(Task::Idle(1), None)
    }
}

/// The contract of `deposit_carry`, as a predicate of its result.
pub open spec fn spec_deposit_carry_step(pos: Position, me: CreepInfo, hostiles: Seq<Unit>, place: Option<(Position, ObjectId)>, tomb: Option<(Position, ObjectId, Resource)>, miner: Option<Position>, s: Step) -> bool {
    same_step(s, (if spec_is_full(me.store_used, me.store_capacity) || (me.ticks_to_live matches Some(t) && t < 200 && me.store_used > 0) {
            match place {
                Some((cpos, cid)) => if me.store_types@.len() > 0 {
                    still(Task::DeliverToStructure(cpos, cid, me.store_types@[0], None), Some(goal(Walker::Exploring(false), cpos, CLOSE_RANGE_ACTION, Avoid::Attackers)))
                } else {
                    TaskResult::Abort
                },
                None => TaskResult::Abort,
            }
        } else {
            match tomb {
                Some((tpos, tid, tr)) => still(Task::TakeFromStructure(tpos, tid, tr, None), Some(goal(Walker::Exploring(false), tpos, CLOSE_RANGE_ACTION, Avoid::Attackers))),
                None => spec_deposit_carry_rest(pos, me, hostiles, miner),
            }
        }, Seq::<Order>::empty()))
}

/// Haul the goods of the deposit at `pos` home: full (or old and loaded)
/// deliver the first resource held to `place` (the home's place to store);
/// otherwise empty a loaded tombstone, go to the deposit's room, follow a
/// loaded miner, flee an attacker within four tiles, or wait near the
/// deposit.
pub fn deposit_carry(pos: Position, me: &CreepInfo, hostiles: &[Unit], place: Option<(Position, ObjectId)>, tomb: Option<(Position, ObjectId, Resource)>, miner: Option<Position>) -> (s: Step)
    requires
        me.pos.valid(),
        pos.valid(),
        units_valid(hostiles@),
    ensures
        spec_deposit_carry_step(pos, *me, hostiles@, place, tomb, miner, s),
{
    let old_and_loaded = match me.ticks_to_live {
        Some(t) => t < 200 && me.store_used > 0,
        None => false,
    };
    if is_full(me.store_used, me.store_capacity) || old_and_loaded {
        return match place {
            Some((cpos, cid)) => {
                if me.store_types.len() > 0 {
                    step(TaskResult::StillWorking(Task::DeliverToStructure(cpos, cid, me.store_types[0], None), walk(Walker::Exploring(false), cpos, CLOSE_RANGE_ACTION, Avoid::Attackers)), no_orders())
                } else {
                    step(TaskResult::Abort, no_orders())
                }
            },
            None => step(TaskResult::Abort, no_orders()),
        };
    }
    match tomb {
        Some((tpos, tid, r)) => {
            return step(TaskResult::StillWorking(Task::TakeFromStructure(tpos, tid, r, None), walk(Walker::Exploring(false), tpos, CLOSE_RANGE_ACTION, Avoid::Attackers)), no_orders());
        },
        None => {},
    }
    if me.pos.room != pos.room {
        return step(TaskResult::StillWorking(Task::DepositCarry(pos), walk(Walker::Exploring(false), pos, 4, Avoid::Attackers)), no_orders());
    }
    match miner {
        Some(mpos) => {
            return step(TaskResult::StillWorking(Task::DepositCarry(pos), walk(Walker::Exploring(true), mpos, CLOSE_RANGE_ACTION, Avoid::Attackers)), no_orders());
        },
        None => {},
    }
    match attacker_within(hostiles, me.pos, 4, Filter::Attackers) {
        Some(apos) => {
            return step(TaskResult::StillWorking(Task::Flee(FLEE_RANGE), walk(Walker::Flee, apos, 5, Avoid::Attackers)), no_orders());
        },
        None => {},
    }
    if !in_range_to(me.pos, pos, 4) {
        step(TaskResult::StillWorking(Task::DepositCarry(pos), walk(Walker::Exploring(true), pos, 4, Avoid::Attackers)), no_orders())
    } else {
        step(TaskResult::StillWorking(Task::Idle(1), None), no_orders())
    }
}

} // verus!
