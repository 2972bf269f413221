use vstd::prelude::*;

use crate::body::BodyPart;
use crate::commons::{
    closest_attacker, closest_by, filter_fn, find_closest_injured, lemma_fold_bounds, lemma_injured_bounds, opt_int,
    spec_closest_fold, spec_closest_injured, spec_in_range_count, spec_try_heal, spec_try_heal_is_ranged, try_heal,
    in_range_to as count_in_range, units_valid, Filter, Owner, Unit,
};
use crate::constants::{CLOSE_RANGE_ACTION, LONG_RANGE_ACTION};
use crate::geometry::{get_range_to, is_near_to, is_room_edge, spec_edge_xy, spec_near, spec_range, Position, RoomName};
use crate::objects::{is_first_min_by, StructureKind};
use crate::orders::{same_step, Order, Sign, Step};
use crate::tasks::deposit::{first_index, lemma_first_index, lemma_first_index_prefix, lemma_first_index_step};
use crate::tasks::moves::{no_orders, say, step, still};
use crate::tasks::work::walk;
use crate::tasks::{goal, Avoid, MovementGoal, ObjectId, Task, TaskResult, Walker};
use crate::units::{has_part, spec_has_part, CreepInfo};

verus! {

/// Which creeps a search for the first closest one considers.
#[derive(Clone, Copy, Debug, PartialEq, Eq, Structural)]
pub enum Pick {
    SourceKeeper,
    /// A caravan creep that heals and neither attacks nor carries.
    CaravanHealer,
    /// A caravan creep holding goods.
    CaravanCargo,
}

pub open spec fn pick_fn(p: Pick) -> spec_fn(Unit) -> bool {
    match p {
        Pick::SourceKeeper => |u: Unit| u.owner == Owner::SourceKeeper,
        Pick::CaravanHealer => |u: Unit| u.owner == Owner::Caravan && spec_has_part(seq![BodyPart::Heal], u.body@, false)
            && !spec_has_part(seq![BodyPart::RangedAttack, BodyPart::Attack, BodyPart::Carry], u.body@, false),
        Pick::CaravanCargo => |u: Unit| u.owner == Owner::Caravan && u.store_used > 0,
    }
}

pub open spec fn unit_range_to(to: Position) -> spec_fn(Unit) -> int {
    |u: Unit| spec_range(u.pos, to)
}

/// The first of the creeps picked that stands closest to `to`, by a left
/// fold in which only a strictly closer creep replaces the one held.
pub open spec fn spec_first_closest(s: Seq<Unit>, to: Position, p: spec_fn(Unit) -> bool) -> Option<int>
    decreases s.len(),
{
    if s.len() == 0 {
        None
    } else {
        let i = s.len() - 1;
        let acc = spec_first_closest(s.drop_last(), to, p);
        if !p(s[i]) {
            acc
        } else {
            match acc {
                None => Some(i),
                Some(a) => if spec_range(s[i].pos, to) < spec_range(s[a].pos, to) { Some(i) } else { Some(a) },
            }
        }
    }
}

/// The creep `spec_first_closest` picks is one of the creeps searched.
pub proof fn lemma_first_closest_bounds(s: Seq<Unit>, to: Position, p: spec_fn(Unit) -> bool)
    ensures
        spec_first_closest(s, to, p) matches Some(i) ==> 0 <= i < s.len(),
    decreases s.len(),
{
    if s.len() > 0 {
        lemma_first_closest_bounds(s.drop_last(), to, p);
    }
}

/// The first of the creeps picked that stands closest to `to`.
pub fn first_closest(to: Position, units: &[Unit], p: Pick) -> (r: Option<usize>)
    requires
        to.valid(),
        units_valid(units@),
    ensures
        opt_int(r) == spec_first_closest(units@, to, pick_fn(p)),
        r matches Some(i) ==> i < units@.len(),
{
    let ghost f = pick_fn(p);
    let heal = [BodyPart::Heal];
    let fighting = [BodyPart::RangedAttack, BodyPart::Attack, BodyPart::Carry];
    assert(heal@ =~= seq![BodyPart::Heal]);
    assert(fighting@ =~= seq![BodyPart::RangedAttack, BodyPart::Attack, BodyPart::Carry]);
    let mut best: Option<usize> = None;
    let mut i: usize = 0;
    while i < units.len()
        invariant
            to.valid(),
            units_valid(units@),
            heal@ == seq![BodyPart::Heal],
            fighting@ == seq![BodyPart::RangedAttack, BodyPart::Attack, BodyPart::Carry],
            f == pick_fn(p),
            i <= units@.len(),
            opt_int(best) == spec_first_closest(units@.take(i as int), to, f),
        decreases units@.len() - i,
    {
        proof {
            assert(units@.take(i + 1).drop_last() =~= units@.take(i as int));
            lemma_first_closest_bounds(units@.take(i as int), to, f);
        }
        let u = &units[i];
        let pass = match p {
            Pick::SourceKeeper => u.owner == Owner::SourceKeeper,
            Pick::CaravanHealer => u.owner == Owner::Caravan && has_part(&heal, &u.body, false) && !has_part(&fighting, &u.body, false),
            Pick::CaravanCargo => u.owner == Owner::Caravan && u.store_used > 0,
        };
        if pass {
            match best {
                None => {
                    best = Some(i);
                },
                Some(a) => {
                    if get_range_to(u.pos, to) < get_range_to(units[a].pos, to) {
                        best = Some(i);
                    }
                },
            }
        }
        i = i + 1;
    }
    proof {
        assert(units@.take(units@.len() as int) =~= units@);
        lemma_first_closest_bounds(units@, to, f);
    }
    best
}

/// The fighting intents and the walk of a ranged fighter against `closest`:
/// with more than two hostiles within three tiles hit them all, else shoot
/// `closest` when within three or the first hostile within three, healing
/// itself along; with nobody in range heal as `try_heal` says. Then keep
/// one tile from `closest`, back off from a melee attacker (no invader)
/// that came adjacent, and hold still when such a one is two or three
/// tiles away.
pub open spec fn spec_combat(me: CreepInfo, closest: Unit, hostiles: Seq<Unit>, mine: Seq<Unit>) -> (Seq<Order>, Option<MovementGoal>) {
    let orders = if spec_in_range_count(hostiles, me.pos, LONG_RANGE_ACTION) > 2 {
        seq![Order::RangedMassAttack, Order::Heal(me.id)]
    } else if spec_range(me.pos, closest.pos) <= 3 {
        seq![Order::RangedAttack(closest.id), Order::Heal(me.id)]
    } else {
        match first_index(hostiles, within_of(me.pos)) {
            Some(e) => seq![Order::RangedAttack(hostiles[e].id), Order::Heal(me.id)],
            None => seq![if spec_try_heal_is_ranged(me.pos, mine) {
                Order::RangedHeal(spec_try_heal(me.id, me.pos, mine))
            } else {
                Order::Heal(spec_try_heal(me.id, me.pos, mine))
            }],
        }
    };
    let r = spec_range(me.pos, closest.pos);
    let melee = spec_has_part(seq![BodyPart::Attack], closest.body@, true);
    let g = if r == 1 && closest.owner != Owner::Invader && melee {
        Some(goal(Walker::Flee, closest.pos, LONG_RANGE_ACTION, Avoid::Nobody))
    } else if r == 1 {
        Some(goal(Walker::Exploring(false), closest.pos, 0, Avoid::Nobody))
    } else if (r == 2 || r == 3) && closest.owner != Owner::Invader && melee {
        None
    } else {
        Some(goal(Walker::Exploring(false), closest.pos, 1, Avoid::Nobody))
    };
    (orders, g)
}

pub open spec fn within_of(at: Position) -> spec_fn(Unit) -> bool {
    |u: Unit| spec_range(at, u.pos) <= LONG_RANGE_ACTION
}

pub open spec fn adjacent_to(at: Position) -> spec_fn(Unit) -> bool {
    |u: Unit| spec_near(u.pos, at)
}

/// The first hostile within three tiles of `at`.
pub fn first_within(at: Position, hostiles: &[Unit]) -> (r: Option<usize>)
    requires
        at.valid(),
        units_valid(hostiles@),
    ensures
        opt_int(r) == first_index(hostiles@, within_of(at)),
        r matches Some(i) ==> i < hostiles@.len(),
{
    let ghost p = within_of(at);
    let mut i: usize = 0;
    while i < hostiles.len()
        invariant
            at.valid(),
            units_valid(hostiles@),
            p == within_of(at),
            i <= hostiles@.len(),
            first_index(hostiles@.take(i as int), p) is None,
        decreases hostiles@.len() - i,
    {
        proof {
            lemma_first_index_step(hostiles@, p, i as int);
        }
        if get_range_to(at, hostiles[i].pos) <= LONG_RANGE_ACTION {
            proof {
                lemma_first_index_prefix(hostiles@, p, i as int);
            }
            return Some(i);
        }
        i = i + 1;
    }
    proof {
        assert(hostiles@.take(hostiles@.len() as int) =~= hostiles@);
    }
    None
}

/// The first hostile next to `at`.
pub fn first_adjacent(at: Position, hostiles: &[Unit]) -> (r: Option<usize>)
    ensures
        opt_int(r) == first_index(hostiles@, adjacent_to(at)),
        r matches Some(i) ==> i < hostiles@.len(),
{
    let ghost p = adjacent_to(at);
    let mut i: usize = 0;
    while i < hostiles.len()
        invariant
            p == adjacent_to(at),
            i <= hostiles@.len(),
            first_index(hostiles@.take(i as int), p) is None,
        decreases hostiles@.len() - i,
    {
        proof {
            lemma_first_index_step(hostiles@, p, i as int);
        }
        if is_near_to(hostiles[i].pos, at) {
            proof {
                lemma_first_index_prefix(hostiles@, p, i as int);
            }
            return Some(i);
        }
        i = i + 1;
    }
    proof {
        assert(hostiles@.take(hostiles@.len() as int) =~= hostiles@);
    }
    None
}

pub fn combat(me: &CreepInfo, closest: &Unit, hostiles: &[Unit], mine: &[Unit]) -> (r: (Vec<Order>, Option<MovementGoal>))
    requires
        me.pos.valid(),
        closest.pos.valid(),
        units_valid(hostiles@),
        units_valid(mine@),
    ensures
        (r.0@, r.1) == spec_combat(*me, *closest, hostiles@, mine@),
{
    let mut orders = no_orders();
    if count_in_range(me.pos, hostiles, LONG_RANGE_ACTION) > 2 {
        orders.push(Order::RangedMassAttack);
        orders.push(Order::Heal(me.id));
    } else if get_range_to(me.pos, closest.pos) <= 3 {
        orders.push(Order::RangedAttack(closest.id));
        orders.push(Order::Heal(me.id));
    } else {
        let found = first_within(me.pos, hostiles);
        match found {
            Some(e) => {
                orders.push(Order::RangedAttack(hostiles[e].id));
                orders.push(Order::Heal(me.id));
            },
            None => {
                orders.push(try_heal(me.id, me.pos, mine));
            },
        }
    }
    let melee = [BodyPart::Attack];
    assert(melee@ =~= seq![BodyPart::Attack]);
    let r = get_range_to(me.pos, closest.pos);
    let attacks = has_part(&melee, &closest.body, true);
    let g = if r == 1 && closest.owner != Owner::Invader && attacks {
        walk(Walker::Flee, closest.pos, LONG_RANGE_ACTION, Avoid::Nobody)
    } else if r == 1 {
        walk(Walker::Exploring(false), closest.pos, 0, Avoid::Nobody)
    } else if (r == 2 || r == 3) && closest.owner != Owner::Invader && attacks {
        None
    } else {
        walk(Walker::Exploring(false), closest.pos, 1, Avoid::Nobody)
    };
    (orders, g)
}

pub open spec fn pick<T>(s: Seq<T>, i: Option<int>) -> Option<T> {
    match i {
        Some(k) => Some(s[k]),
        None => None,
    }
}

/// The contract of `defend`, as a predicate of its result.
pub open spec fn spec_defend_step(room: RoomName, requested: bool, me: CreepInfo, hostiles: Seq<Unit>, mine: Seq<Unit>, s: Step) -> bool {
    same_step(s, if me.pos.room != room {
            (TaskResult::RunAnother(Task::MoveMe(room, Walker::Aggressive)), Seq::<Order>::empty())
        } else {
            match pick(hostiles, spec_closest_fold(hostiles, me.pos, crate::commons::attacker_filter())) {
                Some(a) => (still(Task::Defend(room, requested), spec_combat(me, a, hostiles, mine).1), spec_combat(me, a, hostiles, mine).0),
                None => if requested {
                    (TaskResult::ResolveRequest(Task::Defend(room, requested)), Seq::empty())
                } else if hostiles.len() > 0 {
                    (still(Task::Defend(room, requested), spec_combat(me, hostiles[0], hostiles, mine).1), spec_combat(me, hostiles[0], hostiles, mine).0)
                } else {
                    match pick(mine, spec_closest_injured(mine, me.pos, Some(me.name@))) {
                        Some(i) => (still(Task::Defend(room, requested), Some(goal(Walker::Therapeutic, i.pos, 0, Avoid::Hostiles))), Seq::empty()),
                        None => (TaskResult::Completed, seq![Order::Say(Sign::Smoking, false), Order::Heal(me.id)]),
                    }
                },
            }
        })
}

/// Defend `room`: travel there; fight the closest attacker; with none left
/// end a requested defence; else fight any hostile, heal the closest
/// injured creep of this player, or rest.
pub fn defend(room: RoomName, requested: bool, me: &CreepInfo, hostiles: &[Unit], mine: &[Unit]) -> (s: Step)
    requires
        me.pos.valid(),
        units_valid(hostiles@),
        units_valid(mine@),
    ensures
        spec_defend_step(room, requested, *me, hostiles@, mine@, s),
{
    if me.pos.room != room {
        return step(TaskResult::RunAnother(Task::MoveMe(room, Walker::Aggressive)), no_orders());
    }
    match closest_attacker(me.pos, hostiles) {
        Some(k) => {
            proof {
                lemma_fold_bounds(hostiles@, me.pos, crate::commons::attacker_filter());
            }
            let (orders, g) = combat(me, &hostiles[k], hostiles, mine);
            return step(TaskResult::StillWorking(Task::Defend(room, requested), g), orders);
        },
        None => {},
    }
    if requested {
        step(TaskResult::ResolveRequest(Task::Defend(room, requested)), no_orders())
    } else if hostiles.len() > 0 {
        let (orders, g) = combat(me, &hostiles[0], hostiles, mine);
        step(TaskResult::StillWorking(Task::Defend(room, requested), g), orders)
    } else {
        match find_closest_injured(me.pos, mine, Some(me.name.as_str())) {
            Some(i) => {
                proof {
                    lemma_injured_bounds(mine@, me.pos, Some(me.name@));
                }
                step(TaskResult::StillWorking(Task::Defend(room, requested), walk(Walker::Therapeutic, mine[i].pos, 0, Avoid::Hostiles)), no_orders())
            },
            None => {
                let mut v = say(Sign::Smoking, false);
                v.push(Order::Heal(me.id));
                step(TaskResult::Completed, v)
            },
        }
    }
}

/// The first keeper lair with the fewest ticks to spawn (a lair not
/// spawning counts below any count), among lairs given as (position, ticks
/// to spawn).
pub open spec fn spec_fastest_lair(lairs: Seq<(Position, Option<u32>)>) -> Option<int>
    decreases lairs.len(),
{
    if lairs.len() == 0 {
        None
    } else {
        let i = lairs.len() - 1;
        match spec_fastest_lair(lairs.drop_last()) {
            None => Some(i),
            Some(a) => if crate::tasks::harvest::opt_gt(lairs[a].1, lairs[i].1) { Some(i) } else { Some(a) },
        }
    }
}

proof fn lemma_lair_bounds(lairs: Seq<(Position, Option<u32>)>)
    ensures
        spec_fastest_lair(lairs) matches Some(i) ==> 0 <= i < lairs.len(),
    decreases lairs.len(),
{
    if lairs.len() > 0 {
        lemma_lair_bounds(lairs.drop_last());
    }
}

pub fn find_fastest_keeper_lair_spawn(lairs: &[(Position, Option<u32>)]) -> (r: Option<usize>)
    ensures
        opt_int(r) == spec_fastest_lair(lairs@),
{
    let mut best: Option<usize> = None;
    let mut i: usize = 0;
    while i < lairs.len()
        invariant
            i <= lairs@.len(),
            opt_int(best) == spec_fastest_lair(lairs@.take(i as int)),
        decreases lairs@.len() - i,
    {
        proof {
            assert(lairs@.take(i + 1).drop_last() =~= lairs@.take(i as int));
            lemma_lair_bounds(lairs@.take(i as int));
        }
        match best {
            None => {
                best = Some(i);
            },
            Some(a) => {
                let later = match (lairs[a].1, lairs[i].1) {
                    (Some(x), Some(y)) => x > y,
                    (Some(_), None) => true,
                    (None, _) => false,
                };
                if later {
                    best = Some(i);
                }
            },
        }
        i = i + 1;
    }
    proof {
        assert(lairs@.take(lairs@.len() as int) =~= lairs@);
    }
    best
}

/// The contract of `oversee`, as a predicate of its result.
pub open spec fn spec_oversee_step(room: RoomName, target: Option<(Position, u32)>, me: CreepInfo, hostiles: Seq<Unit>, lair: Option<Position>, s: Step) -> bool {
    if me.pos.room != room {
            (s.result, s.orders@) == match target {
                Some((p, r)) => (still(Task::Oversee(room, Some((p, r))), Some(goal(Walker::Aggressive, p, r, Avoid::Hostiles))), Seq::<Order>::empty()),
                None => (TaskResult::RunAnother(Task::MoveMe(room, Walker::Aggressive)), Seq::empty()),
            }
        } else {
            (s.result, s.orders@) == match pick(hostiles, spec_first_closest(hostiles, me.pos, pick_fn(Pick::SourceKeeper))) {
                Some(sk) => if spec_near(me.pos, sk.pos) {
                    (still(Task::Oversee(room, Some((sk.pos, 0))), Some(goal(Walker::Aggressive, sk.pos, 0, Avoid::Hostiles))), Seq::<Order>::empty())
                } else {
                    (still(Task::Oversee(room, Some((sk.pos, 1))), Some(goal(Walker::Aggressive, sk.pos, 1, Avoid::Hostiles))), Seq::empty())
                },
                None => match lair {
                    Some(lp) => (still(Task::Oversee(room, Some((lp, 1))), Some(goal(Walker::Aggressive, lp, 1, Avoid::Hostiles))), Seq::empty()),
                    None => (TaskResult::Completed, seq![Order::Say(Sign::Smoking, false)]),
                },
            }
        }
}

/// Guard a source keeper room: travel there (to the remembered target or
/// the room), stand by the closest keeper, else wait by the lair that
/// spawns next (`lair`), else rest.
pub fn oversee(room: RoomName, target: Option<(Position, u32)>, me: &CreepInfo, hostiles: &[Unit], lair: Option<Position>) -> (s: Step)
    requires
        me.pos.valid(),
        units_valid(hostiles@),
    ensures
        spec_oversee_step(room, target, *me, hostiles@, lair, s),
{
    if me.pos.room != room {
        return match target {
            Some((p, r)) => step(TaskResult::StillWorking(Task::Oversee(room, Some((p, r))), walk(Walker::Aggressive, p, r, Avoid::Hostiles)), no_orders()),
            None => step(TaskResult::RunAnother(Task::MoveMe(room, Walker::Aggressive)), no_orders()),
        };
    }
    match first_closest(me.pos, hostiles, Pick::SourceKeeper) {
        Some(k) => {
            let sk = hostiles[k].pos;
            if is_near_to(me.pos, sk) {
                step(TaskResult::StillWorking(Task::Oversee(room, Some((sk, 0))), walk(Walker::Aggressive, sk, 0, Avoid::Hostiles)), no_orders())
            } else {
                step(TaskResult::StillWorking(Task::Oversee(room, Some((sk, 1))), walk(Walker::Aggressive, sk, 1, Avoid::Hostiles)), no_orders())
            }
        },
        None => match lair {
            Some(lp) => step(TaskResult::StillWorking(Task::Oversee(room, Some((lp, 1))), walk(Walker::Aggressive, lp, 1, Avoid::Hostiles)), no_orders()),
            None => step(TaskResult::Completed, say(Sign::Smoking, false)),
        },
    }
}

/// The contract of `find_heal`, as a predicate of its result.
pub open spec fn spec_find_heal_step(room: RoomName, me: CreepInfo, mine: Seq<Unit>, avoid: Avoid, s: Step) -> bool {
    same_step(s, if me.pos.room != room {
            (TaskResult::RunAnother(Task::MoveMe(room, Walker::Aggressive)), Seq::<Order>::empty())
        } else {
            match pick(mine, spec_closest_injured(mine, me.pos, Some(me.name@))) {
                Some(i) => (still(Task::FindHeal(room), Some(goal(Walker::Aggressive, i.pos, 0, avoid))), Seq::empty()),
                None => (TaskResult::Completed, seq![Order::Say(Sign::Smoking, false)]),
            }
        })
}

/// Find a creep of this player to heal in `room`: travel there, walk to the
/// closest injured one (keeping clear of the hostiles `avoid` names), or
/// rest.
pub fn find_heal(room: RoomName, me: &CreepInfo, mine: &[Unit], avoid: Avoid) -> (s: Step)
    requires
        me.pos.valid(),
        units_valid(mine@),
    ensures
        spec_find_heal_step(room, *me, mine@, avoid, s),
{
    if me.pos.room != room {
        return step(TaskResult::RunAnother(Task::MoveMe(room, Walker::Aggressive)), no_orders());
    }
    match find_closest_injured(me.pos, mine, Some(me.name.as_str())) {
        Some(i) => {
            proof {
                lemma_injured_bounds(mine@, me.pos, Some(me.name@));
            }
            step(TaskResult::StillWorking(Task::FindHeal(room), walk(Walker::Aggressive, mine[i].pos, 0, avoid)), no_orders())
        },
        None => step(TaskResult::Completed, say(Sign::Smoking, false)),
    }
}

/// The contract of `crash`, as a predicate of its result.
pub open spec fn spec_crash_step(id: ObjectId, pos: Position, me: CreepInfo, found: bool, s: Step) -> bool {
    same_step(s, if pos.room != me.pos.room {
            (TaskResult::RunAnother(Task::MoveMe(pos.room, Walker::Aggressive)), Seq::<Order>::empty())
        } else if !spec_near(me.pos, pos) {
            (still(Task::Crash(id, pos), Some(goal(Walker::Aggressive, pos, 1, Avoid::Ranged))), Seq::empty())
        } else if found {
            (still(Task::Crash(id, pos), None), seq![Order::Say(Sign::Boxing, true), Order::Attack(id)])
        } else {
            (TaskResult::ResolveRequest(Task::Crash(id, pos)), Seq::empty())
        })
}

/// Destroy the invader core `id` at `pos`: travel to its room, step next
/// to it and hit it; once it is gone (`found` false) the request is done.
pub fn crash(id: ObjectId, pos: Position, me: &CreepInfo, found: bool) -> (s: Step)
    ensures
        spec_crash_step(id, pos, *me, found, s),
{
    if pos.room != me.pos.room {
        step(TaskResult::RunAnother(Task::MoveMe(pos.room, Walker::Aggressive)), no_orders())
    } else if !is_near_to(me.pos, pos) {
        step(TaskResult::StillWorking(Task::Crash(id, pos), walk(Walker::Aggressive, pos, 1, Avoid::Ranged)), no_orders())
    } else if found {
        let mut v = say(Sign::Boxing, true);
        v.push(Order::Attack(id));
        step(TaskResult::StillWorking(Task::Crash(id, pos), None), v)
    } else {
        step(TaskResult::ResolveRequest(Task::Crash(id, pos)), no_orders())
    }
}

/// The smallest range from `p` to one of the hostiles, if there are any.
pub open spec fn spec_min_distance(p: Position, hostiles: Seq<Unit>) -> Option<int>
    decreases hostiles.len(),
{
    if hostiles.len() == 0 {
        None
    } else {
        let d = spec_range(p, hostiles.last().pos);
        match spec_min_distance(p, hostiles.drop_last()) {
            None => Some(d),
            Some(m) => if d < m { Some(d) } else { Some(m) },
        }
    }
}

pub fn min_distance(p: Position, hostiles: &[Unit]) -> (r: Option<u32>)
    requires
        p.valid(),
        units_valid(hostiles@),
    ensures
        match r {
            Some(d) => spec_min_distance(p, hostiles@) == Some(d as int),
            None => spec_min_distance(p, hostiles@) is None,
        },
{
    let mut best: Option<u32> = None;
    let mut i: usize = 0;
    while i < hostiles.len()
        invariant
            p.valid(),
            units_valid(hostiles@),
            i <= hostiles@.len(),
            match best {
                Some(d) => spec_min_distance(p, hostiles@.take(i as int)) == Some(d as int),
                None => spec_min_distance(p, hostiles@.take(i as int)) is None,
            },
        decreases hostiles@.len() - i,
    {
        proof {
            assert(hostiles@.take(i + 1).drop_last() =~= hostiles@.take(i as int));
        }
        let d = get_range_to(p, hostiles[i].pos);
        match best {
            None => {
                best = Some(d);
            },
            Some(m) => {
                if d < m {
                    best = Some(d);
                }
            },
        }
        i = i + 1;
    }
    proof {
        assert(hostiles@.take(hostiles@.len() as int) =~= hostiles@);
    }
    best
}

/// The rampart to man against the hostiles: among this player's ramparts
/// (given as position and whether it can be walked onto) that the creep
/// stands on or can walk onto, the first whose closest hostile is nearest.
/// With no hostiles there is none.
pub open spec fn spec_closest_rampart(to: Position, ramparts: Seq<(Position, bool)>, hostiles: Seq<Unit>) -> Option<(int, int)>
    decreases ramparts.len(),
{
    if ramparts.len() == 0 {
        None
    } else {
        let i = ramparts.len() - 1;
        let acc = spec_closest_rampart(to, ramparts.drop_last(), hostiles);
        let r = ramparts[i];
        if !(r.0 == to || r.1) {
            acc
        } else {
            match spec_min_distance(r.0, hostiles) {
                None => acc,
                Some(d) => match acc {
                    None => Some((i, d)),
                    Some((a, ad)) => if d < ad { Some((i, d)) } else { Some((a, ad)) },
                },
            }
        }
    }
}

proof fn lemma_rampart_bounds(to: Position, ramparts: Seq<(Position, bool)>, hostiles: Seq<Unit>)
    ensures
        spec_closest_rampart(to, ramparts, hostiles) matches Some((i, _)) ==> 0 <= i < ramparts.len(),
    decreases ramparts.len(),
{
    if ramparts.len() > 0 {
        lemma_rampart_bounds(to, ramparts.drop_last(), hostiles);
    }
}

pub fn get_closest_walkable_rampart(to: Position, ramparts: &[(Position, bool)], hostiles: &[Unit]) -> (r: Option<usize>)
    requires
        units_valid(hostiles@),
        forall|i: int| 0 <= i < ramparts@.len() ==> (#[trigger] ramparts@[i]).0.valid(),
    ensures
        match r {
            Some(i) => spec_closest_rampart(to, ramparts@, hostiles@) matches Some((j, _)) && j == i,
            None => spec_closest_rampart(to, ramparts@, hostiles@) is None,
        },
{
    let mut best: Option<(usize, u32)> = None;
    let mut i: usize = 0;
    while i < ramparts.len()
        invariant
            units_valid(hostiles@),
            forall|k: int| 0 <= k < ramparts@.len() ==> (#[trigger] ramparts@[k]).0.valid(),
            i <= ramparts@.len(),
            match best {
                Some((b, d)) => spec_closest_rampart(to, ramparts@.take(i as int), hostiles@) == Some((b as int, d as int)),
                None => spec_closest_rampart(to, ramparts@.take(i as int), hostiles@) is None,
            },
        decreases ramparts@.len() - i,
    {
        proof {
            assert(ramparts@.take(i + 1).drop_last() =~= ramparts@.take(i as int));
        }
        let (rpos, walkable) = ramparts[i];
        if rpos == to || walkable {
            match min_distance(rpos, hostiles) {
                None => {},
                Some(d) => match best {
                    None => {
                        best = Some((i, d));
                    },
                    Some((_, ad)) => {
                        if d < ad {
                            best = Some((i, d));
                        }
                    },
                },
            }
        }
        i = i + 1;
    }
    proof {
        assert(ramparts@.take(ramparts@.len() as int) =~= ramparts@);
    }
    match best {
        Some((b, _)) => Some(b),
        None => None,
    }
}

/// The contract of `defend_home`, as a predicate of its result.
pub open spec fn spec_defend_home_step(me: CreepInfo, hostiles: Seq<Unit>, rampart: Option<Position>, s: Step) -> bool {
    (s.result == still(Task::DefendHome, match rampart {
            Some(r) => Some(goal(Walker::Aggressive, r, 0, Avoid::Hostiles)),
            None => None,
        })) && (s.orders@ =~= match first_index(hostiles, adjacent_to(me.pos)) {
            Some(i) => seq![Order::Attack(hostiles[i].id)],
            None => Seq::<Order>::empty(),
        })
}

/// Defend the home from its ramparts: hit the first hostile next to the
/// creep, and walk to `rampart` (see `get_closest_walkable_rampart`).
pub fn defend_home(me: &CreepInfo, hostiles: &[Unit], rampart: Option<Position>) -> (s: Step)
    ensures
        spec_defend_home_step(*me, hostiles@, rampart, s),
{
    let mut v = no_orders();
    match first_adjacent(me.pos, hostiles) {
        Some(i) => v.push(Order::Attack(hostiles[i].id)),
        None => {},
    }
    let g = match rampart {
        Some(r) => walk(Walker::Aggressive, r, 0, Avoid::Hostiles),
        None => None,
    };
    step(TaskResult::StillWorking(Task::DefendHome, g), v)
}

/// A structure in a room a protector raids.
#[derive(Clone, Copy, Debug, PartialEq, Eq, Structural)]
pub struct Building {
    pub id: ObjectId,
    pub pos: Position,
    pub kind: StructureKind,
    /// It can be attacked at all.
    pub attackable: bool,
}

pub open spec fn building_wanted(b: Building, towers: bool) -> bool {
    if towers {
        b.kind == StructureKind::Tower
    } else {
        b.kind == StructureKind::Spawn || b.kind == StructureKind::Extension
    }
}

/// The first tower (or, without `towers`, spawn or extension) closest to
/// `to`, by a left fold in which only a strictly closer one replaces the
/// one held.
pub open spec fn spec_closest_building(s: Seq<Building>, to: Position, towers: bool) -> Option<int>
    decreases s.len(),
{
    if s.len() == 0 {
        None
    } else {
        let i = s.len() - 1;
        let acc = spec_closest_building(s.drop_last(), to, towers);
        if !building_wanted(s[i], towers) {
            acc
        } else {
            match acc {
                None => Some(i),
                Some(a) => if spec_range(to, s[i].pos) < spec_range(to, s[a].pos) { Some(i) } else { Some(a) },
            }
        }
    }
}

proof fn lemma_building_bounds(s: Seq<Building>, to: Position, towers: bool)
    ensures
        spec_closest_building(s, to, towers) matches Some(i) ==> 0 <= i < s.len(),
    decreases s.len(),
{
    if s.len() > 0 {
        lemma_building_bounds(s.drop_last(), to, towers);
    }
}

pub open spec fn buildings_valid(s: Seq<Building>) -> bool {
    forall|i: int| 0 <= i < s.len() ==> (#[trigger] s[i]).pos.valid()
}

/// The closest tower (`towers`), or spawn or extension, to `to`.
pub fn closest_building(to: Position, bs: &[Building], towers: bool) -> (r: Option<usize>)
    requires
        to.valid(),
        buildings_valid(bs@),
    ensures
        opt_int(r) == spec_closest_building(bs@, to, towers),
        r matches Some(i) ==> i < bs@.len(),
{
    let mut best: Option<usize> = None;
    let mut i: usize = 0;
    while i < bs.len()
        invariant
            to.valid(),
            buildings_valid(bs@),
            i <= bs@.len(),
            opt_int(best) == spec_closest_building(bs@.take(i as int), to, towers),
        decreases bs@.len() - i,
    {
        proof {
            assert(bs@.take(i + 1).drop_last() =~= bs@.take(i as int));
            lemma_building_bounds(bs@.take(i as int), to, towers);
        }
        let b = bs[i];
        let wanted = if towers {
            b.kind == StructureKind::Tower
        } else {
            b.kind == StructureKind::Spawn || b.kind == StructureKind::Extension
        };
        if wanted {
            match best {
                None => {
                    best = Some(i);
                },
                Some(a) => {
                    if get_range_to(to, b.pos) < get_range_to(to, bs[a].pos) {
                        best = Some(i);
                    }
                },
            }
        }
        i = i + 1;
    }
    proof {
        assert(bs@.take(bs@.len() as int) =~= bs@);
        lemma_building_bounds(bs@, to, towers);
    }
    best
}

pub open spec fn in_reach_of(to: Position) -> spec_fn(Building) -> bool {
    |b: Building| spec_range(b.pos, to) <= 3 && b.attackable
}

/// The first attackable structure within three tiles of `to`.
pub fn any_in_range_structure(to: Position, bs: &[Building]) -> (r: Option<usize>)
    requires
        to.valid(),
        buildings_valid(bs@),
    ensures
        opt_int(r) == first_index(bs@, in_reach_of(to)),
        r matches Some(i) ==> i < bs@.len(),
{
    let ghost p = in_reach_of(to);
    let mut i: usize = 0;
    while i < bs.len()
        invariant
            to.valid(),
            buildings_valid(bs@),
            p == in_reach_of(to),
            i <= bs@.len(),
            first_index(bs@.take(i as int), p) is None,
        decreases bs@.len() - i,
    {
        proof {
            lemma_first_index_step(bs@, p, i as int);
        }
        if get_range_to(bs[i].pos, to) <= 3 && bs[i].attackable {
            proof {
                lemma_first_index_prefix(bs@, p, i as int);
            }
            return Some(i);
        }
        i = i + 1;
    }
    proof {
        assert(bs@.take(bs@.len() as int) =~= bs@);
    }
    None
}

/// The first caravan creep holding goods.
pub fn any_caravan_cargo(hostiles: &[Unit]) -> (r: Option<usize>)
    ensures
        opt_int(r) == first_index(hostiles@, pick_fn(Pick::CaravanCargo)),
        r matches Some(i) ==> i < hostiles@.len(),
{
    let ghost p = pick_fn(Pick::CaravanCargo);
    let mut i: usize = 0;
    while i < hostiles.len()
        invariant
            p == pick_fn(Pick::CaravanCargo),
            i <= hostiles@.len(),
            first_index(hostiles@.take(i as int), p) is None,
        decreases hostiles@.len() - i,
    {
        proof {
            lemma_first_index_step(hostiles@, p, i as int);
        }
        if hostiles[i].owner == Owner::Caravan && hostiles[i].store_used > 0 {
            proof {
                lemma_first_index_prefix(hostiles@, p, i as int);
            }
            return Some(i);
        }
        i = i + 1;
    }
    proof {
        assert(hostiles@.take(hostiles@.len() as int) =~= hostiles@);
    }
    None
}

/// Fighting a caravan whose cargo stands at `cargo`: go for the healer
/// closest to the cargo, else the cargo creep closest to the protector,
/// else fight the closest caravan creep.
pub open spec fn spec_caravan_combat(me: CreepInfo, hostiles: Seq<Unit>, cargo: Position, mine: Seq<Unit>) -> (Seq<Order>, Option<MovementGoal>) {
    match pick(hostiles, spec_first_closest(hostiles, cargo, pick_fn(Pick::CaravanHealer))) {
        Some(h) => (Seq::empty(), Some(goal(Walker::Berserk, h.pos, 0, Avoid::Hostiles))),
        None => match pick(hostiles, spec_first_closest(hostiles, me.pos, pick_fn(Pick::CaravanCargo))) {
            Some(c) => (Seq::empty(), Some(goal(Walker::Berserk, c.pos, 0, Avoid::Hostiles))),
            None => match pick(hostiles, spec_closest_fold(hostiles, me.pos, filter_fn(Filter::Any))) {
                Some(a) => spec_combat(me, a, hostiles, mine),
                None => (Seq::empty(), None),
            },
        },
    }
}

pub fn caravan_combat(me: &CreepInfo, hostiles: &[Unit], cargo: Position, mine: &[Unit]) -> (r: (Vec<Order>, Option<MovementGoal>))
    requires
        me.pos.valid(),
        cargo.valid(),
        units_valid(hostiles@),
        units_valid(mine@),
    ensures
        (r.0@, r.1) == spec_caravan_combat(*me, hostiles@, cargo, mine@),
{
    match first_closest(cargo, hostiles, Pick::CaravanHealer) {
        Some(h) => (no_orders(), walk(Walker::Berserk, hostiles[h].pos, 0, Avoid::Hostiles)),
        None => match first_closest(me.pos, hostiles, Pick::CaravanCargo) {
            Some(c) => (no_orders(), walk(Walker::Berserk, hostiles[c].pos, 0, Avoid::Hostiles)),
            None => match closest_by(me.pos, hostiles, Filter::Any) {
                Some(a) => {
                    proof {
                        lemma_fold_bounds(hostiles@, me.pos, filter_fn(Filter::Any));
                    }
                    combat(me, &hostiles[a], hostiles, mine)
                },
                None => (no_orders(), None),
            },
        },
    }
}

/// The target of a walk, if any.
pub open spec fn goal_target(g: Option<MovementGoal>) -> Option<Position> {
    match g {
        Some(x) => Some(x.target),
        None => None,
    }
}

/// A Protect step that walks as the fight says.
pub open spec fn fight_step(room: RoomName, f: (Seq<Order>, Option<MovementGoal>)) -> (TaskResult, Seq<Order>) {
    (still(Task::Protect(room, goal_target(f.1)), f.1), f.0)
}

/// Protecting at full health outside the target room.
pub open spec fn spec_protect_away(room: RoomName, target: Option<Position>, me: CreepInfo, hostiles: Seq<Unit>, mine: Seq<Unit>) -> (TaskResult, Seq<Order>) {
    match first_index(hostiles, pick_fn(Pick::CaravanCargo)) {
        Some(ci) => fight_step(room, spec_caravan_combat(me, hostiles, hostiles[ci].pos, mine)),
        None => if target matches Some(t) && !spec_near(me.pos, t) {
            (still(Task::Protect(room, target), Some(goal(Walker::Aggressive, target->0, 1, Avoid::Hostiles))), Seq::empty())
        } else {
            (TaskResult::RunAnother(Task::MoveMe(room, Walker::Aggressive)), Seq::empty())
        },
    }
}

/// The intent against a tower: shoot it within three tiles, else shoot
/// any attackable structure within three tiles.
pub open spec fn spec_tower_orders(me: CreepInfo, tower: Building, bs: Seq<Building>) -> Seq<Order> {
    if spec_range(me.pos, tower.pos) <= 3 {
        seq![Order::RangedAttack(tower.id)]
    } else {
        match first_index(bs, in_reach_of(me.pos)) {
            Some(a) => seq![Order::RangedAttack(bs[a].id)],
            None => Seq::empty(),
        }
    }
}

/// Protecting at full health inside the target room with no tower and no
/// spawn or extension left.
pub open spec fn spec_protect_clear(room: RoomName, target: Option<Position>, me: CreepInfo, hostiles: Seq<Unit>, mine: Seq<Unit>) -> (TaskResult, Seq<Order>) {
    if hostiles.len() > 0 {
        match first_index(hostiles, pick_fn(Pick::CaravanCargo)) {
            Some(ci) => fight_step(room, spec_caravan_combat(me, hostiles, hostiles[ci].pos, mine)),
            None => match pick(hostiles, spec_closest_fold(hostiles, me.pos, filter_fn(Filter::Big))) {
                Some(c) => fight_step(room, spec_combat(me, c, hostiles, mine)),
                None => (TaskResult::Completed, seq![Order::Say(Sign::Smoking, true)]),
            },
        }
    } else if target matches Some(t) && me.pos != t {
        (still(Task::Protect(room, target), Some(goal(Walker::Aggressive, target->0, 0, Avoid::Hostiles))), Seq::empty())
    } else {
        match pick(mine, spec_closest_injured(mine, me.pos, Some(me.name@))) {
            Some(i) => (still(Task::Protect(room, None), Some(goal(Walker::Therapeutic, i.pos, 0, Avoid::Hostiles))), Seq::empty()),
            None => (TaskResult::Completed, seq![Order::Say(Sign::Smoking, false)]),
        }
    }
}

/// The Protect step.
pub open spec fn spec_protect(room: RoomName, target: Option<Position>, me: CreepInfo, hostiles: Seq<Unit>, bs: Seq<Building>, mine: Seq<Unit>, step_off: Option<Position>, exit: Position) -> (TaskResult, Seq<Order>) {
    if me.hits == me.hits_max {
        if me.pos.room != room {
            spec_protect_away(room, target, me, hostiles, mine)
        } else {
            match pick(bs, spec_closest_building(bs, me.pos, true)) {
                Some(tw) => (still(Task::Protect(room, Some(tw.pos)), Some(goal(Walker::Berserk, tw.pos, CLOSE_RANGE_ACTION, Avoid::Hostiles))), spec_tower_orders(me, tw, bs)),
                None => match pick(bs, spec_closest_building(bs, me.pos, false)) {
                    Some(sp) => (still(Task::Protect(room, Some(sp.pos)), Some(goal(Walker::Berserk, sp.pos, CLOSE_RANGE_ACTION, Avoid::Hostiles))), Seq::empty()),
                    None => spec_protect_clear(room, target, me, hostiles, mine),
                },
            }
        }
    } else if me.pos.room != room {
        if spec_edge_xy(me.pos.x as int, me.pos.y as int) && step_off is Some {
            (still(Task::Protect(room, None), Some(goal(Walker::Aggressive, step_off->0, 0, Avoid::Hostiles))), Seq::empty())
        } else {
            (still(Task::Protect(room, None), None), seq![Order::Heal(me.id), Order::RangedMassAttack])
        }
    } else {
        (still(Task::Protect(room, None), Some(goal(Walker::Berserk, exit, 0, Avoid::Hostiles))), match first_index(bs, in_reach_of(me.pos)) {
            Some(a) => seq![Order::RangedAttack(bs[a].id)],
            None => Seq::empty(),
        })
    }
}

fn fight_result(room: RoomName, f: (Vec<Order>, Option<MovementGoal>)) -> (s: Step)
    ensures
        (s.result, s.orders@) == fight_step(room, (f.0@, f.1)),
{
    let (orders, g) = f;
    let t = match g {
        Some(x) => Some(x.target),
        None => None,
    };
    step(TaskResult::StillWorking(Task::Protect(room, t), g), orders)
}

/// Raid a room and protect the caravans' prey: at full health travel to
/// `room` (fighting caravans met on the way), go for its towers (shooting
/// them or what is in reach), then its spawns and extensions, then the
/// hostiles (caravans first, then the closest creep of more than two
/// parts), then the remembered target, then heal; hurt, wait for healing
/// outside (stepping off the border to `step_off`), or retreat to `exit`
/// (the closest exit, or the centre of home) shooting what is in reach.
pub fn protect(room: RoomName, target: Option<Position>, me: &CreepInfo, hostiles: &[Unit], bs: &[Building], mine: &[Unit], step_off: Option<Position>, exit: Position) -> (s: Step)
    requires
        me.pos.valid(),
        units_valid(hostiles@),
        units_valid(mine@),
        buildings_valid(bs@),
    ensures
        (s.result, s.orders@) == spec_protect(room, target, *me, hostiles@, bs@, mine@, step_off, exit),
{
    if me.hits == me.hits_max {
        if me.pos.room != room {
            return match any_caravan_cargo(hostiles) {
                Some(ci) => {
                    proof {
                        crate::tasks::deposit::lemma_first_index(hostiles@, pick_fn(Pick::CaravanCargo));
                    }
                    fight_result(room, caravan_combat(me, hostiles, hostiles[ci].pos, mine))
                },
                None => {
                    let far = match target {
                        Some(t) => !is_near_to(me.pos, t),
                        None => false,
                    };
                    if far {
                        let t = target.unwrap();
                        step(TaskResult::StillWorking(Task::Protect(room, Some(t)), walk(Walker::Aggressive, t, 1, Avoid::Hostiles)), no_orders())
                    } else {
                        step(TaskResult::RunAnother(Task::MoveMe(room, Walker::Aggressive)), no_orders())
                    }
                },
            };
        }
        match closest_building(me.pos, bs, true) {
            Some(ti) => {
                let tw = bs[ti];
                let mut v = no_orders();
                if get_range_to(me.pos, tw.pos) <= 3 {
                    v.push(Order::RangedAttack(tw.id));
                } else {
                    match any_in_range_structure(me.pos, bs) {
                        Some(a) => v.push(Order::RangedAttack(bs[a].id)),
                        None => {},
                    }
                }
                return step(TaskResult::StillWorking(Task::Protect(room, Some(tw.pos)), walk(Walker::Berserk, tw.pos, CLOSE_RANGE_ACTION, Avoid::Hostiles)), v);
            },
            None => {},
        }
        match closest_building(me.pos, bs, false) {
            Some(si) => {
                let sp = bs[si];
                return step(TaskResult::StillWorking(Task::Protect(room, Some(sp.pos)), walk(Walker::Berserk, sp.pos, CLOSE_RANGE_ACTION, Avoid::Hostiles)), no_orders());
            },
            None => {},
        }
        if hostiles.len() > 0 {
            match any_caravan_cargo(hostiles) {
                Some(ci) => {
                    proof {
                        crate::tasks::deposit::lemma_first_index(hostiles@, pick_fn(Pick::CaravanCargo));
                    }
                    fight_result(room, caravan_combat(me, hostiles, hostiles[ci].pos, mine))
                },
                None => match closest_by(me.pos, hostiles, Filter::Big) {
                    Some(c) => {
                        proof {
                            lemma_fold_bounds(hostiles@, me.pos, filter_fn(Filter::Big));
                        }
                        fight_result(room, combat(me, &hostiles[c], hostiles, mine))
                    },
                    None => step(TaskResult::Completed, say(Sign::Smoking, true)),
                },
            }
        } else {
            let elsewhere = match target {
                Some(t) => me.pos != t,
                None => false,
            };
            if elsewhere {
                let t = target.unwrap();
                step(TaskResult::StillWorking(Task::Protect(room, Some(t)), walk(Walker::Aggressive, t, 0, Avoid::Hostiles)), no_orders())
            } else {
                match find_closest_injured(me.pos, mine, Some(me.name.as_str())) {
                    Some(i) => {
                        proof {
                            lemma_injured_bounds(mine@, me.pos, Some(me.name@));
                        }
                        step(TaskResult::StillWorking(Task::Protect(room, None), walk(Walker::Therapeutic, mine[i].pos, 0, Avoid::Hostiles)), no_orders())
                    },
                    None => step(TaskResult::Completed, say(Sign::Smoking, false)),
                }
            }
        }
    } else if me.pos.room != room {
        if is_room_edge(me.pos) && step_off.is_some() {
            step(TaskResult::StillWorking(Task::Protect(room, None), walk(Walker::Aggressive, step_off.unwrap(), 0, Avoid::Hostiles)), no_orders())
        } else {
            let mut v = no_orders();
            v.push(Order::Heal(me.id));
            v.push(Order::RangedMassAttack);
            step(TaskResult::StillWorking(Task::Protect(room, None), None), v)
        }
    } else {
        let mut v = no_orders();
        match any_in_range_structure(me.pos, bs) {
            Some(a) => v.push(Order::RangedAttack(bs[a].id)),
            None => {},
        }
        step(TaskResult::StillWorking(Task::Protect(room, None), walk(Walker::Berserk, exit, 0, Avoid::Hostiles)), v)
    }
}

} // verus!
