use vstd::prelude::*;

use crate::body::BodyPart;
use crate::constants::{CLOSE_RANGE_ACTION, LONG_RANGE_ACTION};
use crate::geometry::{in_range_to, is_near_to, is_room_edge, spec_edge_xy, spec_near, spec_range, Position, RoomName};
use crate::orders::{same_step, is_await, is_done, Order, Outcome, Pending, Sign, Step, Tick};
use crate::tasks::moves::{no_orders, say, step, still};
use crate::tasks::{goal, result_keeps_members, Avoid, MovementGoal, ObjectId, Task, TaskResult, Walker};
use crate::units::{has_part, spec_has_part, CreepInfo};

verus! {

pub(crate) fn done(result: TaskResult, orders: Vec<Order>) -> (t: Tick)
    ensures
        is_done(t, result, orders@),
{
    Tick::Done(step(result, orders))
}

pub(crate) fn walk(walker: Walker, target: Position, range: u32, avoid: Avoid) -> (g: Option<MovementGoal>)
    ensures
        g == Some(goal(walker, target, range, avoid)),
{
    Some(MovementGoal { walker, target, range, avoid })
}

/// The contract of `build`, as a predicate of its result.
pub open spec fn spec_build_step(id: Option<ObjectId>, pos: Position, me: CreepInfo, site_found: bool, s: Step) -> bool {
    (s.orders@ =~= if me.store_energy != 0 && me.pos.room == pos.room && !spec_edge_xy(me.pos.x as int, me.pos.y as int)
            && site_found && spec_range(me.pos, pos) <= LONG_RANGE_ACTION {
            seq![Order::Say(Sign::Hammer, false), Order::Build(id->0)]
        } else {
            Seq::<Order>::empty()
        }) && (s.result == if me.store_energy == 0 {
            TaskResult::Abort
        } else if me.pos.room != pos.room {
            TaskResult::RunAnother(Task::MoveMe(pos.room, Walker::Reinforcing))
        } else if spec_edge_xy(me.pos.x as int, me.pos.y as int) {
            if spec_range(me.pos, pos) <= LONG_RANGE_ACTION {
                still(Task::Build(id, pos), Some(goal(Walker::Reinforcing, pos, 0, Avoid::Attackers)))
            } else {
                still(Task::Build(id, pos), Some(goal(Walker::Reinforcing, pos, LONG_RANGE_ACTION, Avoid::Attackers)))
            }
        } else if site_found {
            if spec_range(me.pos, pos) <= LONG_RANGE_ACTION {
                still(Task::Build(id, pos), None)
            } else {
                still(Task::Build(id, pos), Some(goal(Walker::Reinforcing, pos, LONG_RANGE_ACTION, Avoid::Attackers)))
            }
        } else {
            TaskResult::ResolveRequest(Task::Build(id, pos))
        })
}

/// Build the construction site `id` at `pos`; `site_found` tells whether
/// the site still exists.
pub fn build(id: Option<ObjectId>, pos: Position, me: &CreepInfo, site_found: bool) -> (s: Step)
    requires
        me.pos.valid(),
        pos.valid(),
        site_found ==> id is Some,
    ensures
        spec_build_step(id, pos, *me, site_found, s),
{
    if me.store_energy == 0 {
        step(TaskResult::Abort, no_orders())
    } else if me.pos.room != pos.room {
        step(TaskResult::RunAnother(Task::MoveMe(pos.room, Walker::Reinforcing)), no_orders())
    } else if is_room_edge(me.pos) {
        if in_range_to(me.pos, pos, LONG_RANGE_ACTION) {
            step(TaskResult::StillWorking(Task::Build(id, pos), walk(Walker::Reinforcing, pos, 0, Avoid::Attackers)), no_orders())
        } else {
            step(TaskResult::StillWorking(Task::Build(id, pos), walk(Walker::Reinforcing, pos, LONG_RANGE_ACTION, Avoid::Attackers)), no_orders())
        }
    } else if site_found {
        if in_range_to(me.pos, pos, LONG_RANGE_ACTION) {
            let mut v = say(Sign::Hammer, false);
            v.push(Order::Build(id.unwrap()));
            step(TaskResult::StillWorking(Task::Build(id, pos), None), v)
        } else {
            step(TaskResult::StillWorking(Task::Build(id, pos), walk(Walker::Reinforcing, pos, LONG_RANGE_ACTION, Avoid::Attackers)), no_orders())
        }
    } else {
        step(TaskResult::ResolveRequest(Task::Build(id, pos)), no_orders())
    }
}

/// What a repairer reads of the structure it repairs.
#[derive(Clone, Copy, Debug, PartialEq, Eq, Structural)]
pub struct RepairTarget {
    /// The structure can be repaired at all.
    pub repairable: bool,
    pub hits: u32,
    pub hits_max: u32,
}

pub open spec fn spec_has_work(me: CreepInfo) -> bool {
    spec_has_part(seq![BodyPart::Work], me.body@, true)
}

/// The contract of `repair`, as a predicate of its result.
pub open spec fn spec_repair_step(id: ObjectId, pos: Position, times: u8, me: CreepInfo, target: Option<RepairTarget>, t: Tick) -> bool {
    if me.store_energy == 0 {
            is_done(t, TaskResult::UpdateRequest(Task::Repair(id, pos, times)), Seq::empty())
        } else if !spec_has_work(me) {
            is_done(t, TaskResult::Abort, Seq::empty())
        } else if me.pos.room != pos.room {
            is_done(t, TaskResult::RunAnother(Task::MoveMe(pos.room, Walker::Reinforcing)), Seq::empty())
        } else if spec_edge_xy(me.pos.x as int, me.pos.y as int) {
            is_done(t, still(Task::Repair(id, pos, times), Some(goal(Walker::Reinforcing, pos,
                if spec_range(me.pos, pos) <= LONG_RANGE_ACTION { 0 } else { LONG_RANGE_ACTION }, Avoid::Attackers))), Seq::empty())
        } else {
            match target {
                Some(st) => if spec_range(me.pos, pos) <= LONG_RANGE_ACTION {
                    if st.repairable && st.hits < st.hits_max {
                        is_await(t, seq![Order::Say(Sign::Hammer, false)], Order::Repair(id), Pending::Repair(id, pos, times))
                    } else {
                        is_done(t, TaskResult::ResolveRequest(Task::Repair(id, pos, times)), Seq::empty())
                    }
                } else {
                    is_done(t, still(Task::Repair(id, pos, times), Some(goal(Walker::Reinforcing, pos, LONG_RANGE_ACTION, Avoid::Attackers))), Seq::empty())
                },
                None => is_done(t, TaskResult::ResolveRequest(Task::Repair(id, pos, times)), Seq::empty()),
            }
        }
}

/// Repair structure `id` at `pos` `times` more times; `target` is the
/// structure if it still exists. The repair intent's outcome decides the
/// rest (see `resume_repair`).
pub fn repair(id: ObjectId, pos: Position, times: u8, me: &CreepInfo, target: Option<RepairTarget>) -> (t: Tick)
    requires
        me.pos.valid(),
        pos.valid(),
    ensures
        spec_repair_step(id, pos, times, *me, target, t),
{
    let work = [BodyPart::Work];
    assert(work@ =~= seq![BodyPart::Work]);
    if me.store_energy == 0 {
        done(TaskResult::UpdateRequest(Task::Repair(id, pos, times)), no_orders())
    } else if !has_part(&work, &me.body, true) {
        done(TaskResult::Abort, no_orders())
    } else if me.pos.room != pos.room {
        done(TaskResult::RunAnother(Task::MoveMe(pos.room, Walker::Reinforcing)), no_orders())
    } else if is_room_edge(me.pos) {
        if in_range_to(me.pos, pos, LONG_RANGE_ACTION) {
            done(TaskResult::StillWorking(Task::Repair(id, pos, times), walk(Walker::Reinforcing, pos, 0, Avoid::Attackers)), no_orders())
        } else {
            done(TaskResult::StillWorking(Task::Repair(id, pos, times), walk(Walker::Reinforcing, pos, LONG_RANGE_ACTION, Avoid::Attackers)), no_orders())
        }
    } else {
        match target {
            Some(st) => {
                if in_range_to(me.pos, pos, LONG_RANGE_ACTION) {
                    if st.repairable && st.hits < st.hits_max {
                        Tick::Await(say(Sign::Hammer, false), Order::Repair(id), Pending::Repair(id, pos, times))
                    } else {
                        done(TaskResult::ResolveRequest(Task::Repair(id, pos, times)), no_orders())
                    }
                } else {
                    done(TaskResult::StillWorking(Task::Repair(id, pos, times), walk(Walker::Reinforcing, pos, LONG_RANGE_ACTION, Avoid::Attackers)), no_orders())
                }
            },
            None => done(TaskResult::ResolveRequest(Task::Repair(id, pos, times)), no_orders()),
        }
    }
}

pub open spec fn spec_repair_after(id: ObjectId, pos: Position, times: u8, o: Outcome) -> TaskResult {
    match o {
        Outcome::Done => if times - 1 > 1 {
            still(Task::Repair(id, pos, (times - 2) as u8), None)
        } else {
            TaskResult::ResolveRequest(Task::Repair(id, pos, (times - 2) as u8))
        },
        Outcome::NotEnoughResources | Outcome::NotInRange => TaskResult::Abort,
        Outcome::Refused => TaskResult::ResolveRequest(Task::Repair(id, pos, times)),
    }
}

/// After the repair intent: a repair done uses up one of the repairs left
/// and (as the task counts) one more; with more than one left after the
/// first the task goes on, else the request is done. Out of energy or of
/// range the task is given up; another refusal ends the request.
pub fn resume_repair(id: ObjectId, pos: Position, times: u8, o: Outcome) -> (s: Step)
    requires
        o == Outcome::Done ==> times >= 2,
    ensures
        s.orders@ == Seq::<Order>::empty(),
        s.result == spec_repair_after(id, pos, times, o),
{
    match o {
        Outcome::Done => {
            let left = times - 1;
            if left > 1 {
                step(TaskResult::StillWorking(Task::Repair(id, pos, left - 1), None), no_orders())
            } else {
                step(TaskResult::ResolveRequest(Task::Repair(id, pos, left - 1)), no_orders())
            }
        },
        Outcome::NotEnoughResources | Outcome::NotInRange => step(TaskResult::Abort, no_orders()),
        Outcome::Refused => step(TaskResult::ResolveRequest(Task::Repair(id, pos, times)), no_orders()),
    }
}

/// The contract of `upgrade`, as a predicate of its result.
pub open spec fn spec_upgrade_step(id: ObjectId, container: Option<ObjectId>, me: CreepInfo, controller: Option<Position>, container_found: bool, t: Tick) -> bool {
    match controller {
            Some(cpos) => if spec_range(me.pos, cpos) <= LONG_RANGE_ACTION && me.pos.room == cpos.room {
                is_await(t, Seq::empty(), Order::UpgradeController(id), Pending::Upgrade(id, container,
                    if me.store_energy < 30 && container_found { container } else { None }))
            } else {
                is_done(t, still(Task::Upgrade(id, container), Some(goal(Walker::Reinforcing, cpos, LONG_RANGE_ACTION, Avoid::Attackers))), Seq::empty())
            },
            None => is_done(t, TaskResult::Abort, Seq::empty()),
        }
}

/// Upgrade controller `id`, found at `controller` (if it exists);
/// `container_found` tells whether the container the task names exists.
pub fn upgrade(id: ObjectId, container: Option<ObjectId>, me: &CreepInfo, controller: Option<Position>, container_found: bool) -> (t: Tick)
    requires
        me.pos.valid(),
        controller matches Some(c) ==> c.valid(),
        container_found ==> container is Some,
    ensures
        spec_upgrade_step(id, container, *me, controller, container_found, t),
{
    match controller {
        Some(cpos) => {
            if in_range_to(me.pos, cpos, LONG_RANGE_ACTION) && me.pos.room == cpos.room {
                let refill = if me.store_energy < 30 && container_found { container } else { None };
                Tick::Await(no_orders(), Order::UpgradeController(id), Pending::Upgrade(id, container, refill))
            } else {
                done(TaskResult::StillWorking(Task::Upgrade(id, container), walk(Walker::Reinforcing, cpos, LONG_RANGE_ACTION, Avoid::Attackers)), no_orders())
            }
        },
        None => done(TaskResult::Abort, no_orders()),
    }
}

/// After the upgrade intent: on success show it, top up from the container
/// when low on energy, and go on; else give the task up.
pub fn resume_upgrade(id: ObjectId, container: Option<ObjectId>, refill: Option<ObjectId>, o: Outcome) -> (s: Step)
    ensures
        s.result == if o == Outcome::Done {
            still(Task::Upgrade(id, container), None)
        } else {
            TaskResult::Abort
        },
        s.orders@ == if o == Outcome::Done {
            match refill {
                Some(c) => seq![Order::Say(Sign::Upgrading, false), Order::Withdraw(c, crate::resources::Resource::Energy, None)],
                None => seq![Order::Say(Sign::Upgrading, false)],
            }
        } else {
            Seq::<Order>::empty()
        },
{
    if o == Outcome::Done {
        let mut v = say(Sign::Upgrading, false);
        match refill {
            Some(c) => v.push(Order::Withdraw(c, crate::resources::Resource::Energy, None)),
            None => {},
        }
        step(TaskResult::StillWorking(Task::Upgrade(id, container), None), v)
    } else {
        step(TaskResult::Abort, no_orders())
    }
}

/// The contract of `boost`, as a predicate of its result.
pub open spec fn spec_boost_step(id: ObjectId, parts: Option<u32>, me: CreepInfo, lab: Option<Position>, cargo: bool, spot: Option<Position>, s: Step) -> bool {
    same_step(s, match lab {
            Some(lpos) => if spec_near(me.pos, lpos) {
                (TaskResult::Completed, seq![Order::BoostBy(id, parts)])
            } else if cargo {
                match spot {
                    Some(p) => (TaskResult::AddNewRequest(Task::Boost(id, parts), Task::PullTo(me.name, p), Some(goal(Walker::Immobile, p, 0, Avoid::Nobody))), Seq::empty()),
                    None => (still(Task::Boost(id, parts), Some(goal(Walker::Immobile, lpos, 1, Avoid::Nobody))), Seq::empty()),
                }
            } else {
                (still(Task::Boost(id, parts), Some(goal(Walker::Exploring(false), lpos, CLOSE_RANGE_ACTION, Avoid::Nobody))), Seq::empty())
            },
            None => (TaskResult::Abort, Seq::empty()),
        })
}

/// Get boosted at lab `id` (at `lab`, if it exists). A creep that cannot
/// walk (`cargo`) asks to be pulled to `spot`, a free tile next to the lab.
pub fn boost(id: ObjectId, parts: Option<u32>, me: &CreepInfo, lab: Option<Position>, cargo: bool, spot: Option<Position>) -> (s: Step)
    ensures
        spec_boost_step(id, parts, *me, lab, cargo, spot, s),
{
    match lab {
        Some(lpos) => {
            if is_near_to(me.pos, lpos) {
                let mut v: Vec<Order> = Vec::new();
                v.push(Order::BoostBy(id, parts));
                step(TaskResult::Completed, v)
            } else if cargo {
                match spot {
                    Some(p) => step(TaskResult::AddNewRequest(Task::Boost(id, parts), Task::PullTo(me.name.clone(), p), walk(Walker::Immobile, p, 0, Avoid::Nobody)), no_orders()),
                    None => step(TaskResult::StillWorking(Task::Boost(id, parts), walk(Walker::Immobile, lpos, 1, Avoid::Nobody)), no_orders()),
                }
            } else {
                step(TaskResult::StillWorking(Task::Boost(id, parts), walk(Walker::Exploring(false), lpos, CLOSE_RANGE_ACTION, Avoid::Nobody)), no_orders())
            }
        },
        None => step(TaskResult::Abort, no_orders()),
    }
}

pub open spec fn outcome_of(s: Step) -> (TaskResult, Seq<Order>) {
    (s.result, s.orders@)
}

/// The contract of `claim`, as a predicate of its result.
pub open spec fn spec_claim_step(id: ObjectId, position: Position, me: CreepInfo, found: bool, t: Tick) -> bool {
    if !spec_near(me.pos, position) {
            is_done(t, still(Task::Claim(id, position), Some(goal(Walker::Exploring(false), position, 1, Avoid::Attackers))), Seq::empty())
        } else if found {
            is_await(t, Seq::empty(), Order::ClaimController(id), Pending::Claim(id, position))
        } else {
            is_done(t, TaskResult::Abort, Seq::empty())
        }
}

/// Claim controller `id` from `position`; `found` tells whether it exists.
pub fn claim(id: ObjectId, position: Position, me: &CreepInfo, found: bool) -> (t: Tick)
    ensures
        spec_claim_step(id, position, *me, found, t),
{
    if !is_near_to(me.pos, position) {
        done(TaskResult::StillWorking(Task::Claim(id, position), walk(Walker::Exploring(false), position, 1, Avoid::Attackers)), no_orders())
    } else if found {
        Tick::Await(no_orders(), Order::ClaimController(id), Pending::Claim(id, position))
    } else {
        done(TaskResult::Abort, no_orders())
    }
}

/// After the claim intent: done on success, else try again next tick.
pub fn resume_claim(id: ObjectId, position: Position, o: Outcome) -> (s: Step)
    ensures
        s.orders@ == Seq::<Order>::empty(),
        s.result == if o == Outcome::Done {
            TaskResult::ResolveRequest(Task::Claim(id, position))
        } else {
            still(Task::Claim(id, position), None)
        },
{
    if o == Outcome::Done {
        step(TaskResult::ResolveRequest(Task::Claim(id, position)), no_orders())
    } else {
        step(TaskResult::StillWorking(Task::Claim(id, position), None), no_orders())
    }
}

/// What a reserver reads of the controller.
#[derive(Clone, Copy, Debug, PartialEq, Eq, Structural)]
pub struct ControllerView {
    pub my: bool,
    pub level: u8,
    /// Ticks left on the current reservation, if any.
    pub reservation_ticks: Option<u32>,
}

/// The contract of `book`, as a predicate of its result.
pub open spec fn spec_book_step(id: ObjectId, position: Position, me: CreepInfo, home: Option<RoomName>, attackers_around: bool, exit: Option<Position>, controller: Option<ControllerView>, t: Tick) -> bool {
    if (home matches Some(h) && h != me.pos.room) && attackers_around {
            match exit {
                Some(e) => is_done(t, still(Task::Escape(e), Some(goal(Walker::Exploring(false), e, 0, Avoid::Attackers))), Seq::empty()),
                None => is_done(t, TaskResult::Abort, Seq::empty()),
            }
        } else if !spec_near(me.pos, position) {
            is_done(t, still(Task::Book(id, position), Some(goal(Walker::Exploring(false), position, 1, Avoid::Attackers))), Seq::empty())
        } else {
            match controller {
                Some(c) => if !c.my && c.level > 0 {
                    is_done(t, still(Task::Book(id, position), None), seq![Order::AttackController(id)])
                } else {
                    is_await(t, Seq::empty(), Order::ReserveController(id), Pending::Book(id, position,
                        c.reservation_ticks matches Some(r) && r > 3500))
                },
                None => is_done(t, TaskResult::Abort, Seq::empty()),
            }
        }
}

/// Reserve controller `id` from `position`. Away from home with attackers
/// around, leave by `exit` (the closest exit). A controller owned by
/// another player is attacked instead.
pub fn book(id: ObjectId, position: Position, me: &CreepInfo, home: Option<RoomName>, attackers_around: bool, exit: Option<Position>, controller: Option<ControllerView>) -> (t: Tick)
    ensures
        spec_book_step(id, position, *me, home, attackers_around, exit, controller, t),
{
    let away = match home {
        Some(h) => h != me.pos.room,
        None => false,
    };
    if away && attackers_around {
        match exit {
            Some(e) => done(TaskResult::StillWorking(Task::Escape(e), walk(Walker::Exploring(false), e, 0, Avoid::Attackers)), no_orders()),
            None => done(TaskResult::Abort, no_orders()),
        }
    } else if !is_near_to(me.pos, position) {
        done(TaskResult::StillWorking(Task::Book(id, position), walk(Walker::Exploring(false), position, 1, Avoid::Attackers)), no_orders())
    } else {
        match controller {
            Some(c) => {
                if !c.my && c.level > 0 {
                    let mut v: Vec<Order> = Vec::new();
                    v.push(Order::AttackController(id));
                    done(TaskResult::StillWorking(Task::Book(id, position), None), v)
                } else {
                    let long = match c.reservation_ticks {
                        Some(r) => r > 3500,
                        None => false,
                    };
                    Tick::Await(no_orders(), Order::ReserveController(id), Pending::Book(id, position, long))
                }
            },
            None => done(TaskResult::Abort, no_orders()),
        }
    }
}

/// After the reserve intent: once the reservation runs long the request is
/// done; otherwise (or on a refusal) go on.
pub fn resume_book(id: ObjectId, position: Position, long: bool, o: Outcome) -> (s: Step)
    ensures
        s.orders@ == Seq::<Order>::empty(),
        s.result == if o == Outcome::Done && long {
            TaskResult::ResolveRequest(Task::Book(id, position))
        } else {
            still(Task::Book(id, position), None)
        },
{
    if o == Outcome::Done && long {
        step(TaskResult::ResolveRequest(Task::Book(id, position)), no_orders())
    } else {
        step(TaskResult::StillWorking(Task::Book(id, position), None), no_orders())
    }
}

/// The contract of `dismantle`, as a predicate of its result.
pub open spec fn spec_dismantle_step(id: ObjectId, workplace: Position, me: CreepInfo, dismantleable: Option<bool>, s: Step) -> bool {
    same_step(s, if me.pos == workplace {
            if dismantleable == Some(true) {
                (still(Task::Dismantle(id, workplace), Some(goal(Walker::Immobile, workplace, 0, Avoid::Nobody))), seq![Order::Dismantle(id)])
            } else {
                (TaskResult::ResolveRequest(Task::Dismantle(id, workplace)), Seq::empty())
            }
        } else {
            (TaskResult::AddNewRequest(Task::Dismantle(id, workplace), Task::PullTo(me.name, workplace), Some(goal(Walker::Immobile, workplace, 0, Avoid::Nobody))), Seq::empty())
        })
}

/// Dismantle structure `id` from `workplace`; a dismantler cannot walk, so
/// away from the workplace it asks to be pulled there. `dismantleable` is
/// `None` when the structure is gone.
pub fn dismantle(id: ObjectId, workplace: Position, me: &CreepInfo, dismantleable: Option<bool>) -> (s: Step)
    ensures
        spec_dismantle_step(id, workplace, *me, dismantleable, s),
{
    if me.pos == workplace {
        if dismantleable == Some(true) {
            let mut v: Vec<Order> = Vec::new();
            v.push(Order::Dismantle(id));
            step(TaskResult::StillWorking(Task::Dismantle(id, workplace), walk(Walker::Immobile, workplace, 0, Avoid::Nobody)), v)
        } else {
            step(TaskResult::ResolveRequest(Task::Dismantle(id, workplace)), no_orders())
        }
    } else {
        step(TaskResult::AddNewRequest(Task::Dismantle(id, workplace), Task::PullTo(me.name.clone(), workplace), walk(Walker::Immobile, workplace, 0, Avoid::Nobody)), no_orders())
    }
}

/// The first squad member other than the acting creep.
pub open spec fn spec_partner(members: Seq<String>, me: Seq<char>) -> Option<int>
    decreases members.len(),
{
    if members.len() == 0 {
        None
    } else if members.last()@ != me {
        match spec_partner(members.drop_last(), me) {
            Some(i) => Some(i),
            None => Some(members.len() - 1),
        }
    } else {
        spec_partner(members.drop_last(), me)
    }
}

proof fn lemma_partner_bounds(members: Seq<String>, me: Seq<char>)
    ensures
        spec_partner(members, me) matches Some(i) ==> 0 <= i < members.len() && members[i]@ != me,
    decreases members.len(),
{
    if members.len() > 0 {
        lemma_partner_bounds(members.drop_last(), me);
    }
}

/// The index of the first squad member other than the acting creep (the
/// partner a squad creep waits for or follows).
pub fn pick_partner(members: &[String], me: &str) -> (r: Option<usize>)
    ensures
        crate::commons::opt_int(r) == spec_partner(members@, me@),
{
    let mut i: usize = 0;
    while i < members.len()
        invariant
            i <= members@.len(),
            spec_partner(members@.take(i as int), me@) is None,
        decreases members@.len() - i,
    {
        proof {
            assert(members@.take(i + 1).drop_last() =~= members@.take(i as int));
        }
        if !crate::requests::str_eq(members[i].as_str(), me) {
            proof {
                lemma_partner_prefix(members@, me@, i as int);
            }
            return Some(i);
        }
        i = i + 1;
    }
    proof {
        assert(members@.take(members@.len() as int) =~= members@);
    }
    None
}

proof fn lemma_partner_prefix(members: Seq<String>, me: Seq<char>, i: int)
    requires
        0 <= i < members.len(),
        spec_partner(members.take(i), me) is None,
        members[i]@ != me,
    ensures
        spec_partner(members, me) == Some(i),
    decreases members.len(),
{
    if members.len() - 1 == i {
        assert(members.drop_last() =~= members.take(i));
    } else {
        assert(members.drop_last().take(i) =~= members.take(i));
        lemma_partner_prefix(members.drop_last(), me, i);
    }
}

/// The contract of `combat_dismantle`, as a predicate of its result.
pub open spec fn spec_combat_dismantle_step(id: ObjectId, workplace: Position, members: Vec<String>, me: CreepInfo, partner: Option<Position>, injured: bool, home_exit: Option<Position>, exit: Option<Position>, structure: Option<(Position, bool)>, avoid: Avoid, s: Step) -> bool {
    ({
            let keep = Task::CombatDismantle(id, workplace, members);
            outcome_of(s) == if partner matches Some(h) && (spec_near(me.pos, h) || spec_edge_xy(me.pos.x as int, me.pos.y as int)) {
                if injured {
                    if me.pos.room != workplace.room && home_exit is Some {
                        (still(keep, Some(goal(Walker::Exploring(false), home_exit->0, 0, avoid))), Seq::<Order>::empty())
                    } else if exit is Some {
                        (still(keep, Some(goal(Walker::Exploring(false), exit->0, 0, avoid))), Seq::empty())
                    } else {
                        (TaskResult::Abort, Seq::empty())
                    }
                } else if me.pos == workplace {
                    match structure {
                        Some((spos, can)) => if can {
                            (still(keep, Some(goal(Walker::Exploring(false), spos, 0, avoid))), seq![Order::Dismantle(id)])
                        } else {
                            (TaskResult::ResolveRequest(keep), Seq::empty())
                        },
                        None => (TaskResult::ResolveRequest(keep), Seq::empty()),
                    }
                } else {
                    (still(keep, Some(goal(Walker::Exploring(false), workplace, 0, avoid))), Seq::empty())
                }
            } else {
                (TaskResult::Completed, Seq::empty())
            }
        })
}

/// Dismantle structure `id` from `workplace` with the healer of the squad
/// (`partner`, the first other member, when alive) beside: when either is
/// hurt (`injured`) leave, by the exit towards home (`home_exit`) outside
/// the workplace's room or else by the closest exit; at the workplace
/// dismantle (the structure is given as its position and whether it can
/// be dismantled, when it exists); else walk there. Walks keep clear of
/// the hostiles `avoid` names. Without the healer beside, wait for the
/// squad.
pub fn combat_dismantle(id: ObjectId, workplace: Position, members: Vec<String>, me: &CreepInfo, partner: Option<Position>, injured: bool,
    home_exit: Option<Position>, exit: Option<Position>, structure: Option<(Position, bool)>, avoid: Avoid) -> (s: Step)
    ensures
        spec_combat_dismantle_step(id, workplace, members, *me, partner, injured, home_exit, exit, structure, avoid, s),
{
    let beside = match partner {
        Some(h) => is_near_to(me.pos, h) || is_room_edge(me.pos),
        None => false,
    };
    if !beside {
        return step(TaskResult::Completed, no_orders());
    }
    if injured {
        if me.pos.room != workplace.room && home_exit.is_some() {
            step(TaskResult::StillWorking(Task::CombatDismantle(id, workplace, members), walk(Walker::Exploring(false), home_exit.unwrap(), 0, avoid)), no_orders())
        } else if exit.is_some() {
            step(TaskResult::StillWorking(Task::CombatDismantle(id, workplace, members), walk(Walker::Exploring(false), exit.unwrap(), 0, avoid)), no_orders())
        } else {
            step(TaskResult::Abort, no_orders())
        }
    } else if me.pos == workplace {
        match structure {
            Some((spos, can)) => {
                if can {
                    let mut v = no_orders();
                    v.push(Order::Dismantle(id));
                    step(TaskResult::StillWorking(Task::CombatDismantle(id, workplace, members), walk(Walker::Exploring(false), spos, 0, avoid)), v)
                } else {
                    step(TaskResult::ResolveRequest(Task::CombatDismantle(id, workplace, members)), no_orders())
                }
            },
            None => step(TaskResult::ResolveRequest(Task::CombatDismantle(id, workplace, members)), no_orders()),
        }
    } else {
        step(TaskResult::StillWorking(Task::CombatDismantle(id, workplace, members), walk(Walker::Exploring(false), workplace, 0, avoid)), no_orders())
    }
}

/// Each repair done lowers the repairs left: a repair task that goes on
/// after a successful repair has fewer left than before, and one with two
/// or fewer left ends its request.
pub proof fn lemma_repairs_count_down(id: ObjectId, pos: Position, times: u8)
    requires
        times >= 2,
    ensures
        spec_repair_after(id, pos, times, Outcome::Done) matches TaskResult::StillWorking(Task::Repair(_, _, left), _) ==> left < times,
        times <= 2 ==> spec_repair_after(id, pos, times, Outcome::Done) is ResolveRequest,
{
}

/// A combat dismantler's tick keeps its squad's member list as it was:
/// every task it keeps or reports carries the same members, or none.
pub proof fn lemma_combat_dismantle_keeps_members(id: ObjectId, workplace: Position, members: Vec<String>, me: CreepInfo, partner: Option<Position>, injured: bool,
    home_exit: Option<Position>, exit: Option<Position>, structure: Option<(Position, bool)>, avoid: Avoid, s: Step)
    requires
        spec_combat_dismantle_step(id, workplace, members, me, partner, injured, home_exit, exit, structure, avoid, s),
    ensures
        result_keeps_members(s.result, members@),
{
}

} // verus!
