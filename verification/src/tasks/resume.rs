use vstd::prelude::*;

use crate::orders::{is_await, is_done, Order, Outcome, Pending, Sign, Step, Tick};
use crate::resources::Resource;
use crate::tasks::harvest::resume_harvest;
use crate::tasks::logistics::{
    carry_deliver_after, carry_other_after, is_withdraw_done, long_range_after, resume_deliver, resume_pickup, resume_safe_mode,
    resume_take_from, spec_carry_deliver_after, spec_carry_other_after, spec_long_range_after, spec_withdraw_after, withdraw_after,
};
use crate::tasks::moves::still;
use crate::tasks::powerbank::{pb_carry_after, spec_pb_carry_after};
use crate::tasks::work::{resume_book, resume_claim, resume_repair, resume_upgrade};
use crate::tasks::{Task, TaskResult};

verus! {

/// The outcomes the game can hand back for what is awaited: a repair that
/// went through leaves the task at least one repair to count down.
pub open spec fn leaf_resumable(p: Pending, o: Outcome) -> bool {
    is_leaf(p) && (p matches Pending::Repair(_, _, times) ==> (o == Outcome::Done ==> times >= 2))
}

/// What can be awaited, with the outcomes the game can hand back: an intent
/// of a task itself, or one made on behalf of a task one level up; a repair
/// that went through leaves the task at least one repair to count down.
pub open spec fn resumable(p: Pending, o: Outcome) -> bool {
    match p {
        Pending::InWithdraw(_, _, _, inner) => leaf_resumable(*inner, o),
        Pending::InLongRange(_, _, _, _, _, inner) => leaf_resumable(*inner, o),
        Pending::InCarryDeliver(_, _, _, _, _, inner) => leaf_resumable(*inner, o),
        Pending::InCarryOther(_, _, _, _, inner) => leaf_resumable(*inner, o),
        Pending::InPowerCarry(_, _, inner) => leaf_resumable(*inner, o),
        _ => leaf_resumable(p, o),
    }
}

/// The intents awaited directly by a task, not on behalf of another.
pub open spec fn is_leaf(p: Pending) -> bool {
    !(p is InWithdraw || p is InLongRange || p is InCarryDeliver || p is InCarryOther || p is InPowerCarry)
}

/// How the tick ends once an intent awaited by a task itself came back as
/// `o`.
pub open spec fn spec_resumed_leaf(p: Pending, o: Outcome, t: Tick) -> bool {
    match p {
        Pending::Repair(id, pos, times) => is_done(t, crate::tasks::work::spec_repair_after(id, pos, times, o), Seq::empty()),
        Pending::Upgrade(id, container, refill) => if o == Outcome::Done {
            is_done(t, still(Task::Upgrade(id, container), None), match refill {
                Some(c) => seq![Order::Say(Sign::Upgrading, false), Order::Withdraw(c, Resource::Energy, None)],
                None => seq![Order::Say(Sign::Upgrading, false)],
            })
        } else {
            is_done(t, TaskResult::Abort, Seq::empty())
        },
        Pending::Harvest(w, id, better) => is_done(t, if o == Outcome::NotEnoughResources && better {
            TaskResult::Abort
        } else {
            still(Task::Harvest(w, id), None)
        }, Seq::empty()),
        Pending::Claim(id, pos) => is_done(t, if o == Outcome::Done {
            TaskResult::ResolveRequest(Task::Claim(id, pos))
        } else {
            still(Task::Claim(id, pos), None)
        }, Seq::empty()),
        Pending::Book(id, pos, long) => is_done(t, if o == Outcome::Done && long {
            TaskResult::ResolveRequest(Task::Book(id, pos))
        } else {
            still(Task::Book(id, pos), None)
        }, Seq::empty()),
        Pending::Pickup(id) => is_done(t, TaskResult::ResolveRequest(Task::TakeResource(id)),
            if o == Outcome::Done { seq![Order::Say(Sign::MoneyBag, false)] } else { Seq::empty() }),
        Pending::TakeFrom(pos, id, r, a, retried) => if o == Outcome::Done {
            is_done(t, TaskResult::Completed, seq![Order::Say(Sign::MoneyBag, false)])
        } else if o == Outcome::NotEnoughResources && !retried {
            is_await(t, Seq::empty(), Order::Withdraw(id, r, None), Pending::TakeFrom(pos, id, r, a, true))
        } else {
            is_done(t, TaskResult::Abort, Seq::empty())
        },
        Pending::Deliver(_, _, _, _) => if o == Outcome::Done {
            is_done(t, TaskResult::Completed, seq![Order::Say(Sign::Done, false)])
        } else {
            is_done(t, TaskResult::Abort, Seq::empty())
        },
        Pending::SafeMode(pos, id, sid) => if o == Outcome::Done {
            is_done(t, TaskResult::ResolveRequest(Task::GenerateSafeMode(pos, id, sid)), seq![Order::Say(Sign::Done, false)])
        } else {
            is_done(t, TaskResult::Abort, Seq::empty())
        },
        _ => false,
    }
}

/// How the tick ends once the awaited intent came back as `o`.
pub open spec fn spec_resumed(p: Pending, o: Outcome, t: Tick) -> bool {
    match p {
        Pending::InWithdraw(pos, id, res, inner) => exists|ti: Tick| #[trigger] spec_resumed_leaf(*inner, o, ti) && match ti {
            Tick::Done(si) => is_withdraw_done(t, si.orders@, pos, id, spec_withdraw_after(res@, si.result)),
            Tick::Await(v, x, q) => is_await(t, v@, x, Pending::InWithdraw(pos, id, res, Box::new(q))),
        },
        Pending::InLongRange(pos, id, r, amount, take, inner) => exists|ti: Tick| #[trigger] spec_resumed_leaf(*inner, o, ti) && match ti {
            Tick::Done(si) => is_done(t, spec_long_range_after(pos, id, r, amount, take, si.result), si.orders@),
            Tick::Await(v, x, q) => is_await(t, v@, x, Pending::InLongRange(pos, id, r, amount, take, Box::new(q))),
        },
        Pending::InCarryDeliver(from, to, r, amount, current, inner) => exists|ti: Tick| #[trigger] spec_resumed_leaf(*inner, o, ti) && match ti {
            Tick::Done(si) => is_done(t, spec_carry_deliver_after(from, to, r, amount, current, si.result), si.orders@),
            Tick::Await(v, x, q) => is_await(t, v@, x, Pending::InCarryDeliver(from, to, r, amount, current, Box::new(q))),
        },
        Pending::InCarryOther(from, to, r, amount, inner) => exists|ti: Tick| #[trigger] spec_resumed_leaf(*inner, o, ti) && match ti {
            Tick::Done(si) => is_done(t, spec_carry_other_after(from, to, r, amount, si.result), si.orders@),
            Tick::Await(v, x, q) => is_await(t, v@, x, Pending::InCarryOther(from, to, r, amount, Box::new(q))),
        },
        Pending::InPowerCarry(pos, id, inner) => exists|ti: Tick| #[trigger] spec_resumed_leaf(*inner, o, ti) && match ti {
            Tick::Done(si) => is_done(t, spec_pb_carry_after(pos, id, si.result, si.orders@).0, spec_pb_carry_after(pos, id, si.result, si.orders@).1),
            Tick::Await(v, x, q) => is_await(t, v@, x, Pending::InPowerCarry(pos, id, Box::new(q))),
        },
        _ => spec_resumed_leaf(p, o, t),
    }
}

fn resume_leaf(p: Pending, o: Outcome) -> (t: Tick)
    requires
        leaf_resumable(p, o),
    ensures
        spec_resumed_leaf(p, o, t),
{
    match p {
        Pending::Repair(id, pos, times) => Tick::Done(resume_repair(id, pos, times, o)),
        Pending::Upgrade(id, container, refill) => Tick::Done(resume_upgrade(id, container, refill, o)),
        Pending::Harvest(w, id, better) => Tick::Done(resume_harvest(w, id, better, o)),
        Pending::Claim(id, pos) => Tick::Done(resume_claim(id, pos, o)),
        Pending::Book(id, pos, long) => Tick::Done(resume_book(id, pos, long, o)),
        Pending::Pickup(id) => Tick::Done(resume_pickup(id, o)),
        Pending::TakeFrom(pos, id, r, a, retried) => resume_take_from(pos, id, r, a, retried, o),
        Pending::Deliver(_, _, _, _) => Tick::Done(resume_deliver(o)),
        Pending::SafeMode(pos, id, sid) => Tick::Done(resume_safe_mode(pos, id, sid, o)),
        _ => Tick::Done(Step { result: TaskResult::Abort, orders: Vec::new() }),
    }
}

/// Finish a tick that waited on an intent, given how the game answered.
pub fn resume(p: Pending, o: Outcome) -> (t: Tick)
    requires
        resumable(p, o),
    ensures
        spec_resumed(p, o, t),
{
    match p {
        Pending::InWithdraw(pos, id, res, inner) => {
            let ti = resume_leaf(*inner, o);
            let ghost gti = ti;
            match ti {
                Tick::Done(si) => {
                    let result = withdraw_after(pos, id, res, si.result);
                    Tick::Done(Step { result, orders: si.orders })
                },
                Tick::Await(v, x, q) => Tick::Await(v, x, Pending::InWithdraw(pos, id, res, Box::new(q))),
            }
        },
        Pending::InLongRange(pos, id, r, amount, take, inner) => {
            let ti = resume_leaf(*inner, o);
            let ghost gti = ti;
            match ti {
                Tick::Done(si) => {
                    let result = long_range_after(pos, id, r, amount, take, si.result);
                    Tick::Done(Step { result, orders: si.orders })
                },
                Tick::Await(v, x, q) => Tick::Await(v, x, Pending::InLongRange(pos, id, r, amount, take, Box::new(q))),
            }
        },
        Pending::InCarryDeliver(from, to, r, amount, current, inner) => {
            let ti = resume_leaf(*inner, o);
            let ghost gti = ti;
            match ti {
                Tick::Done(si) => {
                    let result = carry_deliver_after(from, to, r, amount, current, si.result);
                    Tick::Done(Step { result, orders: si.orders })
                },
                Tick::Await(v, x, q) => Tick::Await(v, x, Pending::InCarryDeliver(from, to, r, amount, current, Box::new(q))),
            }
        },
        Pending::InCarryOther(from, to, r, amount, inner) => {
            let ti = resume_leaf(*inner, o);
            let ghost gti = ti;
            match ti {
                Tick::Done(si) => {
                    let result = carry_other_after(from, to, r, amount, si.result);
                    Tick::Done(Step { result, orders: si.orders })
                },
                Tick::Await(v, x, q) => Tick::Await(v, x, Pending::InCarryOther(from, to, r, amount, Box::new(q))),
            }
        },
        Pending::InPowerCarry(pos, id, inner) => {
            let ti = resume_leaf(*inner, o);
            let ghost gti = ti;
            match ti {
                Tick::Done(si) => Tick::Done(pb_carry_after(pos, id, si)),
                Tick::Await(v, x, q) => Tick::Await(v, x, Pending::InPowerCarry(pos, id, Box::new(q))),
            }
        },
        _ => resume_leaf(p, o),
    }
}

fn leaf_can_resume(p: &Pending, o: Outcome) -> (r: bool)
    ensures
        r == leaf_resumable(*p, o),
{
    match p {
        Pending::InWithdraw(..) | Pending::InLongRange(..) | Pending::InCarryDeliver(..) | Pending::InCarryOther(..)
        | Pending::InPowerCarry(..) => false,
        Pending::Repair(_, _, times) => o != Outcome::Done || *times >= 2,
        _ => true,
    }
}

/// Whether `resume` takes the pending intent with this outcome.
pub fn can_resume(p: &Pending, o: Outcome) -> (r: bool)
    ensures
        r == resumable(*p, o),
{
    match p {
        Pending::InWithdraw(_, _, _, inner) => leaf_can_resume(inner, o),
        Pending::InLongRange(_, _, _, _, _, inner) => leaf_can_resume(inner, o),
        Pending::InCarryDeliver(_, _, _, _, _, inner) => leaf_can_resume(inner, o),
        Pending::InCarryOther(_, _, _, _, inner) => leaf_can_resume(inner, o),
        Pending::InPowerCarry(_, _, inner) => leaf_can_resume(inner, o),
        _ => leaf_can_resume(p, o),
    }
}

/// A withdrawal is retried once: resuming a retried one never waits on
/// another intent, and a first refusal for want of resources waits on
/// exactly one retry.
pub proof fn lemma_take_from_retries_once(pos: crate::geometry::Position, id: crate::tasks::ObjectId, r: Resource,
    a: Option<u32>, o: Outcome, t: Tick)
    ensures
        spec_resumed_leaf(Pending::TakeFrom(pos, id, r, a, true), o, t) ==> t is Done,
        spec_resumed_leaf(Pending::TakeFrom(pos, id, r, a, false), Outcome::NotEnoughResources, t) ==> (t matches Tick::Await(
            _,
            _,
            q,
        ) && q == Pending::TakeFrom(pos, id, r, a, true)),
{
}

} // verus!
