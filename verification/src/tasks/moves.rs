use vstd::prelude::*;

use crate::body::BodyPart;
use crate::commons::{attacker_filter, closest_attacker, opt_int, spec_closest_fold, units_valid, Owner, Unit};
use crate::constants::HIDE_TIMEOUT;
use crate::geometry::{get_range_to, is_room_edge, spec_edge_xy, spec_range, Position, RoomName};
use crate::objects::is_first_min_by;
use crate::orders::{same_step, Order, Sign, Step};
use crate::tasks::{goal, Avoid, MovementGoal, Task, TaskResult, Walker};
use crate::units::{has_part, spec_has_part};

verus! {

/// Distance from the centre of a room at which a creep counts as arrived.
pub const PROBE_DISTANCE: u32 = 24;
/// How far a fleeing creep keeps from the hostile it flees.
pub const FLEE_RANGE: u32 = 5;

/// A step's result and orders, as values.
pub open spec fn outcome(s: Step) -> (TaskResult, Seq<Order>) {
    (s.result, s.orders@)
}

pub open spec fn still(task: Task, g: Option<MovementGoal>) -> TaskResult {
    TaskResult::StillWorking(task, g)
}

pub(crate) fn step(result: TaskResult, orders: Vec<Order>) -> (s: Step)
    ensures
        s.result == result,
        s.orders@ == orders@,
{
    Step { result, orders }
}

pub(crate) fn say(sign: Sign, public: bool) -> (v: Vec<Order>)
    ensures
        v@ == seq![Order::Say(sign, public)],
{
    let mut v: Vec<Order> = Vec::new();
    v.push(Order::Say(sign, public));
    v
}

pub(crate) fn one(a: Order) -> (v: Vec<Order>)
    ensures
        v@ == seq![a],
{
    let mut v: Vec<Order> = Vec::new();
    v.push(a);
    v
}

pub(crate) fn two(a: Order, b: Order) -> (v: Vec<Order>)
    ensures
        v@ == seq![a, b],
{
    let mut v: Vec<Order> = Vec::new();
    v.push(a);
    v.push(b);
    v
}

pub(crate) fn three(a: Order, b: Order, c: Order) -> (v: Vec<Order>)
    ensures
        v@ == seq![a, b, c],
{
    let mut v: Vec<Order> = Vec::new();
    v.push(a);
    v.push(b);
    v.push(c);
    v
}

pub(crate) fn no_orders() -> (v: Vec<Order>)
    ensures
        v@ == Seq::<Order>::empty(),
{
    Vec::new()
}

/// The contract of `portal`, as a predicate of its result.
pub open spec fn spec_portal_step(pos: Position, s: Step) -> bool {
    same_step(s, (still(Task::Portal(pos), Some(goal(Walker::Exploring(false), pos, 0, Avoid::Nobody))), Seq::<Order>::empty()))
}

/// Walk into a portal.
pub fn portal(pos: Position) -> (s: Step)
    ensures
        spec_portal_step(pos, s),
{
    step(TaskResult::StillWorking(Task::Portal(pos), Some(MovementGoal { walker: Walker::Exploring(false), target: pos, range: 0, avoid: Avoid::Nobody })), no_orders())
}

/// The contract of `speak`, as a predicate of its result.
pub open spec fn spec_speak_step(time: u32, s: Step) -> bool {
    same_step(s, (still(Task::Speak, None), seq![Order::Say(Sign::Phrase(time % 10), true)]))
}

/// Say one of the friendly phrases, picked by the game tick.
pub fn speak(time: u32) -> (s: Step)
    ensures
        spec_speak_step(time, s),
{
    step(TaskResult::StillWorking(Task::Speak, None), say(Sign::Phrase(time % 10), true))
}

/// The contract of `idle`, as a predicate of its result.
pub open spec fn spec_idle_step(ticks: u32, s: Step) -> bool {
    same_step(s, if ticks < 1 {
            (TaskResult::Abort, Seq::<Order>::empty())
        } else {
            (still(Task::Idle((ticks - 1) as u32), None), seq![Order::Say(Sign::Smoking, true)])
        })
}

/// Rest for `ticks` more ticks; give up when none are left.
pub fn idle(ticks: u32) -> (s: Step)
    ensures
        spec_idle_step(ticks, s),
{
    if ticks < 1 {
        step(TaskResult::Abort, no_orders())
    } else {
        step(TaskResult::StillWorking(Task::Idle(ticks - 1), None), say(Sign::Smoking, true))
    }
}

/// The centre tile of a room.
pub open spec fn room_centre(room: RoomName) -> Position {
    Position { room, x: 25, y: 25 }
}

/// The contract of `move_me`, as a predicate of its result.
pub open spec fn spec_move_me_step(at: Position, room: RoomName, walker: Walker, s: Step) -> bool {
    same_step(s, if at.room == room {
            (TaskResult::Abort, seq![Order::Say(Sign::Arrived, true)])
        } else {
            (still(Task::MoveMe(room, walker), Some(goal(walker, room_centre(room), PROBE_DISTANCE, Avoid::Attackers))), seq![Order::Say(Sign::Walking, true)])
        })
}

/// Travel into `room`; done (and given up for another task) once inside.
pub fn move_me(at: Position, room: RoomName, walker: Walker) -> (s: Step)
    ensures
        spec_move_me_step(at, room, walker, s),
{
    if at.room == room {
        step(TaskResult::Abort, say(Sign::Arrived, true))
    } else {
        let centre = Position { room, x: 25, y: 25 };
        step(
            TaskResult::StillWorking(Task::MoveMe(room, walker), Some(MovementGoal { walker, target: centre, range: PROBE_DISTANCE, avoid: Avoid::Attackers })),
            say(Sign::Walking, true),
        )
    }
}

/// A hostile whose attack or ranged attack part still works.
pub open spec fn is_active_attacker(u: Unit) -> bool {
    spec_has_part(seq![BodyPart::RangedAttack, BodyPart::Attack], u.body@, true)
}

pub open spec fn active_attacker_filter() -> spec_fn(Unit) -> bool {
    |u: Unit| is_active_attacker(u)
}

pub open spec fn range_from(at: Position) -> spec_fn(Unit) -> int {
    |u: Unit| spec_range(at, u.pos)
}

/// The Provoke step once the closest working attacker is known (`closest`,
/// with the range to it).
pub open spec fn spec_provoke(ticks: u32, range: u32, closest: Option<(Position, u32)>, time: u32) -> (TaskResult, Seq<Order>) {
    match closest {
        None => (TaskResult::Completed, seq![Order::Say(Sign::Smoking, true)]),
        Some((hpos, actual)) => if actual < range {
            (still(Task::Provoke(5, 10), Some(goal(Walker::Flee, hpos, 10, Avoid::ActiveAttackers))), Seq::<Order>::empty())
        } else if actual > range {
            (still(Task::Provoke(5, range), Some(goal(Walker::Exploring(false), hpos, range, Avoid::ActiveAttackers))), Seq::<Order>::empty())
        } else if range == 5 {
            (still(Task::Provoke(ticks, range), None), seq![Order::Say(Sign::Phrase(time % 10), true)])
        } else if range < 5 {
            (still(Task::Provoke(ticks, range), Some(goal(Walker::Flee, hpos, 10, Avoid::ActiveAttackers))), Seq::<Order>::empty())
        } else if ticks == 0 {
            (still(Task::Provoke(5, (range - 1) as u32), None), Seq::<Order>::empty())
        } else {
            (still(Task::Provoke((ticks - 1) as u32, range), None), Seq::<Order>::empty())
        },
    }
}

/// The contract of `provoke`, as a predicate of its result.
pub open spec fn spec_provoke_step(at: Position, ticks: u32, range: u32, hostiles: Seq<Unit>, time: u32, s: Step) -> bool {
    exists|c: Option<Unit>|
            #[trigger] is_first_min_by(hostiles, active_attacker_filter(), range_from(at), c) && outcome(s) == spec_provoke(
                ticks,
                range,
                match c {
                    Some(u) => Some((u.pos, spec_range(at, u.pos) as u32)),
                    None => None,
                },
                time,
            )
}

/// Tease the hostiles: hold `range` from the closest working attacker (the
/// first listed among the closest), closing in or backing off, and after
/// `ticks` ticks at that range step one tile closer; at range five talk.
pub fn provoke(at: Position, ticks: u32, range: u32, hostiles: &[Unit], time: u32) -> (s: Step)
    requires
        at.valid(),
        units_valid(hostiles@),
    ensures
        spec_provoke_step(at, ticks, range, hostiles@, time, s),
{
    let ghost p = active_attacker_filter();
    let ghost key = range_from(at);
    let parts = [BodyPart::RangedAttack, BodyPart::Attack];
    assert(parts@ =~= seq![BodyPart::RangedAttack, BodyPart::Attack]);
    let mut best: Option<(usize, u32)> = None;
    let mut i: usize = 0;
    while i < hostiles.len()
        invariant
            at.valid(),
            units_valid(hostiles@),
            parts@ == seq![BodyPart::RangedAttack, BodyPart::Attack],
            p == active_attacker_filter(),
            key == range_from(at),
            i <= hostiles@.len(),
            match best {
                Some((b, d)) => b < i && p(hostiles@[b as int]) && d == key(hostiles@[b as int]) && (forall|j: int|
                    0 <= j < i && p(#[trigger] hostiles@[j]) ==> key(hostiles@[b as int]) <= key(hostiles@[j]))
                    && (forall|j: int|
                    0 <= j < b && p(#[trigger] hostiles@[j]) ==> key(hostiles@[b as int]) < key(hostiles@[j])),
                None => forall|j: int| 0 <= j < i ==> !p(#[trigger] hostiles@[j]),
            },
        decreases hostiles@.len() - i,
    {
        let h = &hostiles[i];
        if has_part(&parts, &h.body, true) {
            let d = get_range_to(at, h.pos);
            match best {
                Some((_, bd)) => {
                    if d < bd {
                        best = Some((i, d));
                    }
                },
                None => {
                    best = Some((i, d));
                },
            }
        }
        i = i + 1;
    }
    match best {
        None => {
            assert(is_first_min_by(hostiles@, p, key, None));
            step(TaskResult::Completed, say(Sign::Smoking, true))
        },
        Some((b, actual)) => {
            let hpos = hostiles[b].pos;
            assert(is_first_min_by(hostiles@, p, key, Some(hostiles@[b as int])));
            if actual < range {
                step(TaskResult::StillWorking(Task::Provoke(5, 10), Some(MovementGoal { walker: Walker::Flee, target: hpos, range: 10, avoid: Avoid::ActiveAttackers })), no_orders())
            } else if actual > range {
                step(TaskResult::StillWorking(Task::Provoke(5, range), Some(MovementGoal { walker: Walker::Exploring(false), target: hpos, range, avoid: Avoid::ActiveAttackers })), no_orders())
            } else if range == 5 {
                step(TaskResult::StillWorking(Task::Provoke(ticks, range), None), say(Sign::Phrase(time % 10), true))
            } else if range < 5 {
                step(TaskResult::StillWorking(Task::Provoke(ticks, range), Some(MovementGoal { walker: Walker::Flee, target: hpos, range: 10, avoid: Avoid::ActiveAttackers })), no_orders())
            } else if ticks == 0 {
                step(TaskResult::StillWorking(Task::Provoke(5, range - 1), None), no_orders())
            } else {
                step(TaskResult::StillWorking(Task::Provoke(ticks - 1, range), None), no_orders())
            }
        },
    }
}

/// The Flee step once the closest attacker is known: away from it while
/// it is within five tiles, or out by the closest exit when that is nearer
/// than the attacker (and the attacker is no source keeper).
pub open spec fn spec_flee(at: Position, range: u32, closest: Option<Unit>, exit: Option<Position>) -> (TaskResult, Seq<Order>) {
    match closest {
        Some(h) => if spec_range(at, h.pos) < 6 {
            if h.owner != Owner::SourceKeeper && exit is Some && spec_range(at, exit->0) < spec_range(at, h.pos) {
                (still(Task::Escape(exit->0), Some(goal(Walker::Exploring(false), exit->0, 0, Avoid::Nobody))), seq![Order::Say(Sign::ThumbsDown, true)])
            } else {
                (still(Task::Flee(range), Some(goal(Walker::Flee, h.pos, range, Avoid::Nobody))), seq![Order::Say(Sign::ThumbsDown, true)])
            }
        } else {
            (TaskResult::Abort, Seq::<Order>::empty())
        },
        None => (TaskResult::Abort, Seq::<Order>::empty()),
    }
}

pub open spec fn pick<T>(s: Seq<T>, i: Option<int>) -> Option<T> {
    match i {
        Some(k) => Some(s[k]),
        None => None,
    }
}

/// The contract of `flee`, as a predicate of its result.
pub open spec fn spec_flee_step(at: Position, range: u32, hostiles: Seq<Unit>, exit: Option<Position>, s: Step) -> bool {
    same_step(s, spec_flee(at, range, pick(hostiles, spec_closest_fold(hostiles, at, attacker_filter())), exit))
}

/// Keep `range` from the closest attacker; `exit` is the closest exit of
/// the room by path, if any.
pub fn flee(at: Position, range: u32, hostiles: &[Unit], exit: Option<Position>) -> (s: Step)
    requires
        at.valid(),
        units_valid(hostiles@),
        exit matches Some(e) ==> e.valid(),
    ensures
        spec_flee_step(at, range, hostiles@, exit, s),
{
    match closest_attacker(at, hostiles) {
        Some(k) => {
            proof {
                crate::commons::lemma_fold_bounds(hostiles@, at, attacker_filter());
            }
            let h = &hostiles[k];
            let hr = get_range_to(at, h.pos);
            if hr < 6 {
                let escape = match exit {
                    Some(e) => h.owner != Owner::SourceKeeper && get_range_to(at, e) < hr,
                    None => false,
                };
                if escape {
                    let e = exit.unwrap();
                    step(TaskResult::StillWorking(Task::Escape(e), Some(MovementGoal { walker: Walker::Exploring(false), target: e, range: 0, avoid: Avoid::Nobody })), say(Sign::ThumbsDown, true))
                } else {
                    step(TaskResult::StillWorking(Task::Flee(range), Some(MovementGoal { walker: Walker::Flee, target: h.pos, range, avoid: Avoid::Nobody })), say(Sign::ThumbsDown, true))
                }
            } else {
                step(TaskResult::Abort, no_orders())
            }
        },
        None => step(TaskResult::Abort, no_orders()),
    }
}

/// The contract of `escape`, as a predicate of its result.
pub open spec fn spec_escape_step(at: Position, position: Position, hideout: Option<Position>, s: Step) -> bool {
    same_step(s, if spec_edge_xy(at.x as int, at.y as int) && spec_edge_xy(position.x as int, position.y as int) && at.room != position.room {
            match hideout {
                Some(p) => (still(Task::Hide(p, HIDE_TIMEOUT), Some(goal(Walker::Exploring(false), p, 0, Avoid::Attackers))), seq![Order::Say(Sign::Quiet, false)]),
                None => (TaskResult::Abort, Seq::<Order>::empty()),
            }
        } else {
            (still(Task::Escape(position), Some(goal(Walker::Exploring(false), position, 0, Avoid::Attackers))), seq![Order::Say(Sign::Running, true)])
        })
}

/// Run for `position`; once on a border tile heading into another room's
/// border, hide at `hideout` (a walkable tile away from the border), or
/// give up when there is none.
pub fn escape(at: Position, position: Position, hideout: Option<Position>) -> (s: Step)
    ensures
        spec_escape_step(at, position, hideout, s),
{
    if is_room_edge(at) && is_room_edge(position) && at.room != position.room {
        match hideout {
            Some(p) => step(TaskResult::StillWorking(Task::Hide(p, HIDE_TIMEOUT), Some(MovementGoal { walker: Walker::Exploring(false), target: p, range: 0, avoid: Avoid::Attackers })), say(Sign::Quiet, false)),
            None => step(TaskResult::Abort, no_orders()),
        }
    } else {
        step(TaskResult::StillWorking(Task::Escape(position), Some(MovementGoal { walker: Walker::Exploring(false), target: position, range: 0, avoid: Avoid::Attackers })), say(Sign::Running, true))
    }
}

/// The contract of `hide_until`, as a predicate of its result.
pub open spec fn spec_hide_until_step(at: Position, position: Position, timeout: u32, s: Step) -> bool {
    same_step(s, if timeout < 1 {
            (TaskResult::Abort, Seq::<Order>::empty())
        } else if at == position {
            (still(Task::Idle((timeout - 1) as u32), None), seq![Order::Say(Sign::Smoking, true)])
        } else {
            (still(Task::Hide(position, (timeout - 1) as u32), Some(goal(Walker::Exploring(false), position, 0, Avoid::Attackers))), seq![Order::Say(Sign::Quiet, false)])
        })
}

/// Go to `position` and wait there until `timeout` runs out.
pub fn hide_until(at: Position, position: Position, timeout: u32) -> (s: Step)
    ensures
        spec_hide_until_step(at, position, timeout, s),
{
    if timeout < 1 {
        step(TaskResult::Abort, no_orders())
    } else if at == position {
        step(TaskResult::StillWorking(Task::Idle(timeout - 1), None), say(Sign::Smoking, true))
    } else {
        step(TaskResult::StillWorking(Task::Hide(position, timeout - 1), Some(MovementGoal { walker: Walker::Exploring(false), target: position, range: 0, avoid: Avoid::Attackers })), say(Sign::Quiet, false))
    }
}

/// The next tick runs the task that the tick before kept: an `Idle` kept
/// by `prev` is run by `next`.
pub open spec fn runs_kept_idle(prev: Step, next: Step) -> bool {
    match prev.result {
        TaskResult::StillWorking(Task::Idle(m), _) => spec_idle_step(m, next),
        _ => false,
    }
}

/// Successive ticks of idling that starts from `Idle(t)`: the first tick
/// runs `Idle(t)`, and each later one runs the task the tick before kept.
pub open spec fn idle_run(t: u32, steps: Seq<Step>) -> bool {
    &&& steps.len() > 0 ==> spec_idle_step(t, steps[0])
    &&& forall|k: int| 0 < k < steps.len() ==> #[trigger] runs_kept_idle(steps[k - 1], steps[k])
}

/// Idling counts down and then gives up: over successive ticks from
/// `Idle(t)`, tick `k` keeps `Idle(t - k - 1)` while `k < t`, tick `t` gives
/// the task up, and no run of idling lasts more than `t + 1` ticks.
pub proof fn lemma_idle_runs_out(t: u32, steps: Seq<Step>)
    requires
        idle_run(t, steps),
    ensures
        steps.len() <= t + 1,
        forall|k: int| 0 <= k < steps.len() && k < t ==> #[trigger] steps[k].result == still(Task::Idle((t - k - 1) as u32), None),
        steps.len() == t + 1 ==> steps[t as int].result == TaskResult::Abort,
    decreases steps.len(),
{
    if steps.len() > 0 {
        let shorter = steps.drop_last();
        assert(idle_run(t, shorter)) by {
            assert forall|k: int| 0 < k < shorter.len() implies #[trigger] runs_kept_idle(shorter[k - 1], shorter[k]) by {
                assert(runs_kept_idle(steps[k - 1], steps[k]));
            }
        }
        lemma_idle_runs_out(t, shorter);
        let last = steps.len() - 1;
        if last > 0 {
            assert(runs_kept_idle(steps[last - 1], steps[last]));
            assert(shorter[last - 1] == steps[last - 1]);
        }
        assert forall|k: int| 0 <= k < steps.len() && k < t implies #[trigger] steps[k].result == still(Task::Idle((t - k - 1) as u32), None) by {
            if k < last {
                assert(shorter[k] == steps[k]);
            }
        }
    }
}

} // verus!
