use vstd::prelude::*;

use crate::constants::{CLOSE_RANGE_ACTION, LONG_RANGE_ACTION, MIN_STORAGE_FREE_CAPACITY};
use crate::geometry::{get_range_to, in_range_to, is_near_to, spec_near, spec_range, Position, RoomName};
use crate::resources::Resource;
use crate::tasks::ObjectId;

verus! {

/// The powers a power creep uses.
#[derive(Clone, Copy, Debug, PartialEq, Eq, Structural)]
pub enum PowerKind {
    GenerateOps,
    OperateTower,
    RegenSource,
    RegenMineral,
    OperateStorage,
    OperateSpawn,
    OperateFactory,
    OperateController,
    Fortify,
}

/// An effect on a room object: the power behind it (none for a natural
/// effect) and the ticks it has left.
#[derive(Clone, Copy, Debug, PartialEq, Eq, Structural)]
pub struct EffectView {
    pub power: Option<PowerKind>,
    pub ticks: u32,
}

/// A room object by id and position.
#[derive(Clone, Copy, Debug, PartialEq, Eq, Structural)]
pub struct Spot {
    pub id: ObjectId,
    pub pos: Position,
}

/// A room object a power creep works on, with its effects.
#[derive(Clone, Debug)]
pub struct Target {
    pub id: ObjectId,
    pub pos: Position,
    pub effects: Vec<EffectView>,
}

/// The home storage as a power creep reads it.
#[derive(Clone, Debug)]
pub struct StorageView {
    pub id: ObjectId,
    pub pos: Position,
    pub effects: Vec<EffectView>,
    /// Units of ops held.
    pub ops: u32,
    /// Units held of anything.
    pub used: u32,
    /// Free capacity.
    pub free: i32,
}

/// What a power creep reads of itself and of its home this tick.
#[derive(Clone, Debug)]
pub struct PcView {
    pub pos: Position,
    pub ticks_to_live: Option<u32>,
    /// Units of ops held.
    pub ops: u32,
    pub capacity: u32,
    /// Its powers that are off cooldown.
    pub ready: Vec<PowerKind>,
    /// The powers the home room has enabled.
    pub enabled: Vec<PowerKind>,
    pub controller: Spot,
    /// The home controller has powers enabled.
    pub controller_powered: bool,
    /// The home controller is free of the controller power's effect.
    pub controller_free: bool,
    pub power_spawn: Option<Spot>,
    pub storage: Option<StorageView>,
    pub factory: Option<Target>,
    pub mineral: Target,
    pub mineral_regenerating: bool,
    pub sources: Vec<Target>,
    pub spawns: Vec<Target>,
    pub towers: Vec<Target>,
    /// The perimeter rampart with the fewest hit points.
    pub lowest_perimeter: Option<Spot>,
}

/// The intents of a power creep.
#[derive(Clone, Copy, Debug, PartialEq, Eq, Structural)]
pub enum PcOrder {
    EnableRoom(ObjectId),
    Renew(ObjectId),
    UsePower(PowerKind, Option<ObjectId>),
    Withdraw(ObjectId, Resource),
    Transfer(ObjectId, Resource),
}

/// How a link of the action chain handles the tick: passes it on, or ends
/// it with an intent and a walk (target and range), each possibly none.
#[derive(Clone, Copy, Debug)]
pub enum Handled {
    Pass,
    Act(Option<PcOrder>, Option<(Position, u32)>),
}

/// The links of a power creep's action chain.
#[derive(Clone, Copy, Debug, PartialEq, Eq, Structural)]
pub enum Link {
    EnableController,
    Renew,
    GenerateOps,
    /// Fetch ops from storage while holding fewer than this.
    Withdraw(u32),
    Transfer,
    OperateTower,
    OperateSource,
    OperateMineral,
    OperateStorage,
    OperateSpawn,
    OperateFactory,
    OperateController,
    Fortify,
}

pub open spec fn has_power_effect(effects: Seq<EffectView>, p: PowerKind) -> bool {
    exists|i: int| 0 <= i < effects.len() && (#[trigger] effects[i]).power == Some(p)
}

fn power_effect(effects: &[EffectView], p: PowerKind, min_ticks: Option<u32>) -> (r: bool)
    ensures
        r == exists|i: int| 0 <= i < effects@.len() && (#[trigger] effects@[i]).power == Some(p) && (min_ticks matches Some(m) ==> effects@[i].ticks > m),
{
    let mut i: usize = 0;
    while i < effects.len()
        invariant
            i <= effects@.len(),
            forall|j: int| 0 <= j < i ==> !((#[trigger] effects@[j]).power == Some(p) && (min_ticks matches Some(m) ==> effects@[j].ticks > m)),
        decreases effects@.len() - i,
    {
        let e = effects[i];
        let long = match min_ticks {
            Some(m) => e.ticks > m,
            None => true,
        };
        if e.power == Some(p) && long {
            assert(effects@[i as int].power == Some(p) && (min_ticks matches Some(m) ==> effects@[i as int].ticks > m));
            return true;
        }
        i = i + 1;
    }
    false
}

/// An object is free of a power when none of its effects comes from it.
pub fn free_of(effects: &[EffectView], p: PowerKind) -> (r: bool)
    ensures
        r == !has_power_effect(effects@, p),
{
    !power_effect(effects, p, None)
}

pub fn has_power(list: &[PowerKind], p: PowerKind) -> (r: bool)
    ensures
        r == list@.contains(p),
{
    let mut i: usize = 0;
    while i < list.len()
        invariant
            i <= list@.len(),
            forall|j: int| 0 <= j < i ==> list@[j] != p,
        decreases list@.len() - i,
    {
        if list[i] == p {
            assert(list@[i as int] == p);
            return true;
        }
        i = i + 1;
    }
    false
}

/// A source still wants its regeneration power: it has no such effect
/// with more than thirty ticks left.
pub open spec fn source_free(t: Target) -> bool {
    !(exists|i: int| 0 <= i < t.effects@.len() && (#[trigger] t.effects@[i]).power == Some(PowerKind::RegenSource) && t.effects@[i].ticks > 30)
}

/// The first target free of the power's effect (for sources: see
/// `source_free`).
pub open spec fn spec_first_free(ts: Seq<Target>, p: PowerKind) -> Option<Target>
    decreases ts.len(),
{
    if ts.len() == 0 {
        None
    } else if (if p == PowerKind::RegenSource { source_free(ts[0]) } else { !has_power_effect(ts[0].effects@, p) }) {
        Some(ts[0])
    } else {
        spec_first_free(ts.drop_first(), p)
    }
}

fn first_free(ts: &[Target], p: PowerKind) -> (r: Option<(ObjectId, Position)>)
    ensures
        r == match spec_first_free(ts@, p) {
            Some(t) => Some((t.id, t.pos)),
            None => None,
        },
{
    let mut i: usize = 0;
    assert(ts@.skip(0) =~= ts@);
    while i < ts.len()
        invariant
            i <= ts@.len(),
            spec_first_free(ts@, p) == spec_first_free(ts@.skip(i as int), p),
        decreases ts@.len() - i,
    {
        proof {
            assert(ts@.skip(i as int).drop_first() =~= ts@.skip(i + 1));
        }
        let min_ticks = if p == PowerKind::RegenSource { Some(30u32) } else { None };
        if !power_effect(&ts[i].effects, p, min_ticks) {
            return Some((ts[i].id, ts[i].pos));
        }
        i = i + 1;
    }
    None
}

/// Use `power` on the target at `pos` (within three tiles), else walk there.
pub open spec fn operate(me: Position, power: PowerKind, id: ObjectId, pos: Position) -> Handled {
    if spec_range(me, pos) <= LONG_RANGE_ACTION {
        Handled::Act(Some(PcOrder::UsePower(power, Some(id))), None)
    } else {
        Handled::Act(None, Some((pos, LONG_RANGE_ACTION)))
    }
}

/// Act on the structure at `pos` next to it, else walk there.
pub open spec fn touch(me: Position, order: PcOrder, pos: Position) -> Handled {
    if spec_near(me, pos) {
        Handled::Act(Some(order), None)
    } else {
        Handled::Act(None, Some((pos, CLOSE_RANGE_ACTION)))
    }
}

pub open spec fn ready(v: PcView, p: PowerKind) -> bool {
    v.ready@.contains(p)
}

/// How one link handles the tick.
pub open spec fn spec_handle(l: Link, v: PcView) -> Handled {
    match l {
        Link::EnableController => if !v.controller_powered {
            touch(v.pos, PcOrder::EnableRoom(v.controller.id), v.controller.pos)
        } else {
            Handled::Pass
        },
        Link::Renew => if v.ticks_to_live matches Some(t) && t < 100 {
            match v.power_spawn {
                Some(ps) => touch(v.pos, PcOrder::Renew(ps.id), ps.pos),
                None => Handled::Act(None, None),
            }
        } else {
            Handled::Pass
        },
        Link::GenerateOps => if ready(v, PowerKind::GenerateOps) {
            Handled::Act(Some(PcOrder::UsePower(PowerKind::GenerateOps, None)), None)
        } else {
            Handled::Pass
        },
        Link::Withdraw(amount) => if v.ops < amount {
            match v.storage {
                Some(s) => if s.ops >= amount { touch(v.pos, PcOrder::Withdraw(s.id, Resource::Ops), s.pos) } else { Handled::Act(None, None) },
                None => Handled::Act(None, None),
            }
        } else {
            Handled::Pass
        },
        Link::Transfer => if v.ops > v.capacity / 2 {
            match v.storage {
                Some(s) => if s.free > MIN_STORAGE_FREE_CAPACITY { touch(v.pos, PcOrder::Transfer(s.id, Resource::Ops), s.pos) } else { Handled::Act(None, None) },
                None => Handled::Act(None, None),
            }
        } else {
            Handled::Pass
        },
        Link::OperateTower => if ready(v, PowerKind::OperateTower) {
            match spec_first_free(v.towers@, PowerKind::OperateTower) {
                Some(t) => operate(v.pos, PowerKind::OperateTower, t.id, t.pos),
                None => Handled::Act(None, None),
            }
        } else {
            Handled::Pass
        },
        Link::OperateSource => match spec_first_free(v.sources@, PowerKind::RegenSource) {
            Some(t) => if ready(v, PowerKind::RegenSource) { operate(v.pos, PowerKind::RegenSource, t.id, t.pos) } else { Handled::Pass },
            None => Handled::Pass,
        },
        Link::OperateMineral => if !v.mineral_regenerating && !has_power_effect(v.mineral.effects@, PowerKind::RegenMineral) && ready(v, PowerKind::RegenMineral) {
            operate(v.pos, PowerKind::RegenMineral, v.mineral.id, v.mineral.pos)
        } else {
            Handled::Pass
        },
        Link::OperateStorage => match v.storage {
            Some(s) => if s.effects@.len() == 0 && s.used > 990_000 && ready(v, PowerKind::OperateStorage) {
                operate(v.pos, PowerKind::OperateStorage, s.id, s.pos)
            } else {
                Handled::Pass
            },
            None => Handled::Pass,
        },
        Link::OperateSpawn => match spec_first_free(v.spawns@, PowerKind::OperateSpawn) {
            Some(t) => if ready(v, PowerKind::OperateSpawn) && v.enabled@.contains(PowerKind::OperateSpawn) {
                operate(v.pos, PowerKind::OperateSpawn, t.id, t.pos)
            } else {
                Handled::Pass
            },
            None => Handled::Pass,
        },
        Link::OperateFactory => match v.factory {
            Some(f) => if !has_power_effect(f.effects@, PowerKind::OperateFactory) && ready(v, PowerKind::OperateFactory)
                && v.enabled@.contains(PowerKind::OperateFactory) {
                operate(v.pos, PowerKind::OperateFactory, f.id, f.pos)
            } else {
                Handled::Pass
            },
            None => Handled::Pass,
        },
        Link::OperateController => if v.controller_free && ready(v, PowerKind::OperateController) && v.enabled@.contains(PowerKind::OperateController) {
            operate(v.pos, PowerKind::OperateController, v.controller.id, v.controller.pos)
        } else {
            Handled::Pass
        },
        Link::Fortify => if ready(v, PowerKind::Fortify) {
            match v.lowest_perimeter {
                Some(r) => operate(v.pos, PowerKind::Fortify, r.id, r.pos),
                None => Handled::Act(None, None),
            }
        } else {
            Handled::Pass
        },
    }
}

fn operate_exec(me: Position, power: PowerKind, id: ObjectId, pos: Position) -> (h: Handled)
    requires
        me.valid(),
        pos.valid(),
    ensures
        h == operate(me, power, id, pos),
{
    if get_range_to(me, pos) <= LONG_RANGE_ACTION {
        Handled::Act(Some(PcOrder::UsePower(power, Some(id))), None)
    } else {
        Handled::Act(None, Some((pos, LONG_RANGE_ACTION)))
    }
}

fn touch_exec(me: Position, order: PcOrder, pos: Position) -> (h: Handled)
    ensures
        h == touch(me, order, pos),
{
    if is_near_to(me, pos) {
        Handled::Act(Some(order), None)
    } else {
        Handled::Act(None, Some((pos, CLOSE_RANGE_ACTION)))
    }
}

/// Every position a power creep reads is on the map.
pub open spec fn view_valid(v: PcView) -> bool {
    &&& v.pos.valid()
    &&& v.controller.pos.valid()
    &&& v.mineral.pos.valid()
    &&& (v.storage matches Some(s) ==> s.pos.valid())
    &&& (v.factory matches Some(f) ==> f.pos.valid())
    &&& (v.lowest_perimeter matches Some(r) ==> r.pos.valid())
    &&& forall|i: int| 0 <= i < v.sources@.len() ==> (#[trigger] v.sources@[i]).pos.valid()
    &&& forall|i: int| 0 <= i < v.spawns@.len() ==> (#[trigger] v.spawns@[i]).pos.valid()
    &&& forall|i: int| 0 <= i < v.towers@.len() ==> (#[trigger] v.towers@[i]).pos.valid()
}

proof fn lemma_first_free_in(ts: Seq<Target>, p: PowerKind)
    ensures
        spec_first_free(ts, p) matches Some(t) ==> exists|i: int| 0 <= i < ts.len() && ts[i] == t,
    decreases ts.len(),
{
    if ts.len() > 0 {
        lemma_first_free_in(ts.drop_first(), p);
        if spec_first_free(ts.drop_first(), p) is Some && !(if p == PowerKind::RegenSource { source_free(ts[0]) } else { !has_power_effect(ts[0].effects@, p) }) {
            let i = choose|i: int| 0 <= i < ts.drop_first().len() && ts.drop_first()[i] == spec_first_free(ts.drop_first(), p)->0;
            assert(ts[i + 1] == ts.drop_first()[i]);
        }
    }
}

/// How one link handles the tick.
pub fn handle(l: Link, v: &PcView) -> (h: Handled)
    requires
        view_valid(*v),
    ensures
        h == spec_handle(l, *v),
{
    match l {
        Link::EnableController => {
            if !v.controller_powered {
                touch_exec(v.pos, PcOrder::EnableRoom(v.controller.id), v.controller.pos)
            } else {
                Handled::Pass
            }
        },
        Link::Renew => {
            let old = match v.ticks_to_live {
                Some(t) => t < 100,
                None => false,
            };
            if old {
                match v.power_spawn {
                    Some(ps) => touch_exec(v.pos, PcOrder::Renew(ps.id), ps.pos),
                    None => Handled::Act(None, None),
                }
            } else {
                Handled::Pass
            }
        },
        Link::GenerateOps => {
            if has_power(&v.ready, PowerKind::GenerateOps) {
                Handled::Act(Some(PcOrder::UsePower(PowerKind::GenerateOps, None)), None)
            } else {
                Handled::Pass
            }
        },
        Link::Withdraw(amount) => {
            if v.ops < amount {
                match &v.storage {
                    Some(s) => {
                        if s.ops >= amount {
                            touch_exec(v.pos, PcOrder::Withdraw(s.id, Resource::Ops), s.pos)
                        } else {
                            Handled::Act(None, None)
                        }
                    },
                    None => Handled::Act(None, None),
                }
            } else {
                Handled::Pass
            }
        },
        Link::Transfer => {
            if v.ops > v.capacity / 2 {
                match &v.storage {
                    Some(s) => {
                        if s.free > MIN_STORAGE_FREE_CAPACITY {
                            touch_exec(v.pos, PcOrder::Transfer(s.id, Resource::Ops), s.pos)
                        } else {
                            Handled::Act(None, None)
                        }
                    },
                    None => Handled::Act(None, None),
                }
            } else {
                Handled::Pass
            }
        },
        Link::OperateTower => {
            if has_power(&v.ready, PowerKind::OperateTower) {
                proof {
                    lemma_first_free_in(v.towers@, PowerKind::OperateTower);
                }
                match first_free(&v.towers, PowerKind::OperateTower) {
                    Some((id, pos)) => operate_exec(v.pos, PowerKind::OperateTower, id, pos),
                    None => Handled::Act(None, None),
                }
            } else {
                Handled::Pass
            }
        },
        Link::OperateSource => {
            proof {
                lemma_first_free_in(v.sources@, PowerKind::RegenSource);
            }
            match first_free(&v.sources, PowerKind::RegenSource) {
                Some((id, pos)) => {
                    if has_power(&v.ready, PowerKind::RegenSource) {
                        operate_exec(v.pos, PowerKind::RegenSource, id, pos)
                    } else {
                        Handled::Pass
                    }
                },
                None => Handled::Pass,
            }
        },
        Link::OperateMineral => {
            if !v.mineral_regenerating && !power_effect(&v.mineral.effects, PowerKind::RegenMineral, None)
                && has_power(&v.ready, PowerKind::RegenMineral) {
                operate_exec(v.pos, PowerKind::RegenMineral, v.mineral.id, v.mineral.pos)
            } else {
                Handled::Pass
            }
        },
        Link::OperateStorage => {
            match &v.storage {
                Some(s) => {
                    if s.effects.len() == 0 && s.used > 990_000 && has_power(&v.ready, PowerKind::OperateStorage) {
                        operate_exec(v.pos, PowerKind::OperateStorage, s.id, s.pos)
                    } else {
                        Handled::Pass
                    }
                },
                None => Handled::Pass,
            }
        },
        Link::OperateSpawn => {
            proof {
                lemma_first_free_in(v.spawns@, PowerKind::OperateSpawn);
            }
            match first_free(&v.spawns, PowerKind::OperateSpawn) {
                Some((id, pos)) => {
                    if has_power(&v.ready, PowerKind::OperateSpawn) && has_power(&v.enabled, PowerKind::OperateSpawn) {
                        operate_exec(v.pos, PowerKind::OperateSpawn, id, pos)
                    } else {
                        Handled::Pass
                    }
                },
                None => Handled::Pass,
            }
        },
        Link::OperateFactory => {
            match &v.factory {
                Some(f) => {
                    if !power_effect(&f.effects, PowerKind::OperateFactory, None) && has_power(&v.ready, PowerKind::OperateFactory)
                        && has_power(&v.enabled, PowerKind::OperateFactory) {
                        operate_exec(v.pos, PowerKind::OperateFactory, f.id, f.pos)
                    } else {
                        Handled::Pass
                    }
                },
                None => Handled::Pass,
            }
        },
        Link::OperateController => {
            if v.controller_free && has_power(&v.ready, PowerKind::OperateController) && has_power(&v.enabled, PowerKind::OperateController) {
                operate_exec(v.pos, PowerKind::OperateController, v.controller.id, v.controller.pos)
            } else {
                Handled::Pass
            }
        },
        Link::Fortify => {
            if has_power(&v.ready, PowerKind::Fortify) {
                match v.lowest_perimeter {
                    Some(r) => operate_exec(v.pos, PowerKind::Fortify, r.id, r.pos),
                    None => Handled::Act(None, None),
                }
            } else {
                Handled::Pass
            }
        },
    }
}

/// The chain of links a power creep runs: enable the controller, renew,
/// generate ops, then, with the home invaded, fetch ten ops, operate a
/// tower and fortify; with hostiles at home, fetch a hundred ops and
/// operate storage, tower, source and mineral; in peace operate a source,
/// fetch two hundred ops and operate storage, mineral, spawn, factory and
/// controller, and hand surplus ops back.
pub open spec fn spec_power_actions(invaded: bool, hostiles: bool) -> Seq<Link> {
    let common = seq![Link::EnableController, Link::Renew, Link::GenerateOps];
    if invaded {
        common + seq![Link::Withdraw(10), Link::OperateTower, Link::Fortify]
    } else if hostiles {
        common + seq![Link::Withdraw(100), Link::OperateStorage, Link::OperateTower, Link::OperateSource, Link::OperateMineral]
    } else {
        common + seq![Link::OperateSource, Link::Withdraw(200), Link::OperateStorage, Link::OperateMineral, Link::OperateSpawn,
            Link::OperateFactory, Link::OperateController, Link::Transfer]
    }
}

pub fn power_actions(invaded: bool, hostiles: bool) -> (c: Vec<Link>)
    ensures
        c@ == spec_power_actions(invaded, hostiles),
{
    let mut c: Vec<Link> = Vec::new();
    c.push(Link::EnableController);
    c.push(Link::Renew);
    c.push(Link::GenerateOps);
    if invaded {
        c.push(Link::Withdraw(10));
        c.push(Link::OperateTower);
        c.push(Link::Fortify);
    } else if hostiles {
        c.push(Link::Withdraw(100));
        c.push(Link::OperateStorage);
        c.push(Link::OperateTower);
        c.push(Link::OperateSource);
        c.push(Link::OperateMineral);
    } else {
        c.push(Link::OperateSource);
        c.push(Link::Withdraw(200));
        c.push(Link::OperateStorage);
        c.push(Link::OperateMineral);
        c.push(Link::OperateSpawn);
        c.push(Link::OperateFactory);
        c.push(Link::OperateController);
        c.push(Link::Transfer);
    }
    proof {
        assert(c@ =~= spec_power_actions(invaded, hostiles));
    }
    c
}

/// The chain's decision: the first link that does not pass decides the
/// intent and the walk; when every link passes there is neither.
pub open spec fn spec_run_chain(chain: Seq<Link>, v: PcView) -> (Option<PcOrder>, Option<(Position, u32)>)
    decreases chain.len(),
{
    if chain.len() == 0 {
        (None, None)
    } else {
        match spec_handle(chain[0], v) {
            Handled::Act(o, g) => (o, g),
            Handled::Pass => spec_run_chain(chain.drop_first(), v),
        }
    }
}

pub fn run_chain(chain: &[Link], v: &PcView) -> (r: (Option<PcOrder>, Option<(Position, u32)>))
    requires
        view_valid(*v),
    ensures
        r == spec_run_chain(chain@, *v),
{
    let mut i: usize = 0;
    assert(chain@.skip(0) =~= chain@);
    while i < chain.len()
        invariant
            view_valid(*v),
            i <= chain@.len(),
            spec_run_chain(chain@, *v) == spec_run_chain(chain@.skip(i as int), *v),
        decreases chain@.len() - i,
    {
        proof {
            assert(chain@.skip(i as int).drop_first() =~= chain@.skip(i + 1));
        }
        match handle(chain[i], v) {
            Handled::Act(o, g) => {
                return (o, g);
            },
            Handled::Pass => {},
        }
        i = i + 1;
    }
    (None, None)
}

/// The home of a power creep: the home room it stands in, else the closest
/// home (by linear distance) with a controller above level one, the first
/// such on a tie. Homes are given as name, controller level and distance
/// from the creep's room.
pub open spec fn spec_power_home(room: Option<RoomName>, homes: Seq<(RoomName, u8, u32)>) -> Option<RoomName> {
    match room {
        None => None,
        Some(r) => if exists|i: int| 0 <= i < homes.len() && (#[trigger] homes[i]).0 == r {
            Some(r)
        } else {
            spec_closest_home(homes)
        },
    }
}

pub open spec fn spec_closest_home(homes: Seq<(RoomName, u8, u32)>) -> Option<RoomName>
    decreases homes.len(),
{
    if homes.len() == 0 {
        None
    } else {
        let last = homes.last();
        match spec_closest_home(homes.drop_last()) {
            None => if last.1 > 1 { Some(last.0) } else { None },
            Some(best) => if last.1 > 1 && last.2 < distance_of(homes.drop_last(), best) { Some(last.0) } else { Some(best) },
        }
    }
}

/// The distance of the first home of that name.
pub open spec fn distance_of(homes: Seq<(RoomName, u8, u32)>, name: RoomName) -> u32
    decreases homes.len(),
{
    if homes.len() == 0 {
        0
    } else if homes[0].0 == name {
        homes[0].2
    } else {
        distance_of(homes.drop_first(), name)
    }
}

pub fn find_closest_home(homes: &[(RoomName, u8, u32)]) -> (r: Option<(RoomName, u32)>)
    requires
        forall|i: int, j: int| 0 <= i < j < homes@.len() ==> homes@[i].0 != homes@[j].0,
    ensures
        match r {
            Some((n, d)) => spec_closest_home(homes@) == Some(n) && d == distance_of(homes@, n),
            None => spec_closest_home(homes@) is None,
        },
{
    let mut best: Option<(RoomName, u32)> = None;
    let mut i: usize = 0;
    while i < homes.len()
        invariant
            i <= homes@.len(),
            forall|a: int, b: int| 0 <= a < b < homes@.len() ==> homes@[a].0 != homes@[b].0,
            match best {
                Some((n, d)) => spec_closest_home(homes@.take(i as int)) == Some(n) && d == distance_of(homes@.take(i as int), n)
                    && (exists|k: int| 0 <= k < i && homes@[k].0 == n),
                None => spec_closest_home(homes@.take(i as int)) is None,
            },
        decreases homes@.len() - i,
    {
        proof {
            assert(homes@.take(i + 1).drop_last() =~= homes@.take(i as int));
            lemma_distance_prefix(homes@, i as int);
        }
        let (name, level, dist) = homes[i];
        match best {
            None => {
                if level > 1 {
                    best = Some((name, dist));
                    proof {
                        lemma_distance_last(homes@.take(i + 1));
                    }
                }
            },
            Some((_, bd)) => {
                if level > 1 && dist < bd {
                    best = Some((name, dist));
                    proof {
                        lemma_distance_last(homes@.take(i + 1));
                    }
                }
            },
        }
        i = i + 1;
    }
    proof {
        assert(homes@.take(homes@.len() as int) =~= homes@);
    }
    best
}

/// Extending a prefix keeps the distance of a name already in it.
proof fn lemma_distance_prefix(homes: Seq<(RoomName, u8, u32)>, i: int)
    requires
        0 <= i < homes.len(),
        forall|a: int, b: int| 0 <= a < b < homes.len() ==> homes[a].0 != homes[b].0,
    ensures
        forall|k: int| 0 <= k < i ==> distance_of(homes.take(i + 1), #[trigger] homes[k].0) == distance_of(homes.take(i), homes[k].0),
{
    assert forall|k: int| 0 <= k < i implies distance_of(homes.take(i + 1), #[trigger] homes[k].0) == distance_of(homes.take(i), homes[k].0) by {
        lemma_distance_of_index(homes.take(i + 1), k);
        lemma_distance_of_index(homes.take(i), k);
    }
}

/// In a list of distinct names, the distance of the name at `k` is the
/// entry at `k`.
proof fn lemma_distance_of_index(homes: Seq<(RoomName, u8, u32)>, k: int)
    requires
        0 <= k < homes.len(),
        forall|a: int, b: int| 0 <= a < b < homes.len() ==> homes[a].0 != homes[b].0,
    ensures
        distance_of(homes, homes[k].0) == homes[k].2,
    decreases k,
{
    if k > 0 {
        assert(homes[0].0 != homes[k].0);
        lemma_distance_of_index(homes.drop_first(), k - 1);
    }
}

/// The last entry's distance, for distinct names.
proof fn lemma_distance_last(homes: Seq<(RoomName, u8, u32)>)
    requires
        homes.len() > 0,
        forall|a: int, b: int| 0 <= a < b < homes.len() ==> homes[a].0 != homes[b].0,
    ensures
        distance_of(homes, homes.last().0) == homes.last().2,
{
    lemma_distance_of_index(homes, homes.len() - 1);
}

/// The home of a power creep standing in `room` (see `spec_power_home`).
pub fn get_power_home(room: Option<RoomName>, homes: &[(RoomName, u8, u32)]) -> (r: Option<RoomName>)
    requires
        forall|i: int, j: int| 0 <= i < j < homes@.len() ==> homes@[i].0 != homes@[j].0,
    ensures
        r == spec_power_home(room, homes@),
{
    match room {
        None => None,
        Some(rn) => {
            let mut i: usize = 0;
            while i < homes.len()
                invariant
                    room == Some(rn),
                    i <= homes@.len(),
                    forall|k: int| 0 <= k < i ==> (#[trigger] homes@[k]).0 != rn,
                decreases homes@.len() - i,
            {
                if homes[i].0 == rn {
                    assert(homes@[i as int].0 == rn);
                    return Some(rn);
                }
                i = i + 1;
            }
            match find_closest_home(homes) {
                Some((n, _)) => Some(n),
                None => None,
            }
        },
    }
}

fn targets_valid(ts: &[Target]) -> (r: bool)
    ensures
        r == forall|i: int| 0 <= i < ts@.len() ==> (#[trigger] ts@[i]).pos.valid(),
{
    let mut i: usize = 0;
    while i < ts.len()
        invariant
            i <= ts@.len(),
            forall|k: int| 0 <= k < i ==> (#[trigger] ts@[k]).pos.valid(),
        decreases ts@.len() - i,
    {
        if !ts[i].pos.is_valid() {
            return false;
        }
        i = i + 1;
    }
    true
}

/// Whether every position in the view is one the game can represent, as
/// `handle` and `run_chain` ask.
pub fn is_view_valid(v: &PcView) -> (r: bool)
    ensures
        r == view_valid(*v),
{
    v.pos.is_valid() && v.controller.pos.is_valid() && v.mineral.pos.is_valid() && match &v.storage {
        Some(s) => s.pos.is_valid(),
        None => true,
    } && match &v.factory {
        Some(f) => f.pos.is_valid(),
        None => true,
    } && match v.lowest_perimeter {
        Some(p) => p.pos.is_valid(),
        None => true,
    } && targets_valid(&v.sources) && targets_valid(&v.spawns) && targets_valid(&v.towers)
}

/// `name` has an entry among the power creeps' memories.
pub open spec fn has_memory(states: Seq<(String, Option<RoomName>)>, name: Seq<char>) -> bool {
    exists|k: int| 0 <= k < states.len() && #[trigger] states[k].0@ == name
}

/// The memories once the power creeps in the game (`present`, in the order
/// the game lists them) are taken in: a creep without an entry gets one with
/// no home, after those already there; every entry stays as it was.
pub open spec fn spec_settled(states: Seq<(String, Option<RoomName>)>, present: Seq<String>) -> Seq<(String, Option<RoomName>)>
    decreases present.len(),
{
    if present.len() == 0 {
        states
    } else {
        let next = if has_memory(states, present[0]@) {
            states
        } else {
            states.push((present[0], None))
        };
        spec_settled(next, present.drop_first())
    }
}

proof fn lemma_settled_keeps(states: Seq<(String, Option<RoomName>)>, present: Seq<String>)
    ensures
        spec_settled(states, present).len() >= states.len(),
        forall|k: int| 0 <= k < states.len() ==> #[trigger] spec_settled(states, present)[k] == states[k],
        forall|k: int| 0 <= k < present.len() ==> has_memory(spec_settled(states, present), #[trigger] present[k]@),
        forall|k: int| 0 <= k < states.len() ==> has_memory(spec_settled(states, present), #[trigger] states[k].0@),
    decreases present.len(),
{
    if present.len() > 0 {
        let next = if has_memory(states, present[0]@) {
            states
        } else {
            states.push((present[0], None))
        };
        lemma_settled_keeps(next, present.drop_first());
        let out = spec_settled(states, present);
        assert(out == spec_settled(next, present.drop_first()));
        assert forall|k: int| 0 <= k < states.len() implies has_memory(out, #[trigger] states[k].0@) by {
            assert(out[k] == states[k]);
        }
        assert(has_memory(next, present[0]@)) by {
            if !has_memory(states, present[0]@) {
                assert(next[states.len() as int].0 == present[0]);
            }
        }
        assert(has_memory(out, present[0]@)) by {
            let w = choose|k: int| 0 <= k < next.len() && #[trigger] next[k].0@ == present[0]@;
            assert(out[w] == next[w]);
        }
        assert forall|k: int| 0 <= k < present.len() implies has_memory(out, #[trigger] present[k]@) by {
            if k > 0 {
                assert(present.drop_first()[k - 1] == present[k]);
            }
        }
    }
}

/// Takes in the power creeps the game lists: each one without an entry gets
/// an entry with no home; entries of creeps not listed stay, to be used when
/// they are spawned again.
pub fn settle_power_creeps(states: &mut Vec<(String, Option<RoomName>)>, present: Vec<String>)
    ensures
        final(states)@ == spec_settled(old(states)@, present@),
        forall|k: int| 0 <= k < old(states)@.len() ==> #[trigger] final(states)@[k] == old(states)@[k],
        forall|k: int| 0 <= k < present@.len() ==> has_memory(final(states)@, #[trigger] present@[k]@),
{
    proof {
        lemma_settled_keeps(old(states)@, present@);
    }
    let mut rest = present;
    while rest.len() > 0
        invariant
            spec_settled(states@, rest@) == spec_settled(old(states)@, present@),
        decreases rest@.len(),
    {
        let name = rest.remove(0);
        let mut k: usize = 0;
        let mut found = false;
        while k < states.len()
            invariant_except_break
                !found,
            invariant
                k <= states@.len(),
                forall|j: int| 0 <= j < k ==> #[trigger] states@[j].0@ != name@,
            ensures
                found == has_memory(states@, name@),
            decreases states@.len() - k,
        {
            if crate::requests::str_eq(states[k].0.as_str(), name.as_str()) {
                assert(states@[k as int].0@ == name@);
                found = true;
                break;
            }
            k = k + 1;
        }
        if !found {
            states.push((name, None));
        }
    }
}

/// The factory link operates a factory that no OperateFactory effect is on
/// yet, when the power is ready and enabled: from within three tiles it uses
/// the power on that factory, farther away it walks to within three tiles.
/// A factory already under the effect, or none at all, lets the chain go on.
pub proof fn lemma_factory_operated_when_unpowered(v: PcView)
    ensures
        v.factory matches Some(f) ==> ((forall|i: int| 0 <= i < f.effects@.len() ==> f.effects@[i].power != Some(PowerKind::OperateFactory))
            && v.ready@.contains(PowerKind::OperateFactory) && v.enabled@.contains(PowerKind::OperateFactory)
            ==> spec_handle(Link::OperateFactory, v) == if spec_range(v.pos, f.pos) <= 3 {
                Handled::Act(Some(PcOrder::UsePower(PowerKind::OperateFactory, Some(f.id))), None)
            } else {
                Handled::Act(None, Some((f.pos, 3u32)))
            }),
        v.factory matches Some(f) ==> ((exists|i: int| 0 <= i < f.effects@.len() && f.effects@[i].power == Some(PowerKind::OperateFactory))
            ==> spec_handle(Link::OperateFactory, v) == Handled::Pass),
        !v.ready@.contains(PowerKind::OperateFactory) ==> spec_handle(Link::OperateFactory, v) == Handled::Pass,
        v.factory is None ==> spec_handle(Link::OperateFactory, v) == Handled::Pass,
{
    if let Some(f) = v.factory {
        if exists|i: int| 0 <= i < f.effects@.len() && f.effects@[i].power == Some(PowerKind::OperateFactory) {
            let i = choose|i: int| 0 <= i < f.effects@.len() && f.effects@[i].power == Some(PowerKind::OperateFactory);
            assert(has_power_effect(f.effects@, PowerKind::OperateFactory));
        }
    }
}

} // verus!
