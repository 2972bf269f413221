use vstd::prelude::*;

use crate::commons::{attacker_filter, closest_attacker, lemma_fold_bounds, opt_int, spec_closest_fold, units_valid, Unit};
use crate::geometry::{Position, RoomName};
use crate::orders::{Step, Tick};
use crate::resources::Resource;
use crate::tasks::combat::{
    buildings_valid, crash, defend, defend_home, oversee, protect, spec_crash_step, spec_defend_home_step, spec_defend_step,
    spec_oversee_step, spec_protect, Building,
};
use crate::tasks::deposit::{
    deposit_carry, deposit_mine, first_index, get_near_by_hauler, is_loaded_miner, is_mule_for, lemma_first_index, loaded_miner,
    spec_deposit_carry_step, spec_deposit_mine_step, DepositView,
};
use crate::tasks::harvest::{
    container_check_fits, container_check_ok, harvest_and_upgrade, harvest_energy_forever, harvest_minerals, harvest_until_full, spec_harvest_and_upgrade_step,
    spec_harvest_energy_forever_step, spec_harvest_minerals_step, spec_harvest_until_full_step, MinerSurroundings,
};
use crate::tasks::logistics::{
    carry, deliver_to_structure, fill_structure, generate_safe_mode, long_range_withdraw, pull_to, spec_carry, spec_deliver,
    spec_fill_structure_step, spec_generate_safe_mode_step, spec_long_range_withdraw_step, spec_pull_to_step, spec_take_from,
    spec_take_resource_step, spec_withdraw_step, take_from_structure, take_resource, withdraw, Bank,
};
use crate::tasks::moves::{
    escape, flee, hide_until, idle, move_me, portal, provoke, room_centre, speak, spec_escape_step, spec_flee_step, spec_hide_until_step,
    spec_idle_step, spec_move_me_step, spec_portal_step, spec_provoke_step, spec_speak_step,
};
use crate::tasks::powerbank::{pb_attack, pb_carry, pb_heal, spec_pb_attack_step, spec_pb_carry_step, spec_pb_heal_step, Leftovers};
use crate::tasks::work::{
    boost, book, build, claim, dismantle, repair, spec_book_step, spec_boost_step, spec_build_step, spec_claim_step, spec_dismantle_step,
    spec_repair_step, spec_upgrade_step, upgrade, ControllerView, RepairTarget,
};
use crate::tasks::{Avoid, ObjectId, Task};
use crate::units::CreepInfo;

verus! {

/// What the caller looked up for the task a creep runs this tick. Which
/// fields a task reads is listed with `run_task`; the others may hold
/// anything.
#[derive(Clone, Debug)]
pub struct Scene {
    /// The creep itself.
    pub me: CreepInfo,
    /// The home room of its role.
    pub home: Option<RoomName>,
    /// Its role moves as cargo (it cannot walk by itself).
    pub cargo: bool,
    /// The game tick.
    pub time: u32,
    /// The hostile creeps in its room.
    pub hostiles: Vec<Unit>,
    /// The creeps of this player in its room.
    pub mine: Vec<Unit>,
    /// The closest exit of its room by path.
    pub exit: Option<Position>,
    /// Staying means danger (the role's own judgement of the hostiles).
    pub need_escape: bool,
    /// The object the task names exists.
    pub found: bool,
    /// Where that object is, when it exists.
    pub object_pos: Option<Position>,
    /// Where the second object the task names is, when it exists.
    pub other_pos: Option<Position>,
    /// A tile the task may step to: a hideout away from the border
    /// (escape), a free tile next to the lab (boost), a border tile beside
    /// the puller (pull) or a free tile off the border (protect).
    pub spot: Option<Position>,
    pub repair: Option<RepairTarget>,
    pub controller: Option<ControllerView>,
    /// The source's or mineral's ticks to regeneration, when it exists.
    pub regeneration: Option<Option<u32>>,
    pub around: MinerSurroundings,
    /// The structure to take from: position and units held of the resource.
    pub take: Option<(Position, u32)>,
    /// The structure to deliver to: position and free capacity.
    pub give: Option<(Position, i32)>,
    /// The bank of the home room to unload into.
    pub bank: Option<Bank>,
    /// The home room's place to store.
    pub place: Option<(Position, ObjectId)>,
    /// The first tombstone holding something other than energy.
    pub tomb: Option<(Position, ObjectId, Resource)>,
    pub deposit: Option<DepositView>,
    /// The first other squad member, when alive.
    pub partner: Option<(ObjectId, Position)>,
    pub left: Leftovers,
    /// The keeper lair that spawns next.
    pub lair: Option<Position>,
    /// The rampart to man.
    pub rampart: Option<Position>,
    /// The structures of the room.
    pub buildings: Vec<Building>,
    /// Whether the structure to dismantle can be dismantled, when it exists.
    pub dismantleable: Option<bool>,
}

pub open spec fn partner_pos(p: Option<(ObjectId, Position)>) -> Option<Position> {
    match p {
        Some((_, pos)) => Some(pos),
        None => None,
    }
}

pub open spec fn index_id(s: Seq<Unit>, i: Option<int>) -> Option<ObjectId> {
    match i {
        Some(k) => Some(s[k].id),
        None => None,
    }
}

pub open spec fn index_pos(s: Seq<Unit>, i: Option<int>) -> Option<Position> {
    match i {
        Some(k) => Some(s[k].pos),
        None => None,
    }
}

/// The tasks `run_task` runs: all but `HealAll`, which has no step, and
/// `FindHeal` and `CombatDismantle`, which the task loop does not dispatch;
/// their steps (`find_heal`, `combat_dismantle`) are called on their own.
pub open spec fn runnable(task: Task) -> bool {
    !(task is HealAll || task is FindHeal || task is CombatDismantle)
}

/// What the scene must satisfy for `task`.
pub open spec fn scene_fits(task: Task, sc: Scene) -> bool {
    &&& sc.me.pos.valid()
    &&& units_valid(sc.hostiles@)
    &&& units_valid(sc.mine@)
    &&& buildings_valid(sc.buildings@)
    &&& sc.exit matches Some(e) ==> e.valid()
    &&& sc.object_pos matches Some(p) ==> p.valid()
    &&& (task matches Task::Build(id, _) ==> (sc.found ==> id is Some))
    &&& (task matches Task::Upgrade(c, container) ==> (sc.other_pos is Some ==> container is Some))
    &&& (task matches Task::HarvestEnergyForever(w, _) ==> container_check_fits(w, sc.me, sc.home, sc.need_escape, sc.hostiles@, sc.around))
    &&& (task matches Task::DepositCarry(pos) ==> pos.valid())
    &&& (task matches Task::Build(_, pos) ==> pos.valid())
    &&& (task matches Task::Repair(_, pos, _) ==> pos.valid())
    &&& (task matches Task::PowerbankCarry(pos, _) ==> pos.valid())
    &&& (task matches Task::Protect(room, _) ==> (sc.me.hits != sc.me.hits_max && sc.me.pos.room == room && sc.exit is None ==> sc.home is Some))
}

/// The walk out of a room for a hurt protector: the closest exit, or the
/// centre of home.
pub open spec fn protect_exit(sc: Scene) -> Position {
    match sc.exit {
        Some(e) => e,
        None => room_centre(sc.home->0),
    }
}

/// Run one tick of `task` for the creep the scene describes: each task
/// goes to its step function with what the scene holds for it.
pub fn run_task(task: Task, sc: &Scene) -> (t: Tick)
    requires
        runnable(task),
        scene_fits(task, *sc),
    ensures
        match task {
            Task::Portal(pos) => t matches Tick::Done(s) && spec_portal_step(pos, s),
            Task::Speak => t matches Tick::Done(s) && spec_speak_step(sc.time, s),
            Task::Idle(ticks) => t matches Tick::Done(s) && spec_idle_step(ticks, s),
            Task::MoveMe(room, walker) => t matches Tick::Done(s) && spec_move_me_step(sc.me.pos, room, walker, s),
            Task::Provoke(ticks, range) => t matches Tick::Done(s) && spec_provoke_step(sc.me.pos, ticks, range, sc.hostiles@, sc.time, s),
            Task::Flee(range) => t matches Tick::Done(s) && spec_flee_step(sc.me.pos, range, sc.hostiles@, sc.exit, s),
            Task::Escape(p) => t matches Tick::Done(s) && spec_escape_step(sc.me.pos, p, sc.spot, s),
            Task::Hide(p, timeout) => t matches Tick::Done(s) && spec_hide_until_step(sc.me.pos, p, timeout, s),
            Task::Boost(id, parts) => t matches Tick::Done(s) && spec_boost_step(id, parts, sc.me, sc.object_pos, sc.cargo, sc.spot, s),
            Task::Harvest(w, id) => spec_harvest_until_full_step(w, id, sc.me, sc.regeneration, t),
            Task::HarvestAndUpgrade(w, id, c) => t matches Tick::Done(s) && spec_harvest_and_upgrade_step(w, id, c, sc.me, sc.found, sc.other_pos is Some, s),
            Task::HarvestEnergyForever(w, id) => t matches Tick::Done(s) && spec_harvest_energy_forever_step(w, id, sc.me, sc.home, sc.need_escape, sc.hostiles@, sc.exit, sc.around, s),
            Task::HarvestMineral(w, id) => t matches Tick::Done(s) && spec_harvest_minerals_step(w, id, sc.me, sc.need_escape, sc.hostiles@, sc.exit, sc.regeneration, s),
            Task::PowerbankHeal(pos, id, members) => t matches Tick::Done(s) && spec_pb_heal_step(pos, id, members, sc.me, sc.partner, s),
            Task::PowerbankAttack(pos, id, members) => t matches Tick::Done(s) && spec_pb_attack_step(pos, id, members, sc.me, partner_pos(sc.partner), sc.hostiles@, sc.found, s),
            Task::PowerbankCarry(pos, id) => spec_pb_carry_step(pos, id, sc.me, sc.hostiles@, sc.bank, sc.found, sc.left, t),
            Task::DepositHarvest(pos, id) => t matches Tick::Done(s) && spec_deposit_mine_step(pos, id, sc.me, sc.hostiles@, sc.deposit,
                index_id(sc.mine@, first_index(sc.mine@, is_mule_for(sc.me.pos))), s),
            Task::DepositCarry(pos) => t matches Tick::Done(s) && spec_deposit_carry_step(pos, sc.me, sc.hostiles@, sc.place, sc.tomb,
                index_pos(sc.mine@, first_index(sc.mine@, |u: Unit| is_loaded_miner(u))), s),
            Task::Build(id, pos) => t matches Tick::Done(s) && spec_build_step(id, pos, sc.me, sc.found, s),
            Task::Repair(id, pos, times) => spec_repair_step(id, pos, times, sc.me, sc.repair, t),
            Task::Upgrade(id, c) => spec_upgrade_step(id, c, sc.me, sc.object_pos, sc.other_pos is Some, t),
            Task::Book(id, pos) => spec_book_step(id, pos, sc.me, sc.home, spec_closest_fold(sc.hostiles@, sc.me.pos, attacker_filter()) is Some, sc.exit, sc.controller, t),
            Task::Claim(id, pos) => spec_claim_step(id, pos, sc.me, sc.found, t),
            Task::PullTo(name, dest) => t matches Tick::Done(s) && spec_pull_to_step(name, dest, sc.me, sc.object_pos, sc.spot, s),
            Task::Dismantle(id, w) => t matches Tick::Done(s) && spec_dismantle_step(id, w, sc.me, sc.dismantleable, s),
            Task::TakeResource(id) => spec_take_resource_step(id, sc.me, sc.object_pos, Avoid::Attackers, t),
            Task::TakeFromStructure(pos, id, r, a) => spec_take_from(pos, id, r, a, sc.me, sc.take, Avoid::Attackers, t),
            Task::DeliverToStructure(pos, id, r, a) => spec_deliver(pos, id, r, a, sc.me, sc.give, Avoid::Attackers, t),
            Task::FillStructure(target) => t matches Tick::Done(s) && spec_fill_structure_step(target, sc.me, s),
            Task::Withdraw(pos, id, res) => spec_withdraw_step(pos, id, res, sc.me, sc.take, t),
            Task::GenerateSafeMode(pos, id, sid) => spec_generate_safe_mode_step(pos, id, sid, sc.me, sc.object_pos, sc.other_pos, t),
            Task::LongRangeWithdraw(pos, id, r, amount) => spec_long_range_withdraw_step(pos, id, r, amount, sc.me, sc.take, t),
            Task::Carry(from, to, r, amount) => spec_carry(from, to, r, amount, sc.me, sc.give, sc.bank, sc.take, t),
            Task::DefendHome => t matches Tick::Done(s) && spec_defend_home_step(sc.me, sc.hostiles@, sc.rampart, s),
            Task::Crash(id, pos) => t matches Tick::Done(s) && spec_crash_step(id, pos, sc.me, sc.found, s),
            Task::Defend(room, requested) => t matches Tick::Done(s) && spec_defend_step(room, requested, sc.me, sc.hostiles@, sc.mine@, s),
            Task::Oversee(room, target) => t matches Tick::Done(s) && spec_oversee_step(room, target, sc.me, sc.hostiles@, sc.lair, s),
            Task::Protect(room, target) => t matches Tick::Done(s) && (s.result, s.orders@) == spec_protect(room, target, sc.me, sc.hostiles@,
                sc.buildings@, sc.mine@, sc.spot, protect_exit(*sc)),
            _ => true,
        },
{
    let me = &sc.me;
    match task {
        Task::Portal(pos) => Tick::Done(portal(pos)),
        Task::Speak => Tick::Done(speak(sc.time)),
        Task::Idle(ticks) => Tick::Done(idle(ticks)),
        Task::MoveMe(room, walker) => Tick::Done(move_me(me.pos, room, walker)),
        Task::Provoke(ticks, range) => Tick::Done(provoke(me.pos, ticks, range, &sc.hostiles, sc.time)),
        Task::Flee(range) => Tick::Done(flee(me.pos, range, &sc.hostiles, sc.exit)),
        Task::Escape(p) => Tick::Done(escape(me.pos, p, sc.spot)),
        Task::Hide(p, timeout) => Tick::Done(hide_until(me.pos, p, timeout)),
        Task::Boost(id, parts) => Tick::Done(boost(id, parts, me, sc.object_pos, sc.cargo, sc.spot)),
        Task::Harvest(w, id) => harvest_until_full(w, id, me, sc.regeneration),
        Task::HarvestAndUpgrade(w, id, c) => Tick::Done(harvest_and_upgrade(w, id, c, me, sc.found, sc.other_pos.is_some())),
        Task::HarvestEnergyForever(w, id) => Tick::Done(harvest_energy_forever(w, id, me, sc.home, sc.need_escape, &sc.hostiles, sc.exit, sc.around)),
        Task::HarvestMineral(w, id) => Tick::Done(harvest_minerals(w, id, me, sc.need_escape, &sc.hostiles, sc.exit, sc.regeneration)),
        Task::PowerbankHeal(pos, id, members) => Tick::Done(pb_heal(pos, id, members, me, sc.partner)),
        Task::PowerbankAttack(pos, id, members) => {
            let p = match sc.partner {
                Some((_, ppos)) => Some(ppos),
                None => None,
            };
            Tick::Done(pb_attack(pos, id, members, me, p, &sc.hostiles, sc.found))
        },
        Task::PowerbankCarry(pos, id) => pb_carry(pos, id, me, &sc.hostiles, sc.bank, sc.found, sc.left),
        Task::DepositHarvest(pos, id) => {
            let mule = match get_near_by_hauler(me.pos, &sc.mine) {
                Some(i) => {
                    proof {
                        lemma_first_index(sc.mine@, is_mule_for(me.pos));
                    }
                    Some(sc.mine[i].id)
                },
                None => None,
            };
            Tick::Done(deposit_mine(pos, id, me, &sc.hostiles, sc.deposit, mule))
        },
        Task::DepositCarry(pos) => {
            let miner = match loaded_miner(&sc.mine) {
                Some(i) => {
                    proof {
                        lemma_first_index(sc.mine@, |u: Unit| is_loaded_miner(u));
                    }
                    Some(sc.mine[i].pos)
                },
                None => None,
            };
            Tick::Done(deposit_carry(pos, me, &sc.hostiles, sc.place, sc.tomb, miner))
        },
        Task::Build(id, pos) => Tick::Done(build(id, pos, me, sc.found)),
        Task::Repair(id, pos, times) => repair(id, pos, times, me, sc.repair),
        Task::Upgrade(id, c) => upgrade(id, c, me, sc.object_pos, sc.other_pos.is_some()),
        Task::Book(id, pos) => {
            let around = closest_attacker(me.pos, &sc.hostiles).is_some();
            book(id, pos, me, sc.home, around, sc.exit, sc.controller)
        },
        Task::Claim(id, pos) => claim(id, pos, me, sc.found),
        Task::PullTo(name, dest) => Tick::Done(pull_to(name, dest, me, sc.object_pos, sc.spot)),
        Task::Dismantle(id, w) => Tick::Done(dismantle(id, w, me, sc.dismantleable)),
        Task::TakeResource(id) => take_resource(id, me, sc.object_pos, Avoid::Attackers),
        Task::TakeFromStructure(pos, id, r, a) => take_from_structure(pos, id, r, a, me, sc.take, Avoid::Attackers),
        Task::DeliverToStructure(pos, id, r, a) => deliver_to_structure(pos, id, r, a, me, sc.give, Avoid::Attackers),
        Task::FillStructure(target) => Tick::Done(fill_structure(target, me)),
        Task::Withdraw(pos, id, res) => withdraw(pos, id, res, me, sc.take),
        Task::GenerateSafeMode(pos, id, sid) => generate_safe_mode(pos, id, sid, me, sc.object_pos, sc.other_pos),
        Task::LongRangeWithdraw(pos, id, r, amount) => long_range_withdraw(pos, id, r, amount, me, sc.take),
        Task::Carry(from, to, r, amount) => carry(from, to, r, amount, me, sc.give, sc.bank, sc.take),
        Task::DefendHome => Tick::Done(defend_home(me, &sc.hostiles, sc.rampart)),
        Task::Crash(id, pos) => Tick::Done(crash(id, pos, me, sc.found)),
        Task::Defend(room, requested) => Tick::Done(defend(room, requested, me, &sc.hostiles, &sc.mine)),
        Task::Oversee(room, target) => Tick::Done(oversee(room, target, me, &sc.hostiles, sc.lair)),
        Task::Protect(room, target) => {
            let exit = match sc.exit {
                Some(e) => e,
                None => {
                    if me.hits == me.hits_max || me.pos.room != room {
                        Position { room: me.pos.room, x: 25, y: 25 }
                    } else {
                        Position { room: sc.home.unwrap(), x: 25, y: 25 }
                    }
                },
            };
            Tick::Done(protect(room, target, me, &sc.hostiles, &sc.buildings, &sc.mine, sc.spot, exit))
        },
        _ => Tick::Done(Step { result: crate::tasks::TaskResult::Abort, orders: Vec::new() }),
    }
}

/// Whether `run_task` has a step for the task.
pub fn is_runnable(task: &Task) -> (r: bool)
    ensures
        r == runnable(*task),
{
    match task {
        Task::HealAll | Task::FindHeal(_) | Task::CombatDismantle(..) => false,
        _ => true,
    }
}

fn all_units_valid(s: &[Unit]) -> (r: bool)
    ensures
        r == units_valid(s@),
{
    let mut i: usize = 0;
    while i < s.len()
        invariant
            i <= s@.len(),
            forall|k: int| 0 <= k < i ==> (#[trigger] s@[k]).pos.valid(),
        decreases s@.len() - i,
    {
        if !s[i].pos.is_valid() {
            return false;
        }
        i = i + 1;
    }
    true
}

fn all_buildings_valid(s: &[Building]) -> (r: bool)
    ensures
        r == buildings_valid(s@),
{
    let mut i: usize = 0;
    while i < s.len()
        invariant
            i <= s@.len(),
            forall|k: int| 0 <= k < i ==> (#[trigger] s@[k]).pos.valid(),
        decreases s@.len() - i,
    {
        if !s[i].pos.is_valid() {
            return false;
        }
        i = i + 1;
    }
    true
}

fn opt_valid(p: Option<Position>) -> (r: bool)
    ensures
        r == (p matches Some(q) ==> q.valid()),
{
    match p {
        Some(q) => q.is_valid(),
        None => true,
    }
}

/// Whether the scene satisfies what `run_task` asks of it for `task`.
pub fn fits(task: &Task, sc: &Scene) -> (r: bool)
    ensures
        r == scene_fits(*task, *sc),
{
    if !(sc.me.pos.is_valid() && all_units_valid(&sc.hostiles) && all_units_valid(&sc.mine)
        && all_buildings_valid(&sc.buildings) && opt_valid(sc.exit) && opt_valid(sc.object_pos)) {
        return false;
    }
    match task {
        Task::Build(id, pos) => (!sc.found || id.is_some()) && pos.is_valid(),
        Task::Upgrade(_, container) => sc.other_pos.is_none() || container.is_some(),
        Task::HarvestEnergyForever(w, _) => container_check_ok(*w, &sc.me, sc.home, sc.need_escape, &sc.hostiles, sc.around),
        Task::DepositCarry(pos) => pos.is_valid(),
        Task::Repair(_, pos, _) => pos.is_valid(),
        Task::PowerbankCarry(pos, _) => pos.is_valid(),
        Task::Protect(room, _) => !(sc.me.hits != sc.me.hits_max && sc.me.pos.room == *room && sc.exit.is_none())
            || sc.home.is_some(),
        _ => true,
    }
}

} // verus!
