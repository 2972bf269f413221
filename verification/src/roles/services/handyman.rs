use vstd::prelude::*;

use crate::geometry::{Position, RoomName};
use crate::body::{body_parts, build_body, spec_build_body, Body, BodyPart, Priority};
use crate::resources::Resource;
use crate::constants::{HANDYMAN_ENERGY_PICKUP_THRESHOLD, NO_TASK_IDLE_TICKS};
use crate::geometry::{get_range_to, is_near_to, remoted_from_edge, spec_near, spec_range};
use crate::objects::{all_valid, first_where, is_first_min_by, DroppedView, SiteView, StructureKind, StructureView, TombView};
use crate::shelter::{boost_task, first_near, spec_boost_task, spec_first_near, AvailableBoost, Deposit};
use crate::tasks::{ObjectId, Task, Walker};
use crate::units::CreepInfo;

verus! {

/// Builds up a young room.
#[derive(Clone, Debug, PartialEq, Eq, Structural)]
pub struct HandyMan {
    pub workplace: Option<Position>,
    pub home: Option<RoomName>,
    pub boost: bool,
}

impl HandyMan {
    pub fn new(workplace: Option<Position>, home: Option<RoomName>, boost: bool) -> (r: Self)
        ensures
            r == (Self { workplace, home, boost }),
    {
        Self { workplace, home, boost }
    }

    /// The body: without boosts a balanced worker, with boosts mostly work
    /// and legs.
    pub fn body(&self, room_energy: u32) -> (b: Body)
        ensures
            body_parts(b) == if self.boost {
                spec_build_body(seq![BodyPart::Carry], seq![BodyPart::Work, BodyPart::Move, BodyPart::Work, BodyPart::Move, BodyPart::Work, BodyPart::Move, BodyPart::Carry], room_energy as int, 50, Some(Priority::Default))
            } else {
                spec_build_body(seq![BodyPart::Work, BodyPart::Carry, BodyPart::Move], seq![BodyPart::Work, BodyPart::Carry, BodyPart::Move], room_energy as int, 50, Some(Priority::Default))
            },
    {
        if self.boost {
            let base = [BodyPart::Carry];
            let scale = [BodyPart::Work, BodyPart::Move, BodyPart::Work, BodyPart::Move, BodyPart::Work, BodyPart::Move, BodyPart::Carry];
            assert(base@ =~= seq![BodyPart::Carry]);
            assert(scale@ =~= seq![BodyPart::Work, BodyPart::Move, BodyPart::Work, BodyPart::Move, BodyPart::Work, BodyPart::Move, BodyPart::Carry]);
            build_body(&base, &scale, room_energy, 50, Some(Priority::Default))
        } else {
            let base = [BodyPart::Work, BodyPart::Carry, BodyPart::Move];
            let scale = [BodyPart::Work, BodyPart::Carry, BodyPart::Move];
            assert(base@ =~= seq![BodyPart::Work, BodyPart::Carry, BodyPart::Move]);
            assert(scale@ =~= seq![BodyPart::Work, BodyPart::Carry, BodyPart::Move]);
            build_body(&base, &scale, room_energy, 50, Some(Priority::Default))
        }
    }

    /// Boosts wanted by a creep with `ticks_to_live` left: only fresh creeps
    /// are worth boosting.
    pub fn boosts(&self, ticks_to_live: Option<u32>) -> (b: Vec<(BodyPart, [Resource; 2])>)
        ensures
            b@ == if ticks_to_live matches Some(t) && t > 1450 {
                seq![(BodyPart::Carry, [Resource::CatalyzedKeaniumAcid, Resource::KeaniumAcid])]
            } else {
                Seq::<(BodyPart, [Resource; 2])>::empty()
            },
    {
        let mut v: Vec<(BodyPart, [Resource; 2])> = Vec::new();
        if ticks_to_live.is_some() && ticks_to_live.unwrap() > 1450 {
            v.push((BodyPart::Carry, [Resource::CatalyzedKeaniumAcid, Resource::KeaniumAcid]));
        }
        v
    }

    /// Ticks before death at which a replacement is ordered.
    pub fn respawn_timeout(&self, creep_body_len: Option<usize>) -> (t: Option<usize>)
        requires
            creep_body_len matches Some(n) ==> n <= 50,
        ensures
            t == Some(800usize),
    {
        Some(800)
    }
}

/// What a handyman reads of the room of its workplace.
#[derive(Clone, Debug)]
pub struct WorkRoom {
    /// Positions of hostile creeps with attack or ranged attack parts.
    pub hostiles: Vec<Position>,
    /// The controller, if the room has one: its id, position and remaining
    /// safe-mode ticks.
    pub controller: Option<(ObjectId, Position, Option<u32>)>,
    /// A rampart stands on the workplace.
    pub rampart_at_workplace: bool,
    pub structures: Vec<StructureView>,
    pub sites: Vec<SiteView>,
    pub dropped: Vec<DroppedView>,
    pub tombs: Vec<TombView>,
    pub sources: Vec<Deposit>,
}

pub open spec fn room_valid(room: WorkRoom) -> bool {
    &&& all_valid(room.structures@)
    &&& forall|i: int| 0 <= i < room.sites@.len() ==> (#[trigger] room.sites@[i]).pos.valid()
}

/// A tower next to the creep that is less than half full.
pub open spec fn is_tower_to_fill(from: Position) -> spec_fn(StructureView) -> bool {
    |s: StructureView|
        s.kind == StructureKind::Tower && spec_near(s.pos, from) && (s.store matches Some(st) && st.free > st.capacity / 2)
}

pub open spec fn spec_fiil_near(from: Position, structures: Seq<StructureView>) -> Option<Task> {
    match first_where(structures, is_tower_to_fill(from)) {
        Some(s) => Some(Task::DeliverToStructure(s.pos, s.id, Resource::Energy, None)),
        None => None,
    }
}

/// Fill the tower next to the creep that is less than half full.
pub fn fiil_near(from: Position, structures: &[StructureView]) -> (t: Option<Task>)
    ensures
        t == spec_fiil_near(from, structures@),
{
    let ghost p = is_tower_to_fill(from);
    let mut i: usize = 0;
    assert(structures@.skip(0) =~= structures@);
    while i < structures.len()
        invariant
            p == is_tower_to_fill(from),
            i <= structures@.len(),
            first_where(structures@, p) == first_where(structures@.skip(i as int), p),
        decreases structures@.len() - i,
    {
        proof {
            assert(structures@.skip(i as int).drop_first() =~= structures@.skip(i + 1));
        }
        let s = structures[i];
        let wanted = s.kind == StructureKind::Tower && is_near_to(s.pos, from) && match s.store {
            Some(st) => st.free > (st.capacity / 2) as i32,
            None => false,
        };
        if wanted {
            return Some(Task::DeliverToStructure(s.pos, s.id, Resource::Energy, None));
        }
        i = i + 1;
    }
    None
}

pub open spec fn is_site_close(from: Position) -> spec_fn(SiteView) -> bool {
    |c: SiteView| spec_range(c.pos, from) < 4
}

pub open spec fn spec_build_near(from: Position, sites: Seq<SiteView>) -> Option<Task> {
    match first_where(sites, is_site_close(from)) {
        Some(c) => Some(Task::Build(c.id, c.pos)),
        None => None,
    }
}

/// Build the first construction site within three tiles of the creep.
pub fn build_near(from: Position, sites: &[SiteView]) -> (t: Option<Task>)
    requires
        from.valid(),
        forall|i: int| 0 <= i < sites@.len() ==> (#[trigger] sites@[i]).pos.valid(),
    ensures
        t == spec_build_near(from, sites@),
{
    let ghost p = is_site_close(from);
    let mut i: usize = 0;
    assert(sites@.skip(0) =~= sites@);
    while i < sites.len()
        invariant
            from.valid(),
            forall|i: int| 0 <= i < sites@.len() ==> (#[trigger] sites@[i]).pos.valid(),
            p == is_site_close(from),
            i <= sites@.len(),
            first_where(sites@, p) == first_where(sites@.skip(i as int), p),
        decreases sites@.len() - i,
    {
        proof {
            assert(sites@.skip(i as int).drop_first() =~= sites@.skip(i + 1));
        }
        let c = sites[i];
        if get_range_to(c.pos, from) < 4 {
            return Some(Task::Build(c.id, c.pos));
        }
        i = i + 1;
    }
    None
}

/// How many repairs a structure near the creep gets, if it needs any: an
/// own damaged rampart fifteen, a container under three quarters of its hit
/// points five, a road under half two.
pub open spec fn repair_times(s: StructureView) -> Option<u8> {
    if s.kind == StructureKind::Rampart && s.my && s.hits < s.hits_max {
        Some(15u8)
    } else if s.kind == StructureKind::Container && s.hits < (3 * s.hits_max as int) / 4 {
        Some(5u8)
    } else if s.kind == StructureKind::Road && s.hits < s.hits_max / 2 {
        Some(2u8)
    } else {
        None
    }
}

pub open spec fn needs_repair_near(from: Position) -> spec_fn(StructureView) -> bool {
    |s: StructureView| spec_range(s.pos, from) < 4 && repair_times(s) is Some
}

pub open spec fn hits_key() -> spec_fn(StructureView) -> int {
    |s: StructureView| s.hits as int
}

fn repair_times_of(s: &StructureView) -> (r: Option<u8>)
    ensures
        r == repair_times(*s),
{
    if s.kind == StructureKind::Rampart && s.my && s.hits < s.hits_max {
        Some(15)
    } else if s.kind == StructureKind::Container && (s.hits as u64) < (3 * s.hits_max as u64) / 4 {
        Some(5)
    } else if s.kind == StructureKind::Road && s.hits < s.hits_max / 2 {
        Some(2)
    } else {
        None
    }
}

/// Repair, among the damaged structures within three tiles of the creep,
/// the one with the fewest hit points (the first listed on a tie).
pub fn repair_near(from: Position, structures: &[StructureView]) -> (t: Option<Task>)
    requires
        from.valid(),
        all_valid(structures@),
    ensures
        exists|r: Option<StructureView>|
            is_first_min_by(structures@, needs_repair_near(from), hits_key(), r) && t == match r {
                Some(s) => Some(Task::Repair(s.id, s.pos, repair_times(s)->0)),
                None => None,
            },
{
    let ghost p = needs_repair_near(from);
    let ghost key = hits_key();
    let mut best: Option<(usize, u32)> = None;
    let mut i: usize = 0;
    while i < structures.len()
        invariant
            from.valid(),
            all_valid(structures@),
            p == needs_repair_near(from),
            key == hits_key(),
            i <= structures@.len(),
            match best {
                Some((b, h)) => b < i && p(structures@[b as int]) && h == structures@[b as int].hits && (forall|j: int|
                    0 <= j < i && p(#[trigger] structures@[j]) ==> key(structures@[b as int]) <= key(structures@[j]))
                    && (forall|j: int|
                    0 <= j < b && p(#[trigger] structures@[j]) ==> key(structures@[b as int]) < key(structures@[j])),
                None => forall|j: int| 0 <= j < i ==> !p(#[trigger] structures@[j]),
            },
        decreases structures@.len() - i,
    {
        let s = structures[i];
        if get_range_to(s.pos, from) < 4 && repair_times_of(&s).is_some() {
            match best {
                Some((b, h)) => {
                    if s.hits < h {
                        best = Some((i, s.hits));
                    }
                },
                None => {
                    best = Some((i, s.hits));
                },
            }
        }
        i = i + 1;
    }
    match best {
        Some((b, _)) => {
            let s = structures[b];
            assert(is_first_min_by(structures@, p, key, Some(s)));
            let times = repair_times_of(&s);
            Some(Task::Repair(s.id, s.pos, times.unwrap()))
        },
        None => {
            assert(is_first_min_by(structures@, p, key, None));
            None
        },
    }
}

/// The work a handyman on its rampart does during an invasion, as a
/// predicate of the chosen task (the repair target is the first most
/// damaged structure in range).
pub open spec fn spec_invasion_task(from: Position, room: WorkRoom, t: Task) -> bool {
        match spec_fiil_near(from, room.structures@) {
            Some(task) => t == task,
            None => match spec_build_near(from, room.sites@) {
                Some(task) => t == task,
                None => exists|r: Option<StructureView>|
                    is_first_min_by(room.structures@, needs_repair_near(from), hits_key(), r) && t == match r {
                        Some(s) => Task::Repair(s.id, s.pos, repair_times(s)->0),
                        None => Task::Idle(1),
                    },
            },
        }
}

/// Work for a handyman on its rampart during an invasion: fill a tower,
/// else build, else repair nearby; else idle.
pub fn find_invasion_task(from: Position, room: &WorkRoom) -> (t: Task)
    requires
        from.valid(),
        room_valid(*room),
    ensures
        spec_invasion_task(from, *room, t),
{
    if let Some(task) = fiil_near(from, &room.structures) {
        return task;
    }
    if let Some(task) = build_near(from, &room.sites) {
        return task;
    }
    match repair_near(from, &room.structures) {
        Some(task) => task,
        None => Task::Idle(1),
    }
}

pub open spec fn is_energy_drop_near(at: Position) -> spec_fn(DroppedView) -> bool {
    |d: DroppedView| spec_near(d.pos, at) && d.resource == Resource::Energy && d.amount > HANDYMAN_ENERGY_PICKUP_THRESHOLD
}

pub open spec fn is_full_container_at(at: Position) -> spec_fn(StructureView) -> bool {
    |s: StructureView| s.kind == StructureKind::Container && s.pos == at && (s.store matches Some(st) && st.energy > 1000)
}

pub open spec fn spec_find_energy_near(at: Position, room: WorkRoom) -> Task {
    match first_where(room.dropped@, is_energy_drop_near(at)) {
        Some(d) => Task::TakeResource(d.id),
        None => match first_where(room.structures@, is_full_container_at(at)) {
            Some(c) => Task::TakeFromStructure(c.pos, c.id, Resource::Energy, None),
            None => match spec_first_near(room.sources@, at, false) {
                Some(source) => Task::Harvest(at, source.id),
                None => Task::Idle(1),
            },
        },
    }
}

/// Energy for a handyman on its rampart: a pile next to it, the container
/// under it, or the source next to it.
pub fn find_energy_near(at: Position, room: &WorkRoom) -> (t: Task)
    ensures
        t == spec_find_energy_near(at, *room),
{
    let ghost pd = is_energy_drop_near(at);
    let mut i: usize = 0;
    assert(room.dropped@.skip(0) =~= room.dropped@);
    while i < room.dropped.len()
        invariant
            pd == is_energy_drop_near(at),
            i <= room.dropped@.len(),
            first_where(room.dropped@, pd) == first_where(room.dropped@.skip(i as int), pd),
        decreases room.dropped@.len() - i,
    {
        proof {
            assert(room.dropped@.skip(i as int).drop_first() =~= room.dropped@.skip(i + 1));
        }
        let d = room.dropped[i];
        if is_near_to(d.pos, at) && d.resource == Resource::Energy && d.amount > HANDYMAN_ENERGY_PICKUP_THRESHOLD {
            return Task::TakeResource(d.id);
        }
        i = i + 1;
    }
    let ghost pc = is_full_container_at(at);
    let mut k: usize = 0;
    assert(room.structures@.skip(0) =~= room.structures@);
    while k < room.structures.len()
        invariant
            pc == is_full_container_at(at),
            pd == is_energy_drop_near(at),
            first_where(room.dropped@, pd) is None,
            k <= room.structures@.len(),
            first_where(room.structures@, pc) == first_where(room.structures@.skip(k as int), pc),
        decreases room.structures@.len() - k,
    {
        proof {
            assert(room.structures@.skip(k as int).drop_first() =~= room.structures@.skip(k + 1));
        }
        let s = room.structures[k];
        let full = s.kind == StructureKind::Container && s.pos == at && match s.store {
            Some(st) => st.energy > 1000,
            None => false,
        };
        if full {
            return Task::TakeFromStructure(s.pos, s.id, Resource::Energy, None);
        }
        k = k + 1;
    }
    match first_near(&room.sources, at, false) {
        Some(source) => Task::Harvest(at, source.id),
        None => Task::Idle(1),
    }
}

/// A spawn, extension or tower less than half full.
pub open spec fn is_spawn_network_to_fill(s: StructureView) -> bool {
    (s.kind == StructureKind::Spawn || s.kind == StructureKind::Extension || s.kind == StructureKind::Tower)
        && (s.store matches Some(st) && st.free > st.capacity / 2)
}

/// An own rampart under 15000 hit points, or a container under half of its
/// hit points.
pub open spec fn is_startup_repair(s: StructureView) -> bool {
    (s.kind == StructureKind::Rampart && s.my && s.hits < 15000) || (s.kind == StructureKind::Container
        && s.hits < s.hits_max / 2)
}

pub open spec fn startup_repair_times(s: StructureView) -> u8 {
    if s.kind == StructureKind::Rampart {
        10
    } else {
        5
    }
}

pub open spec fn any_site() -> spec_fn(SiteView) -> bool {
    |c: SiteView| true
}

pub open spec fn site_range_from(from: Position) -> spec_fn(SiteView) -> int {
    |c: SiteView| spec_range(c.pos, from)
}

/// The work a handyman with energy does in a quiet room, as a predicate of
/// the chosen task.
pub open spec fn spec_startup_task(from: Position, room: WorkRoom, t: Task) -> bool {
        match first_where(room.structures@, |s: StructureView| is_spawn_network_to_fill(s)) {
            Some(s) => t == Task::DeliverToStructure(s.pos, s.id, Resource::Energy, None),
            None => match first_where(room.structures@, |s: StructureView| is_startup_repair(s)) {
                Some(s) => t == Task::Repair(s.id, s.pos, startup_repair_times(s)),
                None => exists|c: Option<SiteView>|
                    #[trigger] is_first_min_by(room.sites@, any_site(), site_range_from(from), c) && t == match c {
                        Some(site) => Task::Build(site.id, site.pos),
                        None => match room.controller {
                            Some((ctrl, _, _)) => Task::Upgrade(ctrl, None),
                            None => Task::Idle(NO_TASK_IDLE_TICKS),
                        },
                    },
            },
        }
}

/// Work for a handyman with energy in a quiet room: fill the spawn network,
/// else repair what is failing, else build the closest site, else upgrade.
pub fn find_startup_task(from: Position, room: &WorkRoom) -> (t: Task)
    requires
        from.valid(),
        room_valid(*room),
    ensures
        spec_startup_task(from, *room, t),
{
    let ghost p1 = |s: StructureView| is_spawn_network_to_fill(s);
    let mut i: usize = 0;
    assert(room.structures@.skip(0) =~= room.structures@);
    while i < room.structures.len()
        invariant
            p1 == (|s: StructureView| is_spawn_network_to_fill(s)),
            i <= room.structures@.len(),
            first_where(room.structures@, p1) == first_where(room.structures@.skip(i as int), p1),
        decreases room.structures@.len() - i,
    {
        proof {
            assert(room.structures@.skip(i as int).drop_first() =~= room.structures@.skip(i + 1));
        }
        let s = room.structures[i];
        let network = s.kind == StructureKind::Spawn || s.kind == StructureKind::Extension || s.kind
            == StructureKind::Tower;
        let wanted = network && match s.store {
            Some(st) => st.free > (st.capacity / 2) as i32,
            None => false,
        };
        if wanted {
            return Task::DeliverToStructure(s.pos, s.id, Resource::Energy, None);
        }
        i = i + 1;
    }
    let ghost p2 = |s: StructureView| is_startup_repair(s);
    let mut k: usize = 0;
    while k < room.structures.len()
        invariant
            p1 == (|s: StructureView| is_spawn_network_to_fill(s)),
            p2 == (|s: StructureView| is_startup_repair(s)),
            first_where(room.structures@, p1) is None,
            k <= room.structures@.len(),
            first_where(room.structures@, p2) == first_where(room.structures@.skip(k as int), p2),
        decreases room.structures@.len() - k,
    {
        proof {
            assert(room.structures@.skip(k as int).drop_first() =~= room.structures@.skip(k + 1));
        }
        let s = room.structures[k];
        if s.kind == StructureKind::Rampart && s.my && s.hits < 15000 {
            return Task::Repair(s.id, s.pos, 10);
        }
        if s.kind == StructureKind::Container && s.hits < s.hits_max / 2 {
            return Task::Repair(s.id, s.pos, 5);
        }
        k = k + 1;
    }
    let ghost key = site_range_from(from);
    let ghost all = any_site();
    let mut best: Option<(usize, u32)> = None;
    let mut j: usize = 0;
    while j < room.sites.len()
        invariant
            from.valid(),
            room_valid(*room),
            key == site_range_from(from),
            all == any_site(),
            j <= room.sites@.len(),
            match best {
                Some((b, d)) => b < j && d == key(room.sites@[b as int]) && (forall|q: int|
                    0 <= q < j && all(#[trigger] room.sites@[q]) ==> key(room.sites@[b as int]) <= key(room.sites@[q]))
                    && (forall|q: int|
                    0 <= q < b && all(#[trigger] room.sites@[q]) ==> key(room.sites@[b as int]) < key(room.sites@[q])),
                None => j == 0,
            },
        decreases room.sites@.len() - j,
    {
        let c = room.sites[j];
        let d = get_range_to(c.pos, from);
        match best {
            Some((b, bd)) => {
                if d < bd {
                    best = Some((j, d));
                }
            },
            None => {
                best = Some((j, d));
            },
        }
        j = j + 1;
    }
    match best {
        Some((b, _)) => {
            let site = room.sites[b];
            assert(is_first_min_by(room.sites@, all, key, Some(site)));
            Task::Build(site.id, site.pos)
        },
        None => {
            assert(is_first_min_by(room.sites@, all, key, None));
            match room.controller {
                Some((ctrl, _, _)) => Task::Upgrade(ctrl, None),
                None => Task::Idle(NO_TASK_IDLE_TICKS),
            }
        },
    }
}

pub open spec fn is_big_energy_drop(d: DroppedView) -> bool {
    d.resource == Resource::Energy && d.amount >= HANDYMAN_ENERGY_PICKUP_THRESHOLD
}

pub open spec fn is_rich_tomb(t: TombView) -> bool {
    t.energy >= HANDYMAN_ENERGY_PICKUP_THRESHOLD
}

pub open spec fn is_rich_container(s: StructureView) -> bool {
    s.kind == StructureKind::Container && (s.store matches Some(st) && st.energy >= 1000)
}

pub open spec fn spec_find_energy_or_source(room: WorkRoom, workplace: Position) -> Task {
    match first_where(room.dropped@, |d: DroppedView| is_big_energy_drop(d)) {
        Some(d) => Task::TakeResource(d.id),
        None => match first_where(room.tombs@, |t: TombView| is_rich_tomb(t)) {
            Some(t) => Task::TakeFromStructure(t.pos, t.id, Resource::Energy, None),
            None => match first_where(room.structures@, |s: StructureView| is_rich_container(s)) {
                Some(s) => Task::TakeFromStructure(s.pos, s.id, Resource::Energy, None),
                None => match spec_first_near(room.sources@, workplace, false) {
                    Some(source) => match room.controller {
                        Some((ctrl, cpos, _)) if spec_range(cpos, workplace) <= 3 => Task::HarvestAndUpgrade(
                            workplace,
                            source.id,
                            ctrl,
                        ),
                        _ => Task::Harvest(workplace, source.id),
                    },
                    None => Task::Idle(NO_TASK_IDLE_TICKS),
                },
            },
        },
    }
}

/// Energy for an empty handyman in a quiet room: a big pile, a rich
/// tombstone or container; else harvest the source at the workplace (and
/// upgrade, when the controller is within three tiles of it).
pub fn find_energy_or_source(room: &WorkRoom, workplace: Position) -> (t: Task)
    requires
        workplace.valid(),
        room.controller matches Some((_, cpos, _)) ==> cpos.valid(),
    ensures
        t == spec_find_energy_or_source(*room, workplace),
{
    let ghost pd = |d: DroppedView| is_big_energy_drop(d);
    let mut i: usize = 0;
    assert(room.dropped@.skip(0) =~= room.dropped@);
    while i < room.dropped.len()
        invariant
            pd == (|d: DroppedView| is_big_energy_drop(d)),
            i <= room.dropped@.len(),
            first_where(room.dropped@, pd) == first_where(room.dropped@.skip(i as int), pd),
        decreases room.dropped@.len() - i,
    {
        proof {
            assert(room.dropped@.skip(i as int).drop_first() =~= room.dropped@.skip(i + 1));
        }
        let d = room.dropped[i];
        if d.resource == Resource::Energy && d.amount >= HANDYMAN_ENERGY_PICKUP_THRESHOLD {
            return Task::TakeResource(d.id);
        }
        i = i + 1;
    }
    let ghost pt = |t: TombView| is_rich_tomb(t);
    let mut k: usize = 0;
    assert(room.tombs@.skip(0) =~= room.tombs@);
    while k < room.tombs.len()
        invariant
            pd == (|d: DroppedView| is_big_energy_drop(d)),
            pt == (|t: TombView| is_rich_tomb(t)),
            first_where(room.dropped@, pd) is None,
            k <= room.tombs@.len(),
            first_where(room.tombs@, pt) == first_where(room.tombs@.skip(k as int), pt),
        decreases room.tombs@.len() - k,
    {
        proof {
            assert(room.tombs@.skip(k as int).drop_first() =~= room.tombs@.skip(k + 1));
        }
        let tomb = room.tombs[k];
        if tomb.energy >= HANDYMAN_ENERGY_PICKUP_THRESHOLD {
            return Task::TakeFromStructure(tomb.pos, tomb.id, Resource::Energy, None);
        }
        k = k + 1;
    }
    let ghost ps = |s: StructureView| is_rich_container(s);
    let mut j: usize = 0;
    assert(room.structures@.skip(0) =~= room.structures@);
    while j < room.structures.len()
        invariant
            pd == (|d: DroppedView| is_big_energy_drop(d)),
            pt == (|t: TombView| is_rich_tomb(t)),
            ps == (|s: StructureView| is_rich_container(s)),
            first_where(room.dropped@, pd) is None,
            first_where(room.tombs@, pt) is None,
            j <= room.structures@.len(),
            first_where(room.structures@, ps) == first_where(room.structures@.skip(j as int), ps),
        decreases room.structures@.len() - j,
    {
        proof {
            assert(room.structures@.skip(j as int).drop_first() =~= room.structures@.skip(j + 1));
        }
        let s = room.structures[j];
        let rich = s.kind == StructureKind::Container && match s.store {
            Some(st) => st.energy >= 1000,
            None => false,
        };
        if rich {
            return Task::TakeFromStructure(s.pos, s.id, Resource::Energy, None);
        }
        j = j + 1;
    }
    match first_near(&room.sources, workplace, false) {
        Some(source) => match room.controller {
            Some((ctrl, cpos, _)) => if get_range_to(cpos, workplace) <= 3 {
                Task::HarvestAndUpgrade(workplace, source.id, ctrl)
            } else {
                Task::Harvest(workplace, source.id)
            },
            None => Task::Harvest(workplace, source.id),
        },
        None => Task::Idle(NO_TASK_IDLE_TICKS),
    }
}

/// Hostiles stand inside the room (four tiles or more from every border)
/// and the controller is not safe for the next ten ticks.
pub open spec fn spec_room_in_danger(room: WorkRoom) -> bool {
    (exists|i: int| 0 <= i < room.hostiles@.len() && spec_inside(#[trigger] room.hostiles@[i]))
        && (room.controller matches Some((_, _, safe)) && (safe is None || safe->0 < 10))
}

pub open spec fn spec_inside(p: Position) -> bool {
    4 <= p.x <= 46 && 4 <= p.y <= 46
}

fn room_in_danger(room: &WorkRoom) -> (r: bool)
    ensures
        r == spec_room_in_danger(*room),
{
    let mut inside = false;
    let mut i: usize = 0;
    while i < room.hostiles.len()
        invariant_except_break
            i <= room.hostiles@.len(),
            !inside,
            forall|j: int| 0 <= j < i ==> !spec_inside(#[trigger] room.hostiles@[j]),
        ensures
            inside ==> exists|j: int| 0 <= j < room.hostiles@.len() && spec_inside(#[trigger] room.hostiles@[j]),
            !inside ==> forall|j: int| 0 <= j < room.hostiles@.len() ==> !spec_inside(#[trigger] room.hostiles@[j]),
        decreases room.hostiles@.len() - i,
    {
        if remoted_from_edge(room.hostiles[i], 4) {
            inside = true;
            break;
        }
        i = i + 1;
    }
    inside && match room.controller {
        Some((_, _, safe)) => match safe {
            Some(ticks) => ticks < 10,
            None => true,
        },
        None => false,
    }
}

/// What a handyman in its workplace's room does once no boost is waiting.
pub open spec fn spec_handyman_in_room(creep: CreepInfo, w: Position, r: WorkRoom, t: Task) -> bool {
    if spec_room_in_danger(r) {
        if r.rampart_at_workplace {
            if creep.pos != w {
                t == match spec_first_near(r.sources@, w, false) {
                    Some(source) => Task::Harvest(w, source.id),
                    None => Task::Idle(1),
                }
            } else if creep.store_energy > 0 {
                spec_invasion_task(creep.pos, r, t)
            } else {
                t == spec_find_energy_near(creep.pos, r)
            }
        } else {
            t == Task::Flee(9)
        }
    } else if creep.store_energy > 0 {
        spec_startup_task(creep.pos, r, t)
    } else {
        t == spec_find_energy_or_source(r, w)
    }
}

impl HandyMan {
    /// Boost if a lab offers it; out of the workplace's room (or with the
    /// room unseen) travel there; in danger man the rampart on the workplace
    /// (harvest to get there, then support the defence with or without
    /// energy), or flee when there is none; in a quiet room work with energy
    /// or go and fetch it.
    pub fn get_task(&self, creep: &CreepInfo, boost: Option<AvailableBoost>, room: Option<&WorkRoom>) -> (t: Task)
        requires
            creep.body@.len() <= 50,
            creep.pos.valid(),
            room matches Some(r) ==> room_valid(*r) && (r.controller matches Some((_, cpos, _)) ==> cpos.valid()),
            self.workplace matches Some(w) ==> w.valid(),
        ensures
            match boost {
                Some(b) => t == spec_boost_task(*creep, b),
                None => match self.workplace {
                    None => t == Task::Idle(1),
                    Some(w) => if creep.pos.room == w.room && room is Some {
                        spec_handyman_in_room(*creep, w, *room->0, t)
                    } else {
                        t == Task::MoveMe(w.room, Walker::Exploring(false))
                    },
                },
            },
    {
        if let Some(b) = boost {
            return boost_task(creep, b);
        }
        match self.workplace {
            None => Task::default(),
            Some(w) => {
                if creep.pos.room == w.room && room.is_some() {
                    let r = room.unwrap();
                    if room_in_danger(r) {
                        if r.rampart_at_workplace {
                            if creep.pos != w {
                                match first_near(&r.sources, w, false) {
                                    Some(source) => Task::Harvest(w, source.id),
                                    None => Task::Idle(1),
                                }
                            } else if creep.store_energy > 0 {
                                find_invasion_task(creep.pos, r)
                            } else {
                                find_energy_near(creep.pos, r)
                            }
                        } else {
                            Task::Flee(9)
                        }
                    } else if creep.store_energy > 0 {
                        find_startup_task(creep.pos, r)
                    } else {
                        find_energy_or_source(r, w)
                    }
                } else {
                    Task::MoveMe(w.room, Walker::Exploring(false))
                }
            },
        }
    }
}

} // verus!
