use vstd::prelude::*;

use crate::geometry::Position;
use crate::resources::Resource;
use crate::tasks::ObjectId;

verus! {

/// The kind of a structure.
#[derive(Clone, Copy, Debug, PartialEq, Eq, Structural)]
pub enum StructureKind {
    Spawn,
    Extension,
    Road,
    Wall,
    Rampart,
    KeeperLair,
    Portal,
    Controller,
    Link,
    Storage,
    Tower,
    Observer,
    PowerBank,
    PowerSpawn,
    Extractor,
    Lab,
    Terminal,
    Container,
    Nuker,
    Factory,
    InvaderCore,
}

/// Energy in a structure's store.
#[derive(Clone, Copy, Debug, PartialEq, Eq, Structural)]
pub struct EnergyStore {
    /// Units of energy held.
    pub energy: u32,
    /// Energy capacity.
    pub capacity: u32,
    /// Free capacity for energy.
    pub free: i32,
}

/// A structure, as the task choice sees it.
#[derive(Clone, Copy, Debug, PartialEq, Eq, Structural)]
pub struct StructureView {
    pub pos: Position,
    pub id: ObjectId,
    pub kind: StructureKind,
    /// Owned by this player.
    pub my: bool,
    pub hits: u32,
    pub hits_max: u32,
    /// The energy of its store, for structures with one.
    pub store: Option<EnergyStore>,
}

/// A construction site of this player.
#[derive(Clone, Copy, Debug, PartialEq, Eq, Structural)]
pub struct SiteView {
    pub pos: Position,
    pub id: Option<ObjectId>,
}

/// A resource lying on the ground.
#[derive(Clone, Copy, Debug, PartialEq, Eq, Structural)]
pub struct DroppedView {
    pub pos: Position,
    pub id: ObjectId,
    pub resource: Resource,
    pub amount: u32,
}

/// A tombstone and the energy it holds.
#[derive(Clone, Copy, Debug, PartialEq, Eq, Structural)]
pub struct TombView {
    pub pos: Position,
    pub id: ObjectId,
    pub energy: u32,
}

/// The first element of `s` that satisfies `p`.
pub open spec fn first_where<T>(s: Seq<T>, p: spec_fn(T) -> bool) -> Option<T>
    decreases s.len(),
{
    if s.len() == 0 {
        None
    } else if p(s[0]) {
        Some(s[0])
    } else {
        first_where(s.drop_first(), p)
    }
}

/// `r` is the first element of `s` that satisfies `p` and, among those, has
/// the smallest `key`.
pub open spec fn is_first_min_by<T>(s: Seq<T>, p: spec_fn(T) -> bool, key: spec_fn(T) -> int, r: Option<T>) -> bool {
    match r {
        Some(x) => exists|i: int|
            0 <= i < s.len() && x == s[i] && p(s[i]) && (forall|j: int|
                0 <= j < s.len() && p(#[trigger] s[j]) ==> key(s[i]) <= key(s[j])) && (forall|j: int|
                0 <= j < i && p(#[trigger] s[j]) ==> key(s[i]) < key(s[j])),
        None => forall|j: int| 0 <= j < s.len() ==> !p(#[trigger] s[j]),
    }
}

pub open spec fn all_valid(structures: Seq<StructureView>) -> bool {
    forall|i: int| 0 <= i < structures.len() ==> (#[trigger] structures[i]).pos.valid()
}

/// Structures that may hold energy for anyone to take: not the spawn
/// network, labs, links, nukers or factories.
pub open spec fn is_energy_container(s: StructureView) -> bool {
    &&& s.kind != StructureKind::Tower
    &&& s.kind != StructureKind::Link
    &&& s.kind != StructureKind::Extension
    &&& s.kind != StructureKind::Spawn
    &&& s.kind != StructureKind::Lab
    &&& s.kind != StructureKind::PowerSpawn
    &&& s.kind != StructureKind::Nuker
    &&& s.kind != StructureKind::Factory
    &&& s.store matches Some(st) && st.energy > 500
}

fn has_energy_container(s: &StructureView) -> (r: bool)
    ensures
        r == is_energy_container(*s),
{
    s.kind != StructureKind::Tower && s.kind != StructureKind::Link && s.kind != StructureKind::Extension
        && s.kind != StructureKind::Spawn && s.kind != StructureKind::Lab && s.kind != StructureKind::PowerSpawn
        && s.kind != StructureKind::Nuker && s.kind != StructureKind::Factory && match s.store {
        Some(st) => st.energy > 500,
        None => false,
    }
}

pub open spec fn range_from(from: Position) -> spec_fn(StructureView) -> int {
    |s: StructureView| crate::geometry::spec_range(s.pos, from)
}

/// The closest structure holding over 500 energy that is free to take from;
/// among equally close ones, the first listed.
pub fn get_closest_energy_container(from: Position, structures: &[StructureView]) -> (r: Option<StructureView>)
    requires
        from.valid(),
        all_valid(structures@),
    ensures
        is_first_min_by(structures@, |s: StructureView| is_energy_container(s), range_from(from), r),
{
    let ghost p = |s: StructureView| is_energy_container(s);
    let ghost key = range_from(from);
    let mut best: Option<(usize, u32)> = None;
    let mut i: usize = 0;
    while i < structures.len()
        invariant
            from.valid(),
            all_valid(structures@),
            p == (|s: StructureView| is_energy_container(s)),
            key == range_from(from),
            i <= structures@.len(),
            match best {
                Some((b, d)) => b < i && p(structures@[b as int]) && d == key(structures@[b as int]) && (forall|j: int|
                    0 <= j < i && p(#[trigger] structures@[j]) ==> key(structures@[b as int]) <= key(structures@[j]))
                    && (forall|j: int|
                    0 <= j < b && p(#[trigger] structures@[j]) ==> key(structures@[b as int]) < key(structures@[j])),
                None => forall|j: int| 0 <= j < i ==> !p(#[trigger] structures@[j]),
            },
        decreases structures@.len() - i,
    {
        let s = structures[i];
        if has_energy_container(&s) {
            let d = crate::geometry::get_range_to(s.pos, from);
            match best {
                Some((b, bd)) => {
                    if d < bd {
                        best = Some((i, d));
                    }
                },
                None => {
                    best = Some((i, d));
                },
            }
        }
        i = i + 1;
    }
    match best {
        Some((b, _)) => Some(structures[b]),
        None => None,
    }
}

} // verus!
