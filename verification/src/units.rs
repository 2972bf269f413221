use vstd::prelude::*;

use crate::body::BodyPart;
use crate::geometry::Position;
use crate::resources::Resource;
use crate::tasks::ObjectId;

verus! {

/// One part of a living creep's body.
#[derive(Clone, Copy, Debug, PartialEq, Eq, Structural)]
pub struct PartInfo {
    pub part: BodyPart,
    /// Remaining hit points of the part; a part at zero does nothing.
    pub hits: u32,
    /// The compound the part is boosted with, if any.
    pub boost: Option<Resource>,
}

/// What a creep's logic reads of a creep in the game, gathered once per tick.
#[derive(Clone, Debug)]
pub struct CreepInfo {
    pub id: ObjectId,
    pub name: String,
    pub pos: Position,
    pub hits: u32,
    pub hits_max: u32,
    /// `None` while the creep is being spawned.
    pub ticks_to_live: Option<u32>,
    pub body: Vec<PartInfo>,
    /// Units of any resource held.
    pub store_used: u32,
    /// Total store capacity.
    pub store_capacity: u32,
    /// Units of energy held.
    pub store_energy: u32,
    /// Free store capacity.
    pub store_free: i32,
    /// The resource types held, in the game's order.
    pub store_types: Vec<Resource>,
    /// Units held of each resource type held, in the game's order.
    pub store: Vec<(Resource, u32)>,
}

/// Units of `r` in a store given as (resource, amount) entries: the first
/// entry for `r`, or nothing.
pub open spec fn spec_held(store: Seq<(Resource, u32)>, r: Resource) -> u32
    decreases store.len(),
{
    if store.len() == 0 {
        0
    } else if store[0].0 == r {
        store[0].1
    } else {
        spec_held(store.drop_first(), r)
    }
}

/// Units of `r` in a store given as (resource, amount) entries.
pub fn held(store: &[(Resource, u32)], r: Resource) -> (n: u32)
    ensures
        n == spec_held(store@, r),
{
    let mut i: usize = 0;
    assert(store@.skip(0) =~= store@);
    while i < store.len()
        invariant
            i <= store@.len(),
            spec_held(store@, r) == spec_held(store@.skip(i as int), r),
        decreases store@.len() - i,
    {
        proof {
            assert(store@.skip(i as int).drop_first() =~= store@.skip(i + 1));
        }
        if store[i].0 == r {
            return store[i].1;
        }
        i = i + 1;
    }
    0
}

pub open spec fn part_matches(parts: Seq<BodyPart>, p: PartInfo, is_active: bool) -> bool {
    (!is_active || p.hits > 0) && parts.contains(p.part)
}

/// A body has one of `parts` (only among parts with hit points left when
/// `is_active`).
pub open spec fn spec_has_part(parts: Seq<BodyPart>, body: Seq<PartInfo>, is_active: bool) -> bool {
    exists|i: int| 0 <= i < body.len() && part_matches(parts, #[trigger] body[i], is_active)
}

fn part_in(part: BodyPart, parts: &[BodyPart]) -> (r: bool)
    ensures
        r == parts@.contains(part),
{
    let mut i: usize = 0;
    while i < parts.len()
        invariant
            i <= parts@.len(),
            forall|j: int| 0 <= j < i ==> parts@[j] != part,
        decreases parts@.len() - i,
    {
        if parts[i] == part {
            return true;
        }
        i = i + 1;
    }
    false
}

/// Whether the body holds one of `parts`; with `is_active`, only parts that
/// still have hit points count.
pub fn has_part(parts: &[BodyPart], body: &[PartInfo], is_active: bool) -> (r: bool)
    ensures
        r == spec_has_part(parts@, body@, is_active),
{
    let mut i: usize = 0;
    while i < body.len()
        invariant
            i <= body@.len(),
            forall|j: int| 0 <= j < i ==> !part_matches(parts@, #[trigger] body@[j], is_active),
        decreases body@.len() - i,
    {
        let p = body[i];
        if (!is_active || p.hits > 0) && part_in(p.part, parts) {
            return true;
        }
        i = i + 1;
    }
    false
}

/// Whether every part of the body is boosted.
pub fn full_boosted(body: &[PartInfo]) -> (r: bool)
    ensures
        r == forall|i: int| 0 <= i < body@.len() ==> (#[trigger] body@[i]).boost is Some,
{
    let mut i: usize = 0;
    while i < body.len()
        invariant
            i <= body@.len(),
            forall|j: int| 0 <= j < i ==> (#[trigger] body@[j]).boost is Some,
        decreases body@.len() - i,
    {
        if body[i].boost.is_none() {
            return false;
        }
        i = i + 1;
    }
    true
}

/// Whether some part of the body is boosted.
pub fn is_boosted(body: &[PartInfo]) -> (r: bool)
    ensures
        r == exists|i: int| 0 <= i < body@.len() && (#[trigger] body@[i]).boost is Some,
{
    let mut i: usize = 0;
    while i < body.len()
        invariant
            i <= body@.len(),
            forall|j: int| 0 <= j < i ==> (#[trigger] body@[j]).boost is None,
        decreases body@.len() - i,
    {
        if body[i].boost.is_some() {
            return true;
        }
        i = i + 1;
    }
    false
}

/// Number of parts of the body of the given kind.
pub open spec fn spec_count_part(body: Seq<PartInfo>, part: BodyPart) -> nat
    decreases body.len(),
{
    if body.len() == 0 {
        0
    } else {
        spec_count_part(body.drop_last(), part) + if body.last().part == part {
            1nat
        } else {
            0nat
        }
    }
}

/// Counts the parts of one kind in a body.
pub fn count_part(body: &[PartInfo], part: BodyPart) -> (n: usize)
    ensures
        n == spec_count_part(body@, part),
{
    let mut n: usize = 0;
    let mut i: usize = 0;
    while i < body.len()
        invariant
            i <= body@.len(),
            n == spec_count_part(body@.take(i as int), part),
            n <= i,
        decreases body@.len() - i,
    {
        proof {
            assert(body@.take(i + 1).drop_last() =~= body@.take(i as int));
        }
        if body[i].part == part {
            n = n + 1;
        }
        i = i + 1;
    }
    proof {
        assert(body@.take(body@.len() as int) =~= body@);
    }
    n
}

} // verus!
