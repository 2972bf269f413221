use vstd::prelude::*;

use crate::body::BodyPart;
use crate::geometry::{get_range_to, Position, spec_range};
use crate::objects::StructureKind;
use crate::orders::Order;
use crate::tasks::ObjectId;
use crate::units::{has_part, spec_has_part, PartInfo};

verus! {

/// Who a creep belongs to.
#[derive(Clone, Copy, Debug, PartialEq, Eq, Structural)]
pub enum Owner {
    /// This player.
    Mine,
    /// The keepers that guard sources in the central sectors.
    SourceKeeper,
    /// The game's invaders.
    Invader,
    /// The game's own creeps (caravans).
    Caravan,
    /// Another player.
    Player,
}

/// A creep other than the acting one, as the decisions read it.
#[derive(Clone, Debug)]
pub struct Unit {
    pub id: ObjectId,
    pub name: String,
    pub pos: Position,
    pub hits: u32,
    pub hits_max: u32,
    pub owner: Owner,
    pub body: Vec<PartInfo>,
    /// Units of any resource held.
    pub store_used: u32,
}

/// Every unit stands on a valid tile.
pub open spec fn units_valid(s: Seq<Unit>) -> bool {
    forall|i: int| 0 <= i < s.len() ==> (#[trigger] s[i]).pos.valid()
}

/// Carries an attack or ranged attack part (alive or not).
pub open spec fn is_attacker(u: Unit) -> bool {
    spec_has_part(seq![BodyPart::Attack, BodyPart::RangedAttack], u.body@, false)
}

pub open spec fn attacker_filter() -> spec_fn(Unit) -> bool {
    |u: Unit| is_attacker(u)
}

pub open spec fn any_unit() -> spec_fn(Unit) -> bool {
    |u: Unit| true
}

/// Carries a ranged attack part (alive or not).
pub open spec fn is_ranged(u: Unit) -> bool {
    spec_has_part(seq![BodyPart::RangedAttack], u.body@, false)
}

/// Which creeps a closest-creep search considers.
#[derive(Clone, Copy, Debug, PartialEq, Eq, Structural)]
pub enum Filter {
    Any,
    /// With an attack or ranged attack part.
    Attackers,
    /// With a ranged attack part.
    Ranged,
    /// With a body of more than two parts.
    Big,
}

pub open spec fn filter_fn(f: Filter) -> spec_fn(Unit) -> bool {
    match f {
        Filter::Any => any_unit(),
        Filter::Attackers => attacker_filter(),
        Filter::Ranged => |u: Unit| is_ranged(u),
        Filter::Big => |u: Unit| u.body@.len() > 2,
    }
}

/// The unit of `s` that passes `p` and stands closest to `to`, found by a
/// left fold: a closer unit replaces the one held; on a tie the one held
/// stays if it has a live attack part, else the newcomer takes its place.
pub open spec fn spec_closest_fold(s: Seq<Unit>, to: Position, p: spec_fn(Unit) -> bool) -> Option<int>
    decreases s.len(),
{
    if s.len() == 0 {
        None
    } else {
        let i = s.len() - 1;
        let acc = spec_closest_fold(s.drop_last(), to, p);
        if !p(s[i]) {
            acc
        } else {
            match acc {
                None => Some(i),
                Some(h) => {
                    let ra = spec_range(s[i].pos, to);
                    let rh = spec_range(s[h].pos, to);
                    if ra < rh {
                        Some(i)
                    } else if ra > rh {
                        Some(h)
                    } else if spec_has_part(seq![BodyPart::Attack], s[h].body@, true) {
                        Some(h)
                    } else {
                        Some(i)
                    }
                },
            }
        }
    }
}

pub open spec fn opt_int(r: Option<usize>) -> Option<int> {
    match r {
        Some(i) => Some(i as int),
        None => None,
    }
}

/// The creep `spec_closest_fold` picks is one of the creeps searched.
pub proof fn lemma_fold_bounds(s: Seq<Unit>, to: Position, p: spec_fn(Unit) -> bool)
    ensures
        spec_closest_fold(s, to, p) matches Some(h) ==> 0 <= h < s.len() && p(s[h]),
        spec_closest_fold(s, to, p) is None ==> forall|j: int| 0 <= j < s.len() ==> !p(#[trigger] s[j]),
    decreases s.len(),
{
    if s.len() > 0 {
        lemma_fold_bounds(s.drop_last(), to, p);
        assert forall|j: int| 0 <= j < s.len() - 1 implies s.drop_last()[j] == s[j] by {}
    }
}

/// The closest creep passing the filter (see `spec_closest_fold` for
/// ties).
pub fn closest_by(to: Position, units: &[Unit], f: Filter) -> (r: Option<usize>)
    requires
        to.valid(),
        units_valid(units@),
    ensures
        opt_int(r) == spec_closest_fold(units@, to, filter_fn(f)),
{
    let ghost p = filter_fn(f);
    let mut best: Option<usize> = None;
    let mut i: usize = 0;
    let wanted = [BodyPart::Attack, BodyPart::RangedAttack];
    let ranged = [BodyPart::RangedAttack];
    let melee = [BodyPart::Attack];
    assert(wanted@ =~= seq![BodyPart::Attack, BodyPart::RangedAttack]);
    assert(ranged@ =~= seq![BodyPart::RangedAttack]);
    assert(melee@ =~= seq![BodyPart::Attack]);
    while i < units.len()
        invariant
            to.valid(),
            units_valid(units@),
            p == filter_fn(f),
            wanted@ == seq![BodyPart::Attack, BodyPart::RangedAttack],
            ranged@ == seq![BodyPart::RangedAttack],
            melee@ == seq![BodyPart::Attack],
            i <= units@.len(),
            opt_int(best) == spec_closest_fold(units@.take(i as int), to, p),
        decreases units@.len() - i,
    {
        proof {
            assert(units@.take(i + 1).drop_last() =~= units@.take(i as int));
            lemma_fold_bounds(units@.take(i as int), to, p);
        }
        let u = &units[i];
        let pass = match f {
            Filter::Any => true,
            Filter::Attackers => has_part(&wanted, &u.body, false),
            Filter::Ranged => has_part(&ranged, &u.body, false),
            Filter::Big => u.body.len() > 2,
        };
        if pass {
            match best {
                None => {
                    best = Some(i);
                },
                Some(h) => {
                    let ra = get_range_to(u.pos, to);
                    let rh = get_range_to(units[h].pos, to);
                    if ra < rh {
                        best = Some(i);
                    } else if ra > rh {
                    } else if has_part(&melee, &units[h].body, true) {
                    } else {
                        best = Some(i);
                    }
                },
            }
        }
        i = i + 1;
    }
    proof {
        assert(units@.take(units@.len() as int) =~= units@);
    }
    best
}

/// The closest hostile with an attack or ranged attack part (see
/// `spec_closest_fold` for ties).
pub fn closest_attacker(to: Position, units: &[Unit]) -> (r: Option<usize>)
    requires
        to.valid(),
        units_valid(units@),
    ensures
        opt_int(r) == spec_closest_fold(units@, to, attacker_filter()),
{
    closest_by(to, units, Filter::Attackers)
}

/// The closest of the creeps (see `spec_closest_fold` for ties).
pub fn closest_creep(to: Position, units: &[Unit]) -> (r: Option<usize>)
    requires
        to.valid(),
        units_valid(units@),
    ensures
        opt_int(r) == spec_closest_fold(units@, to, any_unit()),
{
    closest_by(to, units, Filter::Any)
}

pub open spec fn is_injured(u: Unit) -> bool {
    u.hits < u.hits_max
}

/// The first injured creep (other than `except`, when given) at the
/// smallest range from `to`.
pub open spec fn spec_closest_injured(s: Seq<Unit>, to: Position, except: Option<Seq<char>>) -> Option<int>
    decreases s.len(),
{
    if s.len() == 0 {
        None
    } else {
        let i = s.len() - 1;
        let acc = spec_closest_injured(s.drop_last(), to, except);
        if !is_injured(s[i]) || (except matches Some(n) && s[i].name@ == n) {
            acc
        } else {
            match acc {
                None => Some(i),
                Some(h) => if spec_range(s[i].pos, to) < spec_range(s[h].pos, to) {
                    Some(i)
                } else {
                    Some(h)
                },
            }
        }
    }
}

/// The creep `spec_closest_injured` picks is one of the creeps searched.
pub proof fn lemma_injured_bounds(s: Seq<Unit>, to: Position, except: Option<Seq<char>>)
    ensures
        spec_closest_injured(s, to, except) matches Some(h) ==> 0 <= h < s.len(),
    decreases s.len(),
{
    if s.len() > 0 {
        lemma_injured_bounds(s.drop_last(), to, except);
    }
}

/// The closest injured creep of this player; with `except`, the creep of
/// that name is left out (the acting creep itself).
pub fn find_closest_injured(to: Position, mine: &[Unit], except: Option<&str>) -> (r: Option<usize>)
    requires
        to.valid(),
        units_valid(mine@),
    ensures
        opt_int(r) == spec_closest_injured(mine@, to, match except {
            Some(n) => Some(n@),
            None => None,
        }),
{
    let ghost ex = match except {
        Some(n) => Some(n@),
        None => None,
    };
    let mut best: Option<usize> = None;
    let mut i: usize = 0;
    while i < mine.len()
        invariant
            to.valid(),
            units_valid(mine@),
            ex == (match except {
                Some(n) => Some(n@),
                None => None::<Seq<char>>,
            }),
            i <= mine@.len(),
            opt_int(best) == spec_closest_injured(mine@.take(i as int), to, ex),
        decreases mine@.len() - i,
    {
        proof {
            assert(mine@.take(i + 1).drop_last() =~= mine@.take(i as int));
            lemma_injured_bounds(mine@.take(i as int), to, ex);
        }
        let u = &mine[i];
        let excluded = match except {
            Some(n) => crate::requests::str_eq(u.name.as_str(), n),
            None => false,
        };
        if u.hits < u.hits_max && !excluded {
            match best {
                None => {
                    best = Some(i);
                },
                Some(h) => {
                    if get_range_to(u.pos, to) < get_range_to(mine[h].pos, to) {
                        best = Some(i);
                    }
                },
            }
        }
        i = i + 1;
    }
    proof {
        assert(mine@.take(mine@.len() as int) =~= mine@);
    }
    best
}

/// The healing intent of a creep with nothing better to do: heal the
/// closest injured creep of this player (itself included) by touch when
/// adjacent, from afar at range two or three, and itself otherwise.
pub open spec fn spec_try_heal(me: ObjectId, pos: Position, mine: Seq<Unit>) -> ObjectId {
    match spec_closest_injured(mine, pos, None) {
        Some(i) => {
            let r = spec_range(pos, mine[i].pos);
            if r == 1 || r == 2 || r == 3 {
                mine[i].id
            } else {
                me
            }
        },
        None => me,
    }
}

pub open spec fn spec_try_heal_is_ranged(pos: Position, mine: Seq<Unit>) -> bool {
    match spec_closest_injured(mine, pos, None) {
        Some(i) => {
            let r = spec_range(pos, mine[i].pos);
            r == 2 || r == 3
        },
        None => false,
    }
}

pub fn try_heal(me: ObjectId, pos: Position, mine: &[Unit]) -> (o: Order)
    requires
        pos.valid(),
        units_valid(mine@),
    ensures
        o == if spec_try_heal_is_ranged(pos, mine@) {
            Order::RangedHeal(spec_try_heal(me, pos, mine@))
        } else {
            Order::Heal(spec_try_heal(me, pos, mine@))
        },
{
    match find_closest_injured(pos, mine, None) {
        Some(i) => {
            proof {
                lemma_injured_bounds(mine@, pos, None);
            }
            let r = get_range_to(pos, mine[i].pos);
            if r == 1 {
                Order::Heal(mine[i].id)
            } else if r == 2 || r == 3 {
                Order::RangedHeal(mine[i].id)
            } else {
                Order::Heal(me)
            }
        },
        None => Order::Heal(me),
    }
}

/// Number of hostiles within `range` of `to`.
pub open spec fn spec_in_range_count(s: Seq<Unit>, to: Position, range: u32) -> nat
    decreases s.len(),
{
    if s.len() == 0 {
        0
    } else {
        spec_in_range_count(s.drop_last(), to, range) + if spec_range(to, s.last().pos) <= range {
            1nat
        } else {
            0nat
        }
    }
}

pub fn in_range_to(to: Position, hostiles: &[Unit], range: u32) -> (n: usize)
    requires
        to.valid(),
        units_valid(hostiles@),
    ensures
        n == spec_in_range_count(hostiles@, to, range),
{
    let mut n: usize = 0;
    let mut i: usize = 0;
    while i < hostiles.len()
        invariant
            to.valid(),
            units_valid(hostiles@),
            i <= hostiles@.len(),
            n <= i,
            n == spec_in_range_count(hostiles@.take(i as int), to, range),
        decreases hostiles@.len() - i,
    {
        proof {
            assert(hostiles@.take(i + 1).drop_last() =~= hostiles@.take(i as int));
        }
        if get_range_to(to, hostiles[i].pos) <= range {
            n = n + 1;
        }
        i = i + 1;
    }
    proof {
        assert(hostiles@.take(hostiles@.len() as int) =~= hostiles@);
    }
    n
}

/// A tile `get_positions_near_by` keeps: inside the room, not the centre
/// when `exclude_current`, not on the border when `exclude_edge`.
pub open spec fn keep_tile(p: Position, x: int, y: int, exclude_current: bool, exclude_edge: bool) -> bool {
    !(x > 49 || y > 49 || (exclude_current && x == p.x && y == p.y) || (exclude_edge && crate::geometry::spec_edge_xy(x, y)))
}

/// The kept tiles of column `x` from row `y0` to row `y1`, top down.
pub open spec fn tile_column(p: Position, x: int, y0: int, y1: int, ec: bool, ee: bool) -> Seq<(u8, u8)>
    decreases y1 - y0 + 1,
{
    if y1 < y0 {
        Seq::empty()
    } else {
        tile_column(p, x, y0, y1 - 1, ec, ee) + if keep_tile(p, x, y1, ec, ee) { seq![(x as u8, y1 as u8)] } else { Seq::empty() }
    }
}

/// The kept tiles of columns `x0` to `x1`, column by column.
pub open spec fn tile_grid(p: Position, x0: int, x1: int, y0: int, y1: int, ec: bool, ee: bool) -> Seq<(u8, u8)>
    decreases x1 - x0 + 1,
{
    if x1 < x0 {
        Seq::empty()
    } else {
        tile_grid(p, x0, x1 - 1, y0, y1, ec, ee) + tile_column(p, x1, y0, y1, ec, ee)
    }
}

pub open spec fn low_end(v: u8, range: u8) -> int {
    if v <= range { 0 } else { v - range }
}

/// The tiles within `range` of `position` in its room, column by column
/// (see `keep_tile` for which are left out).
pub fn get_positions_near_by(position: Position, range: u8, exclude_current: bool, exclude_edge: bool) -> (r: Vec<(u8, u8)>)
    requires
        position.x + range <= 255,
        position.y + range <= 255,
    ensures
        r@ == tile_grid(position, low_end(position.x, range), position.x + range, low_end(position.y, range), position.y + range,
            exclude_current, exclude_edge),
{
    let mut result: Vec<(u8, u8)> = Vec::new();
    let start_x: u16 = if position.x <= range { 0 } else { (position.x - range) as u16 };
    let start_y: u16 = if position.y <= range { 0 } else { (position.y - range) as u16 };
    let end_x: u16 = position.x as u16 + range as u16;
    let end_y: u16 = position.y as u16 + range as u16;
    let mut x: u16 = start_x;
    while x <= end_x
        invariant
            start_x <= x <= end_x + 1,
            end_x == position.x + range,
            end_y == position.y + range,
            start_x == low_end(position.x, range),
            start_y == low_end(position.y, range),
            end_x <= 255,
            end_y <= 255,
            result@ == tile_grid(position, start_x as int, x - 1, start_y as int, end_y as int, exclude_current, exclude_edge),
        decreases end_x + 1 - x,
    {
        let mut y: u16 = start_y;
        let ghost before = result@;
        while y <= end_y
            invariant
                start_x <= x <= end_x,
                start_y <= y <= end_y + 1,
                end_x <= 255,
                end_y <= 255,
                before == tile_grid(position, start_x as int, x - 1, start_y as int, end_y as int, exclude_current, exclude_edge),
                result@ == before + tile_column(position, x as int, start_y as int, y - 1, exclude_current, exclude_edge),
            decreases end_y + 1 - y,
        {
            let skip = x > 49 || y > 49 || (exclude_current && x == position.x as u16 && y == position.y as u16)
                || (exclude_edge && (x == 0 || x == 49 || y == 0 || y == 49));
            if !skip {
                result.push((x as u8, y as u8));
            }
            proof {
                assert(result@ =~= before + tile_column(position, x as int, start_y as int, y as int, exclude_current, exclude_edge));
            }
            y = y + 1;
        }
        proof {
            assert(result@ =~= tile_grid(position, start_x as int, x as int, start_y as int, end_y as int, exclude_current, exclude_edge));
        }
        x = x + 1;
    }
    result
}

/// What a tile holds, as far as walking onto it goes.
#[derive(Clone, Copy, Debug, PartialEq, Eq, Structural)]
pub enum Look {
    Creep,
    PowerCreep,
    Deposit,
    Mineral,
    /// A rampart; the flag tells whether it is this player's.
    Rampart(bool),
    Road,
    /// Any other structure.
    Structure,
    /// Terrain: the flag tells whether it is a wall.
    Terrain(bool),
    /// Anything else (resources, tombstones, flags, ...).
    Other,
}

pub open spec fn look_allows(l: Look) -> bool {
    match l {
        Look::Rampart(my) => my,
        Look::Terrain(wall) => !wall,
        Look::Road => true,
        Look::Other => true,
        _ => false,
    }
}

/// A tile can be walked onto when what is on it allows it; a tile that
/// could not be looked at cannot.
pub open spec fn spec_is_walkable(looks: Option<Seq<Look>>) -> bool {
    match looks {
        Some(l) => forall|i: int| 0 <= i < l.len() ==> look_allows(#[trigger] l[i]),
        None => false,
    }
}

fn all_allow(l: &[Look]) -> (r: bool)
    ensures
        r == forall|j: int| 0 <= j < l@.len() ==> look_allows(#[trigger] l@[j]),
{
    let mut i: usize = 0;
    while i < l.len()
        invariant
            i <= l@.len(),
            forall|j: int| 0 <= j < i ==> look_allows(#[trigger] l@[j]),
        decreases l@.len() - i,
    {
        let ok = match l[i] {
            Look::Rampart(my) => my,
            Look::Terrain(wall) => !wall,
            Look::Road => true,
            Look::Other => true,
            _ => false,
        };
        if !ok {
            assert(!look_allows(l@[i as int]));
            return false;
        }
        i = i + 1;
    }
    true
}

pub open spec fn looks_view(looks: Option<Vec<Look>>) -> Option<Seq<Look>> {
    match looks {
        Some(l) => Some(l@),
        None => None,
    }
}

pub fn is_walkable(looks: &Option<Vec<Look>>) -> (r: bool)
    ensures
        r == spec_is_walkable(looks_view(*looks)),
{
    match looks {
        None => false,
        Some(l) => {
            let sl = l.as_slice();
            let r = all_allow(sl);
            assert(sl@ == l@);
            assert(r == spec_is_walkable(Some(l@)));
            r
        },
    }
}

/// The construction site near `to` among this player's container and road
/// sites: a fold that keeps the one held while it is farther than the
/// next, so the farthest, and among equals the last.
pub open spec fn spec_cs_near_by(to: Position, sites: Seq<(Position, ObjectId)>) -> Option<int>
    decreases sites.len(),
{
    if sites.len() == 0 {
        None
    } else {
        let i = sites.len() - 1;
        match spec_cs_near_by(to, sites.drop_last()) {
            None => Some(i),
            Some(a) => if spec_range(sites[a].0, to) > spec_range(sites[i].0, to) { Some(a) } else { Some(i) },
        }
    }
}

proof fn lemma_cs_bounds(to: Position, sites: Seq<(Position, ObjectId)>)
    ensures
        spec_cs_near_by(to, sites) matches Some(i) ==> 0 <= i < sites.len(),
    decreases sites.len(),
{
    if sites.len() > 0 {
        lemma_cs_bounds(to, sites.drop_last());
    }
}

/// Among the sites found within range of `to` (this player's container and
/// road sites), the one `spec_cs_near_by` picks.
pub fn find_cs_near_by(to: Position, sites: &[(Position, ObjectId)]) -> (r: Option<usize>)
    requires
        to.valid(),
        forall|i: int| 0 <= i < sites@.len() ==> (#[trigger] sites@[i]).0.valid(),
    ensures
        opt_int(r) == spec_cs_near_by(to, sites@),
{
    let mut best: Option<usize> = None;
    let mut i: usize = 0;
    while i < sites.len()
        invariant
            to.valid(),
            forall|k: int| 0 <= k < sites@.len() ==> (#[trigger] sites@[k]).0.valid(),
            i <= sites@.len(),
            opt_int(best) == spec_cs_near_by(to, sites@.take(i as int)),
        decreases sites@.len() - i,
    {
        proof {
            assert(sites@.take(i + 1).drop_last() =~= sites@.take(i as int));
            lemma_cs_bounds(to, sites@.take(i as int));
        }
        match best {
            None => {
                best = Some(i);
            },
            Some(a) => {
                if !(get_range_to(sites[a].0, to) > get_range_to(sites[i].0, to)) {
                    best = Some(i);
                }
            },
        }
        i = i + 1;
    }
    proof {
        assert(sites@.take(sites@.len() as int) =~= sites@);
    }
    best
}

/// A store holding `amount` (at least one unit) of a resource: its id and
/// the units it holds.
pub open spec fn store_with(s: Option<(ObjectId, u32)>, amount: u32) -> Option<(ObjectId, u32)> {
    match s {
        Some((id, used)) => if used >= amount && used > 0 { Some((id, used)) } else { None },
        None => None,
    }
}

/// The first of storage, terminal and factory (given as id and units held
/// of the resource) holding at least `amount` (none counts as zero) and
/// more than nothing.
pub open spec fn spec_container_with(amount: Option<u32>, storage: Option<(ObjectId, u32)>, terminal: Option<(ObjectId, u32)>, factory: Option<(ObjectId, u32)>) -> Option<(ObjectId, u32)> {
    let a = match amount {
        Some(x) => x,
        None => 0,
    };
    match store_with(storage, a) {
        Some(r) => Some(r),
        None => match store_with(terminal, a) {
            Some(r) => Some(r),
            None => store_with(factory, a),
        },
    }
}

fn pick_store(s: Option<(ObjectId, u32)>, amount: u32) -> (r: Option<(ObjectId, u32)>)
    ensures
        r == store_with(s, amount),
{
    match s {
        Some((id, used)) => if used >= amount && used > 0 { Some((id, used)) } else { None },
        None => None,
    }
}

pub fn find_container_with(amount: Option<u32>, storage: Option<(ObjectId, u32)>, terminal: Option<(ObjectId, u32)>, factory: Option<(ObjectId, u32)>) -> (r: Option<(ObjectId, u32)>)
    ensures
        r == spec_container_with(amount, storage, terminal, factory),
{
    let a: u32 = match amount {
        Some(x) => x,
        None => 0,
    };
    match pick_store(storage, a) {
        Some(x) => Some(x),
        None => match pick_store(terminal, a) {
            Some(x) => Some(x),
            None => pick_store(factory, a),
        },
    }
}

/// The room's bank: the storage, then the terminal, when one has at least
/// five thousand free (given as position, id and free capacity); else the
/// first container.
pub open spec fn spec_in_room_bank(storage: Option<(Position, ObjectId, i32)>, terminal: Option<(Position, ObjectId, i32)>, containers: Seq<(Position, ObjectId)>) -> Option<(Position, ObjectId)> {
    match storage {
        Some((p, id, free)) if free >= 5000 => Some((p, id)),
        _ => match terminal {
            Some((p, id, free)) if free >= 5000 => Some((p, id)),
            _ => if containers.len() > 0 { Some(containers[0]) } else { None },
        },
    }
}

pub fn get_in_room_bank(storage: Option<(Position, ObjectId, i32)>, terminal: Option<(Position, ObjectId, i32)>, containers: &[(Position, ObjectId)]) -> (r: Option<(Position, ObjectId)>)
    ensures
        r == spec_in_room_bank(storage, terminal, containers@),
{
    match storage {
        Some((p, id, free)) => {
            if free >= 5000 {
                return Some((p, id));
            }
        },
        None => {},
    }
    match terminal {
        Some((p, id, free)) => {
            if free >= 5000 {
                return Some((p, id));
            }
        },
        None => {},
    }
    if containers.len() > 0 {
        Some(containers[0])
    } else {
        None
    }
}

/// Where to store goods: the storage while it has more than ten thousand
/// free, else the terminal.
pub open spec fn spec_place_to_store(storage: Option<(Position, ObjectId, i32)>, terminal: Option<(Position, ObjectId)>) -> Option<(Position, ObjectId)> {
    match storage {
        Some((p, id, free)) if free > 10000 => Some((p, id)),
        _ => terminal,
    }
}

pub fn get_place_to_store(storage: Option<(Position, ObjectId, i32)>, terminal: Option<(Position, ObjectId)>) -> (r: Option<(Position, ObjectId)>)
    ensures
        r == spec_place_to_store(storage, terminal),
{
    match storage {
        Some((p, id, free)) => {
            if free > 10000 {
                return Some((p, id));
            }
        },
        None => {},
    }
    terminal
}

/// The first source next to `pos`.
pub open spec fn spec_source_near(pos: Position, sources: Seq<(Position, ObjectId)>) -> Option<(Position, ObjectId)>
    decreases sources.len(),
{
    if sources.len() == 0 {
        None
    } else if crate::geometry::spec_near(pos, sources[0].0) {
        Some(sources[0])
    } else {
        spec_source_near(pos, sources.drop_first())
    }
}

pub fn find_source_near(pos: Position, sources: &[(Position, ObjectId)]) -> (r: Option<(Position, ObjectId)>)
    ensures
        r == spec_source_near(pos, sources@),
{
    let mut i: usize = 0;
    assert(sources@.skip(0) =~= sources@);
    while i < sources.len()
        invariant
            i <= sources@.len(),
            spec_source_near(pos, sources@) == spec_source_near(pos, sources@.skip(i as int)),
        decreases sources@.len() - i,
    {
        proof {
            assert(sources@.skip(i as int).drop_first() =~= sources@.skip(i + 1));
        }
        if crate::geometry::is_near_to(pos, sources[i].0) {
            return Some(sources[i]);
        }
        i = i + 1;
    }
    None
}

/// The friendly speech: the phrase for the tick's last digit.
pub open spec fn spec_phrase(word: u32) -> Seq<char> {
    if word == 1 {
        "dnt do it!"@
    } else if word == 2 {
        "b careful!"@
    } else if word == 3 {
        "u can hurt"@
    } else if word == 4 {
        "yourself!"@
    } else if word == 5 {
        "no reasons"@
    } else if word == 6 {
        "for suicide!"@
    } else if word == 7 {
        "man!"@
    } else if word == 8 {
        "let's build"@
    } else if word == 9 {
        "safe world"@
    } else {
        "togather!"@
    }
}

/// The phrase a creep says on tick `time`.
pub fn say_message(time: u32) -> (s: &'static str)
    ensures
        s@ == spec_phrase(time % 10),
{
    let word = time % 10;
    if word == 1 {
        "dnt do it!"
    } else if word == 2 {
        "b careful!"
    } else if word == 3 {
        "u can hurt"
    } else if word == 4 {
        "yourself!"
    } else if word == 5 {
        "no reasons"
    } else if word == 6 {
        "for suicide!"
    } else if word == 7 {
        "man!"
    } else if word == 8 {
        "let's build"
    } else if word == 9 {
        "safe world"
    } else {
        "togather!"
    }
}

/// A hostile counts for `find_hostiles` when it has one of `parts` (alive
/// or not), or when no parts are asked for.
pub open spec fn spec_hostile_with(body: Seq<PartInfo>, parts: Seq<BodyPart>) -> bool {
    parts.len() == 0 || spec_has_part(parts, body, false)
}

pub fn hostile_with(body: &[PartInfo], parts: &[BodyPart]) -> (r: bool)
    ensures
        r == spec_hostile_with(body@, parts@),
{
    parts.len() == 0 || has_part(parts, body, false)
}

/// A hostile counts for `find_hostiles_nearby` when it is next to `to` and
/// has a part with hit points left that is one of `parts` (any part, when
/// none are asked for).
pub open spec fn spec_hostile_nearby(body: Seq<PartInfo>, pos: Position, parts: Seq<BodyPart>, to: Position) -> bool {
    crate::geometry::spec_near(pos, to) && exists|i: int| 0 <= i < body.len() && (#[trigger] body[i]).hits > 0 && (parts.len() == 0 || parts.contains(body[i].part))
}

pub fn hostile_nearby(body: &[PartInfo], pos: Position, parts: &[BodyPart], to: Position) -> (r: bool)
    ensures
        r == spec_hostile_nearby(body@, pos, parts@, to),
{
    if !crate::geometry::is_near_to(pos, to) {
        return false;
    }
    if parts.len() == 0 {
        let mut i: usize = 0;
        while i < body.len()
            invariant
                i <= body@.len(),
                parts@.len() == 0,
                crate::geometry::spec_near(pos, to),
                forall|j: int| 0 <= j < i ==> (#[trigger] body@[j]).hits == 0,
            decreases body@.len() - i,
        {
            if body[i].hits > 0 {
                assert(body@[i as int].hits > 0 && (parts@.len() == 0 || parts@.contains(body@[i as int].part)));
                return true;
            }
            i = i + 1;
        }
        false
    } else {
        let r = has_part(parts, body, true);
        proof {
            if r {
                let i = choose|i: int| 0 <= i < body@.len() && crate::units::part_matches(parts@, #[trigger] body@[i], true);
                assert(body@[i].hits > 0 && parts@.contains(body@[i].part));
            } else {
                assert forall|i: int| 0 <= i < body@.len() && (#[trigger] body@[i]).hits > 0 implies !parts@.contains(body@[i].part) by {
                    assert(!crate::units::part_matches(parts@, body@[i], true));
                }
            }
        }
        r
    }
}

/// The creeps of this player other than `ignore` that are hurt; with no
/// name to ignore, none.
pub open spec fn spec_injured_other(u: Unit, ignore: Option<Seq<char>>) -> bool {
    (ignore matches Some(n) && n != u.name@) && u.hits < u.hits_max
}

pub fn is_injured_other(u: &Unit, ignore: Option<&str>) -> (r: bool)
    ensures
        r == spec_injured_other(*u, match ignore {
            Some(n) => Some(n@),
            None => None,
        }),
{
    match ignore {
        Some(n) => !crate::requests::str_eq(n, u.name.as_str()) && u.hits < u.hits_max,
        None => false,
    }
}

/// The first component of a commodity's recipe that is not energy, with the
/// components in the order given.
pub open spec fn spec_compressed(components: Seq<crate::resources::Resource>) -> Option<crate::resources::Resource> {
    crate::tasks::logistics::spec_get_resource(components, crate::resources::Resource::Energy)
}

pub fn get_compressed_resource(components: &[crate::resources::Resource]) -> (r: Option<crate::resources::Resource>)
    ensures
        r == spec_compressed(components@),
{
    crate::tasks::logistics::get_resource(components, crate::resources::Resource::Energy)
}

/// A value that is one of three kinds.
pub enum Either<A, B, C> {
    A(A),
    B(B),
    C(C),
}

/// A pile counts for `find_dropped` when it holds more than `threshold`
/// and is of the type asked for (any, when none is).
pub open spec fn dropped_matches(d: crate::objects::DroppedView, threshold: u32, ty: Option<crate::resources::Resource>) -> bool {
    d.amount > threshold && (ty matches Some(t) ==> t == d.resource)
}

/// The first pile `find_dropped` yields.
pub open spec fn spec_first_dropped(s: Seq<crate::objects::DroppedView>, threshold: u32, ty: Option<crate::resources::Resource>) -> Option<crate::objects::DroppedView>
    decreases s.len(),
{
    if s.len() == 0 {
        None
    } else if dropped_matches(s[0], threshold, ty) {
        Some(s[0])
    } else {
        spec_first_dropped(s.drop_first(), threshold, ty)
    }
}

pub fn first_dropped(s: &[crate::objects::DroppedView], threshold: u32, ty: Option<crate::resources::Resource>) -> (r: Option<crate::objects::DroppedView>)
    ensures
        r == spec_first_dropped(s@, threshold, ty),
{
    let mut i: usize = 0;
    assert(s@.skip(0) =~= s@);
    while i < s.len()
        invariant
            i <= s@.len(),
            spec_first_dropped(s@, threshold, ty) == spec_first_dropped(s@.skip(i as int), threshold, ty),
        decreases s@.len() - i,
    {
        proof {
            assert(s@.skip(i as int).drop_first() =~= s@.skip(i + 1));
        }
        let d = s[i];
        let ok = d.amount > threshold && match ty {
            Some(t) => t == d.resource,
            None => true,
        };
        if ok {
            return Some(d);
        }
        i = i + 1;
    }
    None
}

fn kind_in(kinds: &[StructureKind], kind: StructureKind) -> (r: bool)
    ensures
        r == kinds@.contains(kind),
{
    let mut i: usize = 0;
    while i < kinds.len()
        invariant
            i <= kinds@.len(),
            forall|j: int| 0 <= j < i ==> kinds@[j] != kind,
        decreases kinds@.len() - i,
    {
        if kinds[i] == kind {
            assert(kinds@[i as int] == kind);
            return true;
        }
        i = i + 1;
    }
    false
}

/// Whether a structure of `kind` stands on a tile holding structures of
/// the kinds `on_tile`.
pub fn look_for(on_tile: &[StructureKind], kind: StructureKind) -> (r: bool)
    ensures
        r == on_tile@.contains(kind),
{
    kind_in(on_tile, kind)
}

/// Whether a rampart stands on a tile holding structures of the kinds
/// `on_tile`.
pub fn is_under_rampart(on_tile: &[StructureKind]) -> (r: bool)
    ensures
        r == on_tile@.contains(StructureKind::Rampart),
{
    kind_in(on_tile, StructureKind::Rampart)
}

/// A structure counts for `find_container_near_by` when it is within
/// `range` of `to` and of one of the kinds asked for.
pub open spec fn near_of_kind(to: Position, range: u8, kinds: Seq<StructureKind>) -> spec_fn((Position, StructureKind)) -> bool {
    |s: (Position, StructureKind)| spec_range(s.0, to) <= range && kinds.contains(s.1)
}

/// The first structure of the room (given by position and kind) within
/// `range` of `to` that is of one of `kinds`.
pub fn find_container_near_by(to: Position, range: u8, structures: &[(Position, StructureKind)], kinds: &[StructureKind])
    -> (r: Option<usize>)
    requires
        to.valid(),
        forall|i: int| 0 <= i < structures@.len() ==> (#[trigger] structures@[i]).0.valid(),
    ensures
        opt_int(r) == crate::tasks::deposit::first_index(structures@, near_of_kind(to, range, kinds@)),
{
    let ghost p = near_of_kind(to, range, kinds@);
    let mut i: usize = 0;
    while i < structures.len()
        invariant
            to.valid(),
            forall|k: int| 0 <= k < structures@.len() ==> (#[trigger] structures@[k]).0.valid(),
            p == near_of_kind(to, range, kinds@),
            i <= structures@.len(),
            crate::tasks::deposit::first_index(structures@.take(i as int), p) is None,
        decreases structures@.len() - i,
    {
        proof {
            crate::tasks::deposit::lemma_first_index_step(structures@, p, i as int);
        }
        let (pos, kind) = structures[i];
        if get_range_to(pos, to) <= range as u32 && kind_in(kinds, kind) {
            proof {
                crate::tasks::deposit::lemma_first_index_prefix(structures@, p, i as int);
            }
            return Some(i);
        }
        i = i + 1;
    }
    proof {
        assert(structures@.take(structures@.len() as int) =~= structures@);
    }
    None
}

/// The walkable tiles around `position` (not itself, and off the border
/// when `exclude_edge`): the tiles `get_positions_near_by` lists, kept when
/// what `looks` holds for them (in the same order) allows walking.
pub open spec fn spec_walkable_near_by(position: Position, tiles: Seq<(u8, u8)>, looks: Seq<Option<Vec<Look>>>) -> Seq<Position>
    decreases tiles.len(),
{
    if tiles.len() == 0 {
        Seq::empty()
    } else {
        let i = tiles.len() - 1;
        spec_walkable_near_by(position, tiles.drop_last(), looks.take(i)) + if spec_is_walkable(looks_view(looks[i])) {
            seq![Position { room: position.room, x: tiles[i].0, y: tiles[i].1 }]
        } else {
            Seq::empty()
        }
    }
}

pub open spec fn neighbour_tiles(position: Position, exclude_edge: bool) -> Seq<(u8, u8)> {
    tile_grid(position, low_end(position.x, 1), position.x + 1, low_end(position.y, 1), position.y + 1, true, exclude_edge)
}

/// The walkable tiles next to `position`; `looks` holds what the game shows
/// on each of the tiles `get_positions_near_by(position, 1, true,
/// exclude_edge)` lists, in its order.
pub fn find_walkable_positions_near_by(position: Position, exclude_edge: bool, looks: &[Option<Vec<Look>>]) -> (r: Vec<Position>)
    requires
        position.valid(),
        looks@.len() == neighbour_tiles(position, exclude_edge).len(),
    ensures
        r@ == spec_walkable_near_by(position, neighbour_tiles(position, exclude_edge), looks@),
{
    let tiles = get_positions_near_by(position, 1, true, exclude_edge);
    let mut r: Vec<Position> = Vec::new();
    let mut i: usize = 0;
    while i < tiles.len()
        invariant
            i <= tiles@.len(),
            tiles@ == neighbour_tiles(position, exclude_edge),
            looks@.len() == tiles@.len(),
            r@ == spec_walkable_near_by(position, tiles@.take(i as int), looks@.take(i as int)),
        decreases tiles@.len() - i,
    {
        proof {
            assert(tiles@.take(i + 1).drop_last() =~= tiles@.take(i as int));
            assert(looks@.take(i + 1).take(i as int) =~= looks@.take(i as int));
        }
        let (x, y) = tiles[i];
        if is_walkable(&looks[i]) {
            r.push(Position { room: position.room, x, y });
        }
        proof {
            assert(r@ =~= spec_walkable_near_by(position, tiles@.take(i + 1), looks@.take(i + 1)));
        }
        i = i + 1;
    }
    proof {
        assert(tiles@.take(tiles@.len() as int) =~= tiles@);
        assert(looks@.take(looks@.len() as int) =~= looks@);
    }
    r
}

/// Whom a healer heals: the closest injured creep of this player, by touch
/// at range one and from afar at range two or three; itself when there is
/// none, when that creep is the healer's own tile (range zero) or farther
/// than three tiles.
pub proof fn lemma_heal_target(me: ObjectId, pos: Position, mine: Seq<Unit>)
    ensures
        spec_closest_injured(mine, pos, None) matches Some(i) ==> (spec_range(pos, mine[i].pos) == 1
            ==> !spec_try_heal_is_ranged(pos, mine) && spec_try_heal(me, pos, mine) == mine[i].id),
        spec_closest_injured(mine, pos, None) matches Some(i) ==> ((spec_range(pos, mine[i].pos) == 2 || spec_range(pos, mine[i].pos) == 3)
            ==> spec_try_heal_is_ranged(pos, mine) && spec_try_heal(me, pos, mine) == mine[i].id),
        spec_closest_injured(mine, pos, None) matches Some(i) ==> ((spec_range(pos, mine[i].pos) == 0 || spec_range(pos, mine[i].pos) > 3)
            ==> !spec_try_heal_is_ranged(pos, mine) && spec_try_heal(me, pos, mine) == me),
        spec_closest_injured(mine, pos, None) is None ==> !spec_try_heal_is_ranged(pos, mine) && spec_try_heal(me, pos, mine) == me,
{
}

} // verus!
