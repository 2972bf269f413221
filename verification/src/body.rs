use vstd::prelude::*;

verus! {

/// A creep body part.
#[derive(Clone, Copy, Debug, PartialEq, Eq, Structural, Hash)]
pub enum BodyPart {
    Move,
    Work,
    Carry,
    Attack,
    RangedAttack,
    Tough,
    Heal,
    Claim,
}

/// A creep body: at most fifty parts, in spawn order, held in a
/// fixed-capacity `ArrayVec`.
#[verifier::external_body]
pub struct Body {
    parts: arrayvec::ArrayVec<[BodyPart; 50]>,
}

/// The parts a body holds, in order.
pub uninterp spec fn body_parts(body: Body) -> Seq<BodyPart>;

/// The energy the game charges for one part (`BODYPART_COST`).
pub open spec fn spec_part_cost(part: BodyPart) -> int {
    match part {
        BodyPart::Move => 50,
        BodyPart::Work => 100,
        BodyPart::Carry => 50,
        BodyPart::Attack => 80,
        BodyPart::RangedAttack => 150,
        BodyPart::Tough => 10,
        BodyPart::Heal => 250,
        BodyPart::Claim => 600,
    }
}

/// Energy cost of a sequence of parts.
pub open spec fn seq_cost(parts: Seq<BodyPart>) -> int
    decreases parts.len(),
{
    if parts.len() == 0 {
        0
    } else {
        seq_cost(parts.drop_last()) + spec_part_cost(parts.last())
    }
}

/// Empty body.
#[verifier::external_body]
pub(crate) fn new_body() -> (body: Body)
    ensures
        body_parts(body) == Seq::<BodyPart>::empty(),
{
    Body { parts: arrayvec::ArrayVec::new() }
}

/// `ArrayVec::push`: appends a part; the body must have room for it.
#[verifier::external_body]
pub(crate) fn push_part(body: &mut Body, part: BodyPart)
    requires
        body_parts(*old(body)).len() < 50,
    ensures
        body_parts(*final(body)) == body_parts(*old(body)).push(part),
{
    body.parts.push(part)
}

/// `ArrayVec::len`: number of parts; never above the capacity of fifty.
#[verifier::external_body]
pub(crate) fn body_len(body: &Body) -> (n: usize)
    ensures
        n == body_parts(*body).len(),
        n <= 50,
{
    body.parts.len()
}

/// Indexing: the part at position `i`.
#[verifier::external_body]
pub(crate) fn part_at(body: &Body, i: usize) -> (part: BodyPart)
    requires
        i < body_parts(*body).len(),
    ensures
        part == body_parts(*body)[i as int],
{
    body.parts[i]
}

/// `Part::cost` of the game bindings, for the same part.
#[verifier::external_body]
pub(crate) fn part_cost(part: BodyPart) -> (cost: u32)
    ensures
        cost == spec_part_cost(part),
{
    let p = match part {
        BodyPart::Move => screeps::Part::Move,
        BodyPart::Work => screeps::Part::Work,
        BodyPart::Carry => screeps::Part::Carry,
        BodyPart::Attack => screeps::Part::Attack,
        BodyPart::RangedAttack => screeps::Part::RangedAttack,
        BodyPart::Tough => screeps::Part::Tough,
        BodyPart::Heal => screeps::Part::Heal,
        BodyPart::Claim => screeps::Part::Claim,
    };
    p.cost()
}

/// The parts of a body, in spawn order.
pub fn parts_of(body: &Body) -> (v: Vec<BodyPart>)
    ensures
        v@ == body_parts(*body),
{
    let n = body_len(body);
    let mut v: Vec<BodyPart> = Vec::new();
    let mut i: usize = 0;
    while i < n
        invariant
            n == body_parts(*body).len(),
            i <= n,
            v@ == body_parts(*body).take(i as int),
        decreases n - i,
    {
        v.push(part_at(body, i));
        i = i + 1;
        proof {
            assert(v@ =~= body_parts(*body).take(i as int));
        }
    }
    proof {
        assert(body_parts(*body).take(n as int) =~= body_parts(*body));
    }
    v
}

/// The cost of two runs of parts is the sum of their costs.
pub proof fn lemma_cost_append(a: Seq<BodyPart>, b: Seq<BodyPart>)
    ensures
        seq_cost(a + b) == seq_cost(a) + seq_cost(b),
    decreases b.len(),
{
    if b.len() > 0 {
        assert((a + b).drop_last() =~= a + b.drop_last());
        lemma_cost_append(a, b.drop_last());
    } else {
        assert(a + b =~= a);
    }
}

/// A run of parts costs nothing negative and at most the dearest part
/// (a claim part) per part.
pub proof fn lemma_cost_bound(a: Seq<BodyPart>)
    ensures
        0 <= seq_cost(a) <= 600 * a.len(),
    decreases a.len(),
{
    if a.len() > 0 {
        lemma_cost_bound(a.drop_last());
    }
}

/// A body can grow by `extension` when the grown body stays within
/// `scale_limit` parts, is not empty, and costs less than `room_energy`.
pub open spec fn spec_can_scale(
    body: Seq<BodyPart>,
    extension: Seq<BodyPart>,
    room_energy: int,
    scale_limit: int,
) -> bool {
    &&& body.len() + extension.len() <= scale_limit
    &&& body.len() + extension.len() > 0
    &&& seq_cost(body + extension) < room_energy
}

/// A prefix of a run of parts costs no more than the whole run.
proof fn lemma_cost_prefix(s: Seq<BodyPart>, i: int)
    requires
        0 <= i <= s.len(),
    ensures
        seq_cost(s.take(i)) <= seq_cost(s),
{
    lemma_cost_append(s.take(i), s.skip(i));
    lemma_cost_bound(s.skip(i));
    assert(s.take(i) + s.skip(i) =~= s);
}

/// Whether `body` extended by `body_extension` fits the part limit and costs
/// less than the energy available.
pub fn can_scale(body: &Body, body_extension: &[BodyPart], room_energy: u32, scale_limit: usize) -> (r: bool)
    ensures
        r == spec_can_scale(body_parts(*body), body_extension@, room_energy as int, scale_limit as int),
{
    let n = body_len(body);
    let m = body_extension.len();
    if m > scale_limit || n > scale_limit - m || room_energy == 0 {
        proof {
            lemma_cost_append(body_parts(*body), body_extension@);
            lemma_cost_bound(body_extension@);
            lemma_cost_bound(body_parts(*body));
        }
        return false;
    }
    let ghost whole = body_parts(*body) + body_extension@;
    proof {
        lemma_cost_append(body_parts(*body), body_extension@);
        lemma_cost_bound(body_extension@);
        lemma_cost_bound(body_parts(*body));
    }
    let mut total: u64 = 0;
    let mut i: usize = 0;
    while i < n
        invariant
            n == body_parts(*body).len(),
            n <= 50,
            i <= n,
            total == seq_cost(body_parts(*body).take(i as int)),
            total < room_energy,
            whole == body_parts(*body) + body_extension@,
            seq_cost(whole) == seq_cost(body_parts(*body)) + seq_cost(body_extension@),
            seq_cost(body_extension@) >= 0,
        decreases n - i,
    {
        let p = part_at(body, i);
        proof {
            let s = body_parts(*body);
            assert(s.take(i + 1).drop_last() =~= s.take(i as int));
        }
        total = total + part_cost(p) as u64;
        i = i + 1;
        assert(total == seq_cost(body_parts(*body).take(i as int)));
        if total >= room_energy as u64 {
            proof {
                lemma_cost_prefix(body_parts(*body), i as int);
            }
            return false;
        }
    }
    proof {
        assert(body_parts(*body).take(n as int) =~= body_parts(*body));
    }
    let mut j: usize = 0;
    while j < m
        invariant
            n == body_parts(*body).len(),
            m == body_extension@.len(),
            j <= m,
            total == seq_cost(body_parts(*body)) + seq_cost(body_extension@.take(j as int)),
            total < room_energy,
            whole == body_parts(*body) + body_extension@,
            seq_cost(whole) == seq_cost(body_parts(*body)) + seq_cost(body_extension@),
        decreases m - j,
    {
        let p = body_extension[j];
        proof {
            let s = body_extension@;
            assert(s.take(j + 1).drop_last() =~= s.take(j as int));
        }
        total = total + part_cost(p) as u64;
        j = j + 1;
        assert(total == seq_cost(body_parts(*body)) + seq_cost(body_extension@.take(j as int)));
        if total >= room_energy as u64 {
            proof {
                lemma_cost_prefix(body_extension@, j as int);
            }
            return false;
        }
    }
    proof {
        assert(body_extension@.take(m as int) =~= body_extension@);
    }
    n + m > 0
}

/// Ordering of parts in a body: the part that takes damage first comes first.
#[derive(Clone, Copy, Debug, PartialEq, Eq, Structural)]
pub enum Priority {
    /// Armour, cargo, work, legs, weapons, healing.
    Default,
    /// Armour, work, cargo, weapons, legs, healing: legs last keep a
    /// fighting creep mobile longer.
    Pvp,
}

pub open spec fn spec_default_priority(part: BodyPart) -> int {
    match part {
        BodyPart::Tough => 0,
        BodyPart::Carry => 1,
        BodyPart::Work | BodyPart::Claim => 2,
        BodyPart::Move => 3,
        BodyPart::RangedAttack | BodyPart::Attack => 4,
        BodyPart::Heal => 10,
    }
}

pub open spec fn spec_pvp_priority(part: BodyPart) -> int {
    match part {
        BodyPart::Tough => 0,
        BodyPart::Work | BodyPart::Claim => 1,
        BodyPart::Carry => 2,
        BodyPart::RangedAttack | BodyPart::Attack => 4,
        BodyPart::Move => 7,
        BodyPart::Heal => 10,
    }
}

pub open spec fn spec_priority(scheme: Priority, part: BodyPart) -> int {
    match scheme {
        Priority::Default => spec_default_priority(part),
        Priority::Pvp => spec_pvp_priority(part),
    }
}

/// Sort key of a part in the default ordering.
pub fn default_parts_priority(part: BodyPart) -> (r: i8)
    ensures
        r == spec_default_priority(part),
{
    match part {
        BodyPart::Tough => 0,
        BodyPart::Carry => 1,
        BodyPart::Work | BodyPart::Claim => 2,
        BodyPart::Move => 3,
        BodyPart::RangedAttack | BodyPart::Attack => 4,
        BodyPart::Heal => 10,
    }
}

/// Sort key of a part in the fighting ordering.
pub fn pvp_parts_priority(part: BodyPart) -> (r: i8)
    ensures
        r == spec_pvp_priority(part),
{
    match part {
        BodyPart::Tough => 0,
        BodyPart::Work | BodyPart::Claim => 1,
        BodyPart::Carry => 2,
        BodyPart::RangedAttack | BodyPart::Attack => 4,
        BodyPart::Move => 7,
        BodyPart::Heal => 10,
    }
}

fn priority_of(scheme: Priority, part: BodyPart) -> (r: i8)
    ensures
        r == spec_priority(scheme, part),
{
    match scheme {
        Priority::Default => default_parts_priority(part),
        Priority::Pvp => pvp_parts_priority(part),
    }
}

pub open spec fn has_priority(scheme: Priority, k: int) -> spec_fn(BodyPart) -> bool {
    |p: BodyPart| spec_priority(scheme, p) == k
}

/// The parts of `parts` whose key lies in `lo..=hi`, grouped by key in
/// ascending order, each group in the order given: a stable sort by key.
pub open spec fn sorted_from(parts: Seq<BodyPart>, scheme: Priority, lo: int, hi: int) -> Seq<BodyPart>
    decreases hi - lo + 1,
{
    if lo > hi {
        Seq::empty()
    } else {
        parts.filter(has_priority(scheme, lo)) + sorted_from(parts, scheme, lo + 1, hi)
    }
}

/// Stable sort of `parts` by their key under `scheme` (all keys lie in `0..=10`).
pub open spec fn sorted_by_priority(parts: Seq<BodyPart>, scheme: Priority) -> Seq<BodyPart> {
    sorted_from(parts, scheme, 0, 10)
}

proof fn lemma_filter_take_step(s: Seq<BodyPart>, f: spec_fn(BodyPart) -> bool, i: int)
    requires
        0 <= i < s.len(),
    ensures
        s.take(i + 1).filter(f) == if f(s[i]) {
            s.take(i).filter(f).push(s[i])
        } else {
            s.take(i).filter(f)
        },
{
    reveal(Seq::filter);
    assert(s.take(i + 1).drop_last() =~= s.take(i));
}

/// Stable sort of a body by part priority: keeps the parts, orders them by
/// key, and keeps parts of equal key in the order given.
pub fn sort_by_priority(body: &Body, scheme: Priority) -> (sorted: Body)
    ensures
        body_parts(sorted) == sorted_by_priority(body_parts(*body), scheme),
{
    let ghost s = body_parts(*body);
    let n = body_len(body);
    let mut out = new_body();
    let mut k: i8 = 0;
    proof {
        assert(sorted_from(s, scheme, 0, -1) =~= Seq::<BodyPart>::empty());
        lemma_sorted_len(s, scheme, 0, -1);
    }
    while k <= 10
        invariant
            s == body_parts(*body),
            n == s.len(),
            n <= 50,
            0 <= k <= 11,
            body_parts(out) == sorted_from(s, scheme, 0, k - 1),
        decreases 11 - k,
    {
        let ghost before = body_parts(out);
        let mut i: usize = 0;
        while i < n
            invariant
                s == body_parts(*body),
                n == s.len(),
                n <= 50,
                0 <= k <= 10,
                i <= n,
                before == sorted_from(s, scheme, 0, k - 1),
                body_parts(out) == before + s.take(i as int).filter(has_priority(scheme, k as int)),
            decreases n - i,
        {
            let p = part_at(body, i);
            proof {
                lemma_filter_take_step(s, has_priority(scheme, k as int), i as int);
            }
            if priority_of(scheme, p) == k {
                proof {
                    lemma_sorted_prefix_len(s, scheme, k as int, i as int);
                }
                push_part(&mut out, p);
                proof {
                    assert(body_parts(out) =~= before + s.take(i + 1).filter(has_priority(scheme, k as int)));
                }
            }
            i = i + 1;
        }
        proof {
            assert(s.take(n as int) =~= s);
            lemma_sorted_split(s, scheme, 0, k as int);
        }
        k = k + 1;
    }
    out
}

/// Elements with key below `lo` or above `hi` are absent from `sorted_from`;
/// its length counts the parts whose key lies in `lo..=hi`.
pub open spec fn count_in(parts: Seq<BodyPart>, scheme: Priority, lo: int, hi: int) -> int
    decreases parts.len(),
{
    if parts.len() == 0 {
        0
    } else {
        count_in(parts.drop_last(), scheme, lo, hi) + if lo <= spec_priority(scheme, parts.last())
            <= hi {
            1int
        } else {
            0int
        }
    }
}

proof fn lemma_count_in_bound(parts: Seq<BodyPart>, scheme: Priority, lo: int, hi: int)
    ensures
        0 <= count_in(parts, scheme, lo, hi) <= parts.len(),
        lo <= 0 && 10 <= hi ==> count_in(parts, scheme, lo, hi) == parts.len(),
    decreases parts.len(),
{
    if parts.len() > 0 {
        lemma_count_in_bound(parts.drop_last(), scheme, lo, hi);
    }
}

proof fn lemma_filter_key_len(parts: Seq<BodyPart>, scheme: Priority, k: int)
    ensures
        parts.filter(has_priority(scheme, k)).len() == count_in(parts, scheme, k, k),
    decreases parts.len(),
{
    reveal(Seq::filter);
    if parts.len() > 0 {
        lemma_filter_key_len(parts.drop_last(), scheme, k);
    }
}

proof fn lemma_count_split(parts: Seq<BodyPart>, scheme: Priority, lo: int, hi: int)
    requires
        lo <= hi,
    ensures
        count_in(parts, scheme, lo, hi) == count_in(parts, scheme, lo, lo) + count_in(
            parts,
            scheme,
            lo + 1,
            hi,
        ),
    decreases parts.len(),
{
    if parts.len() > 0 {
        lemma_count_split(parts.drop_last(), scheme, lo, hi);
    }
}

proof fn lemma_sorted_len(parts: Seq<BodyPart>, scheme: Priority, lo: int, hi: int)
    ensures
        sorted_from(parts, scheme, lo, hi).len() == if lo <= hi {
            count_in(parts, scheme, lo, hi)
        } else {
            0
        },
    decreases hi - lo + 1,
{
    if lo <= hi {
        lemma_sorted_len(parts, scheme, lo + 1, hi);
        lemma_filter_key_len(parts, scheme, lo);
        lemma_count_split(parts, scheme, lo, hi);
        if lo + 1 > hi {
            lemma_count_empty(parts, scheme, lo + 1, hi);
        }
    }
}

proof fn lemma_count_empty(parts: Seq<BodyPart>, scheme: Priority, lo: int, hi: int)
    requires
        lo > hi,
    ensures
        count_in(parts, scheme, lo, hi) == 0,
    decreases parts.len(),
{
    if parts.len() > 0 {
        lemma_count_empty(parts.drop_last(), scheme, lo, hi);
    }
}

proof fn lemma_count_prefix(parts: Seq<BodyPart>, scheme: Priority, lo: int, hi: int, i: int)
    requires
        0 <= i <= parts.len(),
    ensures
        count_in(parts.take(i), scheme, lo, hi) <= count_in(parts, scheme, lo, hi),
    decreases parts.len() - i,
{
    if i < parts.len() {
        lemma_count_prefix(parts, scheme, lo, hi, i + 1);
        assert(parts.take(i + 1).drop_last() =~= parts.take(i));
    } else {
        assert(parts.take(i) =~= parts);
    }
}

/// While pass `k` meets a part of key `k`, the output still has room for it.
proof fn lemma_sorted_prefix_len(parts: Seq<BodyPart>, scheme: Priority, k: int, i: int)
    requires
        0 <= k <= 10,
        0 <= i < parts.len(),
        parts.len() <= 50,
        spec_priority(scheme, parts[i]) == k,
    ensures
        sorted_from(parts, scheme, 0, k - 1).len() + parts.take(i).filter(has_priority(scheme, k)).len()
            < 50,
{
    lemma_sorted_len(parts, scheme, 0, k - 1);
    lemma_filter_key_len(parts.take(i), scheme, k);
    lemma_count_prefix(parts, scheme, k, k, i + 1);
    assert(parts.take(i + 1).drop_last() =~= parts.take(i));
    lemma_count_in_bound(parts, scheme, 0, k);
    if k > 0 {
        lemma_count_le_split(parts, scheme, k);
    }
}

proof fn lemma_count_split_upper(parts: Seq<BodyPart>, scheme: Priority, lo: int, hi: int)
    requires
        lo < hi,
    ensures
        count_in(parts, scheme, lo, hi) == count_in(parts, scheme, lo, hi - 1) + count_in(
            parts,
            scheme,
            hi,
            hi,
        ),
    decreases parts.len(),
{
    if parts.len() > 0 {
        lemma_count_split_upper(parts.drop_last(), scheme, lo, hi);
    }
}

proof fn lemma_count_le_split(parts: Seq<BodyPart>, scheme: Priority, k: int)
    requires
        0 < k,
    ensures
        count_in(parts, scheme, 0, k - 1) + count_in(parts, scheme, k, k) == count_in(
            parts,
            scheme,
            0,
            k,
        ),
    decreases parts.len(),
{
    if parts.len() > 0 {
        lemma_count_le_split(parts.drop_last(), scheme, k);
    }
}

proof fn lemma_sorted_split(parts: Seq<BodyPart>, scheme: Priority, lo: int, k: int)
    requires
        lo <= k,
    ensures
        sorted_from(parts, scheme, lo, k) == sorted_from(parts, scheme, lo, k - 1) + parts.filter(
            has_priority(scheme, k),
        ),
    decreases k - lo,
{
    if lo == k {
        assert(sorted_from(parts, scheme, lo + 1, k) =~= Seq::<BodyPart>::empty());
        assert(sorted_from(parts, scheme, lo, k - 1) =~= Seq::<BodyPart>::empty());
        assert(sorted_from(parts, scheme, lo, k) =~= parts.filter(has_priority(scheme, k)));
    } else {
        lemma_sorted_split(parts, scheme, lo + 1, k);
        assert(sorted_from(parts, scheme, lo, k) =~= sorted_from(parts, scheme, lo, k - 1)
            + parts.filter(has_priority(scheme, k)));
    }
}

/// The body that repeatedly appends `scale` to `body` while the grown body
/// still passes `spec_can_scale`.
pub open spec fn grown(body: Seq<BodyPart>, scale: Seq<BodyPart>, room_energy: int, scale_limit: int) -> Seq<BodyPart>
    decreases scale_limit - body.len(),
{
    if scale.len() > 0 && spec_can_scale(body, scale, room_energy, scale_limit) {
        grown(body + scale, scale, room_energy, scale_limit)
    } else {
        body
    }
}

/// `scale` written `k` times in a row.
pub open spec fn repeat(scale: Seq<BodyPart>, k: nat) -> Seq<BodyPart>
    decreases k,
{
    if k == 0 {
        Seq::empty()
    } else {
        repeat(scale, (k - 1) as nat) + scale
    }
}

/// Starts from `base` and appends `scale` for as long as `can_scale` allows.
pub fn grow_body(base: &[BodyPart], scale: &[BodyPart], room_energy: u32, scale_limit: usize) -> (body: Body)
    requires
        base@.len() <= 50,
        0 < scale@.len() <= 50,
        scale_limit <= 50,
    ensures
        body_parts(body) == grown(base@, scale@, room_energy as int, scale_limit as int),
{
    let mut body = new_body();
    let mut i: usize = 0;
    while i < base.len()
        invariant
            base@.len() <= 50,
            i <= base@.len(),
            body_parts(body) == base@.take(i as int),
        decreases base@.len() - i,
    {
        push_part(&mut body, base[i]);
        proof {
            assert(base@.take(i + 1) =~= base@.take(i as int).push(base@[i as int]));
        }
        i = i + 1;
    }
    proof {
        assert(base@.take(base@.len() as int) =~= base@);
    }
    while can_scale(&body, scale, room_energy, scale_limit)
        invariant
            0 < scale@.len() <= 50,
            scale_limit <= 50,
            grown(body_parts(body), scale@, room_energy as int, scale_limit as int) == grown(
                base@,
                scale@,
                room_energy as int,
                scale_limit as int,
            ),
        decreases 50 - body_parts(body).len(),
    {
        let ghost before = body_parts(body);
        let mut j: usize = 0;
        while j < scale.len()
            invariant
                0 < scale@.len() <= 50,
                scale_limit <= 50,
                spec_can_scale(before, scale@, room_energy as int, scale_limit as int),
                j <= scale@.len(),
                body_parts(body) == before + scale@.take(j as int),
            decreases scale@.len() - j,
        {
            push_part(&mut body, scale[j]);
            proof {
                assert(before + scale@.take(j + 1) =~= (before + scale@.take(j as int)).push(
                    scale@[j as int],
                ));
            }
            j = j + 1;
        }
        proof {
            assert(scale@.take(scale@.len() as int) =~= scale@);
        }
    }
    body
}

/// Growing a body only ever appends whole copies of `scale`; a body that was
/// grown at all stays within the part limit and costs less than the energy
/// available; and no further copy of `scale` would pass `can_scale`.
pub proof fn lemma_grown_shape(base: Seq<BodyPart>, scale: Seq<BodyPart>, room_energy: int, scale_limit: int)
    requires
        scale.len() > 0,
    ensures
        exists|k: nat| grown(base, scale, room_energy, scale_limit) == base + repeat(scale, k),
        grown(base, scale, room_energy, scale_limit) != base ==> {
            &&& grown(base, scale, room_energy, scale_limit).len() <= scale_limit
            &&& seq_cost(grown(base, scale, room_energy, scale_limit)) < room_energy
        },
        !spec_can_scale(grown(base, scale, room_energy, scale_limit), scale, room_energy, scale_limit),
    decreases scale_limit - base.len(),
{
    if spec_can_scale(base, scale, room_energy, scale_limit) {
        let next = base + scale;
        lemma_grown_shape(next, scale, room_energy, scale_limit);
        let k = choose|k: nat| grown(next, scale, room_energy, scale_limit) == next + repeat(scale, k);
        lemma_repeat_front(scale, k);
        assert(base + repeat(scale, k + 1) =~= next + repeat(scale, k));
        if grown(next, scale, room_energy, scale_limit) == next {
            assert(next.len() <= scale_limit);
        }
    } else {
        assert(base + repeat(scale, 0) =~= base);
    }
}

proof fn lemma_repeat_front(scale: Seq<BodyPart>, k: nat)
    ensures
        repeat(scale, k + 1) =~= scale + repeat(scale, k),
    decreases k,
{
    if k > 0 {
        lemma_repeat_front(scale, (k - 1) as nat);
        assert(repeat(scale, k + 1) =~= repeat(scale, k) + scale);
    } else {
        assert(repeat(scale, 0) =~= Seq::<BodyPart>::empty());
        assert(repeat(scale, 1) == repeat(scale, 0) + scale);
        assert(repeat(scale, 0) + scale =~= scale);
        assert(scale + repeat(scale, 0) =~= scale);
    }
}

proof fn lemma_filter_count(s: Seq<BodyPart>, f: spec_fn(BodyPart) -> bool, p: BodyPart)
    ensures
        s.filter(f).to_multiset().count(p) == if f(p) {
            s.to_multiset().count(p)
        } else {
            0
        },
    decreases s.len(),
{
    reveal(Seq::filter);
    broadcast use vstd::seq_lib::group_to_multiset_ensures;

    if s.len() > 0 {
        lemma_filter_count(s.drop_last(), f, p);
        assert(s =~= s.drop_last().push(s.last()));
    } else {
        assert(s.filter(f) =~= Seq::<BodyPart>::empty());
    }
}

proof fn lemma_sorted_from_count(s: Seq<BodyPart>, scheme: Priority, lo: int, hi: int, p: BodyPart)
    ensures
        sorted_from(s, scheme, lo, hi).to_multiset().count(p) == if lo <= spec_priority(scheme, p) <= hi {
            s.to_multiset().count(p)
        } else {
            0
        },
    decreases hi - lo + 1,
{
    if lo <= hi {
        lemma_sorted_from_count(s, scheme, lo + 1, hi, p);
        lemma_filter_count(s, has_priority(scheme, lo), p);
        vstd::seq_lib::lemma_multiset_commutative(
            s.filter(has_priority(scheme, lo)),
            sorted_from(s, scheme, lo + 1, hi),
        );
    } else {
        broadcast use vstd::seq_lib::group_to_multiset_ensures;

        assert(sorted_from(s, scheme, lo, hi).len() == 0);
    }
}

proof fn lemma_sorted_from_keys(s: Seq<BodyPart>, scheme: Priority, lo: int, hi: int, i: int)
    requires
        0 <= i < sorted_from(s, scheme, lo, hi).len(),
    ensures
        lo <= spec_priority(scheme, sorted_from(s, scheme, lo, hi)[i]) <= hi,
    decreases hi - lo + 1,
{
    if lo <= hi {
        let head = s.filter(has_priority(scheme, lo));
        let rest = sorted_from(s, scheme, lo + 1, hi);
        if i < head.len() {
            s.lemma_filter_pred(has_priority(scheme, lo), i);
        } else {
            lemma_sorted_from_keys(s, scheme, lo + 1, hi, i - head.len());
        }
    }
}

proof fn lemma_sorted_from_ordered(s: Seq<BodyPart>, scheme: Priority, lo: int, hi: int, i: int, j: int)
    requires
        0 <= i < j < sorted_from(s, scheme, lo, hi).len(),
    ensures
        spec_priority(scheme, sorted_from(s, scheme, lo, hi)[i]) <= spec_priority(
            scheme,
            sorted_from(s, scheme, lo, hi)[j],
        ),
    decreases hi - lo + 1,
{
    if lo <= hi {
        let head = s.filter(has_priority(scheme, lo));
        let rest = sorted_from(s, scheme, lo + 1, hi);
        if i < head.len() {
            s.lemma_filter_pred(has_priority(scheme, lo), i);
            if j < head.len() {
                s.lemma_filter_pred(has_priority(scheme, lo), j);
            } else {
                lemma_sorted_from_keys(s, scheme, lo + 1, hi, j - head.len());
            }
        } else {
            lemma_sorted_from_ordered(s, scheme, lo + 1, hi, i - head.len(), j - head.len());
        }
    }
}

/// Sorting a body by priority keeps every part exactly as often as before
/// and puts the parts in non-decreasing order of their key.
pub proof fn lemma_sort_is_permutation_in_order(parts: Seq<BodyPart>, scheme: Priority)
    ensures
        sorted_by_priority(parts, scheme).to_multiset() =~= parts.to_multiset(),
        forall|i: int, j: int|
            0 <= i < j < sorted_by_priority(parts, scheme).len() ==> spec_priority(
                scheme,
                #[trigger] sorted_by_priority(parts, scheme)[i],
            ) <= spec_priority(scheme, #[trigger] sorted_by_priority(parts, scheme)[j]),
{
    assert forall|p: BodyPart|
        #[trigger] sorted_by_priority(parts, scheme).to_multiset().count(p) == parts.to_multiset().count(p) by {
        lemma_sorted_from_count(parts, scheme, 0, 10, p);
    }
    assert forall|i: int, j: int| 0 <= i < j < sorted_by_priority(parts, scheme).len() implies spec_priority(
        scheme,
        #[trigger] sorted_by_priority(parts, scheme)[i],
    ) <= spec_priority(scheme, #[trigger] sorted_by_priority(parts, scheme)[j]) by {
        lemma_sorted_from_ordered(parts, scheme, 0, 10, i, j);
    }
}

/// A body grown from `base` by `scale` within the limits, then sorted by
/// `order` when one is given.
pub open spec fn spec_build_body(
    base: Seq<BodyPart>,
    scale: Seq<BodyPart>,
    room_energy: int,
    scale_limit: int,
    order: Option<Priority>,
) -> Seq<BodyPart> {
    match order {
        Some(scheme) => sorted_by_priority(grown(base, scale, room_energy, scale_limit), scheme),
        None => grown(base, scale, room_energy, scale_limit),
    }
}

/// Grows a body from `base` by `scale` (see `grow_body`) and sorts it by
/// `order` when one is given.
pub fn build_body(
    base: &[BodyPart],
    scale: &[BodyPart],
    room_energy: u32,
    scale_limit: usize,
    order: Option<Priority>,
) -> (body: Body)
    requires
        base@.len() <= 50,
        0 < scale@.len() <= 50,
        scale_limit <= 50,
    ensures
        body_parts(body) == spec_build_body(base@, scale@, room_energy as int, scale_limit as int, order),
{
    let grown_body = grow_body(base, scale, room_energy, scale_limit);
    match order {
        Some(scheme) => sort_by_priority(&grown_body, scheme),
        None => grown_body,
    }
}

/// A body made of exactly the given parts.
pub fn fixed_body(parts: &[BodyPart]) -> (body: Body)
    requires
        parts@.len() <= 50,
    ensures
        body_parts(body) == parts@,
{
    let mut body = new_body();
    let mut i: usize = 0;
    while i < parts.len()
        invariant
            parts@.len() <= 50,
            i <= parts@.len(),
            body_parts(body) == parts@.take(i as int),
        decreases parts@.len() - i,
    {
        push_part(&mut body, parts[i]);
        proof {
            assert(parts@.take(i + 1) =~= parts@.take(i as int).push(parts@[i as int]));
        }
        i = i + 1;
    }
    proof {
        assert(parts@.take(parts@.len() as int) =~= parts@);
    }
    body
}

/// The default ordering puts toughness first, then carrying, then work and
/// claim parts, then legs, then weapons, and healing last: in a body sorted
/// by it, no part of a later group comes before one of an earlier group.
pub proof fn lemma_default_order_groups(parts: Seq<BodyPart>)
    ensures
        spec_default_priority(BodyPart::Tough) < spec_default_priority(BodyPart::Carry),
        spec_default_priority(BodyPart::Carry) < spec_default_priority(BodyPart::Work),
        spec_default_priority(BodyPart::Work) == spec_default_priority(BodyPart::Claim),
        spec_default_priority(BodyPart::Claim) < spec_default_priority(BodyPart::Move),
        spec_default_priority(BodyPart::Move) < spec_default_priority(BodyPart::Attack),
        spec_default_priority(BodyPart::Attack) == spec_default_priority(BodyPart::RangedAttack),
        spec_default_priority(BodyPart::RangedAttack) < spec_default_priority(BodyPart::Heal),
        forall|i: int, j: int| 0 <= i < j < sorted_by_priority(parts, Priority::Default).len() ==> {
            let a = #[trigger] sorted_by_priority(parts, Priority::Default)[i];
            let b = #[trigger] sorted_by_priority(parts, Priority::Default)[j];
            &&& b == BodyPart::Tough ==> a == BodyPart::Tough
            &&& a == BodyPart::Heal ==> b == BodyPart::Heal
            &&& (a == BodyPart::Attack || a == BodyPart::RangedAttack) ==> (b == BodyPart::Attack || b == BodyPart::RangedAttack || b == BodyPart::Heal)
            &&& a == BodyPart::Move ==> (b == BodyPart::Move || b == BodyPart::Attack || b == BodyPart::RangedAttack || b == BodyPart::Heal)
            &&& (b == BodyPart::Move) ==> (a != BodyPart::Attack && a != BodyPart::RangedAttack && a != BodyPart::Heal)
            &&& (b == BodyPart::Carry) ==> (a == BodyPart::Tough || a == BodyPart::Carry)
        },
{
    lemma_sort_is_permutation_in_order(parts, Priority::Default);
}

/// The fighting ordering puts toughness first, then work and claim parts,
/// then carrying, then weapons, then legs, and healing last: in a body
/// sorted by it, weapons come before legs.
pub proof fn lemma_pvp_order_groups(parts: Seq<BodyPart>)
    ensures
        spec_pvp_priority(BodyPart::Tough) < spec_pvp_priority(BodyPart::Work),
        spec_pvp_priority(BodyPart::Work) == spec_pvp_priority(BodyPart::Claim),
        spec_pvp_priority(BodyPart::Claim) < spec_pvp_priority(BodyPart::Carry),
        spec_pvp_priority(BodyPart::Carry) < spec_pvp_priority(BodyPart::Attack),
        spec_pvp_priority(BodyPart::Attack) == spec_pvp_priority(BodyPart::RangedAttack),
        spec_pvp_priority(BodyPart::RangedAttack) < spec_pvp_priority(BodyPart::Move),
        spec_pvp_priority(BodyPart::Move) < spec_pvp_priority(BodyPart::Heal),
        forall|i: int, j: int| 0 <= i < j < sorted_by_priority(parts, Priority::Pvp).len() ==> {
            let a = #[trigger] sorted_by_priority(parts, Priority::Pvp)[i];
            let b = #[trigger] sorted_by_priority(parts, Priority::Pvp)[j];
            &&& b == BodyPart::Tough ==> a == BodyPart::Tough
            &&& a == BodyPart::Heal ==> b == BodyPart::Heal
            &&& a == BodyPart::Move ==> (b == BodyPart::Move || b == BodyPart::Heal)
            &&& (b == BodyPart::Attack || b == BodyPart::RangedAttack) ==> (a != BodyPart::Move && a != BodyPart::Heal)
        },
{
    lemma_sort_is_permutation_in_order(parts, Priority::Pvp);
}

} // verus!
