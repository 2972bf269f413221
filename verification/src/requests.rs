use vstd::prelude::*;

use crate::geometry::{Position, RoomName};
use crate::resources::Resource;
use crate::tasks::ObjectId;

verus! {

/// Where a room request stands.
#[derive(Clone, Copy, Debug, PartialEq, Eq, Structural)]
pub enum Status {
    Created,
    Spawning,
    InProgress,
    Carry,
}

/// What a room asks its creeps to do.
#[derive(Clone, Debug)]
pub enum RequestKind {
    Claim { id: ObjectId, pos: Position },
    Book { id: ObjectId, pos: Position },
    Build { id: Option<ObjectId>, pos: Position },
    Repair { id: ObjectId, pos: Position, attempts_max: u8, hits: u32 },
    Defend { room_name: RoomName },
    Carry { from: ObjectId, to: ObjectId, resource: Resource, amount: u32 },
    Withdraw { pos: Position, id: ObjectId, resources: Vec<(Resource, Option<u32>)> },
    LongRangeWithdraw { pos: Position, id: ObjectId, resource: Resource, amount: u32 },
    SafeMode { pos: Position, id: ObjectId, storage_id: ObjectId },
    Pickup { id: ObjectId },
    Pull { creep_name: String, destination: Position },
    Dismantle { id: ObjectId, workplace: Position },
    Crash { id: ObjectId, pos: Position },
    Deposit { pos: Position, id: ObjectId },
    Powerbank { pos: Position, id: ObjectId },
}

/// The kind of a request, without its data.
#[derive(Clone, Copy, Debug, PartialEq, Eq, Structural)]
pub enum KindTag {
    Claim,
    Book,
    Build,
    Repair,
    Defend,
    Carry,
    Withdraw,
    LongRangeWithdraw,
    SafeMode,
    Pickup,
    Pull,
    Dismantle,
    Crash,
    Deposit,
    Powerbank,
}

pub open spec fn spec_tag(kind: RequestKind) -> KindTag {
    match kind {
        RequestKind::Claim { .. } => KindTag::Claim,
        RequestKind::Book { .. } => KindTag::Book,
        RequestKind::Build { .. } => KindTag::Build,
        RequestKind::Repair { .. } => KindTag::Repair,
        RequestKind::Defend { .. } => KindTag::Defend,
        RequestKind::Carry { .. } => KindTag::Carry,
        RequestKind::Withdraw { .. } => KindTag::Withdraw,
        RequestKind::LongRangeWithdraw { .. } => KindTag::LongRangeWithdraw,
        RequestKind::SafeMode { .. } => KindTag::SafeMode,
        RequestKind::Pickup { .. } => KindTag::Pickup,
        RequestKind::Pull { .. } => KindTag::Pull,
        RequestKind::Dismantle { .. } => KindTag::Dismantle,
        RequestKind::Crash { .. } => KindTag::Crash,
        RequestKind::Deposit { .. } => KindTag::Deposit,
        RequestKind::Powerbank { .. } => KindTag::Powerbank,
    }
}

impl RequestKind {
    pub fn tag(&self) -> (t: KindTag)
        ensures
            t == spec_tag(*self),
    {
        match self {
            RequestKind::Claim { .. } => KindTag::Claim,
            RequestKind::Book { .. } => KindTag::Book,
            RequestKind::Build { .. } => KindTag::Build,
            RequestKind::Repair { .. } => KindTag::Repair,
            RequestKind::Defend { .. } => KindTag::Defend,
            RequestKind::Carry { .. } => KindTag::Carry,
            RequestKind::Withdraw { .. } => KindTag::Withdraw,
            RequestKind::LongRangeWithdraw { .. } => KindTag::LongRangeWithdraw,
            RequestKind::SafeMode { .. } => KindTag::SafeMode,
            RequestKind::Pickup { .. } => KindTag::Pickup,
            RequestKind::Pull { .. } => KindTag::Pull,
            RequestKind::Dismantle { .. } => KindTag::Dismantle,
            RequestKind::Crash { .. } => KindTag::Crash,
            RequestKind::Deposit { .. } => KindTag::Deposit,
            RequestKind::Powerbank { .. } => KindTag::Powerbank,
        }
    }
}

/// A squad of creeps that take a request together.
#[derive(Clone, Debug)]
pub struct Squad {
    pub id: String,
    pub members: Vec<String>,
}

/// No name occurs twice in the list.
pub open spec fn names_distinct(names: Seq<String>) -> bool {
    forall|i: int, j: int| 0 <= i < j < names.len() ==> names[i]@ != names[j]@
}

/// Every squad lists each of its members once: a squad's members are a set
/// of creep names.
pub open spec fn squads_wf(squads: Seq<Squad>) -> bool {
    forall|i: int| 0 <= i < squads.len() ==> names_distinct(#[trigger] squads[i].members@)
}

/// `name` is among `names`.
pub open spec fn has_name(names: Seq<String>, name: Seq<char>) -> bool {
    exists|i: int| 0 <= i < names.len() && #[trigger] names[i]@ == name
}

impl Squad {
    /// Adds a creep to the squad, as a set takes an element: the list is
    /// unchanged when the name is in it already, else the name comes last.
    pub fn add_member(&mut self, name: String)
        requires
            names_distinct(old(self).members@),
        ensures
            final(self).id == old(self).id,
            names_distinct(final(self).members@),
            has_name(old(self).members@, name@) ==> final(self).members@ == old(self).members@,
            !has_name(old(self).members@, name@) ==> final(self).members@ == old(self).members@.push(name),
    {
        let mut k: usize = 0;
        while k < self.members.len()
            invariant
                *self == *old(self),
                names_distinct(self.members@),
                k <= self.members@.len(),
                forall|j: int| 0 <= j < k ==> #[trigger] self.members@[j]@ != name@,
            decreases self.members@.len() - k,
        {
            if str_eq(self.members[k].as_str(), name.as_str()) {
                return;
            }
            k = k + 1;
        }
        self.members.push(name);
    }
}

/// A room request and who works on it.
#[derive(Clone, Debug)]
pub struct Request {
    pub kind: RequestKind,
    pub status: Status,
    /// Game tick the request was filed at.
    pub created_at: u32,
    /// Names of the creeps working on the request.
    pub creeps: Vec<String>,
    pub squads: Vec<Squad>,
}

/// A request is assigned to `name` when a creep or a squad of that name
/// works on it.
pub open spec fn spec_assigned_to(req: Request, name: Seq<char>) -> bool {
    (exists|i: int| 0 <= i < req.creeps@.len() && #[trigger] req.creeps@[i]@ == name) || (exists|
        i: int,
    |
        0 <= i < req.squads@.len() && #[trigger] req.squads@[i].id@ == name)
}

impl Request {
    /// Whether a creep or a squad named `name` works on this request.
    pub fn assigned_to(&self, name: &str) -> (r: bool)
        ensures
            r == spec_assigned_to(*self, name@),
    {
        let mut i: usize = 0;
        while i < self.creeps.len()
            invariant
                i <= self.creeps@.len(),
                forall|j: int| 0 <= j < i ==> #[trigger] self.creeps@[j]@ != name@,
            decreases self.creeps@.len() - i,
        {
            if str_eq(self.creeps[i].as_str(), name) {
                return true;
            }
            i = i + 1;
        }
        let mut k: usize = 0;
        while k < self.squads.len()
            invariant
                k <= self.squads@.len(),
                forall|j: int| 0 <= j < self.creeps@.len() ==> #[trigger] self.creeps@[j]@ != name@,
                forall|j: int| 0 <= j < k ==> #[trigger] self.squads@[j].id@ != name@,
            decreases self.squads@.len() - k,
        {
            if str_eq(self.squads[k].id.as_str(), name) {
                return true;
            }
            k = k + 1;
        }
        false
    }
}

/// Character-by-character comparison of two strings.
pub fn str_eq(a: &str, b: &str) -> (r: bool)
    ensures
        r == (a@ == b@),
{
    let la = a.unicode_len();
    let lb = b.unicode_len();
    if la != lb {
        return false;
    }
    let mut i: usize = 0;
    while i < la
        invariant
            la == a@.len(),
            lb == b@.len(),
            la == lb,
            i <= la,
            forall|j: int| 0 <= j < i ==> a@[j] == b@[j],
        decreases la - i,
    {
        if a.get_char(i) != b.get_char(i) {
            return false;
        }
        i = i + 1;
    }
    assert(a@ =~= b@);
    true
}

/// A request matches a search when its kind is one of `kinds`, its status is
/// one of `statuses`, and, when `assignee` is given, it is assigned to it.
pub open spec fn spec_matches(
    req: Request,
    kinds: Seq<KindTag>,
    statuses: Seq<Status>,
    assignee: Option<Seq<char>>,
) -> bool {
    &&& kinds.contains(spec_tag(req.kind))
    &&& statuses.contains(req.status)
    &&& match assignee {
        Some(name) => spec_assigned_to(req, name),
        None => true,
    }
}

pub open spec fn opt_view(s: Option<&str>) -> Option<Seq<char>> {
    match s {
        Some(x) => Some(x@),
        None => None,
    }
}

fn tag_in(tag: KindTag, kinds: &[KindTag]) -> (r: bool)
    ensures
        r == kinds@.contains(tag),
{
    let mut i: usize = 0;
    while i < kinds.len()
        invariant
            i <= kinds@.len(),
            forall|j: int| 0 <= j < i ==> kinds@[j] != tag,
        decreases kinds@.len() - i,
    {
        if kinds[i] == tag {
            return true;
        }
        i = i + 1;
    }
    false
}

fn status_in(status: Status, statuses: &[Status]) -> (r: bool)
    ensures
        r == statuses@.contains(status),
{
    let mut i: usize = 0;
    while i < statuses.len()
        invariant
            i <= statuses@.len(),
            forall|j: int| 0 <= j < i ==> statuses@[j] != status,
        decreases statuses@.len() - i,
    {
        if statuses[i] == status {
            return true;
        }
        i = i + 1;
    }
    false
}

/// Whether a request matches a search (see `spec_matches`).
pub fn matches(req: &Request, kinds: &[KindTag], statuses: &[Status], assignee: Option<&str>) -> (r: bool)
    ensures
        r == spec_matches(*req, kinds@, statuses@, opt_view(assignee)),
{
    if !tag_in(req.kind.tag(), kinds) || !status_in(req.status, statuses) {
        return false;
    }
    match assignee {
        Some(name) => req.assigned_to(name),
        None => true,
    }
}

pub open spec fn deref_opt(r: Option<&Request>) -> Option<Request> {
    match r {
        Some(x) => Some(*x),
        None => None,
    }
}

/// The first request of `requests` that matches the search.
pub open spec fn spec_find_first(
    requests: Seq<Request>,
    kinds: Seq<KindTag>,
    statuses: Seq<Status>,
    assignee: Option<Seq<char>>,
) -> Option<Request>
    decreases requests.len(),
{
    if requests.len() == 0 {
        None
    } else if spec_matches(requests[0], kinds, statuses, assignee) {
        Some(requests[0])
    } else {
        spec_find_first(requests.drop_first(), kinds, statuses, assignee)
    }
}

/// The first request, in the given order, that matches the search; `None`
/// when none does.
pub fn find_first<'a>(
    requests: &'a [Request],
    kinds: &[KindTag],
    statuses: &[Status],
    assignee: Option<&str>,
) -> (r: Option<&'a Request>)
    ensures
        deref_opt(r) == spec_find_first(requests@, kinds@, statuses@, opt_view(assignee)),
{
    let mut i: usize = 0;
    assert(requests@.skip(0) =~= requests@);
    while i < requests.len()
        invariant
            i <= requests@.len(),
            spec_find_first(requests@, kinds@, statuses@, opt_view(assignee)) == spec_find_first(
                requests@.skip(i as int),
                kinds@,
                statuses@,
                opt_view(assignee),
            ),
        decreases requests@.len() - i,
    {
        proof {
            assert(requests@.skip(i as int).drop_first() =~= requests@.skip(i + 1));
        }
        if matches(&requests[i], kinds, statuses, assignee) {
            return Some(&requests[i]);
        }
        i = i + 1;
    }
    None
}

/// `first` unless it is `None`, then `second`.
pub open spec fn or_else(first: Option<Request>, second: Option<Request>) -> Option<Request> {
    match first {
        Some(r) => Some(r),
        None => second,
    }
}

/// Among the requests that match the search, the first one whose `key` is
/// smallest.
pub open spec fn is_first_min(
    requests: Seq<Request>,
    kinds: Seq<KindTag>,
    statuses: Seq<Status>,
    key: spec_fn(Request) -> int,
    r: Option<Request>,
) -> bool {
    match r {
        Some(x) => exists|i: int|
            0 <= i < requests.len() && x == requests[i] && spec_matches(requests[i], kinds, statuses, None)
                && (forall|j: int|
                0 <= j < requests.len() && spec_matches(#[trigger] requests[j], kinds, statuses, None)
                    ==> key(requests[i]) <= key(requests[j])) && (forall|j: int|
                0 <= j < i && spec_matches(#[trigger] requests[j], kinds, statuses, None) ==> key(
                    requests[i],
                ) < key(requests[j])),
        None => forall|j: int|
            0 <= j < requests.len() ==> !spec_matches(#[trigger] requests[j], kinds, statuses, None),
    }
}

pub open spec fn created_key() -> spec_fn(Request) -> int {
    |r: Request| r.created_at as int
}

/// Hit points of a repair request's structure; other kinds never compare.
pub open spec fn repair_hits_key() -> spec_fn(Request) -> int {
    |r: Request|
        match r.kind {
            RequestKind::Repair { hits, .. } => hits as int,
            _ => 0,
        }
}

/// The request filed earliest among those that match; ties go to the
/// earlier position.
pub fn find_earliest<'a>(requests: &'a [Request], kinds: &[KindTag], statuses: &[Status]) -> (r: Option<&'a Request>)
    ensures
        is_first_min(requests@, kinds@, statuses@, created_key(), deref_opt(r)),
{
    let mut best: Option<usize> = None;
    let mut i: usize = 0;
    while i < requests.len()
        invariant
            i <= requests@.len(),
            match best {
                Some(b) => b < i && spec_matches(requests@[b as int], kinds@, statuses@, None) && (forall|j: int|
                    0 <= j < i && spec_matches(#[trigger] requests@[j], kinds@, statuses@, None)
                        ==> requests@[b as int].created_at <= requests@[j].created_at) && (forall|
                    j: int,
                |
                    0 <= j < b && spec_matches(#[trigger] requests@[j], kinds@, statuses@, None)
                        ==> requests@[b as int].created_at < requests@[j].created_at),
                None => forall|j: int|
                    0 <= j < i ==> !spec_matches(#[trigger] requests@[j], kinds@, statuses@, None),
            },
        decreases requests@.len() - i,
    {
        if matches(&requests[i], kinds, statuses, None) {
            match best {
                Some(b) => {
                    if requests[i].created_at < requests[b].created_at {
                        best = Some(i);
                    }
                },
                None => {
                    best = Some(i);
                },
            }
        }
        i = i + 1;
    }
    match best {
        Some(b) => Some(&requests[b]),
        None => None,
    }
}

/// The repair request for the most damaged structure among those that
/// match; ties go to the earlier position.
pub fn find_most_damaged<'a>(requests: &'a [Request], statuses: &[Status]) -> (r: Option<&'a Request>)
    ensures
        is_first_min(requests@, seq![KindTag::Repair], statuses@, repair_hits_key(), deref_opt(r)),
{
    let kinds = [KindTag::Repair];
    let ghost ks = seq![KindTag::Repair];
    assert(kinds@ =~= ks);
    let mut best: Option<(usize, u32)> = None;
    let mut i: usize = 0;
    while i < requests.len()
        invariant
            i <= requests@.len(),
            kinds@ == ks,
            match best {
                Some((b, h)) => b < i && spec_matches(requests@[b as int], ks, statuses@, None) && h
                    == repair_hits_key()(requests@[b as int]) && (forall|j: int|
                    0 <= j < i && spec_matches(#[trigger] requests@[j], ks, statuses@, None)
                        ==> repair_hits_key()(requests@[b as int]) <= repair_hits_key()(requests@[j]))
                    && (forall|j: int|
                    0 <= j < b && spec_matches(#[trigger] requests@[j], ks, statuses@, None)
                        ==> repair_hits_key()(requests@[b as int]) < repair_hits_key()(requests@[j])),
                None => forall|j: int|
                    0 <= j < i ==> !spec_matches(#[trigger] requests@[j], ks, statuses@, None),
            },
        decreases requests@.len() - i,
    {
        if matches(&requests[i], &kinds, statuses, None) {
            let hits = match &requests[i].kind {
                RequestKind::Repair { hits, .. } => *hits,
                _ => 0,
            };
            match best {
                Some((b, h)) => {
                    if hits < h {
                        best = Some((i, hits));
                    }
                },
                None => {
                    best = Some((i, hits));
                },
            }
        }
        i = i + 1;
    }
    match best {
        Some((b, _)) => Some(&requests[b]),
        None => None,
    }
}

/// `after` is `before` joined by the creep `creep`: the creep is recorded
/// among those working on it and the request is in progress; its kind,
/// filing tick and squads stay.
pub open spec fn is_joined(before: Request, after: Request, creep: String) -> bool {
    &&& after.kind == before.kind
    &&& after.created_at == before.created_at
    &&& after.squads == before.squads
    &&& after.status == Status::InProgress
    &&& after.creeps@ == before.creeps@.push(creep)
}

/// A creep takes the request at `index`: it joins it, and the room's list
/// keeps every other request as it was, in place.
pub fn join_at(requests: &mut Vec<Request>, index: usize, creep: String)
    requires
        index < old(requests)@.len(),
    ensures
        final(requests)@.len() == old(requests)@.len(),
        forall|k: int| 0 <= k < old(requests)@.len() && k != index ==> final(requests)@[k] == old(requests)@[k],
        is_joined(old(requests)@[index as int], final(requests)@[index as int], creep),
{
    let mut r = requests.remove(index);
    let ghost before = r;
    r.creeps.push(creep);
    r.status = Status::InProgress;
    requests.insert(index, r);
    proof {
        assert(is_joined(before, r, creep));
    }
}

/// Whether no name occurs twice in `names`.
pub fn names_are_distinct(names: &[String]) -> (r: bool)
    ensures
        r == names_distinct(names@),
{
    let mut j: usize = 0;
    while j < names.len()
        invariant
            j <= names@.len(),
            forall|a: int, b: int| 0 <= a < b < j ==> names@[a]@ != names@[b]@,
        decreases names@.len() - j,
    {
        let mut i: usize = 0;
        while i < j
            invariant
                i <= j < names@.len(),
                forall|a: int| 0 <= a < i ==> names@[a]@ != names@[j as int]@,
            decreases j - i,
        {
            if str_eq(names[i].as_str(), names[j].as_str()) {
                return false;
            }
            i = i + 1;
        }
        j = j + 1;
    }
    true
}

/// Whether every squad lists each of its members once.
pub fn squads_listed_once(squads: &[Squad]) -> (r: bool)
    ensures
        r == squads_wf(squads@),
{
    let mut k: usize = 0;
    while k < squads.len()
        invariant
            k <= squads@.len(),
            forall|i: int| 0 <= i < k ==> names_distinct(#[trigger] squads@[i].members@),
        decreases squads@.len() - k,
    {
        if !names_are_distinct(squads[k].members.as_slice()) {
            return false;
        }
        k = k + 1;
    }
    true
}

/// The squad named `squad_id` of `before` takes the creep in `after`: the
/// first squad of that name adds the creep as a set adds an element, and
/// everything else about the request stays.
pub open spec fn is_squad_joined(before: Request, after: Request, squad_id: Seq<char>, creep: String) -> bool {
    &&& after.kind == before.kind
    &&& after.created_at == before.created_at
    &&& after.status == before.status
    &&& after.creeps == before.creeps
    &&& after.squads@.len() == before.squads@.len()
    &&& match first_squad(before.squads@, squad_id) {
        Some(k) => {
            &&& forall|j: int| 0 <= j < before.squads@.len() && j != k ==> after.squads@[j] == before.squads@[j]
            &&& after.squads@[k].id == before.squads@[k].id
            &&& if has_name(before.squads@[k].members@, creep@) {
                after.squads@[k].members@ == before.squads@[k].members@
            } else {
                after.squads@[k].members@ == before.squads@[k].members@.push(creep)
            }
        },
        None => after.squads@ == before.squads@,
    }
}

/// The index of the first squad named `squad_id`.
pub open spec fn first_squad(squads: Seq<Squad>, squad_id: Seq<char>) -> Option<int> {
    if exists|k: int| 0 <= k < squads.len() && #[trigger] squads[k].id@ == squad_id {
        let k = choose|k: int|
            0 <= k < squads.len() && #[trigger] squads[k].id@ == squad_id && forall|j: int| 0 <= j < k ==> squads[j].id@ != squad_id;
        Some(k)
    } else {
        None
    }
}

/// A creep of the squad `squad_id` joins the request at `index` with its
/// squad; the room's list keeps every other request as it was, in place,
/// and each squad still lists every member once.
pub fn join_squad_at(requests: &mut Vec<Request>, index: usize, squad_id: &str, creep: String)
    requires
        index < old(requests)@.len(),
        squads_wf(old(requests)@[index as int].squads@),
    ensures
        final(requests)@.len() == old(requests)@.len(),
        forall|k: int| 0 <= k < old(requests)@.len() && k != index ==> final(requests)@[k] == old(requests)@[k],
        is_squad_joined(old(requests)@[index as int], final(requests)@[index as int], squad_id@, creep),
        squads_wf(final(requests)@[index as int].squads@),
{
    let ghost others = requests@.remove(index as int);
    let mut r = requests.remove(index);
    let ghost before = r;
    let mut k: usize = 0;
    while k < r.squads.len()
        invariant
            r == before,
            requests@ == others,
            others == old(requests)@.remove(index as int),
            index < old(requests)@.len(),
            before == old(requests)@[index as int],
            index <= requests@.len(),
            squads_wf(before.squads@),
            k <= r.squads@.len(),
            forall|j: int| 0 <= j < k ==> #[trigger] r.squads@[j].id@ != squad_id@,
        decreases r.squads@.len() - k,
    {
        if str_eq(r.squads[k].id.as_str(), squad_id) {
            proof {
                assert(exists|m: int| 0 <= m < before.squads@.len() && #[trigger] before.squads@[m].id@ == squad_id@) by {
                    assert(before.squads@[k as int].id@ == squad_id@);
                }
                let c = first_squad(before.squads@, squad_id@)->0;
                if c != k {
                    if c < k {
                        assert(before.squads@[c].id@ != squad_id@);
                    } else {
                        assert(before.squads@[k as int].id@ == squad_id@);
                    }
                }
                assert(first_squad(before.squads@, squad_id@) == Some(k as int));
            }
            let mut squad = r.squads.remove(k);
            proof {
                assert(names_distinct(before.squads@[k as int].members@));
            }
            squad.add_member(creep);
            r.squads.insert(k, squad);
            proof {
                assert forall|i: int| 0 <= i < r.squads@.len() implies names_distinct(#[trigger] r.squads@[i].members@) by {
                    if i != k {
                        assert(r.squads@[i] == before.squads@[i]);
                    }
                }
            }
            requests.insert(index, r);
            return;
        }
        k = k + 1;
    }
    proof {
        assert(!exists|m: int| 0 <= m < before.squads@.len() && #[trigger] before.squads@[m].id@ == squad_id@);
    }
    requests.insert(index, r);
}

/// Once joined, the request is assigned to the creep and in progress, so
/// the creep finds it again among the requests it works on.
pub proof fn lemma_joined_is_assigned(before: Request, after: Request, creep: String)
    requires
        is_joined(before, after, creep),
    ensures
        spec_assigned_to(after, creep@),
        after.status == Status::InProgress,
{
    assert(after.creeps@[after.creeps@.len() - 1] == creep);
}

} // verus!
