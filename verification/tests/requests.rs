use volo_ai::geometry::{Position, RoomName};
use volo_ai::requests::{
    find_earliest, find_first, find_most_damaged, join_at, join_squad_at, names_are_distinct, squads_listed_once, str_eq, KindTag, Request, RequestKind, Squad, Status,
};
use volo_ai::roles::services::house_keeper::get_new_job;
use volo_ai::tasks::ObjectId;

fn at(x: u8, y: u8) -> Position {
    Position { room: RoomName { x_coord: 0, y_coord: 0 }, x, y }
}

fn id(n: u128) -> ObjectId {
    ObjectId { packed: n }
}

fn request(kind: RequestKind, status: Status, created_at: u32, creeps: &[&str]) -> Request {
    Request { kind, status, created_at, creeps: creeps.iter().map(|c| c.to_string()).collect(), squads: vec![] }
}

fn repair(hits: u32, status: Status) -> Request {
    request(RequestKind::Repair { id: id(hits as u128), pos: at(1, 1), attempts_max: 3, hits }, status, 0, &[])
}

#[test]
fn first_matching_request_by_kind_status_and_assignee() {
    let rs = vec![
        request(RequestKind::Book { id: id(1), pos: at(1, 1) }, Status::Spawning, 5, &[]),
        request(RequestKind::Claim { id: id(2), pos: at(2, 2) }, Status::InProgress, 3, &["bob"]),
        request(RequestKind::Claim { id: id(3), pos: at(3, 3) }, Status::InProgress, 1, &["ann"]),
    ];
    let found = find_first(&rs, &[KindTag::Claim], &[Status::InProgress], Some("ann"));
    assert!(matches!(found.map(|r| &r.kind), Some(RequestKind::Claim { id: x, .. }) if *x == id(3)));
    let any = find_first(&rs, &[KindTag::Claim], &[Status::InProgress], None);
    assert!(matches!(any.map(|r| &r.kind), Some(RequestKind::Claim { id: x, .. }) if *x == id(2)));
    assert!(find_first(&rs, &[KindTag::Book], &[Status::InProgress], None).is_none());
    assert!(find_first(&rs, &[], &[Status::Spawning], None).is_none());
}

#[test]
fn squads_count_as_assignees() {
    let mut r = request(RequestKind::Powerbank { pos: at(5, 5), id: id(9) }, Status::InProgress, 0, &[]);
    r.squads = vec![Squad { id: "s1".to_string(), members: vec!["a".to_string()] }];
    assert!(r.assigned_to("s1"));
    assert!(!r.assigned_to("a"));
    let rs = vec![r];
    assert!(find_first(&rs, &[KindTag::Powerbank], &[Status::InProgress], Some("s1")).is_some());
}

#[test]
fn earliest_request_wins_and_ties_keep_order() {
    let rs = vec![
        request(RequestKind::Pickup { id: id(1) }, Status::Created, 9, &[]),
        request(RequestKind::Pickup { id: id(2) }, Status::Created, 4, &[]),
        request(RequestKind::Pickup { id: id(3) }, Status::Created, 4, &[]),
        request(RequestKind::Pickup { id: id(4) }, Status::Carry, 1, &[]),
    ];
    let e = find_earliest(&rs, &[KindTag::Pickup], &[Status::Created]);
    assert!(matches!(e.map(|r| &r.kind), Some(RequestKind::Pickup { id: x }) if *x == id(2)));
    assert!(find_earliest(&rs, &[KindTag::Claim], &[Status::Created]).is_none());
}

#[test]
fn most_damaged_repair_first() {
    let rs = vec![repair(500, Status::Created), repair(100, Status::Created), repair(50, Status::InProgress)];
    let d = find_most_damaged(&rs, &[Status::Created]);
    assert!(matches!(d.map(|r| &r.kind), Some(RequestKind::Repair { hits: 100, .. })));
    let d = find_most_damaged(&rs, &[Status::Created, Status::InProgress]);
    assert!(matches!(d.map(|r| &r.kind), Some(RequestKind::Repair { hits: 50, .. })));
}

#[test]
fn string_equality() {
    assert!(str_eq("abc", "abc"));
    assert!(!str_eq("abc", "abd"));
    assert!(!str_eq("ab", "abc"));
    assert!(str_eq("", ""));
}

#[test]
fn joining_assigns_the_creep_and_keeps_the_rest() {
    let mut rs = vec![
        request(RequestKind::Book { id: id(1), pos: at(1, 1) }, Status::Created, 5, &[]),
        request(RequestKind::Build { id: Some(id(2)), pos: at(2, 2) }, Status::Created, 3, &["ann"]),
        request(RequestKind::Claim { id: id(3), pos: at(3, 3) }, Status::Spawning, 1, &[]),
    ];
    join_at(&mut rs, 1, "bob".to_string());
    assert_eq!(rs.len(), 3);
    assert_eq!(rs[1].status, Status::InProgress);
    assert_eq!(rs[1].creeps, vec!["ann".to_string(), "bob".to_string()]);
    assert_eq!(rs[1].created_at, 3);
    assert!(matches!(rs[1].kind, RequestKind::Build { id: Some(x), .. } if x == id(2)));
    assert_eq!(rs[0].status, Status::Created);
    assert!(rs[0].creeps.is_empty());
    assert_eq!(rs[2].status, Status::Spawning);
    let mine = find_first(&rs, &[KindTag::Build], &[Status::InProgress], Some("bob"));
    assert!(mine.is_some());
}

#[test]
fn house_keepers_build_first_then_repair_the_weakest() {
    let mut rs = vec![repair(300, Status::Created), repair(100, Status::Created), repair(50, Status::InProgress)];
    let job = get_new_job(&rs);
    assert!(matches!(job.map(|r| &r.kind), Some(RequestKind::Repair { hits: 100, .. })));
    rs.push(request(RequestKind::Build { id: None, pos: at(4, 4) }, Status::Created, 9, &[]));
    rs.push(request(RequestKind::Build { id: None, pos: at(5, 5) }, Status::Created, 7, &[]));
    let job = get_new_job(&rs);
    assert!(matches!(job.map(|r| &r.kind), Some(RequestKind::Build { pos, .. }) if *pos == at(5, 5)));
    assert!(get_new_job(&[repair(10, Status::InProgress)]).is_none());
}

fn names(ns: &[&str]) -> Vec<String> {
    ns.iter().map(|n| n.to_string()).collect()
}

#[test]
fn squads_take_each_member_once() {
    let mut s = Squad { id: "alpha".to_string(), members: names(&["a1"]) };
    s.add_member("a2".to_string());
    s.add_member("a1".to_string());
    assert_eq!(s.members, names(&["a1", "a2"]));
    assert!(names_are_distinct(&s.members));
    assert!(!names_are_distinct(&names(&["x", "y", "x"])));
    assert!(squads_listed_once(&[s.clone()]));
    assert!(!squads_listed_once(&[s, Squad { id: "b".to_string(), members: names(&["z", "z"]) }]));
}

#[test]
fn joining_with_a_squad_adds_the_creep_to_that_squad_only() {
    let mut pb = request(RequestKind::Powerbank { pos: at(5, 5), id: id(3) }, Status::Carry, 2, &[]);
    pb.squads = vec![
        Squad { id: "other".to_string(), members: names(&["z"]) },
        Squad { id: "alpha".to_string(), members: names(&["a1"]) },
    ];
    let mut rs = vec![repair(10, Status::Created), pb];
    join_squad_at(&mut rs, 1, "alpha", "a2".to_string());
    assert_eq!(rs[1].squads[1].members, names(&["a1", "a2"]));
    assert_eq!(rs[1].squads[0].members, names(&["z"]));
    assert_eq!(rs[1].status, Status::Carry);
    assert!(rs[1].creeps.is_empty());
    join_squad_at(&mut rs, 1, "alpha", "a2".to_string());
    assert_eq!(rs[1].squads[1].members, names(&["a1", "a2"]));
    join_squad_at(&mut rs, 1, "missing", "q".to_string());
    assert_eq!(rs[1].squads.len(), 2);
    assert_eq!(rs[0].status, Status::Created);
}
