use volo_ai::body::BodyPart;
use volo_ai::commons::{Owner, Unit};
use volo_ai::geometry::{Position, RoomName};
use volo_ai::objects::StructureKind;
use volo_ai::orders::{Order, Sign};
use volo_ai::tasks::combat::{
    any_caravan_cargo, any_in_range_structure, closest_building, crash, defend, defend_home, find_fastest_keeper_lair_spawn,
    first_closest, get_closest_walkable_rampart, min_distance, oversee, protect, Building, Pick,
};
use volo_ai::tasks::{Avoid, MovementGoal, ObjectId, Task, TaskResult, Walker};
use volo_ai::units::{CreepInfo, PartInfo};

fn room() -> RoomName {
    RoomName { x_coord: -2, y_coord: 4 }
}

fn at(x: u8, y: u8) -> Position {
    Position { room: room(), x, y }
}

fn id(n: u128) -> ObjectId {
    ObjectId { packed: n }
}

fn part(p: BodyPart) -> PartInfo {
    PartInfo { part: p, hits: 100, boost: None }
}

fn unit(n: u128, pos: Position, owner: Owner, body: Vec<PartInfo>, store_used: u32) -> Unit {
    Unit { id: id(n), name: format!("u{n}"), pos, hits: 100, hits_max: 100, owner, body, store_used }
}

fn me(pos: Position) -> CreepInfo {
    CreepInfo {
        id: id(1000),
        name: "guard".to_string(),
        pos,
        hits: 1000,
        hits_max: 1000,
        ticks_to_live: Some(1000),
        body: vec![part(BodyPart::Attack), part(BodyPart::Move)],
        store_used: 0,
        store_capacity: 0,
        store_energy: 0,
        store_free: 0,
        store_types: vec![],
        store: vec![],
    }
}

#[test]
fn first_closest_picks_by_kind() {
    let units = vec![
        unit(1, at(20, 20), Owner::Caravan, vec![part(BodyPart::Carry)], 100),
        unit(2, at(12, 10), Owner::SourceKeeper, vec![part(BodyPart::Attack)], 0),
        unit(3, at(11, 10), Owner::Caravan, vec![part(BodyPart::Heal)], 0),
        unit(4, at(30, 30), Owner::SourceKeeper, vec![part(BodyPart::Attack)], 0),
    ];
    assert_eq!(first_closest(at(10, 10), &units, Pick::SourceKeeper), Some(1));
    assert_eq!(first_closest(at(10, 10), &units, Pick::CaravanHealer), Some(2));
    assert_eq!(first_closest(at(10, 10), &units, Pick::CaravanCargo), Some(0));
    assert_eq!(any_caravan_cargo(&units), Some(0));
    assert_eq!(any_caravan_cargo(&units[1..]), None);
}

#[test]
fn the_lair_spawning_first_wins() {
    let lairs = [(at(1, 1), Some(100)), (at(2, 2), Some(20)), (at(3, 3), Some(20))];
    assert_eq!(find_fastest_keeper_lair_spawn(&lairs), Some(1));
    assert_eq!(find_fastest_keeper_lair_spawn(&[]), None);
}

#[test]
fn ramparts_closest_to_the_enemy() {
    let hostiles = vec![unit(1, at(25, 5), Owner::Player, vec![part(BodyPart::Attack)], 0)];
    assert_eq!(min_distance(at(25, 10), &hostiles), Some(5));
    assert_eq!(min_distance(at(25, 10), &[]), None);
    let ramparts = [(at(25, 10), true), (at(25, 7), false), (at(25, 8), true)];
    assert_eq!(get_closest_walkable_rampart(at(0, 0), &ramparts, &hostiles), Some(2));
    assert_eq!(get_closest_walkable_rampart(at(25, 7), &ramparts, &hostiles), Some(1));
    assert_eq!(get_closest_walkable_rampart(at(0, 0), &ramparts, &[]), None);
}

#[test]
fn defending_home_hits_an_adjacent_hostile() {
    let hostiles = vec![
        unit(1, at(15, 15), Owner::Player, vec![part(BodyPart::Attack)], 0),
        unit(2, at(11, 10), Owner::Player, vec![part(BodyPart::Attack)], 0),
    ];
    let s = defend_home(&me(at(10, 10)), &hostiles, Some(at(10, 11)));
    assert!(matches!(&s.result, TaskResult::StillWorking(Task::DefendHome, Some(g))
        if *g == MovementGoal { walker: Walker::Aggressive, target: at(10, 11), range: 0, avoid: Avoid::Hostiles }));
    assert!(matches!(s.orders.as_slice(), [Order::Attack(x)] if *x == id(2)));
    let quiet = defend_home(&me(at(10, 10)), &[], None);
    assert!(matches!(quiet.result, TaskResult::StillWorking(Task::DefendHome, None)));
    assert!(quiet.orders.is_empty());
}

#[test]
fn buildings_by_kind_and_range() {
    let bs = [
        Building { id: id(1), pos: at(20, 20), kind: StructureKind::Tower, attackable: true },
        Building { id: id(2), pos: at(12, 12), kind: StructureKind::Spawn, attackable: true },
        Building { id: id(3), pos: at(11, 11), kind: StructureKind::Tower, attackable: true },
        Building { id: id(4), pos: at(9, 9), kind: StructureKind::Wall, attackable: false },
    ];
    assert_eq!(closest_building(at(10, 10), &bs, true), Some(2));
    assert_eq!(closest_building(at(10, 10), &bs, false), Some(1));
    assert_eq!(any_in_range_structure(at(10, 10), &bs), Some(1));
    assert_eq!(any_in_range_structure(at(40, 40), &bs), None);
}

#[test]
fn crashing_an_invader_core() {
    let core = at(30, 30);
    let far = crash(id(5), core, &me(at(10, 10)), true);
    assert!(matches!(far.result, TaskResult::StillWorking(Task::Crash(_, _), Some(_))));
    let near = crash(id(5), core, &me(at(29, 29)), true);
    assert!(matches!(near.orders.as_slice(), [Order::Say(Sign::Boxing, true), Order::Attack(x)] if *x == id(5)));
    let gone = crash(id(5), core, &me(at(29, 29)), false);
    assert!(matches!(gone.result, TaskResult::ResolveRequest(Task::Crash(_, _))));
    let away = Position { room: RoomName { x_coord: 0, y_coord: 0 }, x: 30, y: 30 };
    let elsewhere = crash(id(5), away, &me(at(29, 29)), true);
    assert!(matches!(elsewhere.result, TaskResult::RunAnother(Task::MoveMe(r, Walker::Aggressive)) if r == away.room));
}

#[test]
fn a_requested_defence_ends_without_attackers() {
    let done = defend(room(), true, &me(at(10, 10)), &[], &[]);
    assert!(matches!(done.result, TaskResult::ResolveRequest(Task::Defend(_, true))));
    let rest = defend(room(), false, &me(at(10, 10)), &[], &[]);
    assert!(matches!(rest.result, TaskResult::Completed));
    assert!(matches!(rest.orders.as_slice(), [Order::Say(Sign::Smoking, false), Order::Heal(x)] if *x == id(1000)));
}

#[test]
fn overseers_wait_by_the_next_lair() {
    let lair = at(40, 40);
    let s = oversee(room(), None, &me(at(10, 10)), &[], Some(lair));
    assert!(matches!(s.result, TaskResult::StillWorking(Task::Oversee(_, Some((p, 1))), Some(_)) if p == lair));
    let keeper = vec![unit(7, at(11, 11), Owner::SourceKeeper, vec![part(BodyPart::Attack)], 0)];
    let s = oversee(room(), None, &me(at(10, 10)), &keeper, Some(lair));
    assert!(matches!(s.result, TaskResult::StillWorking(Task::Oversee(_, Some((p, 0))), Some(_)) if p == at(11, 11)));
    let idle = oversee(room(), None, &me(at(10, 10)), &[], None);
    assert!(matches!(idle.result, TaskResult::Completed));
}

fn raider(pos: Position, hits: u32) -> CreepInfo {
    let mut c = me(pos);
    c.hits = hits;
    c.body = vec![part(BodyPart::RangedAttack), part(BodyPart::Heal), part(BodyPart::Move)];
    c
}

#[test]
fn protectors_go_for_towers_first() {
    let bs = [
        Building { id: id(1), pos: at(30, 30), kind: StructureKind::Spawn, attackable: true },
        Building { id: id(2), pos: at(12, 10), kind: StructureKind::Tower, attackable: true },
    ];
    let s = protect(room(), None, &raider(at(10, 10), 1000), &[], &bs, &[], None, at(0, 10));
    assert!(matches!(&s.result, TaskResult::StillWorking(Task::Protect(_, Some(p)), Some(g)) if *p == at(12, 10) && g.walker == Walker::Berserk));
    assert!(matches!(s.orders.as_slice(), [Order::RangedAttack(x)] if *x == id(2)));
    let s = protect(room(), None, &raider(at(10, 10), 1000), &[], &bs[..1], &[], None, at(0, 10));
    assert!(matches!(&s.result, TaskResult::StillWorking(Task::Protect(_, Some(p)), Some(_)) if *p == at(30, 30)));
    assert!(s.orders.is_empty());
}

#[test]
fn hurt_protectors_retreat_shooting() {
    let bs = [Building { id: id(3), pos: at(11, 11), kind: StructureKind::Wall, attackable: true }];
    let s = protect(room(), None, &raider(at(10, 10), 500), &[], &bs, &[], None, at(0, 10));
    assert!(matches!(&s.result, TaskResult::StillWorking(Task::Protect(_, None), Some(g)) if g.target == at(0, 10)));
    assert!(matches!(s.orders.as_slice(), [Order::RangedAttack(x)] if *x == id(3)));
    let outside = Position { room: RoomName { x_coord: -3, y_coord: 4 }, x: 20, y: 20 };
    let s = protect(room(), None, &raider(outside, 500), &[], &[], &[], None, at(0, 10));
    assert!(matches!(s.orders.as_slice(), [Order::Heal(x), Order::RangedMassAttack] if *x == id(1000)));
}

#[test]
fn a_cleared_room_ends_the_raid() {
    let s = protect(room(), None, &raider(at(10, 10), 1000), &[], &[], &[], None, at(0, 10));
    assert!(matches!(s.result, TaskResult::Completed));
    let away = Position { room: RoomName { x_coord: -3, y_coord: 4 }, x: 20, y: 20 };
    let s = protect(room(), None, &raider(away, 1000), &[], &[], &[], None, at(0, 10));
    assert!(matches!(s.result, TaskResult::RunAnother(Task::MoveMe(r, Walker::Aggressive)) if r == room()));
}
