use volo_ai::body::BodyPart;
use volo_ai::geometry::{Position, RoomName};
use volo_ai::orders::{Order, Outcome, Pending, Sign, Tick};
use volo_ai::resources::Resource;
use volo_ai::tasks::logistics::{fill_structure, generate_safe_mode, get_resource, has_enough_or_full, resume_safe_mode};
use volo_ai::tasks::resume::{can_resume, resume};
use volo_ai::tasks::work::{build, claim, dismantle, pick_partner, resume_claim, upgrade};
use volo_ai::tasks::{FillTarget, ObjectId, Task, TaskResult, Walker};
use volo_ai::units::{CreepInfo, PartInfo};

fn room() -> RoomName {
    RoomName { x_coord: 7, y_coord: 7 }
}

fn at(x: u8, y: u8) -> Position {
    Position { room: room(), x, y }
}

fn id(n: u128) -> ObjectId {
    ObjectId { packed: n }
}

fn worker(pos: Position, store: Vec<(Resource, u32)>) -> CreepInfo {
    let used: u32 = store.iter().map(|(_, n)| *n).sum();
    let energy = store.iter().filter(|(r, _)| *r == Resource::Energy).map(|(_, n)| *n).sum();
    CreepInfo {
        id: id(1),
        name: "w".to_string(),
        pos,
        hits: 300,
        hits_max: 300,
        ticks_to_live: Some(500),
        body: vec![
            PartInfo { part: BodyPart::Work, hits: 100, boost: None },
            PartInfo { part: BodyPart::Carry, hits: 100, boost: None },
            PartInfo { part: BodyPart::Move, hits: 100, boost: None },
        ],
        store_used: used,
        store_capacity: 2000,
        store_energy: energy,
        store_free: 2000 - used as i32,
        store_types: store.iter().map(|(r, _)| *r).collect(),
        store,
    }
}

#[test]
fn building_near_a_site() {
    let s = build(Some(id(5)), at(12, 10), &worker(at(10, 10), vec![(Resource::Energy, 50)]), true);
    assert!(matches!(s.orders.as_slice(), [Order::Say(Sign::Hammer, false), Order::Build(x)] if *x == id(5)));
    assert!(matches!(s.result, TaskResult::StillWorking(Task::Build(..), None)));
    let empty = build(Some(id(5)), at(12, 10), &worker(at(10, 10), vec![]), true);
    assert!(matches!(empty.result, TaskResult::Abort));
    assert!(empty.orders.is_empty());
    let far = build(Some(id(5)), at(20, 10), &worker(at(10, 10), vec![(Resource::Energy, 50)]), true);
    assert!(matches!(far.result, TaskResult::StillWorking(Task::Build(..), Some(g)) if g.range == 3 && g.walker == Walker::Reinforcing));
    assert!(far.orders.is_empty());
}

#[test]
fn upgrading_waits_on_the_intent() {
    let me = worker(at(10, 10), vec![(Resource::Energy, 10)]);
    let t = upgrade(id(9), Some(id(4)), &me, Some(at(12, 12)), true);
    assert!(matches!(t, Tick::Await(ref v, Order::UpgradeController(x), Pending::Upgrade(_, Some(_), Some(r)))
        if v.is_empty() && x == id(9) && r == id(4)));
    let none = upgrade(id(9), None, &me, None, false);
    assert!(matches!(none, Tick::Done(s) if matches!(s.result, TaskResult::Abort)));
}

#[test]
fn claiming_resolves_on_success() {
    let me = worker(at(10, 10), vec![]);
    let t = claim(id(3), at(11, 11), &me, true);
    assert!(matches!(t, Tick::Await(_, Order::ClaimController(_), Pending::Claim(..))));
    assert!(matches!(resume_claim(id(3), at(11, 11), Outcome::Done).result, TaskResult::ResolveRequest(Task::Claim(..))));
    assert!(matches!(resume_claim(id(3), at(11, 11), Outcome::NotInRange).result, TaskResult::StillWorking(Task::Claim(..), None)));
    let gone = claim(id(3), at(11, 11), &me, false);
    assert!(matches!(gone, Tick::Done(s) if matches!(s.result, TaskResult::Abort)));
}

#[test]
fn dismantlers_ask_to_be_pulled() {
    let me = worker(at(10, 10), vec![]);
    let away = dismantle(id(2), at(20, 20), &me, Some(true));
    assert!(matches!(&away.result, TaskResult::AddNewRequest(Task::Dismantle(..), Task::PullTo(n, p), Some(_)) if n == "w" && *p == at(20, 20)));
    let there = dismantle(id(2), at(10, 10), &me, Some(true));
    assert!(matches!(there.orders.as_slice(), [Order::Dismantle(x)] if *x == id(2)));
    let done = dismantle(id(2), at(10, 10), &me, None);
    assert!(matches!(done.result, TaskResult::ResolveRequest(Task::Dismantle(..))));
}

#[test]
fn filling_next_to_the_structure() {
    let target = FillTarget { pos: at(11, 10), id: id(8) };
    let s = fill_structure(target, &worker(at(10, 10), vec![(Resource::Energy, 50)]));
    assert!(matches!(s.result, TaskResult::Completed));
    assert!(matches!(s.orders.as_slice(), [Order::Say(Sign::Valve, false), Order::Transfer(x, Resource::Energy, None)] if *x == id(8)));
    let s = fill_structure(target, &worker(at(30, 10), vec![(Resource::Energy, 50)]));
    assert!(matches!(s.result, TaskResult::StillWorking(Task::DeliverToStructure(..), Some(_))));
    assert!(matches!(s.orders.as_slice(), [Order::Say(Sign::WalkingToFill, false)]));
}

#[test]
fn safe_mode_needs_a_thousand_ghodium() {
    let poor = worker(at(10, 10), vec![(Resource::Ghodium, 999)]);
    let t = generate_safe_mode(at(11, 11), id(1), id(2), &poor, Some(at(11, 11)), Some(at(15, 15)));
    assert!(matches!(t, Tick::Done(s)
        if matches!(s.result, TaskResult::StillWorking(Task::TakeFromStructure(p, _, Resource::Ghodium, Some(1000)), _) if p == at(15, 15))));
    let rich = worker(at(10, 10), vec![(Resource::Ghodium, 1000)]);
    let t = generate_safe_mode(at(11, 11), id(1), id(2), &rich, Some(at(11, 11)), None);
    assert!(matches!(t, Tick::Await(_, Order::GenerateSafeMode(_), Pending::SafeMode(..))));
    assert!(matches!(resume_safe_mode(at(11, 11), id(1), id(2), Outcome::Refused).result, TaskResult::Abort));
}

#[test]
fn store_helpers() {
    let me = worker(at(10, 10), vec![(Resource::Energy, 100), (Resource::Utrium, 5)]);
    assert!(has_enough_or_full(&me, Resource::Energy, 100));
    assert!(!has_enough_or_full(&me, Resource::Energy, 101));
    assert_eq!(get_resource(&me.store_types, Resource::Energy), Some(Resource::Utrium));
    assert_eq!(get_resource(&[Resource::Energy], Resource::Energy), None);
}

#[test]
fn partners_are_the_other_members() {
    let members = vec!["a".to_string(), "b".to_string()];
    assert_eq!(pick_partner(&members, "a"), Some(1));
    assert_eq!(pick_partner(&members, "b"), Some(0));
    assert_eq!(pick_partner(&["a".to_string()], "a"), None);
}

#[test]
fn resuming_checks_nested_intents() {
    let inner = Pending::TakeFrom(at(1, 1), id(1), Resource::Energy, None, false);
    let nested = Pending::InWithdraw(at(1, 1), id(1), vec![(Resource::Energy, None)], Box::new(inner));
    assert!(can_resume(&nested, Outcome::Done));
    assert!(can_resume(&Pending::Repair(id(1), at(1, 1), 2), Outcome::Done));
    assert!(!can_resume(&Pending::Repair(id(1), at(1, 1), 1), Outcome::Done));
    assert!(can_resume(&Pending::Repair(id(1), at(1, 1), 1), Outcome::Refused));
    let twice = Pending::InWithdraw(
        at(1, 1),
        id(1),
        vec![],
        Box::new(Pending::InWithdraw(at(1, 1), id(1), vec![], Box::new(Pending::Pickup(id(1))))),
    );
    assert!(!can_resume(&twice, Outcome::Done));
    let again = resume(Pending::TakeFrom(at(1, 1), id(1), Resource::Energy, None, false), Outcome::NotEnoughResources);
    assert!(matches!(again, Tick::Await(_, Order::Withdraw(_, Resource::Energy, None), Pending::TakeFrom(_, _, _, _, true))));
}
