use volo_ai::body::BodyPart;
use volo_ai::commons::{Owner, Unit};
use volo_ai::geometry::{Position, RoomName};
use volo_ai::orders::{Order, Outcome, Pending, Sign, Tick};
use volo_ai::resources::Resource;
use volo_ai::tasks::harvest::{better_work, half_capacity, harvest_until_full, is_full, resume_harvest};
use volo_ai::tasks::logistics::{carry, resume_take_from, take_from_structure, withdraw, Bank};
use volo_ai::tasks::moves::{flee, hide_until, idle, move_me, speak};
use volo_ai::tasks::resume::resume;
use volo_ai::tasks::work::{repair, resume_repair, RepairTarget};
use volo_ai::tasks::{Avoid, ObjectId, Task, TaskResult, Walker};
use volo_ai::units::{CreepInfo, PartInfo};

fn room() -> RoomName {
    RoomName { x_coord: 3, y_coord: -8 }
}

fn at(x: u8, y: u8) -> Position {
    Position { room: room(), x, y }
}

fn creep(pos: Position, energy: u32) -> CreepInfo {
    CreepInfo {
        id: ObjectId { packed: 1 },
        name: "worker".to_string(),
        pos,
        hits: 300,
        hits_max: 300,
        ticks_to_live: Some(1000),
        body: vec![
            PartInfo { part: BodyPart::Work, hits: 100, boost: None },
            PartInfo { part: BodyPart::Carry, hits: 100, boost: None },
            PartInfo { part: BodyPart::Move, hits: 100, boost: None },
        ],
        store_used: energy,
        store_capacity: 50,
        store_energy: energy,
        store_free: 50 - energy as i32,
        store_types: if energy > 0 { vec![Resource::Energy] } else { vec![] },
        store: if energy > 0 { vec![(Resource::Energy, energy)] } else { vec![] },
    }
}

fn attacker(pos: Position) -> Unit {
    Unit {
        id: ObjectId { packed: 99 },
        name: "raider".to_string(),
        pos,
        hits: 500,
        hits_max: 500,
        owner: Owner::Player,
        body: vec![PartInfo { part: BodyPart::Attack, hits: 100, boost: None }],
        store_used: 0,
    }
}

#[test]
fn idle_counts_down_then_gives_up() {
    let s = idle(3);
    assert!(matches!(s.result, TaskResult::StillWorking(Task::Idle(2), None)));
    assert!(matches!(s.orders.as_slice(), [Order::Say(Sign::Smoking, true)]));
    let s = idle(0);
    assert!(matches!(s.result, TaskResult::Abort));
    assert!(s.orders.is_empty());
}

#[test]
fn speaking_picks_the_phrase_by_tick() {
    let s = speak(1234);
    assert!(matches!(s.orders.as_slice(), [Order::Say(Sign::Phrase(4), true)]));
    assert_eq!(volo_ai::commons::say_message(1234), "yourself!");
    assert_eq!(volo_ai::commons::say_message(20), "togather!");
}

#[test]
fn move_me_walks_to_the_room_centre_until_inside() {
    let other = RoomName { x_coord: 4, y_coord: -8 };
    let s = move_me(at(10, 10), other, Walker::Exploring(false));
    match s.result {
        TaskResult::StillWorking(Task::MoveMe(r, Walker::Exploring(false)), Some(g)) => {
            assert_eq!(r, other);
            assert_eq!(g.target, Position { room: other, x: 25, y: 25 });
            assert_eq!(g.range, 24);
            assert_eq!(g.avoid, Avoid::Attackers);
        },
        _ => panic!("expected to keep walking"),
    }
    let s = move_me(at(10, 10), room(), Walker::Exploring(false));
    assert!(matches!(s.result, TaskResult::Abort));
}

#[test]
fn hiding_ends_in_idling_at_the_spot() {
    let spot = at(20, 20);
    let s = hide_until(spot, spot, 5);
    assert!(matches!(s.result, TaskResult::StillWorking(Task::Idle(4), None)));
    let s = hide_until(at(1, 1), spot, 5);
    assert!(matches!(s.result, TaskResult::StillWorking(Task::Hide(_, 4), Some(_))));
    let s = hide_until(at(1, 1), spot, 0);
    assert!(matches!(s.result, TaskResult::Abort));
}

#[test]
fn flee_prefers_a_nearer_exit() {
    let me = at(10, 10);
    let hostiles = vec![attacker(at(13, 10))];
    let s = flee(me, 5, &hostiles, Some(at(10, 8)));
    assert!(matches!(s.result, TaskResult::StillWorking(Task::Escape(_), Some(_))));
    let s = flee(me, 5, &hostiles, Some(at(10, 0)));
    match s.result {
        TaskResult::StillWorking(Task::Flee(5), Some(g)) => {
            assert_eq!(g.walker, Walker::Flee);
            assert_eq!(g.target, at(13, 10));
        },
        _ => panic!("expected to flee"),
    }
    let far = vec![attacker(at(30, 30))];
    let s = flee(me, 5, &far, None);
    assert!(matches!(s.result, TaskResult::Abort));
}

#[test]
fn harvest_helpers() {
    assert_eq!(half_capacity(50), 25);
    assert_eq!(half_capacity(0), 0);
    assert!(is_full(48, 50));
    assert!(!is_full(47, 50));
    assert!(better_work(Some(150), 0, 50));
    assert!(better_work(Some(40), 30, 50));
    assert!(!better_work(Some(40), 10, 50));
    assert!(!better_work(None, 50, 50));
}

#[test]
fn harvesting_waits_on_the_intent() {
    let w = at(5, 5);
    let t = harvest_until_full(w, ObjectId { packed: 7 }, &creep(w, 0), Some(Some(200)));
    match t {
        Tick::Await(before, Order::Harvest(id), Pending::Harvest(_, _, better)) => {
            assert_eq!(id, ObjectId { packed: 7 });
            assert!(better);
            assert!(matches!(before.as_slice(), [Order::Say(Sign::Pickaxe, false)]));
        },
        _ => panic!("expected to harvest"),
    }
    let s = resume_harvest(w, ObjectId { packed: 7 }, true, Outcome::NotEnoughResources);
    assert!(matches!(s.result, TaskResult::Abort));
    let s = resume_harvest(w, ObjectId { packed: 7 }, false, Outcome::NotEnoughResources);
    assert!(matches!(s.result, TaskResult::StillWorking(Task::Harvest(_, _), None)));
}

#[test]
fn repair_counts_down_twice_per_repair() {
    let s = resume_repair(ObjectId { packed: 3 }, at(5, 6), 5, Outcome::Done);
    assert!(matches!(s.result, TaskResult::StillWorking(Task::Repair(_, _, 3), None)));
    let s = resume_repair(ObjectId { packed: 3 }, at(5, 6), 2, Outcome::Done);
    assert!(matches!(s.result, TaskResult::ResolveRequest(Task::Repair(_, _, 0))));
    let s = resume_repair(ObjectId { packed: 3 }, at(5, 6), 2, Outcome::NotInRange);
    assert!(matches!(s.result, TaskResult::Abort));
    let s = resume_repair(ObjectId { packed: 3 }, at(5, 6), 2, Outcome::Refused);
    assert!(matches!(s.result, TaskResult::ResolveRequest(Task::Repair(_, _, 2))));
}

#[test]
fn repair_without_energy_stores_progress() {
    let t = repair(ObjectId { packed: 3 }, at(5, 6), 4, &creep(at(5, 5), 0), None);
    assert!(matches!(t, Tick::Done(s) if matches!(s.result, TaskResult::UpdateRequest(Task::Repair(_, _, 4)))));
    let target = Some(RepairTarget { repairable: true, hits: 10, hits_max: 100 });
    let t = repair(ObjectId { packed: 3 }, at(5, 6), 4, &creep(at(5, 5), 20), target);
    assert!(matches!(t, Tick::Await(_, Order::Repair(_), Pending::Repair(_, _, 4))));
}

#[test]
fn withdrawal_retries_once_for_any_amount() {
    let t = resume_take_from(at(9, 9), ObjectId { packed: 4 }, Resource::Energy, Some(500), false, Outcome::NotEnoughResources);
    assert!(matches!(t, Tick::Await(_, Order::Withdraw(_, Resource::Energy, None), Pending::TakeFrom(_, _, _, _, true))));
    let t = resume_take_from(at(9, 9), ObjectId { packed: 4 }, Resource::Energy, Some(500), true, Outcome::NotEnoughResources);
    assert!(matches!(t, Tick::Done(s) if matches!(s.result, TaskResult::Abort)));
    let t = resume_take_from(at(9, 9), ObjectId { packed: 4 }, Resource::Energy, None, true, Outcome::Done);
    assert!(matches!(t, Tick::Done(s) if matches!(s.result, TaskResult::Completed)));
}

#[test]
fn taking_needs_the_amount_in_store() {
    let me = creep(at(9, 8), 0);
    let t = take_from_structure(at(9, 9), ObjectId { packed: 4 }, Resource::Energy, Some(500), &me, Some((at(9, 9), 100)), Avoid::Attackers);
    assert!(matches!(t, Tick::Done(s) if matches!(s.result, TaskResult::Abort)));
    let t = take_from_structure(at(9, 9), ObjectId { packed: 4 }, Resource::Energy, Some(50), &me, Some((at(9, 9), 100)), Avoid::Attackers);
    assert!(matches!(t, Tick::Await(_, Order::Withdraw(_, Resource::Energy, Some(50)), _)));
    let far = creep(Position { room: RoomName { x_coord: 0, y_coord: 0 }, x: 9, y: 9 }, 0);
    let t = take_from_structure(at(9, 9), ObjectId { packed: 4 }, Resource::Energy, None, &far, None, Avoid::Attackers);
    assert!(matches!(t, Tick::Done(s) if matches!(s.result, TaskResult::StillWorking(Task::TakeFromStructure(..), Some(_)))));
}

#[test]
fn withdraw_list_shrinks_after_each_resource() {
    let me = creep(at(9, 8), 0);
    let list = vec![(Resource::Energy, Some(10)), (Resource::Oxygen, None)];
    let t = withdraw(at(9, 9), ObjectId { packed: 4 }, list, &me, Some((at(9, 9), 100)));
    let p = match t {
        Tick::Await(_, Order::Withdraw(_, Resource::Energy, Some(10)), p) => p,
        _ => panic!("expected a withdrawal"),
    };
    match resume(p, Outcome::Done) {
        Tick::Done(s) => match s.result {
            TaskResult::UpdateRequest(Task::Withdraw(_, _, rest)) => {
                assert_eq!(rest, vec![(Resource::Oxygen, None)]);
            },
            _ => panic!("expected the rest to be stored"),
        },
        _ => panic!("expected a decision"),
    }
}

#[test]
fn carry_delivers_what_it_holds() {
    let me = creep(at(20, 21), 40);
    let t = carry(ObjectId { packed: 1 }, ObjectId { packed: 2 }, Resource::Energy, 40, &me, Some((at(20, 20), 1000)), None, None);
    let p = match t {
        Tick::Await(_, Order::Transfer(_, Resource::Energy, Some(40)), p) => p,
        _ => panic!("expected a transfer"),
    };
    match resume(p, Outcome::Done) {
        Tick::Done(s) => assert!(matches!(s.result, TaskResult::ResolveRequest(Task::Carry(_, _, Resource::Energy, 0)))),
        _ => panic!("expected a decision"),
    }
}

#[test]
fn carry_unloads_other_resources_first() {
    let mut me = creep(at(20, 21), 0);
    me.store_types = vec![Resource::Oxygen];
    me.store = vec![(Resource::Oxygen, 30)];
    me.store_used = 30;
    let bank = Some(Bank { pos: at(21, 21), id: ObjectId { packed: 9 }, free: 10_000 });
    let t = carry(ObjectId { packed: 1 }, ObjectId { packed: 2 }, Resource::Energy, 40, &me, None, bank, None);
    assert!(matches!(t, Tick::Await(_, Order::Transfer(_, Resource::Oxygen, None), Pending::InCarryOther(..))));
}

#[test]
fn idling_from_three_ends_after_four_ticks() {
    let mut task = Task::Idle(3);
    let mut ticks = 0;
    loop {
        let s = match task {
            Task::Idle(t) => idle(t),
            _ => unreachable!(),
        };
        ticks += 1;
        match s.result {
            TaskResult::StillWorking(next, None) => task = next,
            TaskResult::Abort => break,
            _ => panic!("idling only counts down or gives up"),
        }
    }
    assert_eq!(ticks, 4);
}
