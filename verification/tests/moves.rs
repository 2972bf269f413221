use volo_ai::body::BodyPart;
use volo_ai::commons::{Owner, Unit};
use volo_ai::geometry::{Position, RoomName};
use volo_ai::orders::{Order, Sign};
use volo_ai::tasks::moves::{escape, portal, provoke};
use volo_ai::tasks::{Avoid, MovementGoal, ObjectId, Task, TaskResult, Walker};
use volo_ai::units::PartInfo;

fn room(x: i32) -> RoomName {
    RoomName { x_coord: x, y_coord: 0 }
}

fn at(x: u8, y: u8) -> Position {
    Position { room: room(0), x, y }
}

fn hostile(pos: Position, hits: u32) -> Unit {
    Unit {
        id: ObjectId { packed: 3 },
        name: "x".to_string(),
        pos,
        hits: 100,
        hits_max: 100,
        owner: Owner::Player,
        body: vec![PartInfo { part: BodyPart::RangedAttack, hits, boost: None }],
        store_used: 0,
    }
}

#[test]
fn portals_are_walked_into() {
    let s = portal(at(30, 30));
    assert!(matches!(s.result, TaskResult::StillWorking(Task::Portal(p), Some(g))
        if p == at(30, 30) && g == MovementGoal { walker: Walker::Exploring(false), target: at(30, 30), range: 0, avoid: Avoid::Nobody }));
    assert!(s.orders.is_empty());
}

#[test]
fn escaping_across_a_border_hides() {
    let s = escape(at(0, 20), Position { room: room(-1), x: 49, y: 20 }, Some(at(5, 20)));
    assert!(matches!(s.result, TaskResult::StillWorking(Task::Hide(p, 10), Some(_)) if p == at(5, 20)));
    assert!(matches!(s.orders.as_slice(), [Order::Say(Sign::Quiet, false)]));
    let s = escape(at(0, 20), Position { room: room(-1), x: 49, y: 20 }, None);
    assert!(matches!(s.result, TaskResult::Abort));
    let s = escape(at(10, 20), at(0, 20), None);
    assert!(matches!(s.result, TaskResult::StillWorking(Task::Escape(p), Some(_)) if p == at(0, 20)));
    assert!(matches!(s.orders.as_slice(), [Order::Say(Sign::Running, true)]));
}

#[test]
fn provoking_holds_the_range() {
    let far = [hostile(at(30, 10), 100)];
    let s = provoke(at(10, 10), 3, 7, &far, 0);
    assert!(matches!(s.result, TaskResult::StillWorking(Task::Provoke(5, 7), Some(g)) if g.range == 7 && g.walker == Walker::Exploring(false)));
    let near = [hostile(at(13, 10), 100)];
    let s = provoke(at(10, 10), 3, 7, &near, 0);
    assert!(matches!(s.result, TaskResult::StillWorking(Task::Provoke(5, 10), Some(g)) if g.walker == Walker::Flee));
    let held = [hostile(at(17, 10), 100)];
    let s = provoke(at(10, 10), 3, 7, &held, 0);
    assert!(matches!(s.result, TaskResult::StillWorking(Task::Provoke(2, 7), None)));
    let s = provoke(at(10, 10), 0, 7, &held, 0);
    assert!(matches!(s.result, TaskResult::StillWorking(Task::Provoke(5, 6), None)));
    let talk = [hostile(at(15, 10), 100)];
    let s = provoke(at(10, 10), 3, 5, &talk, 12);
    assert!(matches!(s.orders.as_slice(), [Order::Say(Sign::Phrase(2), true)]));
    let broken = [hostile(at(17, 10), 0)];
    let s = provoke(at(10, 10), 3, 7, &broken, 0);
    assert!(matches!(s.result, TaskResult::Completed));
    assert!(matches!(s.orders.as_slice(), [Order::Say(Sign::Smoking, true)]));
}
