use volo_ai::geometry::{Position, RoomName};
use volo_ai::resources::Resource;
use volo_ai::tasks::deposit::{deposit_carry, loaded_tomb, TombStore};
use volo_ai::tasks::powerbank::find_ruin;
use volo_ai::tasks::{ObjectId, Task, TaskResult, Walker};
use volo_ai::units::CreepInfo;

fn room() -> RoomName {
    RoomName { x_coord: 10, y_coord: -20 }
}

fn at(x: u8, y: u8) -> Position {
    Position { room: room(), x, y }
}

fn id(n: u128) -> ObjectId {
    ObjectId { packed: n }
}

fn hauler(pos: Position, ttl: u32, store: Vec<(Resource, u32)>) -> CreepInfo {
    let used: u32 = store.iter().map(|(_, n)| *n).sum();
    CreepInfo {
        id: id(1),
        name: "h".to_string(),
        pos,
        hits: 100,
        hits_max: 100,
        ticks_to_live: Some(ttl),
        body: vec![],
        store_used: used,
        store_capacity: 500,
        store_energy: 0,
        store_free: 500 - used as i32,
        store_types: store.iter().map(|(r, _)| *r).collect(),
        store,
    }
}

#[test]
fn full_haulers_bring_goods_home() {
    let home_store = Some((at(25, 25), id(9)));
    let full = hauler(at(10, 10), 1000, vec![(Resource::Silicon, 500)]);
    let s = deposit_carry(at(12, 12), &full, &[], home_store, None, None);
    assert!(matches!(s.result, TaskResult::StillWorking(Task::DeliverToStructure(p, c, Resource::Silicon, None), Some(_))
        if p == at(25, 25) && c == id(9)));
    let old = hauler(at(10, 10), 199, vec![(Resource::Silicon, 5)]);
    let s = deposit_carry(at(12, 12), &old, &[], home_store, None, None);
    assert!(matches!(s.result, TaskResult::StillWorking(Task::DeliverToStructure(..), _)));
    let s = deposit_carry(at(12, 12), &full, &[], None, None, None);
    assert!(matches!(s.result, TaskResult::Abort));
}

#[test]
fn empty_haulers_loot_then_follow_then_wait() {
    let empty = hauler(at(10, 10), 1000, vec![]);
    let tomb = Some((at(14, 14), id(4), Resource::Mist));
    let s = deposit_carry(at(12, 12), &empty, &[], None, tomb, None);
    assert!(matches!(s.result, TaskResult::StillWorking(Task::TakeFromStructure(p, t, Resource::Mist, None), _) if p == at(14, 14) && t == id(4)));
    let s = deposit_carry(at(12, 12), &empty, &[], None, None, Some(at(13, 13)));
    assert!(matches!(s.result, TaskResult::StillWorking(Task::DepositCarry(_), Some(g)) if g.walker == Walker::Exploring(true) && g.target == at(13, 13)));
    let s = deposit_carry(at(12, 12), &empty, &[], None, None, None);
    assert!(matches!(s.result, TaskResult::StillWorking(Task::Idle(1), None)));
    let s = deposit_carry(at(40, 40), &empty, &[], None, None, None);
    assert!(matches!(s.result, TaskResult::StillWorking(Task::DepositCarry(_), Some(g)) if g.range == 4));
    assert!(s.orders.is_empty());
}

#[test]
fn loot_and_leftovers() {
    let tombs = [
        TombStore { pos: at(1, 1), id: id(1), types: vec![Resource::Energy] },
        TombStore { pos: at(2, 2), id: id(2), types: vec![Resource::Energy, Resource::Biomass] },
    ];
    assert_eq!(loaded_tomb(&tombs), Some((at(2, 2), id(2), Resource::Biomass)));
    assert_eq!(loaded_tomb(&tombs[..1]), None);
    let ruins = [(at(1, 1), id(1), 0), (at(2, 2), id(2), 40)];
    assert_eq!(find_ruin(&ruins), Some((at(2, 2), id(2), 40)));
    assert_eq!(find_ruin(&ruins[..1]), None);
}
