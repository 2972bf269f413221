use volo_ai::body::BodyPart;
use volo_ai::commons::{Owner, Unit};
use volo_ai::geometry::{Position, RoomName};
use volo_ai::orders::{Order, Sign};
use volo_ai::resources::Resource;
use volo_ai::tasks::harvest::{harvest_energy_forever, transfer_or_drop, MinerSurroundings, NearStore};
use volo_ai::tasks::{ObjectId, Task, TaskResult, Walker};
use volo_ai::units::{CreepInfo, PartInfo};

fn room() -> RoomName {
    RoomName { x_coord: 2, y_coord: 2 }
}

fn at(x: u8, y: u8) -> Position {
    Position { room: room(), x, y }
}

fn id(n: u128) -> ObjectId {
    ObjectId { packed: n }
}

fn miner(pos: Position, energy: u32) -> CreepInfo {
    CreepInfo {
        id: id(1),
        name: "m".to_string(),
        pos,
        hits: 300,
        hits_max: 300,
        ticks_to_live: Some(1000),
        body: vec![
            PartInfo { part: BodyPart::Work, hits: 100, boost: None },
            PartInfo { part: BodyPart::Carry, hits: 100, boost: None },
            PartInfo { part: BodyPart::Move, hits: 100, boost: None },
        ],
        store_used: energy,
        store_capacity: 50,
        store_energy: energy,
        store_free: 50 - energy as i32,
        store_types: if energy > 0 { vec![Resource::Energy] } else { vec![] },
        store: if energy > 0 { vec![(Resource::Energy, energy)] } else { vec![] },
    }
}

fn around(link: Option<ObjectId>, container: Option<(ObjectId, u32, u32)>, site: Option<ObjectId>) -> MinerSurroundings {
    MinerSurroundings { source_found: true, link, container, site, near: None }
}

fn run(me: &CreepInfo, a: MinerSurroundings, hostiles: &[Unit]) -> (TaskResult, Vec<Order>) {
    let s = harvest_energy_forever(at(10, 10), id(5), me, Some(room()), false, hostiles, None, a);
    (s.result, s.orders)
}

#[test]
fn a_half_full_miner_feeds_the_link() {
    let (r, o) = run(&miner(at(10, 10), 30), around(Some(id(7)), Some((id(8), 250_000, 250_000)), None), &[]);
    assert!(matches!(r, TaskResult::StillWorking(Task::HarvestEnergyForever(..), None)));
    assert!(matches!(o.as_slice(), [Order::Say(Sign::Pickaxe, false), Order::Harvest(s), Order::Transfer(l, Resource::Energy, None)]
        if *s == id(5) && *l == id(7)));
}

#[test]
fn a_worn_container_is_repaired_first() {
    let (_, o) = run(&miner(at(10, 10), 30), around(None, Some((id(8), 200_000, 250_000)), None), &[]);
    assert!(matches!(o.as_slice(), [Order::Say(Sign::Hammer, false), Order::Repair(c)] if *c == id(8)));
    let (_, o) = run(&miner(at(10, 10), 30), around(None, Some((id(8), 230_000, 250_000)), None), &[]);
    assert!(matches!(o.as_slice(), [Order::Say(Sign::Pickaxe, false), Order::Harvest(_), Order::Transfer(c, Resource::Energy, None)] if *c == id(8)));
}

#[test]
fn without_a_store_the_miner_builds_or_drops() {
    let (_, o) = run(&miner(at(10, 10), 30), around(None, None, Some(id(9))), &[]);
    assert!(matches!(o.as_slice(), [Order::Say(Sign::Hammer, false), Order::Build(c)] if *c == id(9)));
    let (_, o) = run(&miner(at(10, 10), 30), around(None, None, None), &[]);
    assert!(matches!(o.as_slice(), [Order::Say(Sign::Pickaxe, false), Order::Harvest(_)]));
    let (_, o) = run(&miner(at(10, 10), 20), around(Some(id(7)), None, None), &[]);
    assert!(matches!(o.as_slice(), [Order::Say(Sign::Pickaxe, false), Order::Harvest(_)]));
}

#[test]
fn miners_walk_to_the_workplace_and_flee_attackers() {
    let (r, o) = run(&miner(at(20, 20), 0), around(None, None, None), &[]);
    assert!(matches!(r, TaskResult::StillWorking(Task::HarvestEnergyForever(..), Some(g)) if g.target == at(10, 10)));
    assert!(o.is_empty());
    let raider = Unit {
        id: id(66),
        name: "r".to_string(),
        pos: at(13, 10),
        hits: 100,
        hits_max: 100,
        owner: Owner::Player,
        body: vec![PartInfo { part: BodyPart::Attack, hits: 100, boost: None }],
        store_used: 0,
    };
    let (r, o) = run(&miner(at(10, 10), 30), around(None, None, None), &[raider]);
    assert!(matches!(r, TaskResult::StillWorking(Task::Flee(5), Some(g)) if g.walker == Walker::Flee && g.target == at(13, 10)));
    assert!(matches!(o.as_slice(), [Order::Drop(Resource::Energy)]));
}

#[test]
fn unloading_before_a_flight() {
    let me = miner(at(10, 10), 30);
    let container = NearStore { is_link: false, id: id(3), free: 30 };
    assert!(matches!(transfer_or_drop(&me, Some(container)).as_slice(), [Order::Transfer(c, Resource::Energy, None)] if *c == id(3)));
    let tight = NearStore { is_link: false, id: id(3), free: 29 };
    assert!(matches!(transfer_or_drop(&me, Some(tight)).as_slice(), [Order::Drop(Resource::Energy)]));
    let link = NearStore { is_link: true, id: id(4), free: 100 };
    assert!(matches!(transfer_or_drop(&me, Some(link)).as_slice(), [Order::Transfer(l, Resource::Energy, None)] if *l == id(4)));
    assert!(transfer_or_drop(&miner(at(10, 10), 0), Some(link)).is_empty());
}
