use volo_ai::geometry::{Position, RoomName};
use volo_ai::objects::{DroppedView, EnergyStore, SiteView, StructureKind, StructureView};
use volo_ai::resources::Resource;
use volo_ai::roles::services::handyman::{find_energy_near, find_invasion_task, find_startup_task, WorkRoom};
use volo_ai::shelter::Deposit;
use volo_ai::tasks::{ObjectId, Task};

fn room() -> RoomName {
    RoomName { x_coord: -5, y_coord: -5 }
}

fn at(x: u8, y: u8) -> Position {
    Position { room: room(), x, y }
}

fn id(n: u128) -> ObjectId {
    ObjectId { packed: n }
}

fn structure(n: u128, pos: Position, kind: StructureKind, hits: u32, hits_max: u32, store: Option<EnergyStore>) -> StructureView {
    StructureView { pos, id: id(n), kind, my: true, hits, hits_max, store }
}

fn energy(energy: u32, capacity: u32) -> Option<EnergyStore> {
    Some(EnergyStore { energy, capacity, free: (capacity - energy) as i32 })
}

fn empty_room() -> WorkRoom {
    WorkRoom {
        hostiles: vec![],
        controller: Some((id(100), at(30, 30), None)),
        rampart_at_workplace: false,
        structures: vec![],
        sites: vec![],
        dropped: vec![],
        tombs: vec![],
        sources: vec![],
    }
}

#[test]
fn startup_work_in_order_of_need() {
    let mut r = empty_room();
    assert!(matches!(find_startup_task(at(10, 10), &r), Task::Upgrade(c, None) if c == id(100)));
    r.sites = vec![SiteView { pos: at(20, 10), id: Some(id(31)) }, SiteView { pos: at(12, 10), id: Some(id(32)) }];
    assert!(matches!(find_startup_task(at(10, 10), &r), Task::Build(Some(s), p) if s == id(32) && p == at(12, 10)));
    r.structures = vec![structure(41, at(15, 15), StructureKind::Rampart, 14_999, 1_000_000, None)];
    assert!(matches!(find_startup_task(at(10, 10), &r), Task::Repair(s, _, 10) if s == id(41)));
    r.structures.push(structure(42, at(16, 16), StructureKind::Extension, 1000, 1000, energy(10, 50)));
    assert!(matches!(find_startup_task(at(10, 10), &r), Task::DeliverToStructure(_, s, Resource::Energy, None) if s == id(42)));
    r.structures[1] = structure(42, at(16, 16), StructureKind::Extension, 1000, 1000, energy(30, 50));
    assert!(matches!(find_startup_task(at(10, 10), &r), Task::Repair(s, _, 10) if s == id(41)));
    r.structures[0] = structure(41, at(15, 15), StructureKind::Container, 100_000, 250_000, energy(0, 2000));
    assert!(matches!(find_startup_task(at(10, 10), &r), Task::Repair(s, _, 5) if s == id(41)));
}

#[test]
fn energy_near_the_rampart() {
    let mut r = empty_room();
    r.sources = vec![Deposit { id: id(9), pos: at(11, 11), ticks_to_regeneration: None }];
    assert!(matches!(find_energy_near(at(10, 10), &r), Task::Harvest(p, s) if p == at(10, 10) && s == id(9)));
    r.structures = vec![structure(8, at(10, 10), StructureKind::Container, 1000, 1000, energy(1001, 2000))];
    assert!(matches!(find_energy_near(at(10, 10), &r), Task::TakeFromStructure(_, c, Resource::Energy, None) if c == id(8)));
    r.dropped = vec![
        DroppedView { pos: at(11, 10), id: id(6), resource: Resource::Energy, amount: 600 },
        DroppedView { pos: at(11, 10), id: id(7), resource: Resource::Energy, amount: 601 },
    ];
    assert!(matches!(find_energy_near(at(10, 10), &r), Task::TakeResource(d) if d == id(7)));
    assert!(matches!(find_energy_near(at(40, 40), &empty_room()), Task::Idle(1)));
}

#[test]
fn invasion_work_falls_back_to_idling() {
    let r = empty_room();
    assert!(matches!(find_invasion_task(at(10, 10), &r), Task::Idle(1)));
}
