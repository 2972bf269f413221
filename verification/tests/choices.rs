use volo_ai::body::BodyPart;
use volo_ai::geometry::{Position, RoomName};
use volo_ai::requests::{Request, RequestKind, Status};
use volo_ai::resources::Resource;
use volo_ai::roles::combat::guard::Guard;
use volo_ai::roles::haulers::carrier::Carrier;
use volo_ai::roles::miners::miner::Miner;
use volo_ai::roles::services::booker::Booker;
use volo_ai::roles::services::trader::Trader;
use volo_ai::shelter::{boost_task, first_near, AvailableBoost, Choice, CreepAction, Deposit, HomeView, StoreView};
use volo_ai::tasks::{ObjectId, Task};
use volo_ai::units::{CreepInfo, PartInfo};

fn room() -> RoomName {
    RoomName { x_coord: 4, y_coord: 4 }
}

fn at(x: u8, y: u8) -> Position {
    Position { room: room(), x, y }
}

fn id(n: u128) -> ObjectId {
    ObjectId { packed: n }
}

fn home(requests: Vec<Request>) -> HomeView {
    HomeView {
        name: room(),
        controller_id: id(100),
        controller_pos: at(25, 25),
        upgrade_container: None,
        storage: None,
        factory: None,
        empty_sender: None,
        full_receiver: None,
        closest_empty_structure: None,
        invasion: false,
        lowest_perimeter: None,
        sources: vec![
            Deposit { id: id(1), pos: at(5, 5), ticks_to_regeneration: None },
            Deposit { id: id(2), pos: at(40, 40), ticks_to_regeneration: Some(10) },
        ],
        minerals: vec![],
        source_near_workplace: None,
        available_boost: None,
        requests,
    }
}

fn creep(name: &str, ttl: u32, store: Vec<(Resource, u32)>) -> CreepInfo {
    let used: u32 = store.iter().map(|(_, n)| *n).sum();
    CreepInfo {
        id: id(50),
        name: name.to_string(),
        pos: at(10, 10),
        hits: 100,
        hits_max: 100,
        ticks_to_live: Some(ttl),
        body: vec![
            PartInfo { part: BodyPart::Attack, hits: 100, boost: None },
            PartInfo { part: BodyPart::Attack, hits: 100, boost: None },
            PartInfo { part: BodyPart::Move, hits: 100, boost: None },
        ],
        store_used: used,
        store_capacity: 100,
        store_energy: 0,
        store_free: 100 - used as i32,
        store_types: store.iter().map(|(r, _)| *r).collect(),
        store,
    }
}

#[test]
fn miners_harvest_the_source_by_their_workplace() {
    let h = home(vec![]);
    assert!(matches!(Miner::new(Some(at(6, 6)), Some(room())).get_task(&h), Task::HarvestEnergyForever(w, s) if w == at(6, 6) && s == id(1)));
    assert!(matches!(Miner::new(Some(at(39, 39)), Some(room())).get_task(&h), Task::HarvestEnergyForever(_, s) if s == id(2)));
    assert!(matches!(Miner::new(Some(at(20, 20)), Some(room())).get_task(&h), Task::Idle(1)));
    assert!(matches!(Miner::new(None, Some(room())).get_task(&h), Task::Idle(1)));
}

#[test]
fn deposits_next_to_a_tile() {
    let h = home(vec![]);
    assert_eq!(first_near(&h.sources, at(39, 41), false).map(|d| d.id), Some(id(2)));
    assert_eq!(first_near(&h.sources, at(39, 41), true), None);
}

#[test]
fn guards_boost_before_defending() {
    let mut h = home(vec![]);
    let me = creep("g", 1000, vec![]);
    assert!(matches!(Guard::new(Some(room())).get_task(&me, &h), Task::DefendHome));
    h.available_boost = Some(AvailableBoost { lab: id(9), part: BodyPart::Attack });
    assert!(matches!(Guard::new(Some(room())).get_task(&me, &h), Task::Boost(lab, Some(2)) if lab == id(9)));
    assert!(matches!(boost_task(&me, AvailableBoost { lab: id(9), part: BodyPart::Heal }), Task::Boost(_, Some(0))));
}

#[test]
fn bookers_resume_then_join_then_idle() {
    let book = |n: u128, status: Status, creeps: &[&str]| Request {
        kind: RequestKind::Book { id: id(n), pos: at(1, 1) },
        status,
        created_at: 0,
        creeps: creeps.iter().map(|c| c.to_string()).collect(),
        squads: vec![],
    };
    let me = creep("b1", 500, vec![]);
    let h = home(vec![book(1, Status::Spawning, &[]), book(2, Status::InProgress, &["b1"])]);
    let t = Booker::new(Some(room())).get_task(&me, &h);
    assert!(matches!(t.choice, Choice::Resume(r) if matches!(r.kind, RequestKind::Book { id: x, .. } if x == id(2))));
    let h = home(vec![book(1, Status::Spawning, &[])]);
    let t = Booker::new(Some(room())).get_task(&me, &h);
    assert!(matches!(t.choice, Choice::Join(r) if matches!(r.kind, RequestKind::Book { id: x, .. } if x == id(1))));
    let h = home(vec![]);
    let t = Booker::new(Some(room())).get_task(&me, &h);
    assert!(matches!(t.choice, Choice::Task(Task::Idle(1))));
}

#[test]
fn carriers_unload_or_retire() {
    let mut h = home(vec![]);
    let loaded = creep("c", 1000, vec![(Resource::Utrium, 10)]);
    let t = Carrier::new(Some(room())).get_task(&loaded, &h);
    assert!(matches!(t.choice, Choice::Task(Task::Idle(1))));
    assert_eq!(t.action, Some(CreepAction::Drop(Resource::Utrium)));
    h.storage = Some(StoreView { pos: at(20, 20), id: id(7), used_energy: 0, used_total: 0, free_total: 1000 });
    let t = Carrier::new(Some(room())).get_task(&loaded, &h);
    assert!(matches!(t.choice, Choice::Task(Task::DeliverToStructure(p, s, Resource::Utrium, None)) if p == at(20, 20) && s == id(7)));
    let empty = creep("c", 100, vec![]);
    let t = Carrier::new(Some(room())).get_task(&empty, &h);
    assert!(matches!(t.choice, Choice::Task(Task::Idle(1))));
    assert_eq!(t.action, Some(CreepAction::Suicide));
}

fn store(n: u128, energy: u32, free: i32) -> StoreView {
    StoreView { pos: at(20, 20 + n as u8), id: id(n), used_energy: energy, used_total: energy, free_total: free }
}

#[test]
fn traders_balance_links_and_storage() {
    let mut h = home(vec![]);
    h.empty_sender = Some(store(1, 0, 800));
    h.storage = Some(store(2, 20_000, 20_000));
    let loaded = creep("t", 1000, vec![(Resource::Energy, 100)]);
    let t = Trader::new(Some(room())).get_task(&loaded, &h);
    assert!(matches!(t.choice, Choice::Task(Task::DeliverToStructure(_, s, Resource::Energy, None)) if s == id(1)));
    let other = creep("t", 1000, vec![(Resource::Keanium, 100)]);
    let t = Trader::new(Some(room())).get_task(&other, &h);
    assert!(matches!(t.choice, Choice::Task(Task::DeliverToStructure(_, s, Resource::Keanium, None)) if s == id(2)));
    let empty = creep("t", 1000, vec![]);
    let t = Trader::new(Some(room())).get_task(&empty, &h);
    assert!(matches!(t.choice, Choice::Task(Task::TakeFromStructure(_, s, Resource::Energy, None)) if s == id(2)));
    h.full_receiver = Some(store(3, 800, 0));
    let t = Trader::new(Some(room())).get_task(&empty, &h);
    assert!(matches!(t.choice, Choice::Task(Task::TakeFromStructure(_, s, Resource::Energy, None)) if s == id(3)));
    h.storage = Some(store(2, 20_000, 5_000));
    let t = Trader::new(Some(room())).get_task(&other, &h);
    assert!(matches!(t.choice, Choice::Task(Task::Idle(1))));
}
