use volo_ai::geometry::{Position, RoomName};
use volo_ai::requests::{Request, RequestKind, Squad, Status};
use volo_ai::roles::combat::destroyer::Destroyer;
use volo_ai::roles::combat::guard::Guard;
use volo_ai::roles::services::dismantler::Dismantler;
use volo_ai::roles::teams::dep_hauler::DepositHauler;
use volo_ai::roles::haulers::hauler::Hauler;
use volo_ai::roles::services::scout::Scout;
use volo_ai::roles::services::upgrader::Upgrader;
use volo_ai::roles::teams::dep_miner::DepositMiner;
use volo_ai::roles::teams::pb_a::PBAttacker;
use volo_ai::roles::teams::pb_c::PBCarrier;
use volo_ai::roles::{default_role, Role};
use volo_ai::roles::services::scout::wander;
use volo_ai::tasks::{task_from_request, task_from_request_kind, ObjectId, Task, Walker};

fn room() -> RoomName {
    RoomName { x_coord: 8, y_coord: 8 }
}

fn at(x: u8, y: u8) -> Position {
    Position { room: room(), x, y }
}

fn id(n: u128) -> ObjectId {
    ObjectId { packed: n }
}

fn powerbank_request(squads: Vec<Squad>) -> Request {
    Request { kind: RequestKind::Powerbank { pos: at(5, 5), id: id(3) }, status: Status::InProgress, created_at: 0, creeps: vec![], squads }
}

#[test]
fn role_names_and_priorities() {
    let guard = Role::Guard(Guard::new(Some(room())));
    assert_eq!(guard.name(), "guard");
    assert_eq!(guard.role_priority(), 9);
    let scout = Role::Scout(Scout::new(None, None));
    assert_eq!(scout.name(), "scout");
    assert_eq!(scout.role_priority(), -1);
    assert_eq!(Role::PBAttacker(PBAttacker::new(None, None)).name(), "pb_a");
    assert_eq!(Role::Upgrader(Upgrader::new(None)).role_priority(), 4);
    assert!(matches!(default_role(), Role::Scout(s) if s.home.is_none() && s.target.is_none()));
}

#[test]
fn homes_are_set_and_read_back() {
    let mut r = Role::Hauler(Hauler::new(None, false));
    assert!(r.get_home().is_none());
    r.set_home(room());
    assert_eq!(r.get_home(), Some(&room()));
    r.set_home(RoomName { x_coord: 1, y_coord: 1 });
    assert_eq!(r.get_home(), Some(&RoomName { x_coord: 1, y_coord: 1 }));
    assert_eq!(r.name(), "hauler");
}

#[test]
fn requests_become_tasks() {
    assert!(matches!(task_from_request_kind(RequestKind::Pickup { id: id(4) }), Task::TakeResource(x) if x == id(4)));
    assert!(matches!(task_from_request_kind(RequestKind::Defend { room_name: room() }), Task::Defend(r, true) if r == room()));
    assert!(matches!(task_from_request_kind(RequestKind::Deposit { pos: at(1, 1), id: id(5) }), Task::Idle(10)));
    let dep = Request { kind: RequestKind::Deposit { pos: at(1, 1), id: id(5) }, status: Status::Created, created_at: 0, creeps: vec![], squads: vec![] };
    assert!(matches!(task_from_request(dep, &Role::DepositMiner(DepositMiner::new(None, None))), Task::DepositHarvest(p, x) if p == at(1, 1) && x == id(5)));
}

#[test]
fn power_bank_teams_take_their_part() {
    let squads = vec![
        Squad { id: "other".to_string(), members: vec!["z".to_string()] },
        Squad { id: "alpha".to_string(), members: vec!["a1".to_string(), "a2".to_string()] },
    ];
    let attacker = Role::PBAttacker(PBAttacker::new(Some("alpha".to_string()), None));
    let t = task_from_request(powerbank_request(squads.clone()), &attacker);
    assert!(matches!(&t, Task::PowerbankAttack(p, x, members) if *p == at(5, 5) && *x == id(3) && members == &vec!["a1".to_string(), "a2".to_string()]));
    let lost = Role::PBAttacker(PBAttacker::new(Some("beta".to_string()), None));
    assert!(matches!(task_from_request(powerbank_request(squads.clone()), &lost), Task::Idle(1)));
    let carrier = Role::PBCarrier(PBCarrier::new(None, None));
    assert!(matches!(task_from_request(powerbank_request(squads), &carrier), Task::PowerbankCarry(_, x) if x == id(3)));
}

#[test]
fn scouts_wander_through_open_exits() {
    let exits = [(RoomName { x_coord: 9, y_coord: 8 }, true), (RoomName { x_coord: 7, y_coord: 8 }, false), (room(), true)];
    assert!(matches!(wander(&exits, 0), Task::MoveMe(r, Walker::Exploring(false)) if r == exits[0].0));
    assert!(matches!(wander(&exits, 1), Task::Idle(1)));
    let me = volo_ai::units::CreepInfo {
        id: id(1),
        name: "s".to_string(),
        pos: at(10, 10),
        hits: 50,
        hits_max: 50,
        ticks_to_live: Some(100),
        body: vec![],
        store_used: 0,
        store_capacity: 0,
        store_energy: 0,
        store_free: 0,
        store_types: vec![],
        store: vec![],
    };
    let t = Scout::new(None, None).get_task(&me, &exits);
    assert!(matches!(t, Task::MoveMe(r, _) if r == exits[0].0) || matches!(t, Task::Idle(1)));
    let target = Position { room: RoomName { x_coord: 0, y_coord: 0 }, x: 1, y: 1 };
    assert!(matches!(Scout::new(None, Some(target)).get_task(&me, &exits), Task::MoveMe(r, _) if r == target.room));
    assert!(matches!(Scout::new(None, Some(at(1, 1))).get_task(&me, &exits), Task::Provoke(5, 10)));
}

#[test]
fn look_alike_role_names_differ() {
    let destroyer = Role::Destroyer(Destroyer::new(None));
    let dep_miner = Role::DepositMiner(DepositMiner::new(None, None));
    let dismantler = Role::Dismantler(Dismantler::new(None));
    let dep_hauler = Role::DepositHauler(DepositHauler::new(None, None));
    assert_eq!(destroyer.name(), "destroyer");
    assert_eq!(dep_miner.name(), "dep_miner");
    assert_ne!(destroyer.name(), dep_miner.name());
    assert_ne!(dismantler.name(), dep_hauler.name());
    assert_eq!(Role::Destroyer(Destroyer::new(Some(room()))).name(), destroyer.name());
}
