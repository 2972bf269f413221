use volo_ai::geometry::{Position, RoomName};
use volo_ai::power::{settle_power_creeps,
    find_closest_home, free_of, get_power_home, handle, power_actions, run_chain, EffectView, Handled, Link, PcOrder, PcView, PowerKind, Spot,
    StorageView, Target,
};
use volo_ai::tasks::ObjectId;

fn home() -> RoomName {
    RoomName { x_coord: 1, y_coord: 1 }
}

fn at(x: u8, y: u8) -> Position {
    Position { room: home(), x, y }
}

fn view() -> PcView {
    PcView {
        pos: at(25, 25),
        ticks_to_live: Some(4000),
        ops: 300,
        capacity: 1000,
        ready: vec![],
        enabled: vec![],
        controller: Spot { id: ObjectId { packed: 1 }, pos: at(10, 10) },
        controller_powered: true,
        controller_free: false,
        power_spawn: Some(Spot { id: ObjectId { packed: 2 }, pos: at(26, 26) }),
        storage: Some(StorageView {
            id: ObjectId { packed: 3 },
            pos: at(24, 25),
            effects: vec![],
            ops: 5000,
            used: 500_000,
            free: 100_000,
        }),
        factory: None,
        mineral: Target { id: ObjectId { packed: 4 }, pos: at(40, 40), effects: vec![] },
        mineral_regenerating: true,
        sources: vec![],
        spawns: vec![],
        towers: vec![],
        lowest_perimeter: None,
    }
}

#[test]
fn chains_depend_on_the_danger_at_home() {
    assert_eq!(
        power_actions(true, true),
        vec![Link::EnableController, Link::Renew, Link::GenerateOps, Link::Withdraw(10), Link::OperateTower, Link::Fortify]
    );
    assert_eq!(power_actions(false, true).len(), 8);
    assert_eq!(power_actions(false, false).len(), 11);
    assert_eq!(power_actions(false, false)[3], Link::OperateSource);
}

#[test]
fn a_controller_without_powers_is_enabled_first() {
    let mut v = view();
    v.controller_powered = false;
    match handle(Link::EnableController, &v) {
        Handled::Act(None, Some((target, 1))) => assert_eq!(target, at(10, 10)),
        _ => panic!("expected a walk to the controller"),
    }
    v.pos = at(11, 11);
    assert!(matches!(handle(Link::EnableController, &v), Handled::Act(Some(PcOrder::EnableRoom(_)), None)));
}

#[test]
fn old_power_creeps_renew() {
    let mut v = view();
    v.ticks_to_live = Some(50);
    assert!(matches!(handle(Link::Renew, &v), Handled::Act(Some(PcOrder::Renew(_)), None)));
    v.power_spawn = None;
    assert!(matches!(handle(Link::Renew, &v), Handled::Act(None, None)));
}

#[test]
fn the_chain_stops_at_the_first_link_that_acts() {
    let mut v = view();
    v.ready = vec![PowerKind::GenerateOps];
    let chain = power_actions(false, false);
    assert_eq!(run_chain(&chain, &v), (Some(PcOrder::UsePower(PowerKind::GenerateOps, None)), None));
    v.ready = vec![];
    v.ops = 100;
    assert_eq!(run_chain(&chain, &v), (Some(PcOrder::Withdraw(ObjectId { packed: 3 }, volo_ai::resources::Resource::Ops)), None));
    v.ops = 300;
    assert_eq!(run_chain(&chain, &v), (None, None));
}

#[test]
fn sources_with_a_long_regeneration_effect_are_skipped() {
    let mut v = view();
    v.ready = vec![PowerKind::RegenSource];
    v.sources = vec![
        Target { id: ObjectId { packed: 10 }, pos: at(24, 24), effects: vec![EffectView { power: Some(PowerKind::RegenSource), ticks: 100 }] },
        Target { id: ObjectId { packed: 11 }, pos: at(30, 30), effects: vec![EffectView { power: Some(PowerKind::RegenSource), ticks: 10 }] },
    ];
    match handle(Link::OperateSource, &v) {
        Handled::Act(None, Some((target, 3))) => assert_eq!(target, at(30, 30)),
        _ => panic!("expected a walk to the second source"),
    }
}

#[test]
fn power_creeps_find_the_closest_developed_home() {
    let a = RoomName { x_coord: 0, y_coord: 0 };
    let b = RoomName { x_coord: 5, y_coord: 0 };
    let c = RoomName { x_coord: 9, y_coord: 0 };
    let homes = vec![(a, 1, 2), (b, 4, 5), (c, 8, 5)];
    assert_eq!(find_closest_home(&homes), Some((b, 5)));
    assert_eq!(get_power_home(Some(c), &homes), Some(c));
    assert_eq!(get_power_home(Some(RoomName { x_coord: 3, y_coord: 3 }), &homes), Some(b));
    assert_eq!(get_power_home(None, &homes), None);
}

#[test]
fn objects_free_of_a_power() {
    let effects = [
        EffectView { power: Some(PowerKind::OperateController), ticks: 5 },
        EffectView { power: None, ticks: 100 },
    ];
    assert!(!free_of(&effects, PowerKind::OperateController));
    assert!(free_of(&effects, PowerKind::Fortify));
    assert!(free_of(&[], PowerKind::OperateController));
}

#[test]
fn new_power_creeps_get_memory_and_absent_ones_keep_theirs() {
    let home = RoomName { x_coord: 2, y_coord: 3 };
    let mut states = vec![("old".to_string(), Some(home)), ("gone".to_string(), None)];
    settle_power_creeps(&mut states, vec!["new".to_string(), "old".to_string(), "new".to_string()]);
    assert_eq!(states.len(), 3);
    assert_eq!(states[0], ("old".to_string(), Some(home)));
    assert_eq!(states[1], ("gone".to_string(), None));
    assert_eq!(states[2], ("new".to_string(), None));
}
