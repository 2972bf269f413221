use volo_ai::geometry::RoomName;
use volo_ai::roles::miners::miner::Miner;
use volo_ai::roles::services::upgrader::Upgrader;
use volo_ai::roles::teams::pb_a::PBAttacker;
use volo_ai::roles::{find_roles, same_role, Role};

fn home(x: i32, y: i32) -> Option<RoomName> {
    Some(RoomName { x_coord: x, y_coord: y })
}

#[test]
fn roles_equal_by_kind_and_data() {
    let a = Role::Upgrader(Upgrader::new(home(1, 2)));
    assert!(same_role(&a, &a.clone()));
    assert!(!same_role(&a, &Role::Upgrader(Upgrader::new(home(1, 3)))));
    assert!(!same_role(&a, &Role::Miner(Miner::new(None, home(1, 2)))));
    let s1 = Role::PBAttacker(PBAttacker::new(Some("alpha".to_string()), home(0, 0)));
    let s2 = Role::PBAttacker(PBAttacker::new(Some("alpha".to_string()), home(0, 0)));
    let s3 = Role::PBAttacker(PBAttacker::new(Some("beta".to_string()), home(0, 0)));
    assert!(same_role(&s1, &s2));
    assert!(!same_role(&s1, &s3));
    assert!(!same_role(&s1, &Role::PBAttacker(PBAttacker::new(None, home(0, 0)))));
}

#[test]
fn roles_are_counted_in_queue_and_alive() {
    let up = Role::Upgrader(Upgrader::new(home(1, 2)));
    let other = Role::Upgrader(Upgrader::new(home(5, 5)));
    let miner = Role::Miner(Miner::new(None, home(1, 2)));
    let queue = vec![up.clone(), miner.clone(), up.clone()];
    let alive = vec![other.clone(), up.clone()];
    assert_eq!(find_roles(&up, &queue, &alive), 3);
    assert_eq!(find_roles(&miner, &queue, &alive), 1);
    assert_eq!(find_roles(&other, &queue, &alive), 1);
    assert_eq!(find_roles(&other, &[], &[]), 0);
}

#[test]
fn queueing_a_role_raises_its_count() {
    let up = Role::Upgrader(Upgrader::new(home(1, 2)));
    let miner = Role::Miner(Miner::new(None, home(1, 2)));
    let mut queue = vec![miner.clone()];
    let before = find_roles(&up, &queue, &[]);
    queue.push(up.clone());
    assert_eq!(find_roles(&up, &queue, &[]), before + 1);
    assert_eq!(find_roles(&miner, &queue, &[]), 1);
}
