use volo_ai::body::BodyPart;
use volo_ai::commons::{
    closest_attacker, closest_by, closest_creep, find_closest_injured, find_container_near_by, find_container_with, find_cs_near_by,
    find_walkable_positions_near_by, is_under_rampart, look_for,
    find_source_near, first_dropped, get_compressed_resource, get_in_room_bank, get_place_to_store, get_positions_near_by,
    hostile_nearby, hostile_with, in_range_to, is_injured_other, is_walkable, say_message, try_heal, Filter, Look, Owner,
    Unit,
};
use volo_ai::geometry::{Position, RoomName};
use volo_ai::objects::{DroppedView, StructureKind};
use volo_ai::orders::Order;
use volo_ai::resources::Resource;
use volo_ai::tasks::ObjectId;
use volo_ai::units::PartInfo;

fn at(x: u8, y: u8) -> Position {
    Position { room: RoomName { x_coord: 1, y_coord: 1 }, x, y }
}

fn id(n: u128) -> ObjectId {
    ObjectId { packed: n }
}

fn part(p: BodyPart, hits: u32) -> PartInfo {
    PartInfo { part: p, hits, boost: None }
}

fn unit(n: u128, name: &str, pos: Position, hits: u32, body: Vec<PartInfo>) -> Unit {
    Unit { id: id(n), name: name.to_string(), pos, hits, hits_max: 100, owner: Owner::Player, body, store_used: 0 }
}

#[test]
fn closest_attacker_skips_harmless_creeps() {
    let units = vec![
        unit(1, "a", at(11, 10), 100, vec![part(BodyPart::Move, 100)]),
        unit(2, "b", at(15, 10), 100, vec![part(BodyPart::Attack, 100)]),
        unit(3, "c", at(13, 10), 100, vec![part(BodyPart::RangedAttack, 100)]),
    ];
    assert_eq!(closest_creep(at(10, 10), &units), Some(0));
    assert_eq!(closest_attacker(at(10, 10), &units), Some(2));
    assert_eq!(closest_by(at(10, 10), &units, Filter::Ranged), Some(2));
    assert_eq!(closest_by(at(10, 10), &units, Filter::Big), None);
    assert_eq!(closest_attacker(at(10, 10), &[]), None);
}

#[test]
fn ties_keep_the_first_creep() {
    let units = vec![
        unit(1, "a", at(12, 10), 100, vec![part(BodyPart::Attack, 100)]),
        unit(2, "b", at(8, 10), 100, vec![part(BodyPart::Attack, 100)]),
    ];
    assert_eq!(closest_attacker(at(10, 10), &units), Some(0));
}

#[test]
fn injured_search_leaves_out_the_healer() {
    let mine = vec![
        unit(1, "me", at(10, 10), 50, vec![]),
        unit(2, "far", at(20, 10), 10, vec![]),
        unit(3, "whole", at(11, 10), 100, vec![]),
    ];
    assert_eq!(find_closest_injured(at(10, 10), &mine, None), Some(0));
    assert_eq!(find_closest_injured(at(10, 10), &mine, Some("me")), Some(1));
    assert!(is_injured_other(&mine[1], Some("me")));
    assert!(!is_injured_other(&mine[0], Some("me")));
    assert!(!is_injured_other(&mine[1], None));
}

#[test]
fn healing_by_range() {
    let me = id(7);
    let near = vec![unit(1, "n", at(11, 10), 50, vec![])];
    assert!(matches!(try_heal(me, at(10, 10), &near), Order::Heal(x) if x == id(1)));
    let mid = vec![unit(1, "n", at(13, 10), 50, vec![])];
    assert!(matches!(try_heal(me, at(10, 10), &mid), Order::RangedHeal(x) if x == id(1)));
    let far = vec![unit(1, "n", at(20, 10), 50, vec![])];
    assert!(matches!(try_heal(me, at(10, 10), &far), Order::Heal(x) if x == me));
    assert!(matches!(try_heal(me, at(10, 10), &[]), Order::Heal(x) if x == me));
}

#[test]
fn counting_hostiles_in_range() {
    let units = vec![
        unit(1, "a", at(12, 10), 100, vec![]),
        unit(2, "b", at(14, 10), 100, vec![]),
        unit(3, "c", at(13, 13), 100, vec![]),
    ];
    assert_eq!(in_range_to(at(10, 10), &units, 3), 2);
    assert_eq!(in_range_to(at(10, 10), &units, 0), 0);
}

#[test]
fn tiles_near_by_leave_out_centre_and_border() {
    let all = get_positions_near_by(at(10, 10), 1, false, false);
    assert_eq!(all.len(), 9);
    assert_eq!(all[0], (9, 9));
    let ring = get_positions_near_by(at(10, 10), 1, true, false);
    assert_eq!(ring.len(), 8);
    assert!(!ring.contains(&(10, 10)));
    let corner = get_positions_near_by(at(0, 0), 1, false, true);
    assert_eq!(corner, vec![(1, 1)]);
    let edge = get_positions_near_by(at(49, 25), 1, false, false);
    assert_eq!(edge.len(), 6);
}

#[test]
fn walkable_tiles() {
    assert!(is_walkable(&Some(vec![Look::Terrain(false), Look::Road])));
    assert!(is_walkable(&Some(vec![Look::Rampart(true)])));
    assert!(!is_walkable(&Some(vec![Look::Rampart(false)])));
    assert!(!is_walkable(&Some(vec![Look::Terrain(true)])));
    assert!(!is_walkable(&Some(vec![Look::Creep])));
    assert!(!is_walkable(&None));
}

#[test]
fn farthest_site_wins_later_on_ties() {
    let sites = vec![(at(11, 10), id(1)), (at(13, 10), id(2)), (at(7, 10), id(3))];
    assert_eq!(find_cs_near_by(at(10, 10), &sites), Some(2));
    assert_eq!(find_cs_near_by(at(10, 10), &[]), None);
}

#[test]
fn stores_in_order_of_preference() {
    let s = Some((id(1), 100));
    let t = Some((id(2), 5000));
    let f = Some((id(3), 10));
    assert_eq!(find_container_with(Some(500), s, t, f), Some((id(2), 5000)));
    assert_eq!(find_container_with(None, s, t, f), Some((id(1), 100)));
    assert_eq!(find_container_with(Some(6000), s, t, f), None);
    assert_eq!(find_container_with(None, Some((id(1), 0)), None, None), None);
}

#[test]
fn banks_and_places_to_store() {
    let storage = Some((at(5, 5), id(1), 4999));
    let terminal = Some((at(6, 6), id(2), 5000));
    let containers = [(at(7, 7), id(3))];
    assert_eq!(get_in_room_bank(storage, terminal, &containers), Some((at(6, 6), id(2))));
    assert_eq!(get_in_room_bank(storage, None, &containers), Some((at(7, 7), id(3))));
    assert_eq!(get_in_room_bank(None, None, &[]), None);
    assert_eq!(get_place_to_store(Some((at(5, 5), id(1), 10001)), Some((at(6, 6), id(2)))), Some((at(5, 5), id(1))));
    assert_eq!(get_place_to_store(Some((at(5, 5), id(1), 10000)), Some((at(6, 6), id(2)))), Some((at(6, 6), id(2))));
}

#[test]
fn sources_next_to_a_tile() {
    let sources = [(at(20, 20), id(1)), (at(11, 11), id(2))];
    assert_eq!(find_source_near(at(10, 10), &sources), Some((at(11, 11), id(2))));
    assert_eq!(find_source_near(at(30, 30), &sources), None);
}

#[test]
fn phrases_follow_the_tick() {
    assert_eq!(say_message(1), "dnt do it!");
    assert_eq!(say_message(20), "togather!");
    assert_eq!(say_message(128), "let's build");
}

#[test]
fn hostile_filters() {
    let body = [part(BodyPart::Attack, 0), part(BodyPart::Move, 100)];
    assert!(hostile_with(&body, &[BodyPart::Attack]));
    assert!(hostile_with(&body, &[]));
    assert!(!hostile_with(&body, &[BodyPart::Heal]));
    assert!(!hostile_nearby(&body, at(11, 10), &[BodyPart::Attack], at(10, 10)));
    assert!(hostile_nearby(&body, at(11, 10), &[], at(10, 10)));
    assert!(!hostile_nearby(&body, at(13, 10), &[], at(10, 10)));
}

#[test]
fn compressed_resource_is_the_first_non_energy_part() {
    assert_eq!(get_compressed_resource(&[Resource::Energy, Resource::Utrium]), Some(Resource::Utrium));
    assert_eq!(get_compressed_resource(&[Resource::Energy]), None);
}

#[test]
fn dropped_piles_above_a_threshold() {
    let piles = [
        DroppedView { pos: at(1, 1), id: id(1), resource: Resource::Energy, amount: 60 },
        DroppedView { pos: at(2, 2), id: id(2), resource: Resource::Power, amount: 40 },
        DroppedView { pos: at(3, 3), id: id(3), resource: Resource::Power, amount: 51 },
    ];
    assert_eq!(first_dropped(&piles, 50, Some(Resource::Power)).map(|d| d.id), Some(id(3)));
    assert_eq!(first_dropped(&piles, 50, None).map(|d| d.id), Some(id(1)));
    assert_eq!(first_dropped(&piles, 100, None), None);
}

#[test]
fn structures_on_and_near_a_tile() {
    assert!(is_under_rampart(&[StructureKind::Road, StructureKind::Rampart]));
    assert!(!is_under_rampart(&[StructureKind::Road]));
    assert!(look_for(&[StructureKind::Container], StructureKind::Container));
    assert!(!look_for(&[], StructureKind::Container));
    let structures = [
        (at(20, 20), StructureKind::Link),
        (at(11, 11), StructureKind::Road),
        (at(12, 12), StructureKind::Container),
        (at(9, 9), StructureKind::Link),
    ];
    let kinds = [StructureKind::Link, StructureKind::Container];
    assert_eq!(find_container_near_by(at(10, 10), 2, &structures, &kinds), Some(2));
    assert_eq!(find_container_near_by(at(10, 10), 1, &structures, &kinds), Some(3));
    assert_eq!(find_container_near_by(at(10, 10), 0, &structures, &kinds), None);
}

#[test]
fn walkable_neighbours() {
    let tiles = get_positions_near_by(at(10, 10), 1, true, false);
    let looks: Vec<Option<Vec<Look>>> = tiles
        .iter()
        .map(|(x, _)| if *x == 9 { Some(vec![Look::Terrain(true)]) } else { Some(vec![Look::Terrain(false)]) })
        .collect();
    let free = find_walkable_positions_near_by(at(10, 10), false, &looks);
    assert_eq!(free.len(), 5);
    assert!(free.iter().all(|p| p.x != 9 && p.room == at(10, 10).room));
    assert_eq!(free[0], at(10, 9));
}
