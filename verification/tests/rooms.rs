use volo_ai::geometry::RoomName;
use volo_ai::names::{capture_room_numbers, capture_room_parts, get_room_regex};
use volo_ai::rooms::{is_central, is_cross_road, is_highway, is_skr, is_skr_walkway};

#[test]
fn highway_rooms_have_a_zero_digit() {
    assert!(is_highway(0, 5));
    assert!(is_highway(7, 0));
    assert!(!is_highway(3, 4));
}

#[test]
fn cross_roads_have_two_zero_digits() {
    assert!(is_cross_road(0, 0));
    assert!(!is_cross_road(0, 1));
}

#[test]
fn central_room_is_five_five() {
    assert!(is_central(5, 5));
    assert!(!is_central(5, 4));
}

#[test]
fn keeper_rooms_surround_the_centre() {
    assert!(is_skr(4, 6));
    assert!(is_skr(6, 4));
    assert!(!is_skr(5, 5));
    assert!(!is_skr(3, 5));
}

#[test]
fn keeper_walkways_touch_the_centre() {
    assert!(is_skr_walkway(5, 4));
    assert!(is_skr_walkway(6, 5));
    assert!(!is_skr_walkway(4, 4));
}

#[test]
fn room_numbers_are_read_from_the_name() {
    let re = get_room_regex();
    // E12N3
    assert_eq!(capture_room_numbers(&re, RoomName { x_coord: 12, y_coord: -4 }), Some((12, 3)));
    // W0S0
    assert_eq!(capture_room_numbers(&re, RoomName { x_coord: -1, y_coord: 0 }), Some((0, 0)));
    // W127N127
    assert_eq!(capture_room_numbers(&re, RoomName { x_coord: -128, y_coord: -128 }), Some((127, 127)));
}

#[test]
fn room_parts_are_the_last_digits() {
    let re = get_room_regex();
    // E25S44
    assert_eq!(capture_room_parts(&re, RoomName { x_coord: 25, y_coord: 44 }), Some((5, 4)));
    // W10N20
    assert_eq!(capture_room_parts(&re, RoomName { x_coord: -11, y_coord: -21 }), Some((0, 0)));
}
