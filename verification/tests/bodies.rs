use volo_ai::body::{
    build_body, can_scale, default_parts_priority, fixed_body, grow_body, parts_of, pvp_parts_priority, sort_by_priority,
    Body, BodyPart, Priority,
};
use volo_ai::roles::combat::destroyer::Destroyer;
use volo_ai::roles::services::dh::DismantlerWithHeal;
use volo_ai::roles::teams::com_h::ComHealer;

fn parts(b: &Body) -> Vec<BodyPart> {
    parts_of(b)
}

#[test]
fn part_costs_follow_the_game() {
    let empty = fixed_body(&[]);
    let costs = [
        (BodyPart::Move, 50),
        (BodyPart::Work, 100),
        (BodyPart::Carry, 50),
        (BodyPart::Attack, 80),
        (BodyPart::RangedAttack, 150),
        (BodyPart::Tough, 10),
        (BodyPart::Heal, 250),
        (BodyPart::Claim, 600),
    ];
    for (part, cost) in costs {
        // a body fits when it costs less than the energy available
        assert!(can_scale(&empty, &[part], cost + 1, 50));
        assert!(!can_scale(&empty, &[part], cost, 50));
    }
}

#[test]
fn priorities_put_tough_first_and_heal_last() {
    assert_eq!(default_parts_priority(BodyPart::Tough), 0);
    assert_eq!(default_parts_priority(BodyPart::Heal), 10);
    assert_eq!(pvp_parts_priority(BodyPart::Move), 7);
    assert_eq!(pvp_parts_priority(BodyPart::Work), 1);
}

#[test]
fn scaling_needs_energy_left_over() {
    let b = fixed_body(&[BodyPart::Work, BodyPart::Move]);
    // 150 + 450 = 600: grows with more than 600, not with exactly 600
    assert!(can_scale(&b, &[BodyPart::Work, BodyPart::Heal, BodyPart::Move, BodyPart::Move], 601, 50));
    assert!(!can_scale(&b, &[BodyPart::Work, BodyPart::Heal, BodyPart::Move, BodyPart::Move], 600, 50));
    assert!(!can_scale(&b, &[BodyPart::Work, BodyPart::Heal, BodyPart::Move, BodyPart::Move], 5000, 5));
}

#[test]
fn grown_body_repeats_the_unit_while_it_fits() {
    let b = grow_body(&[BodyPart::Work, BodyPart::Move], &[BodyPart::Carry, BodyPart::Move], 500, 50);
    // 150, 250, 350, 450; a fifth unit would cost 550
    assert_eq!(
        parts(&b),
        vec![
            BodyPart::Work,
            BodyPart::Move,
            BodyPart::Carry,
            BodyPart::Move,
            BodyPart::Carry,
            BodyPart::Move,
            BodyPart::Carry,
            BodyPart::Move
        ]
    );
}

#[test]
fn grown_body_stops_at_the_part_limit() {
    let b = grow_body(&[], &[BodyPart::Move], 100_000, 50);
    assert_eq!(parts(&b).len(), 50);
}

#[test]
fn sorting_is_stable_by_priority() {
    let b = fixed_body(&[BodyPart::Heal, BodyPart::Move, BodyPart::Tough, BodyPart::Work, BodyPart::Move]);
    let sorted = sort_by_priority(&b, Priority::Default);
    assert_eq!(parts(&sorted), vec![BodyPart::Tough, BodyPart::Work, BodyPart::Move, BodyPart::Move, BodyPart::Heal]);
    let pvp = sort_by_priority(&b, Priority::Pvp);
    assert_eq!(parts(&pvp), vec![BodyPart::Tough, BodyPart::Work, BodyPart::Move, BodyPart::Move, BodyPart::Heal]);
}

#[test]
fn dismantler_with_heal_body_at_a_thousand_energy() {
    let b = DismantlerWithHeal::new(None).body(1000);
    assert_eq!(
        parts(&b),
        vec![BodyPart::Work, BodyPart::Work, BodyPart::Move, BodyPart::Move, BodyPart::Move, BodyPart::Heal]
    );
}

#[test]
fn destroyer_keeps_its_base_when_poor() {
    let b = Destroyer::new(None).body(300);
    assert_eq!(
        parts(&b),
        vec![BodyPart::Tough, BodyPart::RangedAttack, BodyPart::RangedAttack, BodyPart::RangedAttack, BodyPart::RangedAttack]
    );
}

#[test]
fn combat_healer_body_is_fixed() {
    let b = ComHealer::new(None, None).body(10_000);
    assert_eq!(parts(&b), vec![BodyPart::Move]);
}

#[test]
fn build_body_without_order_keeps_spawn_order() {
    let b = build_body(&[BodyPart::Move], &[BodyPart::Work], 160, 50, None);
    assert_eq!(parts(&b), vec![BodyPart::Move, BodyPart::Work]);
}

#[test]
fn long_extensions_do_not_fit_the_limit() {
    let empty = fixed_body(&[]);
    let sixty = vec![BodyPart::Move; 60];
    // more parts than the limit allows: refused, whatever the energy
    assert!(!can_scale(&empty, &sixty, 1_000_000, 50));
    // a limit above the extension: 60 moves cost 3000
    assert!(can_scale(&empty, &sixty, 10_000, 100));
    assert!(!can_scale(&empty, &sixty, 3000, 100));
}
