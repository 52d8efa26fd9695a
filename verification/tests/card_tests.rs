use engine::Card;
use engine::Rect;
use engine::Drawable;
use engine::text::usize_to_decimal;

fn hero() -> Card {
    Card {
        name: "Hero".to_string(),
        play_cost: 3,
        health: 10,
        defense: 2,
        passive_cost: 1,
        special_cost: 6,
        special_tag: "Fire".to_string(),
        special: "none".to_string(),
        attack: 4,
        attack_tag: "Slash".to_string(),
        special_attribute: "Sturdy".to_string(),
        speed: 7,
        attack_speed: 1000,
    }
}

#[test]
fn take_damage_subtracts_after_defense() {
    let mut c = hero();
    assert!(c.take_damage(5));
    assert_eq!(c.health, 7);
}

#[test]
fn take_damage_below_defense_is_absorbed() {
    let mut c = hero();
    assert!(c.take_damage(1));
    assert_eq!(c.health, 10);
}

#[test]
fn take_damage_clamps_health_at_zero() {
    let mut c = hero();
    assert!(!c.take_damage(100));
    assert_eq!(c.health, 0);
}

#[test]
fn attack_strikes_the_other_card() {
    let attacker = hero();
    let mut defender = hero();
    let alive = attacker.attack(&mut defender);
    assert!(alive);
    // attack 4 minus defense 2 leaves 8 of 10
    assert_eq!(defender.health, 8);
    assert_eq!(attacker.health, 10);
}

#[test]
fn description_lists_name_stats_attack_and_special() {
    let c = hero();
    assert_eq!(
        c.get_description(),
        "Hero \n \n HP:10 | AC:2 | Upkeep: 1 \n Sturdy \n \n ATK: 4 \n Slash \n\n Special | Cost: 6 \n Fire"
    );
}

#[test]
fn play_places_the_card_at_the_rectangle() {
    let c = hero();
    let p = c.play(Rect::new(5, 6, 30, 40));
    let d = p.get_drawable();
    match d {
        Drawable::Text(rect, s, size) => {
            assert_eq!((rect.x, rect.y, rect.w, rect.h), (5, 6, 30, 40));
            assert_eq!(s, c.get_description());
            assert_eq!(size, 10);
        }
        _ => panic!("a played card renders as text"),
    }
}

#[test]
fn decimal_rendering_is_exact() {
    assert_eq!(usize_to_decimal(0), "0");
    assert_eq!(usize_to_decimal(7), "7");
    assert_eq!(usize_to_decimal(10), "10");
    assert_eq!(usize_to_decimal(90210), "90210");
}
