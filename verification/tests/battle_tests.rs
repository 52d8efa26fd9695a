use engine::Card;
use engine::Deck;
use engine::GameState;
use engine::Rect;
use engine::SimState;
use engine::Unit;
use engine::attack_tower;
use engine::create_spawn_point;
use engine::generate_health_bar;
use engine::play_card;
use engine::ready_to_play;
use engine::tick;
use engine::Drawable;
use engine::battle::TOWER_START_HP;
use engine::battle::spawn_rect;
use engine::mana::advance_turn;
use engine::mana::handle_mana;

fn card(name: &str, play_cost: usize, health: usize, attack: usize, speed: usize, attack_speed: usize) -> Card {
    Card {
        name: name.to_string(),
        play_cost,
        health,
        defense: 2,
        passive_cost: 1,
        special_cost: 6,
        special_tag: "Fire".to_string(),
        special: "none".to_string(),
        attack,
        attack_tag: "Slash".to_string(),
        special_attribute: "Sturdy".to_string(),
        speed,
        attack_speed,
    }
}

fn unit_at(x: usize, attack: usize, speed: usize, attack_speed: usize, t: u64) -> Unit {
    let c = card("u", 3, 5, attack, speed, attack_speed);
    let played = c.play(Rect::new(x, 500, 20, 20));
    played.play_unit(t, c.health, Rect::new(x, 500, 20, 20))
}

fn battle(a_units: Vec<Unit>, b_units: Vec<Unit>) -> SimState {
    SimState {
        deck: Deck::new(vec![card("d", 3, 5, 4, 7, 1000)]),
        slots: Vec::new(),
        a_last_play_ms: 0,
        b_last_play_ms: 0,
        a_units,
        b_units,
        tower_a_hp: TOWER_START_HP,
        tower_b_hp: TOWER_START_HP,
        game_state: GameState::InProgress,
        next_unit_id: 0,
    }
}

#[test]
fn ready_to_play_interprets_play_cost_as_seconds() {
    assert!(!ready_to_play(0, 2000, 3));
    assert!(ready_to_play(0, 3000, 3));
    assert!(ready_to_play(0, 3100, 3));
    assert!(!ready_to_play(5000, 4000, 0));
}

#[test]
fn play_cooldown_scenario() {
    // a card with a play cost of three seconds is played, a retry two
    // seconds later is rejected, and one at 3.1 seconds succeeds
    let deck = Deck::new(vec![card("a", 3, 5, 4, 7, 1000)]);
    let mut state = SimState::new_game(deck, 1, 0);
    let t0: u64 = 10_000;
    assert!(play_card(&mut state, true, 0, t0));
    assert_eq!(state.a_units.len(), 1);
    // the unit spawned at the configured spawn rectangle with full health
    let expected_rect = create_spawn_point(spawn_rect(true), 0);
    let u = &state.a_units[0];
    assert_eq!(u.played_card.rect.x, expected_rect.x);
    assert_eq!(u.played_card.rect.y, expected_rect.y);
    assert_eq!(u.health, 5);
    assert_eq!(u.t, t0);

    assert!(!play_card(&mut state, true, 0, t0 + 2000));
    assert_eq!(state.a_units.len(), 1);

    assert!(play_card(&mut state, true, 0, t0 + 3100));
    assert_eq!(state.a_units.len(), 2);
}

#[test]
fn cooldowns_are_tracked_per_player() {
    let deck = Deck::new(vec![card("a", 3, 5, 4, 7, 1000)]);
    let mut state = SimState::new_game(deck, 1, 0);
    let t0: u64 = 10_000;
    assert!(play_card(&mut state, true, 0, t0));
    // player A is on cooldown, player B is not
    assert!(!play_card(&mut state, true, 0, t0 + 1000));
    assert!(play_card(&mut state, false, 0, t0 + 1000));
    assert_eq!(state.b_units.len(), 1);
}

#[test]
fn spawn_points_wrap_within_the_band() {
    let base = Rect::new(300, 490, 20, 20);
    assert_eq!(create_spawn_point(base, 0).y, (490 % 200) + 490);
    assert_eq!(create_spawn_point(base, 3).y, ((490 + 60) % 200) + 490);
    // the offset wraps after ten units
    assert_eq!(create_spawn_point(base, 10).y, create_spawn_point(base, 0).y);
    assert_eq!(create_spawn_point(base, 0).x, 300);
}

#[test]
fn units_advance_by_speed_times_frame_factor() {
    let mut state = battle(vec![unit_at(300, 4, 7, 1000, 0)], Vec::new());
    tick(&mut state, 16);
    assert_eq!(state.a_units[0].played_card.rect.x, 321);
    assert_eq!(state.tower_b_hp, TOWER_START_HP);
}

#[test]
fn attack_interval_gates_damage() {
    // a unit past the engagement boundary, interval one second
    let mut state = battle(vec![unit_at(1700, 2, 7, 1000, 0)], Vec::new());
    tick(&mut state, 1000);
    assert_eq!(state.tower_b_hp, 8);
    assert_eq!(state.a_units[0].t, 1000);
    // a second tick within the interval deals zero damage and leaves the
    // last-attack timestamp unchanged
    tick(&mut state, 1500);
    assert_eq!(state.tower_b_hp, 8);
    assert_eq!(state.a_units[0].t, 1000);
    // once the interval has elapsed, the unit attacks again
    tick(&mut state, 2000);
    assert_eq!(state.tower_b_hp, 6);
    assert_eq!(state.a_units[0].t, 2000);
}

#[test]
fn attack_tower_returns_damage_and_new_timestamp() {
    let u = unit_at(1700, 2, 7, 1000, 500);
    let hit = attack_tower(&u, 1500);
    assert_eq!((hit.tower, hit.time_ms), (2, 1500));
    let miss = attack_tower(&u, 1499);
    assert_eq!((miss.tower, miss.time_ms), (0, 500));
}

#[test]
fn tower_health_never_goes_negative() {
    let mut state = battle(vec![unit_at(1700, 100, 7, 1000, 0)], Vec::new());
    tick(&mut state, 1000);
    assert_eq!(state.tower_b_hp, 0);
    assert_eq!(state.game_state, GameState::PlayerAWon);
}

#[test]
fn simultaneous_lethal_damage_goes_to_player_b() {
    // both towers fall in the same tick; player A's tower is checked first,
    // so player B takes the tie
    let mut state = battle(
        vec![unit_at(1700, 100, 7, 1000, 0)],
        vec![unit_at(200, 100, 7, 1000, 0)],
    );
    tick(&mut state, 1000);
    assert_eq!(state.tower_a_hp, 0);
    assert_eq!(state.tower_b_hp, 0);
    assert_eq!(state.game_state, GameState::PlayerBWon);
}

#[test]
fn terminal_state_never_changes() {
    let mut state = battle(vec![unit_at(1700, 100, 7, 1000, 0)], Vec::new());
    tick(&mut state, 1000);
    assert_eq!(state.game_state, GameState::PlayerAWon);
    let x_before = state.a_units[0].played_card.rect.x;
    // further ticks stop advancing units, cooldowns and towers
    tick(&mut state, 5000);
    assert_eq!(state.game_state, GameState::PlayerAWon);
    assert_eq!(state.a_units[0].played_card.rect.x, x_before);
    assert_eq!(state.tower_b_hp, 0);
    assert_eq!(state.tower_a_hp, TOWER_START_HP);
}

#[test]
fn plays_are_rejected_once_the_round_is_over() {
    let deck = Deck::new(vec![card("a", 0, 5, 4, 7, 1000)]);
    let mut state = SimState::new_game(deck, 1, 0);
    state.a_units.push(unit_at(1700, 100, 7, 1000, 0));
    tick(&mut state, 1000);
    assert_eq!(state.game_state, GameState::PlayerAWon);
    assert!(!play_card(&mut state, false, 0, 60_000));
    assert_eq!(state.b_units.len(), 0);
}

#[test]
fn playing_refills_the_slot_by_cycling_the_deck() {
    let deck = Deck::new(vec![
        card("a", 0, 5, 4, 7, 1000),
        card("b", 0, 6, 4, 7, 1000),
    ]);
    let mut state = SimState::new_game(deck, 1, 0);
    // the slot was dealt the deck's front card
    assert_eq!(state.slots[0].name, "a");
    assert!(play_card(&mut state, true, 0, 1000));
    assert_eq!(state.a_units[0].played_card.card.name, "a");
    assert_eq!(state.slots[0].name, "b");
    assert!(play_card(&mut state, true, 0, 2000));
    assert_eq!(state.slots[0].name, "a");
}

#[test]
fn health_bar_splits_green_and_red_by_remaining_share() {
    let bars = generate_health_bar(7, 1);
    assert_eq!(bars.len(), 2);
    match (&bars[0], &bars[1]) {
        (Drawable::Rectangle(green, gc, _), Drawable::Rectangle(red, rc, _)) => {
            assert_eq!((green.x, green.y, green.w, green.h), (100, 470, 140, 10));
            assert_eq!((red.x, red.y, red.w, red.h), (240, 470, 60, 10));
            assert_eq!(*gc, (0, 255, 0, 0));
            assert_eq!(*rc, (255, 0, 0, 0));
        }
        _ => panic!("health bars are filled rectangles"),
    }
    let bars2 = generate_health_bar(0, 2);
    match &bars2[0] {
        Drawable::Rectangle(green, _, _) => {
            assert_eq!((green.x, green.w), (1920 - 300, 0));
        }
        _ => panic!("health bars are filled rectangles"),
    }
}

#[test]
fn mana_spending_clamps_at_zero() {
    assert_eq!(handle_mana((5, 9), -1, 0), (4, 9));
    assert_eq!(handle_mana((5, 9), -1, 1), (5, 8));
    assert_eq!(handle_mana((0, 9), -1, 0), (0, 9));
}

#[test]
fn every_second_turn_grants_mana() {
    assert_eq!(advance_turn(0, (5, 5)), (1, (5, 5)));
    assert_eq!(advance_turn(1, (5, 5)), (2, (10, 10)));
}
