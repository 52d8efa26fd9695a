use engine::Card;
use engine::Deck;
use engine::EmptyDeckError;

fn card(name: &str, health: usize) -> Card {
    Card {
        name: name.to_string(),
        play_cost: 3,
        health,
        defense: 2,
        passive_cost: 1,
        special_cost: 6,
        special_tag: "Fire".to_string(),
        special: "none".to_string(),
        attack: 4,
        attack_tag: "Slash".to_string(),
        special_attribute: "Sturdy".to_string(),
        speed: 7,
        attack_speed: 1000,
    }
}

fn drain(deck: &mut Deck) -> Vec<String> {
    let mut names = Vec::new();
    while let Ok(c) = deck.draw_and_remove() {
        names.push(c.name.clone());
    }
    names
}

#[test]
fn shuffle_is_a_permutation() {
    let names = ["a", "b", "c", "d", "e", "b"];
    let mut deck = Deck::new(names.iter().map(|n| card(n, 5)).collect());
    deck.shuffle();
    let mut drained = drain(&mut deck);
    drained.sort();
    let mut expected: Vec<String> = names.iter().map(|n| n.to_string()).collect();
    expected.sort();
    assert_eq!(drained, expected);
}

#[test]
fn shuffle_of_empty_and_singleton_decks() {
    let mut empty = Deck::new_empty();
    empty.shuffle();
    assert!(matches!(empty.draw_and_remove(), Err(EmptyDeckError)));

    let mut one = Deck::new(vec![card("solo", 5)]);
    one.shuffle();
    assert_eq!(drain(&mut one), vec!["solo".to_string()]);
}

#[test]
fn draw_and_cycle_round_trip() {
    let mut deck = Deck::new(vec![card("a", 1), card("b", 2), card("c", 3)]);
    let mut drawn = Vec::new();
    for _ in 0..3 {
        drawn.push(deck.draw_and_cycle().unwrap().name.clone());
    }
    // each original card came back exactly once, in original order
    assert_eq!(drawn, vec!["a".to_string(), "b".to_string(), "c".to_string()]);
    // and the deck is restored to its original front-to-back order
    assert_eq!(
        drain(&mut deck),
        vec!["a".to_string(), "b".to_string(), "c".to_string()]
    );
}

#[test]
fn draw_and_cycle_keeps_length_and_moves_front_to_back() {
    let mut deck = Deck::new(vec![card("x", 1), card("y", 2)]);
    let first = deck.draw_and_cycle().unwrap();
    assert_eq!(first.name, "x");
    assert_eq!(
        drain(&mut deck),
        vec!["y".to_string(), "x".to_string()]
    );
}

#[test]
fn draws_on_empty_deck_fail() {
    let mut deck = Deck::new_empty();
    assert!(matches!(deck.draw_and_remove(), Err(EmptyDeckError)));
    assert_eq!(deck.draw_and_cycle().map(|c| c.name), Err(EmptyDeckError));
}

#[test]
fn bulk_mutation_keeps_order() {
    let mut deck = Deck::new_empty();
    deck.add_card(card("a", 1));
    let mut more = vec![card("b", 2), card("c", 3)];
    deck.add_cards(&mut more);
    assert!(more.is_empty());
    deck.remove_card(1);
    assert_eq!(drain(&mut deck), vec!["a".to_string(), "c".to_string()]);

    let mut deck = Deck::new(vec![card("a", 1)]);
    deck.set_cards(vec![card("z", 9), card("w", 8)]);
    assert_eq!(drain(&mut deck), vec!["z".to_string(), "w".to_string()]);
}
