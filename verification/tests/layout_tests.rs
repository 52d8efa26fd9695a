use engine::DraggableSnapType;
use engine::Drawable;
use engine::calculate_card_spacer_width;
use engine::calculate_deck_position;
use engine::generate_deck_slots;
use engine::get_slot_rect;

const CARD_SIZE: (usize, usize) = (192, 180);
const NUM_SLOTS: usize = 4;

#[test]
fn spacer_width_splits_the_leftover_screen_width() {
    // 1920 - 5 * 192 = 960 pixels left, split into 7 gaps
    assert_eq!(calculate_card_spacer_width(CARD_SIZE, NUM_SLOTS), 137);
}

#[test]
fn deck_position_sits_right_of_all_slots() {
    let (x, y) = calculate_deck_position(CARD_SIZE, 5, NUM_SLOTS);
    assert_eq!(x, 6 * 137 + 4 * 192);
    assert_eq!(y, 1080 - 180 - 5);
}

#[test]
fn slot_rects_line_up_with_the_spacers() {
    let r1 = get_slot_rect(1, CARD_SIZE, NUM_SLOTS, false, 5, 5);
    assert_eq!((r1.x, r1.y, r1.w, r1.h), (137, 1080 - 180 - 5, 192, 180));
    let r2 = get_slot_rect(2, CARD_SIZE, NUM_SLOTS, true, 7, 5);
    assert_eq!((r2.x, r2.y), (2 * 137 + 192, 7));
}

#[test]
fn deck_slots_scene_has_bands_slots_and_deck() {
    let slots = generate_deck_slots(
        CARD_SIZE,
        5,
        7,
        NUM_SLOTS,
        (0, 0, 0, 255),
        (0, 255, 0, 255),
        (255, 255, 255, 255),
        (220, 220, 250, 255),
    );
    assert_eq!(slots.len(), 6 + 4 * NUM_SLOTS);

    // the two backdrop bands span the whole width
    let top = slots[0].get_rect();
    assert_eq!((top.x, top.y, top.w, top.h), (0, 0, 1920, 180 + 5 + 7));
    let bottom = slots[1].get_rect();
    assert_eq!((bottom.x, bottom.y), (0, 1080 - 180 - 12));

    // the first slot's four drawables: two backgrounds and two frames
    let bg_top = slots[2].get_rect();
    assert_eq!((bg_top.x, bg_top.y, bg_top.w, bg_top.h), (137, 7, 192, 180));
    assert!(matches!(
        slots[3].get_drag_type(),
        Some(DraggableSnapType::Card(false, true))
    ));
    let bg_bottom = slots[4].get_rect();
    assert_eq!((bg_bottom.x, bg_bottom.y), (137, 1080 - 180 - 5));
    assert!(matches!(slots[4], Drawable::Rectangle(_, _, None)));
    assert!(matches!(slots[5], Drawable::RectOutlined(_, _, _)));

    // the deck slot stands to the right of the last card slot
    let deck_top = slots[2 + 4 * NUM_SLOTS].get_rect();
    assert_eq!(deck_top.x, 6 * 137 + 4 * 192);
    assert_eq!(deck_top.y, 7);
    // every slot frame accepts drops and nothing in the scenery is draggable
    for d in &slots {
        assert!(!d.is_draggable());
    }
}
