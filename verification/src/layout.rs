//! Layout of the card table: slot positions for each player's hand and the
//! deck, computed inside the fixed logical coordinate space.

use vstd::prelude::*;
use vstd::arithmetic::div_mod::lemma_fundamental_div_mod;
use vstd::arithmetic::mul::lemma_mul_inequality;

use crate::geom::FbCoords;
use crate::geom::HEIGHT;
use crate::geom::Rect;
use crate::geom::WIDTH;
use crate::geom::Color;
use crate::scene::DraggableSnapType;
use crate::scene::Drawable;

verus! {

/// The width of the space between card slots: what the slots leave of the
/// screen width, split between the gaps (one gap per slot, plus a double gap
/// before the deck and one to its right).
pub open spec fn spec_spacer_width(card_w: int, num_slots: int) -> int {
    (WIDTH - (num_slots + 1) * card_w) / (num_slots + 3)
}

/// The x position of a card slot, counted from one.
pub open spec fn spec_slot_x(card_w: int, num_slots: int, slot: int) -> int {
    slot * spec_spacer_width(card_w, num_slots) + (slot - 1) * card_w
}

/// The x position of the deck slot, to the right of all card slots.
pub open spec fn spec_deck_slot_x(card_w: int, num_slots: int) -> int {
    (num_slots + 2) * spec_spacer_width(card_w, num_slots) + num_slots * card_w
}

/// The spacer width times `num_slots + 3` does not exceed what the slots
/// leave of the screen width.
proof fn lemma_spacer_width_bound(card_w: int, num_slots: int)
    requires
        0 <= card_w,
        0 <= num_slots,
        (num_slots + 1) * card_w <= WIDTH,
    ensures
        0 <= spec_spacer_width(card_w, num_slots),
        (num_slots + 3) * spec_spacer_width(card_w, num_slots) <= WIDTH - (num_slots + 1) * card_w,
{
    let rest = WIDTH - (num_slots + 1) * card_w;
    lemma_fundamental_div_mod(rest, num_slots + 3);
}

pub fn calculate_card_spacer_width(card_size: (usize, usize), num_slots: usize) -> (r: usize)
    requires
        (num_slots + 1) * card_size.0 <= WIDTH,
        num_slots + 3 <= usize::MAX,
    ensures
        r == spec_spacer_width(card_size.0 as int, num_slots as int),
{
    let (card_width, _) = card_size;
    proof {
        lemma_mul_inequality(1, num_slots as int + 1, card_width as int);
    }
    let total_spacer_space = WIDTH - (num_slots + 1) * card_width;
    total_spacer_space / (num_slots + 3)
}

/// Where the deck slot stands: to the right of the card slots, raised from
/// the bottom edge by the card height and its padding.
pub fn calculate_deck_position(
    card_size: (usize, usize),
    card_padding_bottom: usize,
    num_slots: usize,
) -> (r: FbCoords)
    requires
        (num_slots + 1) * card_size.0 <= WIDTH,
        num_slots + 3 <= usize::MAX,
        card_size.1 + card_padding_bottom <= HEIGHT,
    ensures
        r.0 == spec_deck_slot_x(card_size.0 as int, num_slots as int),
        r.1 == HEIGHT - card_size.1 - card_padding_bottom,
{
    let spacer_width = calculate_card_spacer_width(card_size, num_slots);
    let (card_width, card_height) = card_size;
    proof {
        lemma_spacer_width_bound(card_width as int, num_slots as int);
        lemma_mul_inequality(num_slots as int + 2, num_slots as int + 3, spacer_width as int);
        lemma_mul_inequality(num_slots as int, num_slots as int + 1, card_width as int);
    }
    ((num_slots + 2) * spacer_width + num_slots * card_width, HEIGHT - card_height - card_padding_bottom)
}

/// The rectangle of a card slot, counted from one, in the top or the bottom
/// row.
pub fn get_slot_rect(
    slot: usize,
    card_size: (usize, usize),
    num_slots: usize,
    top: bool,
    card_padding_top: usize,
    card_padding_bottom: usize,
) -> (r: Rect)
    requires
        1 <= slot <= num_slots,
        (num_slots + 1) * card_size.0 <= WIDTH,
        num_slots + 3 <= usize::MAX,
        card_size.1 + card_padding_top + card_padding_bottom <= HEIGHT,
    ensures
        r.x == spec_slot_x(card_size.0 as int, num_slots as int, slot as int),
        r.y == if top {
            card_padding_top as int
        } else {
            HEIGHT - card_size.1 - card_padding_bottom
        },
        r.w == card_size.0,
        r.h == card_size.1,
{
    let spacer_width = calculate_card_spacer_width(card_size, num_slots);
    let (card_width, card_height) = card_size;
    proof {
        lemma_spacer_width_bound(card_width as int, num_slots as int);
        lemma_mul_inequality(slot as int, num_slots as int + 3, spacer_width as int);
        lemma_mul_inequality(slot as int - 1, num_slots as int + 1, card_width as int);
    }
    let x = slot * spacer_width + (slot - 1) * card_width;
    let y = if top {
        card_padding_top
    } else {
        HEIGHT - card_height - card_padding_bottom
    };
    Rect { x, y, w: card_width, h: card_height }
}

/// The top-row backdrop band behind the card slots.
pub open spec fn spec_top_container(
    card_h: int,
    pad_bottom: int,
    pad_top: int,
    spacer_bg: Color,
) -> Drawable {
    Drawable::Rectangle(
        Rect { x: 0, y: 0, w: WIDTH, h: (card_h + pad_top + pad_bottom) as usize },
        spacer_bg,
        None,
    )
}

/// The bottom-row backdrop band behind the card slots.
pub open spec fn spec_bottom_container(
    card_h: int,
    pad_bottom: int,
    pad_top: int,
    spacer_bg: Color,
) -> Drawable {
    Drawable::Rectangle(
        Rect {
            x: 0,
            y: (HEIGHT - card_h - (pad_bottom + pad_top)) as usize,
            w: WIDTH,
            h: (card_h + pad_top + pad_bottom) as usize,
        },
        spacer_bg,
        None,
    )
}

/// Builds the fixed scenery of the card table: two backdrop bands, then for
/// each slot a top and a bottom card slot (each a filled background and a
/// drop-accepting outlined frame), then the deck slot in both rows. The
/// result is ordered back-to-front.
pub fn generate_deck_slots(
    card_size: (usize, usize),
    card_padding_bottom: usize,
    card_padding_top: usize,
    num_slots: usize,
    slot_background_color: Color,
    deck_slot_background_color: Color,
    slot_border_color: Color,
    spacer_background_color: Color,
) -> (r: Vec<Drawable>)
    requires
        (num_slots + 1) * card_size.0 < WIDTH,
        num_slots + 3 <= usize::MAX,
        card_size.1 + card_padding_top + card_padding_bottom <= HEIGHT,
    ensures
        r@.len() == 6 + 4 * num_slots,
        r@[0] == spec_top_container(
            card_size.1 as int,
            card_padding_bottom as int,
            card_padding_top as int,
            spacer_background_color,
        ),
        r@[1] == spec_bottom_container(
            card_size.1 as int,
            card_padding_bottom as int,
            card_padding_top as int,
            spacer_background_color,
        ),
        forall|s: int|
            1 <= s <= num_slots ==> {
                let card_x = spec_slot_x(card_size.0 as int, num_slots as int, s) as usize;
                let card_y = (HEIGHT - card_size.1 - card_padding_bottom) as usize;
                &&& #[trigger] r@[4 * s - 2] == Drawable::Rectangle(
                    Rect { x: card_x, y: card_padding_top, w: card_size.0, h: card_size.1 },
                    slot_background_color,
                    None,
                )
                &&& r@[4 * s - 1] == Drawable::RectOutlined(
                    Rect { x: card_x, y: card_padding_bottom, w: card_size.0, h: card_size.1 },
                    (255u8, 0u8, 0u8, 0u8),
                    Some(DraggableSnapType::Card(false, true)),
                )
                &&& r@[4 * s] == Drawable::Rectangle(
                    Rect { x: card_x, y: card_y, w: card_size.0, h: card_size.1 },
                    slot_background_color,
                    None,
                )
                &&& r@[4 * s + 1] == Drawable::RectOutlined(
                    Rect { x: card_x, y: card_y, w: card_size.0, h: card_size.1 },
                    (255u8, 0u8, 0u8, 0u8),
                    Some(DraggableSnapType::Card(false, true)),
                )
            },
        ({
            let deck_x = spec_deck_slot_x(card_size.0 as int, num_slots as int) as usize;
            let card_y = (HEIGHT - card_size.1 - card_padding_bottom) as usize;
            let base = 2 + 4 * num_slots;
            &&& r@[base as int] == Drawable::Rectangle(
                Rect { x: deck_x, y: card_padding_top, w: card_size.0, h: card_size.1 },
                deck_slot_background_color,
                None,
            )
            &&& r@[base + 1] == Drawable::RectOutlined(
                Rect { x: deck_x, y: card_padding_top, w: card_size.0, h: card_size.1 },
                slot_border_color,
                Some(DraggableSnapType::Card(false, true)),
            )
            &&& r@[base + 2] == Drawable::Rectangle(
                Rect { x: deck_x, y: card_y, w: card_size.0, h: card_size.1 },
                deck_slot_background_color,
                None,
            )
            &&& r@[base + 3] == Drawable::RectOutlined(
                Rect { x: deck_x, y: card_y, w: card_size.0, h: card_size.1 },
                slot_border_color,
                Some(DraggableSnapType::Card(false, true)),
            )
        }),
{
    let (card_width, card_height) = card_size;
    let spacer_width = calculate_card_spacer_width(card_size, num_slots);

    let top_container = Drawable::Rectangle(
        Rect { x: 0, y: 0, w: WIDTH, h: card_height + card_padding_top + card_padding_bottom },
        spacer_background_color,
        None,
    );
    let bottom_container = Drawable::Rectangle(
        Rect {
            x: 0,
            y: HEIGHT - card_height - (card_padding_bottom + card_padding_top),
            w: WIDTH,
            h: card_height + card_padding_top + card_padding_bottom,
        },
        spacer_background_color,
        None,
    );

    let mut slot_drawables: Vec<Drawable> = Vec::new();
    slot_drawables.push(top_container);
    slot_drawables.push(bottom_container);
    let card_y = HEIGHT - card_height - card_padding_bottom;

    let mut slot: usize = 1;
    while slot <= num_slots
        invariant
            1 <= slot <= num_slots + 1,
            (num_slots + 1) * card_size.0 < WIDTH,
            num_slots + 3 <= usize::MAX,
            card_size == (card_width, card_height),
            card_size.1 + card_padding_top + card_padding_bottom <= HEIGHT,
            spacer_width == spec_spacer_width(card_width as int, num_slots as int),
            card_y == HEIGHT - card_height - card_padding_bottom,
            slot_drawables@.len() == 2 + 4 * (slot - 1),
            slot_drawables@[0] == spec_top_container(
                card_height as int,
                card_padding_bottom as int,
                card_padding_top as int,
                spacer_background_color,
            ),
            slot_drawables@[1] == spec_bottom_container(
                card_height as int,
                card_padding_bottom as int,
                card_padding_top as int,
                spacer_background_color,
            ),
            forall|s: int|
                1 <= s < slot ==> {
                    let card_x = spec_slot_x(card_width as int, num_slots as int, s) as usize;
                    &&& #[trigger] slot_drawables@[4 * s - 2] == Drawable::Rectangle(
                        Rect { x: card_x, y: card_padding_top, w: card_width, h: card_height },
                        slot_background_color,
                        None,
                    )
                    &&& slot_drawables@[4 * s - 1] == Drawable::RectOutlined(
                        Rect { x: card_x, y: card_padding_bottom, w: card_width, h: card_height },
                        (255u8, 0u8, 0u8, 0u8),
                        Some(DraggableSnapType::Card(false, true)),
                    )
                    &&& slot_drawables@[4 * s] == Drawable::Rectangle(
                        Rect { x: card_x, y: card_y, w: card_width, h: card_height },
                        slot_background_color,
                        None,
                    )
                    &&& slot_drawables@[4 * s + 1] == Drawable::RectOutlined(
                        Rect { x: card_x, y: card_y, w: card_width, h: card_height },
                        (255u8, 0u8, 0u8, 0u8),
                        Some(DraggableSnapType::Card(false, true)),
                    )
                },
        decreases num_slots + 1 - slot,
    {
        proof {
            lemma_spacer_width_bound(card_width as int, num_slots as int);
            lemma_mul_inequality(slot as int, num_slots as int + 3, spacer_width as int);
            lemma_mul_inequality(slot as int - 1, num_slots as int + 1, card_width as int);
        }
        let card_x = slot * spacer_width + (slot - 1) * card_width;
        let top_card_slot_background = Drawable::Rectangle(
            Rect { x: card_x, y: card_padding_top, w: card_width, h: card_height },
            slot_background_color,
            None,
        );
        let top_card_slot_frame = Drawable::RectOutlined(
            Rect { x: card_x, y: card_padding_bottom, w: card_width, h: card_height },
            (255, 0, 0, 0),
            Some(DraggableSnapType::Card(false, true)),
        );
        let bottom_card_slot_background = Drawable::Rectangle(
            Rect { x: card_x, y: card_y, w: card_width, h: card_height },
            slot_background_color,
            None,
        );
        let bottom_card_slot_frame = Drawable::RectOutlined(
            Rect { x: card_x, y: card_y, w: card_width, h: card_height },
            (255, 0, 0, 0),
            Some(DraggableSnapType::Card(false, true)),
        );
        slot_drawables.push(top_card_slot_background);
        slot_drawables.push(top_card_slot_frame);
        slot_drawables.push(bottom_card_slot_background);
        slot_drawables.push(bottom_card_slot_frame);
        slot = slot + 1;
    }

    proof {
        lemma_spacer_width_bound(card_width as int, num_slots as int);
        lemma_mul_inequality(num_slots as int + 2, num_slots as int + 3, spacer_width as int);
        lemma_mul_inequality(num_slots as int, num_slots as int + 1, card_width as int);
    }
    let deck_slot_x = (num_slots + 2) * spacer_width + num_slots * card_width;
    let top_deck_slot_background = Drawable::Rectangle(
        Rect { x: deck_slot_x, y: card_padding_top, w: card_width, h: card_height },
        deck_slot_background_color,
        None,
    );
    let top_deck_slot_frame = Drawable::RectOutlined(
        Rect { x: deck_slot_x, y: card_padding_top, w: card_width, h: card_height },
        slot_border_color,
        Some(DraggableSnapType::Card(false, true)),
    );
    let bottom_deck_slot_background = Drawable::Rectangle(
        Rect { x: deck_slot_x, y: card_y, w: card_width, h: card_height },
        deck_slot_background_color,
        None,
    );
    let bottom_deck_slot_frame = Drawable::RectOutlined(
        Rect { x: deck_slot_x, y: card_y, w: card_width, h: card_height },
        slot_border_color,
        Some(DraggableSnapType::Card(false, true)),
    );
    slot_drawables.push(top_deck_slot_background);
    slot_drawables.push(top_deck_slot_frame);
    slot_drawables.push(bottom_deck_slot_background);
    slot_drawables.push(bottom_deck_slot_frame);
    slot_drawables
}

} // verus!
