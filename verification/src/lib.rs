//! Core of an interactive two-player card game: an ordered scene of drawable
//! primitives with pointer-driven drag and drop, a deck of cards, a software
//! rasterizer for the logical framebuffer, and a real-time lane battle
//! simulation with cooldown-gated card play, timed tower combat and terminal
//! win-state detection.
//!
//! The presentation layer (window, GPU surface, font rasterizer) and the deck
//! file parsing are external collaborators: the library only produces ordered
//! drawable lists and pixel buffers, and consumes already-parsed card records,
//! normalized pointer coordinates and a logical clock.

pub mod battle;
pub mod card;
pub mod deck;
pub mod drag;
pub mod geom;
pub mod input;
pub mod layout;
pub mod mana;
pub mod raster;
pub mod scene;
pub mod text;

pub use battle::GameState;
pub use battle::SimState;
pub use battle::TowerTime;
pub use battle::Unit;
pub use battle::attack_tower;
pub use battle::create_spawn_point;
pub use battle::generate_health_bar;
pub use battle::play_card;
pub use battle::ready_to_play;
pub use battle::tick;
pub use card::Card;
pub use card::PlayedCard;
pub use deck::Deck;
pub use deck::EmptyDeckError;
pub use drag::DragSession;
pub use drag::SceneState;
pub use drag::check_and_handle_drag;
pub use geom::Color;
pub use geom::FbCoords;
pub use geom::HEIGHT;
pub use geom::Rect;
pub use geom::WIDTH;
pub use geom::coord_shift;
pub use input::KeyState;
pub use layout::calculate_card_spacer_width;
pub use layout::calculate_deck_position;
pub use layout::generate_deck_slots;
pub use layout::get_slot_rect;
pub use raster::clear;
pub use raster::line_bresenham;
pub use raster::point;
pub use raster::rect_outlined;
pub use raster::rectangle;
pub use scene::DraggableSnapType;
pub use scene::Drawable;
