//! Card records and cards placed on the field. A card is a value type:
//! copying is cheap and side-effect free, with no shared mutable identity.

use vstd::prelude::*;

use crate::geom::Rect;
use crate::scene::Drawable;
use crate::text::spec_decimal;
use crate::text::usize_to_decimal;

verus! {

/// One card record: identity, economy fields, combat fields and descriptive
/// tags. `attack_speed` is the attack interval in milliseconds; `play_cost`
/// is the play cooldown in seconds.
pub struct Card {
    pub name: String,
    pub play_cost: usize,
    pub health: usize,
    pub defense: usize,
    pub passive_cost: usize,
    pub special_cost: usize,
    pub special_tag: String,
    pub special: String,
    pub attack: usize,
    pub attack_tag: String,
    pub special_attribute: String,
    pub speed: usize,
    pub attack_speed: usize,
}

/// A card after damage: the defense absorbs part of the incoming damage and
/// the rest is subtracted from health, both clamped at zero so neither
/// subtraction can wrap.
pub open spec fn spec_take_damage(c: Card, dmg: int) -> Card {
    let effective = if dmg > c.defense { dmg - c.defense } else { 0 };
    let health = if effective > c.health { 0 } else { c.health - effective };
    Card { health: health as usize, ..c }
}

/// The multi-line description rendered onto a card: name, then stats, then
/// the attack block, then the special block.
pub open spec fn spec_description(c: Card) -> Seq<char> {
    c.name@ + " \n \n "@ + spec_stats_block(c) + " \n \n "@ + spec_attack_block(c) + " \n\n "@
        + spec_special_block(c)
}

pub open spec fn spec_stats_block(c: Card) -> Seq<char> {
    "HP:"@ + spec_decimal(c.health as nat) + " | AC:"@ + spec_decimal(c.defense as nat)
        + " | Upkeep: "@ + spec_decimal(c.passive_cost as nat) + " \n "@ + c.special_attribute@
}

pub open spec fn spec_attack_block(c: Card) -> Seq<char> {
    "ATK: "@ + spec_decimal(c.attack as nat) + " \n "@ + c.attack_tag@
}

pub open spec fn spec_special_block(c: Card) -> Seq<char> {
    "Special | Cost: "@ + spec_decimal(c.special_cost as nat) + " \n "@ + c.special_tag@
}

impl Card {
    /// Applies incoming damage, reduced by defense and clamped at zero on
    /// both the reduction and the health subtraction. Returns whether the
    /// card is still alive (health not zero).
    pub fn take_damage(&mut self, dmg: usize) -> (alive: bool)
        ensures
            *final(self) == spec_take_damage(*old(self), dmg as int),
            alive == (final(self).health != 0),
    {
        let rem_dmg: usize = if dmg > self.defense {
            dmg - self.defense
        } else {
            0
        };
        self.health = if rem_dmg > self.health {
            0
        } else {
            self.health - rem_dmg
        };
        self.health != 0
    }

    /// Strikes another card with this card's attack value. Returns whether
    /// the other card is still alive.
    pub fn attack(&self, other_card: &mut Card) -> (other_alive: bool)
        ensures
            *final(other_card) == spec_take_damage(*old(other_card), self.attack as int),
            other_alive == (final(other_card).health != 0),
    {
        other_card.take_damage(self.attack)
    }

    /// The text rendered onto the card itself.
    pub fn get_description(&self) -> (r: String)
        ensures
            r@ == spec_description(*self),
    {
        let mut s = self.name.clone();
        s.append(" \n \n ");
        s.append("HP:");
        s.append(usize_to_decimal(self.health).as_str());
        s.append(" | AC:");
        s.append(usize_to_decimal(self.defense).as_str());
        s.append(" | Upkeep: ");
        s.append(usize_to_decimal(self.passive_cost).as_str());
        s.append(" \n ");
        s.append(self.special_attribute.as_str());
        s.append(" \n \n ");
        s.append("ATK: ");
        s.append(usize_to_decimal(self.attack).as_str());
        s.append(" \n ");
        s.append(self.attack_tag.as_str());
        s.append(" \n\n ");
        s.append("Special | Cost: ");
        s.append(usize_to_decimal(self.special_cost).as_str());
        s.append(" \n ");
        s.append(self.special_tag.as_str());
        s
    }

    /// Places a copy of the card on the field at the given rectangle.
    pub fn play(&self, r: Rect) -> (p: PlayedCard)
        ensures
            p.card == *self,
            p.rect == r,
    {
        PlayedCard { card: self.clone(), rect: r }
    }
}

impl Clone for Card {
    /// A clone is equal to the original in every field.
    fn clone(&self) -> (r: Self)
        ensures
            r == *self,
    {
        Card {
            name: self.name.clone(),
            play_cost: self.play_cost,
            health: self.health,
            defense: self.defense,
            passive_cost: self.passive_cost,
            special_cost: self.special_cost,
            special_tag: self.special_tag.clone(),
            special: self.special.clone(),
            attack: self.attack,
            attack_tag: self.attack_tag.clone(),
            special_attribute: self.special_attribute.clone(),
            speed: self.speed,
            attack_speed: self.attack_speed,
        }
    }
}

/// A card that has left the deck, paired with its rectangle on the field.
pub struct PlayedCard {
    pub card: Card,
    pub rect: Rect,
}

impl PlayedCard {
    /// The text drawable showing the card's description at its field
    /// rectangle.
    pub fn get_drawable(&self) -> (r: Drawable)
        ensures
            r matches Drawable::Text(rect, s, size) && rect == self.rect && s@
                == spec_description(self.card) && size == 10usize,
    {
        Drawable::Text(self.rect, self.card.get_description(), 10)
    }
}

} // verus!
