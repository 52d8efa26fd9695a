//! The real-time lane battle: cooldown-gated card play, per-frame unit
//! movement toward the opposing tower, attack-interval-gated tower damage,
//! tower health bookkeeping and terminal win-state detection.
//!
//! All timing is a logical clock: a monotone count of milliseconds since
//! start, handed into each call, so every decision is a pure function of
//! state and clock.

use vstd::prelude::*;
use vstd::arithmetic::div_mod::lemma_fundamental_div_mod;
use vstd::arithmetic::div_mod::lemma_add_mod_noop;
use vstd::arithmetic::div_mod::lemma_mod_multiples_vanish;
use vstd::arithmetic::div_mod::lemma_small_mod;

use crate::card::Card;
use crate::card::PlayedCard;
use crate::deck::Deck;
use crate::deck::spec_cycle;
use crate::deck::spec_cycle_n;
use crate::geom::Color;
use crate::geom::HEIGHT;
use crate::geom::Rect;
use crate::geom::WIDTH;
use crate::scene::Drawable;

verus! {

/// Health both towers start with, and the clamp ceiling for tower health.
pub const TOWER_START_HP: usize = 10;

/// A unit of player A advances while its x position is at most this
/// engagement boundary; past it, the unit stands and attacks player B's
/// tower.
pub const ENGAGE_BOUNDARY_A: usize = WIDTH - 300;

/// A unit of player B advances (leftward) while its x position is at least
/// this engagement boundary; short of it, the unit stands and attacks player
/// A's tower.
pub const ENGAGE_BOUNDARY_B: usize = 300;

/// Units advance by their speed times this factor each frame.
pub const FRAME_MOVEMENT_FACTOR: usize = 3;

/// The winner of the round, or the round still running. Terminal once either
/// tower reaches zero health; no transition leaves a terminal state.
#[derive(Copy, Clone, PartialEq, Eq, Structural, Debug)]
pub enum GameState {
    InProgress,
    PlayerAWon,
    PlayerBWon,
}

/// The outcome of one attack evaluation: the damage dealt to the tower and
/// the attacker's last-attack timestamp afterwards.
#[derive(Copy, Clone, PartialEq, Eq, Structural, Debug)]
pub struct TowerTime {
    pub tower: usize,
    pub time_ms: u64,
}

/// A spawned unit: the card it was played from together with its rectangle in
/// the lane, its remaining health, and the timestamp `t` of its last attack
/// (its spawn time until it first attacks).
pub struct Unit {
    pub played_card: PlayedCard,
    pub health: usize,
    pub t: u64,
}

impl Clone for PlayedCard {
    /// A clone is equal to the original.
    fn clone(&self) -> (r: Self)
        ensures
            r == *self,
    {
        PlayedCard { card: self.card.clone(), rect: self.rect }
    }
}

impl Clone for Unit {
    /// A clone is equal to the original.
    fn clone(&self) -> (r: Self)
        ensures
            r == *self,
    {
        Unit { played_card: self.played_card.clone(), health: self.health, t: self.t }
    }
}

impl PlayedCard {
    /// Spawns a unit from this played card at the given lane rectangle, with
    /// the given starting health and spawn timestamp.
    pub fn play_unit(&self, t: u64, hp: usize, rect: Rect) -> (u: Unit)
        ensures
            u == (Unit { played_card: PlayedCard { card: self.card, rect }, health: hp, t }),
    {
        Unit { played_card: PlayedCard { card: self.card.clone(), rect }, health: hp, t }
    }

    /// The plain colored rectangle drawn for a unit in the lane.
    pub fn get_drawable_rect(&self, color: Color) -> (r: Drawable)
        ensures
            r == Drawable::Rectangle(self.rect, color, None::<crate::scene::DraggableSnapType>),
    {
        Drawable::Rectangle(self.rect, color, None)
    }
}

/// An x position advanced to the right, saturating at the top of the
/// coordinate space.
pub open spec fn spec_moved_x_forward(x: int, amount: int) -> int {
    if x + amount > usize::MAX {
        usize::MAX as int
    } else {
        x + amount
    }
}

/// An x position advanced to the left, clamped at zero.
pub open spec fn spec_moved_x_back(x: int, amount: int) -> int {
    if x - amount < 0 {
        0
    } else {
        x - amount
    }
}

impl Unit {
    /// The unit's lane x position.
    pub fn get_rect_x(&self) -> (r: usize)
        ensures
            r == self.played_card.rect.x,
    {
        self.played_card.rect.x
    }

    /// The unit advanced rightward by the given amount.
    pub fn move_unit(&self, amount: usize) -> (r: Unit)
        ensures
            r == (Unit {
                played_card: PlayedCard {
                    card: self.played_card.card,
                    rect: Rect {
                        x: spec_moved_x_forward(self.played_card.rect.x as int, amount as int)
                            as usize,
                        ..self.played_card.rect
                    },
                },
                ..*self
            }),
    {
        let mut r = self.clone();
        r.played_card.rect.x = r.played_card.rect.x.saturating_add(amount);
        r
    }

    /// The unit advanced leftward by the given amount, clamped at zero.
    pub fn move_unit_back(&self, amount: usize) -> (r: Unit)
        ensures
            r == (Unit {
                played_card: PlayedCard {
                    card: self.played_card.card,
                    rect: Rect {
                        x: spec_moved_x_back(self.played_card.rect.x as int, amount as int)
                            as usize,
                        ..self.played_card.rect
                    },
                },
                ..*self
            }),
    {
        let mut r = self.clone();
        r.played_card.rect.x = r.played_card.rect.x.saturating_sub(amount);
        r
    }

    /// The same unit with its last-attack timestamp replaced.
    pub fn assign_new_time(&self, time_ms: u64) -> (r: Unit)
        ensures
            r == (Unit { t: time_ms, ..*self }),
    {
        let mut r = self.clone();
        r.t = time_ms;
        r
    }
}

/// The spawn rectangle offset for the given unit counter: twenty pixels of
/// vertical offset per unit, wrapping within a band of two hundred pixels.
pub open spec fn spec_spawn_point(og_spawn: Rect, id: int) -> Rect {
    Rect {
        x: og_spawn.x,
        y: ((og_spawn.y + id * 20) % 200 + og_spawn.y) as usize,
        w: og_spawn.w,
        h: og_spawn.h,
    }
}

/// Where a freshly spawned unit stands: the lane spawn rectangle, vertically
/// offset by twenty pixels per unit counter, wrapping within a band of two
/// hundred pixels so concurrently spawned units do not fully overlap.
pub fn create_spawn_point(og_spawn: Rect, id: usize) -> (r: Rect)
    requires
        og_spawn.y + 200 <= usize::MAX,
    ensures
        r == spec_spawn_point(og_spawn, id as int),
{
    let offset = (id % 10) * 20;
    let y = (og_spawn.y % 200 + offset) % 200 + og_spawn.y;
    proof {
        let oy = og_spawn.y as int;
        let q = id as int / 10;
        let b = id as int % 10;
        lemma_fundamental_div_mod(id as int, 10);
        assert(id * 20 == 200 * q + 20 * b);
        lemma_mod_multiples_vanish(q, oy + 20 * b, 200);
        assert((oy + id * 20) % 200 == (oy + 20 * b) % 200);
        lemma_small_mod((20 * b) as nat, 200nat);
        lemma_add_mod_noop(oy, 20 * b, 200);
    }
    Rect { x: og_spawn.x, y, w: og_spawn.w, h: og_spawn.h }
}

/// Whether the cooldown has elapsed: a card with the given play cost (in
/// seconds) may be played at `now_ms` if that many seconds have passed since
/// the player's recorded last play.
pub open spec fn spec_ready_to_play(last_play_ms: u64, now_ms: u64, card_cost: usize) -> bool {
    last_play_ms + card_cost * 1000 <= now_ms
}

/// Evaluates the per-player cooldown gate on the logical clock.
pub fn ready_to_play(t: u64, now_ms: u64, card_cost: usize) -> (r: bool)
    ensures
        r == spec_ready_to_play(t, now_ms, card_cost),
{
    if now_ms < t {
        return false;
    }
    ((now_ms - t) as u128) >= (card_cost as u128) * 1000
}

/// What one attack evaluation yields: the card's full attack value and a
/// fresh timestamp once the attack interval has elapsed since the last
/// attack; zero damage and the unchanged timestamp otherwise — damage never
/// accrues partially.
pub open spec fn spec_attack_tower(u: Unit, now_ms: u64) -> TowerTime {
    if u.t + u.played_card.card.attack_speed <= now_ms {
        TowerTime { tower: u.played_card.card.attack, time_ms: now_ms }
    } else {
        TowerTime { tower: 0, time_ms: u.t }
    }
}

/// Evaluates the attack-interval gate for a unit standing at a tower: if at
/// least `attack_speed` milliseconds have passed since the unit's last
/// attack, it deals its attack value and its timestamp resets to now; within
/// the interval it deals zero damage and the timestamp stays unchanged.
pub fn attack_tower(unit: &Unit, now_ms: u64) -> (r: TowerTime)
    ensures
        r == spec_attack_tower(*unit, now_ms),
{
    if now_ms >= unit.t && ((now_ms - unit.t) as u128) >= (unit.played_card.card.attack_speed
        as u128) {
        TowerTime { tower: unit.played_card.card.attack, time_ms: now_ms }
    } else {
        TowerTime { tower: 0, time_ms: unit.t }
    }
}

/// A unit may not attack twice within less than its attack interval: when an
/// attack fires at `t1`, a second evaluation at any `t2` less than one
/// interval after `t1` applies zero damage and leaves the last-attack
/// timestamp unchanged.
pub proof fn lemma_no_double_attack(u: Unit, t1: u64, t2: u64)
    requires
        u.t + u.played_card.card.attack_speed <= t1,
        t2 < t1 + u.played_card.card.attack_speed,
    ensures
        ({
            let u1 = Unit { t: spec_attack_tower(u, t1).time_ms, ..u };
            spec_attack_tower(u1, t2) == (TowerTime { tower: 0, time_ms: u1.t })
        }),
{
}

/// Tower health after taking damage, clamped at zero: health never wraps and
/// never goes negative.
pub open spec fn spec_damaged_hp(hp: int, dmg: int) -> int {
    if dmg > hp {
        0
    } else {
        hp - dmg
    }
}

/// One unit processed for one frame: a unit short of the engagement boundary
/// advances along its lane and deals no damage; a unit past it attacks the
/// opposing tower under the attack-interval gate. Yields the stepped unit and
/// the tower health after its damage.
pub open spec fn spec_step_unit(u: Unit, hp: int, now_ms: u64, forward: bool) -> (Unit, int) {
    if forward && u.played_card.rect.x <= ENGAGE_BOUNDARY_A {
        let amount = spec_move_amount(u.played_card.card.speed as int);
        (
            Unit {
                played_card: PlayedCard {
                    card: u.played_card.card,
                    rect: Rect {
                        x: spec_moved_x_forward(u.played_card.rect.x as int, amount) as usize,
                        ..u.played_card.rect
                    },
                },
                ..u
            },
            hp,
        )
    } else if !forward && u.played_card.rect.x >= ENGAGE_BOUNDARY_B {
        let amount = spec_move_amount(u.played_card.card.speed as int);
        (
            Unit {
                played_card: PlayedCard {
                    card: u.played_card.card,
                    rect: Rect {
                        x: spec_moved_x_back(u.played_card.rect.x as int, amount) as usize,
                        ..u.played_card.rect
                    },
                },
                ..u
            },
            hp,
        )
    } else {
        let tt = spec_attack_tower(u, now_ms);
        (Unit { t: tt.time_ms, ..u }, spec_damaged_hp(hp, tt.tower as int))
    }
}

/// How far a unit moves in one frame: its speed times the frame movement
/// factor, saturating at the top of the coordinate space.
pub open spec fn spec_move_amount(speed: int) -> int {
    if speed * FRAME_MOVEMENT_FACTOR > usize::MAX {
        usize::MAX as int
    } else {
        speed * FRAME_MOVEMENT_FACTOR
    }
}

/// One player's units processed in order for one frame, threading the
/// opposing tower's health through each unit's damage.
pub open spec fn spec_step_units(units: Seq<Unit>, hp: int, now_ms: u64, forward: bool) -> (
    Seq<Unit>,
    int,
)
    decreases units.len(),
{
    if units.len() == 0 {
        (Seq::<Unit>::empty(), hp)
    } else {
        let first = spec_step_unit(units[0], hp, now_ms, forward);
        let rest = spec_step_units(units.drop_first(), first.1, now_ms, forward);
        (seq![first.0] + rest.0, rest.1)
    }
}

/// Processing units never lowers tower health below zero and never raises
/// it: whatever the cumulative incoming damage in a single tick, the health
/// stays between zero and its starting value.
pub proof fn lemma_tower_health_bounds(units: Seq<Unit>, hp: int, now_ms: u64, forward: bool)
    requires
        hp >= 0,
    ensures
        0 <= spec_step_units(units, hp, now_ms, forward).1 <= hp,
    decreases units.len(),
{
    if units.len() > 0 {
        let first = spec_step_unit(units[0], hp, now_ms, forward);
        lemma_tower_health_bounds(units.drop_first(), first.1, now_ms, forward);
    }
}

/// Appending a unit to the processed sequence steps it last, on the health
/// the earlier units left.
proof fn lemma_step_units_push(units: Seq<Unit>, u: Unit, hp: int, now_ms: u64, forward: bool)
    ensures
        spec_step_units(units.push(u), hp, now_ms, forward) == {
            let prefix = spec_step_units(units, hp, now_ms, forward);
            let last = spec_step_unit(u, prefix.1, now_ms, forward);
            (prefix.0.push(last.0), last.1)
        },
    decreases units.len(),
{
    let whole = spec_step_units(units.push(u), hp, now_ms, forward);
    let prefix = spec_step_units(units, hp, now_ms, forward);
    if units.len() == 0 {
        assert(units.push(u)[0] == u);
        assert(units.push(u).drop_first() =~= Seq::<Unit>::empty());
        let last = spec_step_unit(u, hp, now_ms, forward);
        let rest = spec_step_units(units.push(u).drop_first(), last.1, now_ms, forward);
        assert(rest == spec_step_units(Seq::<Unit>::empty(), last.1, now_ms, forward));
        assert(rest.0 =~= Seq::<Unit>::empty());
        assert(whole.1 == last.1);
        assert(whole.0 =~= prefix.0.push(last.0));
    } else {
        assert(units.push(u)[0] == units[0]);
        let first = spec_step_unit(units[0], hp, now_ms, forward);
        assert(units.push(u).drop_first() =~= units.drop_first().push(u));
        lemma_step_units_push(units.drop_first(), u, first.1, now_ms, forward);
        let subprefix = spec_step_units(units.drop_first(), first.1, now_ms, forward);
        let last = spec_step_unit(u, subprefix.1, now_ms, forward);
        assert(whole.0 =~= prefix.0.push(last.0));
    }
}

/// Steps one player's units in place against the opposing tower's health:
/// movement for units short of the boundary, gated tower damage for units at
/// it, in storage order.
fn step_units(units: &mut Vec<Unit>, hp: &mut usize, now_ms: u64, forward: bool)
    ensures
        (final(units)@, *final(hp) as int) == spec_step_units(
            old(units)@,
            *old(hp) as int,
            now_ms,
            forward,
        ),
{
    let ghost orig = units@;
    let ghost hp0 = *hp as int;
    let mut i: usize = 0;
    while i < units.len()
        invariant
            i <= orig.len(),
            units@.len() == orig.len(),
            forall|j: int| i <= j < orig.len() ==> units@[j] == orig[j],
            (units@.take(i as int), *hp as int) == spec_step_units(
                orig.take(i as int),
                hp0,
                now_ms,
                forward,
            ),
        decreases orig.len() - i,
    {
        let ghost prev_taken = orig.take(i as int);
        let ghost prev_view = units@;
        proof {
            assert(orig.take(i + 1) =~= prev_taken.push(orig[i as int]));
            lemma_step_units_push(prev_taken, orig[i as int], hp0, now_ms, forward);
            assert(units@[i as int] == orig[i as int]);
        }
        let x = units[i].get_rect_x();
        let moves = if forward {
            x <= ENGAGE_BOUNDARY_A
        } else {
            x >= ENGAGE_BOUNDARY_B
        };
        if moves {
            let amount = match units[i].played_card.card.speed.checked_mul(FRAME_MOVEMENT_FACTOR) {
                Some(v) => v,
                None => usize::MAX,
            };
            let stepped = if forward {
                units[i].move_unit(amount)
            } else {
                units[i].move_unit_back(amount)
            };
            units.set(i, stepped);
        } else {
            let tt = attack_tower(&units[i], now_ms);
            *hp = if tt.tower > *hp {
                0
            } else {
                *hp - tt.tower
            };
            let stepped = units[i].assign_new_time(tt.time_ms);
            units.set(i, stepped);
        }
        proof {
            assert(units@.take(i as int) =~= prev_view.take(i as int));
            assert(units@.take(i + 1) =~= units@.take(i as int).push(units@[i as int]));
        }
        i = i + 1;
    }
    proof {
        assert(orig.take(orig.len() as int) =~= orig);
        assert(units@.take(orig.len() as int) =~= units@);
    }
}

/// The lane spawn rectangle of a player: near that player's own tower, a
/// small square halfway up the field.
pub open spec fn spec_spawn_rect(player_a: bool) -> Rect {
    if player_a {
        Rect { x: 300, y: (HEIGHT / 2 - 50) as usize, w: 20, h: 20 }
    } else {
        Rect { x: (WIDTH - 300) as usize, y: (HEIGHT / 2 - 50) as usize, w: 20, h: 20 }
    }
}

pub fn spawn_rect(player_a: bool) -> (r: Rect)
    ensures
        r == spec_spawn_rect(player_a),
{
    if player_a {
        Rect { x: 300, y: HEIGHT / 2 - 50, w: 20, h: 20 }
    } else {
        Rect { x: WIDTH - 300, y: HEIGHT / 2 - 50, w: 20, h: 20 }
    }
}

/// The whole state of one real-time battle: the shared deck and face-up card
/// slots, each player's last-play timestamp and unit list, both towers'
/// health, the win state, and the counter spawn points are derived from.
pub struct SimState {
    pub deck: Deck,
    pub slots: Vec<Card>,
    pub a_last_play_ms: u64,
    pub b_last_play_ms: u64,
    pub a_units: Vec<Unit>,
    pub b_units: Vec<Unit>,
    pub tower_a_hp: usize,
    pub tower_b_hp: usize,
    pub game_state: GameState,
    pub next_unit_id: usize,
}

/// The recorded time of the given player's last card play.
pub open spec fn spec_last_play(s: SimState, player_a: bool) -> u64 {
    if player_a {
        s.a_last_play_ms
    } else {
        s.b_last_play_ms
    }
}

impl SimState {
    /// While any face-up slot exists, the deck it is refilled from is
    /// nonempty; cycling draws keep it so.
    pub open spec fn wf(self) -> bool {
        self.slots@.len() > 0 ==> self.deck@.len() > 0
    }

    /// Sets up a battle: both towers at full health, no units, the round in
    /// progress, and `num_slots` face-up cards drawn from the deck by
    /// cycling, so the deck keeps all its cards.
    pub fn new_game(deck: Deck, num_slots: usize, start_ms: u64) -> (s: SimState)
        requires
            deck@.len() > 0 || num_slots == 0,
        ensures
            s.wf(),
            s.deck@ == spec_cycle_n(deck@, num_slots as nat),
            s.slots@.len() == num_slots,
            forall|j: int|
                0 <= j < num_slots ==> s.slots@[j] == #[trigger] spec_cycle_n(deck@, j as nat)[0],
            s.a_last_play_ms == start_ms,
            s.b_last_play_ms == start_ms,
            s.a_units@ == Seq::<Unit>::empty(),
            s.b_units@ == Seq::<Unit>::empty(),
            s.tower_a_hp == TOWER_START_HP,
            s.tower_b_hp == TOWER_START_HP,
            s.game_state == GameState::InProgress,
            s.next_unit_id == 0,
    {
        let ghost d0 = deck@;
        let mut deck = deck;
        let mut slots: Vec<Card> = Vec::new();
        let mut i: usize = 0;
        while i < num_slots
            invariant
                i <= num_slots,
                num_slots > 0 ==> d0.len() > 0,
                deck@.len() == d0.len(),
                deck@ == spec_cycle_n(d0, i as nat),
                slots@.len() == i,
                forall|j: int|
                    0 <= j < i ==> slots@[j] == #[trigger] spec_cycle_n(d0, j as nat)[0],
            decreases num_slots - i,
        {
            match deck.draw_and_cycle() {
                Ok(card) => {
                    slots.push(card);
                },
                Err(_) => {
                    proof {
                        assert(false);
                    }
                },
            }
            i = i + 1;
        }
        SimState {
            deck,
            slots,
            a_last_play_ms: start_ms,
            b_last_play_ms: start_ms,
            a_units: Vec::new(),
            b_units: Vec::new(),
            tower_a_hp: TOWER_START_HP,
            tower_b_hp: TOWER_START_HP,
            game_state: GameState::InProgress,
            next_unit_id: 0,
        }
    }
}

/// Attempts to play the card in the given slot for the given player at the
/// given time. The play succeeds only while the round is in progress and the
/// player's cooldown has elapsed: at least the card's play cost in seconds
/// since that player's recorded last play. On success, a unit with the
/// card's full health spawns at the player's spawn point (offset by the unit
/// counter), the play time is recorded, and the slot is refilled by cycling
/// the deck. A rejected play leaves the state unchanged.
pub fn play_card(state: &mut SimState, player_a: bool, slot_index: usize, now_ms: u64) -> (played:
    bool)
    requires
        old(state).wf(),
        slot_index < old(state).slots@.len(),
    ensures
        final(state).wf(),
        old(state).game_state != GameState::InProgress ==> !played && *final(state) == *old(state),
        old(state).game_state == GameState::InProgress && !spec_ready_to_play(
            spec_last_play(*old(state), player_a),
            now_ms,
            old(state).slots@[slot_index as int].play_cost,
        ) ==> !played && *final(state) == *old(state),
        old(state).game_state == GameState::InProgress && spec_ready_to_play(
            spec_last_play(*old(state), player_a),
            now_ms,
            old(state).slots@[slot_index as int].play_cost,
        ) ==> played && {
            let card = old(state).slots@[slot_index as int];
            let unit = Unit {
                played_card: PlayedCard {
                    card,
                    rect: spec_spawn_point(
                        spec_spawn_rect(player_a),
                        old(state).next_unit_id as int,
                    ),
                },
                health: card.health,
                t: now_ms,
            };
            &&& (if player_a {
                &&& final(state).a_units@ == old(state).a_units@.push(unit)
                &&& final(state).b_units@ == old(state).b_units@
                &&& final(state).a_last_play_ms == now_ms
                &&& final(state).b_last_play_ms == old(state).b_last_play_ms
            } else {
                &&& final(state).b_units@ == old(state).b_units@.push(unit)
                &&& final(state).a_units@ == old(state).a_units@
                &&& final(state).b_last_play_ms == now_ms
                &&& final(state).a_last_play_ms == old(state).a_last_play_ms
            })
            &&& final(state).slots@ == old(state).slots@.update(
                slot_index as int,
                old(state).deck@[0],
            )
            &&& final(state).deck@ == spec_cycle(old(state).deck@)
            &&& final(state).next_unit_id == (if old(state).next_unit_id == usize::MAX {
                0int
            } else {
                old(state).next_unit_id + 1
            })
            &&& final(state).tower_a_hp == old(state).tower_a_hp
            &&& final(state).tower_b_hp == old(state).tower_b_hp
            &&& final(state).game_state == old(state).game_state
        },
{
    if state.game_state != GameState::InProgress {
        return false;
    }
    let cost = state.slots[slot_index].play_cost;
    let last = if player_a {
        state.a_last_play_ms
    } else {
        state.b_last_play_ms
    };
    if !ready_to_play(last, now_ms, cost) {
        return false;
    }
    let spawn = create_spawn_point(spawn_rect(player_a), state.next_unit_id);
    let hp = state.slots[slot_index].health;
    let played_card = state.slots[slot_index].play(spawn);
    let unit = Unit { played_card, health: hp, t: now_ms };
    if player_a {
        state.a_units.push(unit);
        state.a_last_play_ms = now_ms;
    } else {
        state.b_units.push(unit);
        state.b_last_play_ms = now_ms;
    }
    state.next_unit_id = if state.next_unit_id == usize::MAX {
        0
    } else {
        state.next_unit_id + 1
    };
    match state.deck.draw_and_cycle() {
        Ok(next_card) => {
            state.slots.set(slot_index, next_card);
        },
        Err(_) => {
            proof {
                assert(false);
            }
        },
    }
    true
}

/// One simulation tick, in fixed order: player A's units move or attack
/// player B's tower, then player B's units move or attack player A's tower
/// (movement before combat within each unit, damage clamped at zero), and
/// only after all damage is applied the win condition is checked once —
/// player A's tower first, so a tick that empties both towers is won by
/// player B. A terminal state never changes: the tick leaves everything
/// untouched.
pub fn tick(state: &mut SimState, now_ms: u64)
    requires
        old(state).wf(),
    ensures
        final(state).wf(),
        old(state).game_state != GameState::InProgress ==> *final(state) == *old(state),
        old(state).game_state == GameState::InProgress ==> {
            let a_step = spec_step_units(
                old(state).a_units@,
                old(state).tower_b_hp as int,
                now_ms,
                true,
            );
            let b_step = spec_step_units(
                old(state).b_units@,
                old(state).tower_a_hp as int,
                now_ms,
                false,
            );
            &&& final(state).a_units@ == a_step.0
            &&& final(state).b_units@ == b_step.0
            &&& final(state).tower_b_hp == a_step.1
            &&& final(state).tower_a_hp == b_step.1
            &&& final(state).game_state == (if b_step.1 == 0 {
                GameState::PlayerBWon
            } else if a_step.1 == 0 {
                GameState::PlayerAWon
            } else {
                GameState::InProgress
            })
            &&& final(state).deck == old(state).deck
            &&& final(state).slots@ == old(state).slots@
            &&& final(state).a_last_play_ms == old(state).a_last_play_ms
            &&& final(state).b_last_play_ms == old(state).b_last_play_ms
            &&& final(state).next_unit_id == old(state).next_unit_id
        },
{
    if state.game_state != GameState::InProgress {
        return;
    }
    step_units(&mut state.a_units, &mut state.tower_b_hp, now_ms, true);
    step_units(&mut state.b_units, &mut state.tower_a_hp, now_ms, false);
    if state.tower_a_hp == 0 {
        state.game_state = GameState::PlayerBWon;
    } else if state.tower_b_hp == 0 {
        state.game_state = GameState::PlayerAWon;
    }
}

/// The two bars showing a tower's remaining health: a green bar whose width
/// is the remaining share of two hundred pixels, and a red bar filling the
/// rest, at the fixed position of tower one or tower two.
pub fn generate_health_bar(hp: usize, tower: usize) -> (r: Vec<Drawable>)
    requires
        hp <= TOWER_START_HP,
        1 <= tower <= 2,
    ensures
        ({
            let rem = hp * 200 / (TOWER_START_HP as int);
            let tower_x = if tower == 1 {
                100int
            } else {
                WIDTH - 300
            };
            let bar_y = (HEIGHT / 2 - 70) as usize;
            &&& r@.len() == 2
            &&& r@[0] == Drawable::Rectangle(
                Rect { x: tower_x as usize, y: bar_y, w: rem as usize, h: 10 },
                (0u8, 255u8, 0u8, 0u8),
                None,
            )
            &&& r@[1] == Drawable::Rectangle(
                Rect {
                    x: (tower_x + rem) as usize,
                    y: bar_y,
                    w: (200 - rem) as usize,
                    h: 10,
                },
                (255u8, 0u8, 0u8, 0u8),
                None,
            )
        }),
{
    let remaining_health_width = hp * 200 / TOWER_START_HP;
    let tower_x = if tower == 1 {
        100
    } else {
        WIDTH - 300
    };
    let r1 = Rect { x: tower_x, y: HEIGHT / 2 - 70, w: remaining_health_width, h: 10 };
    let r2 = Rect {
        x: tower_x + remaining_health_width,
        y: HEIGHT / 2 - 70,
        w: 200 - remaining_health_width,
        h: 10,
    };
    let mut bars: Vec<Drawable> = Vec::new();
    bars.push(Drawable::Rectangle(r1, (0, 255, 0, 0), None));
    bars.push(Drawable::Rectangle(r2, (255, 0, 0, 0), None));
    bars
}

} // verus!
