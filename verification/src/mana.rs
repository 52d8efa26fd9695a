//! The turn-based mana economy variant: a shared turn counter, and a mana
//! pool per player that grows at the start of every second turn and is spent
//! by play actions, clamped at zero so spending never wraps.

use vstd::prelude::*;

use crate::geom::coord_shift;
use crate::geom::shifted_coord;

verus! {

/// Applies a signed mana change to the player whose turn it is (player one
/// on even turns, player two on odd turns), clamped at zero; the other
/// player's mana is untouched.
pub fn handle_mana(manas: (usize, usize), change: i32, turn: usize) -> (r: (usize, usize))
    ensures
        turn % 2 == 0 ==> r.0 == shifted_coord(manas.0 as int, change as int) && r.1 == manas.1,
        turn % 2 != 0 ==> r.1 == shifted_coord(manas.1 as int, change as int) && r.0 == manas.0,
{
    if turn % 2 == 0 {
        coord_shift(manas, (change, 0))
    } else {
        coord_shift(manas, (0, change))
    }
}

/// Advances the turn counter by one; at the start of every second turn both
/// players gain five mana (saturating at the top of the mana range).
pub fn advance_turn(turn: usize, manas: (usize, usize)) -> (r: (usize, (usize, usize)))
    requires
        turn < usize::MAX,
    ensures
        r.0 == turn + 1,
        r.0 % 2 == 0 ==> r.1.0 == shifted_coord(manas.0 as int, 5) && r.1.1 == shifted_coord(
            manas.1 as int,
            5,
        ),
        r.0 % 2 != 0 ==> r.1 == manas,
{
    let next_turn = turn + 1;
    if next_turn % 2 == 0 {
        (next_turn, (manas.0.saturating_add(5), manas.1.saturating_add(5)))
    } else {
        (next_turn, manas)
    }
}

} // verus!
