//! An ordered deck of cards: insertion order is draw order, the front card is
//! the next draw. Cards may repeat. Shuffling permutes the contents in place;
//! drawing can either remove the front card or cycle it to the back.

use vstd::prelude::*;
use vstd::assert_multisets_equal;

use rand::Rng;

use crate::card::Card;

verus! {

/// A draw was requested on an empty deck.
#[derive(Clone, Copy, PartialEq, Eq, Structural, Debug)]
pub struct EmptyDeckError;

/// An ordered sequence of cards; the front (index zero) is the next draw.
pub struct Deck {
    cards: Vec<Card>,
}

impl View for Deck {
    type V = Seq<Card>;

    closed spec fn view(&self) -> Seq<Card> {
        self.cards@
    }
}

/// One cycle step: the front card moves to the back.
pub open spec fn spec_cycle(s: Seq<Card>) -> Seq<Card> {
    s.drop_first().push(s[0])
}

/// The deck contents after `n` cycle steps.
pub open spec fn spec_cycle_n(s: Seq<Card>, n: nat) -> Seq<Card>
    decreases n,
{
    if n == 0 {
        s
    } else {
        spec_cycle(spec_cycle_n(s, (n - 1) as nat))
    }
}

/// Relies on rand::Rng::gen_range over a half-open usize range: it panics
/// only on an empty range, and returns a value within the range.
#[verifier::external_body]
fn random_in_range(lo: usize, hi: usize) -> (r: usize)
    requires
        lo < hi,
    ensures
        lo <= r < hi,
{
    rand::thread_rng().gen_range(lo..hi)
}

impl Deck {
    pub fn new(cards: Vec<Card>) -> (d: Deck)
        ensures
            d@ == cards@,
    {
        Deck { cards }
    }

    pub fn new_empty() -> (d: Deck)
        ensures
            d@ == Seq::<Card>::empty(),
    {
        Deck { cards: Vec::new() }
    }

    /// Appends one card at the back of the deck.
    pub fn add_card(self: &mut Deck, card: Card)
        ensures
            final(self)@ == old(self)@.push(card),
    {
        self.cards.push(card);
    }

    /// Moves all given cards to the back of the deck, in order, leaving the
    /// given vector empty.
    pub fn add_cards(self: &mut Deck, cards: &mut Vec<Card>)
        ensures
            final(self)@ == old(self)@ + old(cards)@,
            final(cards)@ == Seq::<Card>::empty(),
    {
        self.cards.append(cards);
    }

    /// Replaces the whole contents of the deck.
    pub fn set_cards(self: &mut Deck, cards: Vec<Card>)
        ensures
            final(self)@ == cards@,
    {
        self.cards = cards;
    }

    /// Removes the card at the given position; the index must be in bounds.
    pub fn remove_card(self: &mut Deck, index: usize)
        requires
            index < old(self)@.len(),
        ensures
            final(self)@ == old(self)@.remove(index as int),
    {
        self.cards.remove(index);
    }

    /// Removes and returns the front card; fails on an empty deck, which is
    /// then left unchanged.
    pub fn draw_and_remove(self: &mut Deck) -> (r: Result<Card, EmptyDeckError>)
        ensures
            old(self)@.len() == 0 ==> r == Result::<Card, EmptyDeckError>::Err(EmptyDeckError)
                && final(self)@ == old(self)@,
            old(self)@.len() > 0 ==> r == Result::<Card, EmptyDeckError>::Ok(old(self)@[0])
                && final(self)@ == old(self)@.drop_first(),
    {
        if self.cards.len() == 0 {
            return Err(EmptyDeckError);
        }
        Ok(self.cards.remove(0))
    }

    /// Removes the front card, appends a copy of it at the back, and returns
    /// the removed card; fails on an empty deck, which is then left
    /// unchanged. The deck keeps its length.
    pub fn draw_and_cycle(self: &mut Deck) -> (r: Result<Card, EmptyDeckError>)
        ensures
            old(self)@.len() == 0 ==> r == Result::<Card, EmptyDeckError>::Err(EmptyDeckError)
                && final(self)@ == old(self)@,
            old(self)@.len() > 0 ==> r == Result::<Card, EmptyDeckError>::Ok(old(self)@[0])
                && final(self)@ == spec_cycle(old(self)@),
    {
        if self.cards.len() == 0 {
            return Err(EmptyDeckError);
        }
        let next_card = self.cards.remove(0);
        self.cards.push(next_card.clone());
        Ok(next_card)
    }

    /// Permutes the deck in place: for each position from the front, a card
    /// picked uniformly from the remaining suffix is moved to the front. The
    /// multiset of cards is unchanged.
    pub fn shuffle(self: &mut Deck)
        ensures
            final(self)@.to_multiset() == old(self)@.to_multiset(),
            final(self)@.len() == old(self)@.len(),
    {
        let deck_size = self.cards.len();
        if deck_size == 0 {
            return;
        }
        let mut range_min_index: usize = 0;
        while range_min_index < deck_size - 1
            invariant
                deck_size == self.cards@.len(),
                deck_size >= 1,
                range_min_index <= deck_size - 1,
                self.cards@.to_multiset() == old(self)@.to_multiset(),
            decreases deck_size - range_min_index,
        {
            let ghost before = self.cards@;
            let next_index = random_in_range(range_min_index, deck_size);
            let next_card = self.cards.remove(next_index);
            self.cards.insert(0, next_card);
            proof {
                broadcast use vstd::seq_lib::group_to_multiset_ensures;

                assert_multisets_equal!(
                    before.remove(next_index as int).insert(0, before[next_index as int])
                        .to_multiset(),
                    before.to_multiset()
                );
            }
            range_min_index = range_min_index + 1;
        }
    }
}

/// Cycling a deck of size `n` through `n` draw-and-cycle steps returns each
/// original card exactly once — the card drawn at step `k` is the card that
/// started at position `k` — and restores the deck to its original
/// front-to-back order.
pub proof fn lemma_cycle_round_trip(s: Seq<Card>)
    ensures
        forall|k: int| 0 <= k < s.len() ==> #[trigger] spec_cycle_n(s, k as nat)[0] == s[k],
        spec_cycle_n(s, s.len()) == s,
{
    assert forall|k: int| 0 <= k <= s.len() implies #[trigger] spec_cycle_n(s, k as nat)
        =~= s.skip(k) + s.take(k) by {
        lemma_cycle_n_decomposition(s, k);
    }
    assert(spec_cycle_n(s, s.len()) =~= s.skip(s.len() as int) + s.take(s.len() as int));
    assert(s.skip(s.len() as int) + s.take(s.len() as int) =~= s);
    assert forall|k: int| 0 <= k < s.len() implies #[trigger] spec_cycle_n(s, k as nat)[0]
        == s[k] by {
        lemma_cycle_n_decomposition(s, k);
        assert((s.skip(k) + s.take(k))[0] == s[k]);
    }
}

proof fn lemma_cycle_n_decomposition(s: Seq<Card>, k: int)
    requires
        0 <= k <= s.len(),
    ensures
        spec_cycle_n(s, k as nat) =~= s.skip(k) + s.take(k),
    decreases k,
{
    if k == 0 {
        assert(spec_cycle_n(s, 0) =~= s.skip(0) + s.take(0));
    } else {
        lemma_cycle_n_decomposition(s, k - 1);
        let prev = spec_cycle_n(s, (k - 1) as nat);
        assert(prev =~= s.skip(k - 1) + s.take(k - 1));
        assert(prev[0] == s[k - 1]);
        assert(spec_cycle_n(s, k as nat) == spec_cycle(prev));
        assert(spec_cycle(prev) =~= s.skip(k) + s.take(k));
    }
}

} // verus!
