use vstd::prelude::*;

verus! {

/// A reference to one card, as decks and board slots carry it.
#[derive(Clone, Debug)]
pub struct CardRef {
    pub card_id: String,
}

/// A player's deck: an ordered list of card references, as the deck
/// service returns it.
#[derive(Clone, Debug)]
pub struct Deck {
    pub cards: Vec<CardRef>,
}

} // verus!
