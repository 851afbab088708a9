use vstd::prelude::*;

use crate::deck::CardRef;
use crate::player::Player;

verus! {

/// One card as a view shows it to a client.
#[derive(Debug)]
pub struct CardView {
    pub id: String,
    pub hand_id: u32,
    pub name: String,
    pub attack: i32,
    pub health: i32,
    pub card_type: String,
    pub effects: Vec<String>,
    pub owner_id: String,
    pub is_exhausted: bool,
    pub position: String,
}

/// The board as every player sees it: fixed-capacity slot arrays — six
/// creature slots, three artifact slots, three enchantment slots — that
/// never resize; a card reference occupies exactly one slot index of its
/// category.
#[derive(Debug)]
pub struct BoardView {
    pub creatures: [Option<CardRef>; 6],
    pub artifacts: [Option<CardRef>; 3],
    pub enchantments: [Option<CardRef>; 3],
}

impl Default for BoardView {
    /// An empty board: every slot of every category is free.
    fn default() -> (r: BoardView)
        ensures
            forall|i: int| 0 <= i < 6 ==> r.creatures@[i] is None,
            forall|i: int| 0 <= i < 3 ==> r.artifacts@[i] is None,
            forall|i: int| 0 <= i < 3 ==> r.enchantments@[i] is None,
    {
        BoardView {
            creatures: [None, None, None, None, None, None],
            artifacts: [None, None, None],
            enchantments: [None, None, None],
        }
    }
}

/// The graveyard: an unbounded ordered list per card category.
#[derive(Debug)]
pub struct GraveyardView {
    pub creatures: Vec<CardRef>,
    pub artifacts: Vec<CardRef>,
    pub enchantments: Vec<CardRef>,
}

impl Default for GraveyardView {
    /// An empty graveyard in every category.
    fn default() -> (r: GraveyardView)
        ensures
            r.creatures@.len() == 0,
            r.artifacts@.len() == 0,
            r.enchantments@.len() == 0,
    {
        GraveyardView { creatures: Vec::new(), artifacts: Vec::new(), enchantments: Vec::new() }
    }
}

/// A player's state with full information — hand contents included.  Sent
/// only to its owner.
#[derive(Debug)]
pub struct PrivatePlayerView {
    pub id: String,
    pub health: i32,
    pub mana: u32,
    pub hand_size: usize,
    pub deck_size: usize,
    pub current_hand: [Option<CardView>; 10],
    pub board: BoardView,
    pub graveyard_size: usize,
    pub graveyard: GraveyardView,
}

/// A player's state as the opponent may see it: counts only, no hand
/// contents.
#[derive(Debug)]
pub struct PublicPlayerView {
    pub id: String,
    pub health: i32,
    pub mana: u32,
    pub hand_size: usize,
    pub deck_size: usize,
    pub graveyard_size: usize,
    pub board: BoardView,
}

/// The full game state as one player may see it.
#[derive(Debug)]
pub struct PrivateGameStateView {
    pub turn: u32,
    pub red_player: PrivatePlayerView,
    pub blue_player: PrivatePlayerView,
}

/// The full game state with both players redacted.
#[derive(Debug)]
pub struct PublicGameStateView {
    pub turn: u32,
    pub red_player: PublicPlayerView,
    pub blue_player: PublicPlayerView,
}

impl PrivatePlayerView {
    /// The opening view of a freshly authenticated player: starting health
    /// and mana, an empty hand, board and graveyard, and the deck still at
    /// the size the deck service delivered.
    pub fn from_player(player: &Player) -> (r: PrivatePlayerView)
        ensures
            r.id@ == player.id@,
            r.health == 30,
            r.mana == 1,
            r.hand_size == 0,
            r.deck_size == player.current_deck.cards@.len(),
            forall|i: int| 0 <= i < 10 ==> r.current_hand@[i] is None,
            forall|i: int| 0 <= i < 6 ==> r.board.creatures@[i] is None,
            forall|i: int| 0 <= i < 3 ==> r.board.artifacts@[i] is None,
            forall|i: int| 0 <= i < 3 ==> r.board.enchantments@[i] is None,
            r.graveyard_size == 0,
            r.graveyard.creatures@.len() == 0,
            r.graveyard.artifacts@.len() == 0,
            r.graveyard.enchantments@.len() == 0,
    {
        PrivatePlayerView {
            id: player.id.clone(),
            health: 30,
            mana: 1,
            hand_size: 0,
            board: BoardView::default(),
            deck_size: player.current_deck.cards.len(),
            graveyard: GraveyardView::default(),
            graveyard_size: 0,
            current_hand: [None, None, None, None, None, None, None, None, None, None],
        }
    }
}

} // verus!
