//! Messages of the table and hand domains.

use vstd::prelude::*;
use crate::envelope::Timestamp;
use crate::messages::{ActionType, BettingPhase, GameVariant};

verus! {

/// Card ranks.
#[derive(Debug, Clone, Copy, PartialEq, Eq, Default)]
pub enum Rank {
    #[default]
    Unspecified,
    Two,
    Three,
    Four,
    Five,
    Six,
    Seven,
    Eight,
    Nine,
    Ten,
    Jack,
    Queen,
    King,
    Ace,
}

/// Card suits.
#[derive(Debug, Clone, Copy, PartialEq, Eq, Default)]
pub enum Suit {
    #[default]
    Unspecified,
    Clubs,
    Diamonds,
    Hearts,
    Spades,
}

/// A playing card.
#[derive(Debug, Clone, Copy, PartialEq, Eq, Default)]
pub struct Card {
    pub rank: Rank,
    pub suit: Suit,
}

/// Poker hand categories.
#[derive(Debug, Clone, Copy, PartialEq, Eq, Default)]
pub enum HandRankType {
    #[default]
    Unspecified,
    HighCard,
    Pair,
    TwoPair,
    ThreeOfAKind,
    Straight,
    Flush,
    FullHouse,
    FourOfAKind,
    StraightFlush,
    RoyalFlush,
}

/// The evaluated strength of a hand.
#[derive(Debug, Clone, Copy, PartialEq, Eq, Default)]
pub struct HandRanking {
    pub rank_type: HandRankType,
}

/// A seated player's position, identity and stack at the start of a hand.
#[derive(Debug, Clone, PartialEq, Eq, Default)]
pub struct SeatSnapshot {
    pub position: i32,
    pub player_root: Vec<u8>,
    pub stack: i64,
}

/// A player's hole cards.
#[derive(Debug, Clone, PartialEq, Eq, Default)]
pub struct PlayerHoleCards {
    pub player_root: Vec<u8>,
    pub cards: Vec<Card>,
}

/// A player's stack at the end of a hand.
#[derive(Debug, Clone, PartialEq, Eq, Default)]
pub struct PlayerStackSnapshot {
    pub player_root: Vec<u8>,
    pub stack: i64,
    pub has_folded: bool,
}

/// A share of a pot won by a player.
#[derive(Debug, Clone, PartialEq, Eq, Default)]
pub struct PotWinner {
    pub player_root: Vec<u8>,
    pub amount: i64,
    pub pot_type: String,
    pub winning_hand: Option<HandRanking>,
}

/// A pot result reported to the table.
#[derive(Debug, Clone, PartialEq, Eq, Default)]
pub struct PotResult {
    pub winner_root: Vec<u8>,
    pub amount: i64,
    pub pot_type: String,
    pub winning_hand: Option<HandRanking>,
}

// --- table domain events ---

#[derive(Debug, Clone, PartialEq, Eq, Default)]
pub struct TableCreated {
    pub table_name: String,
    pub game_variant: GameVariant,
    pub small_blind: i64,
    pub big_blind: i64,
    pub min_buy_in: i64,
    pub max_buy_in: i64,
    pub max_players: i32,
    pub action_timeout_seconds: i32,
    pub created_at: Option<Timestamp>,
}

#[derive(Debug, Clone, PartialEq, Eq, Default)]
pub struct PlayerJoined {
    pub player_root: Vec<u8>,
    pub seat_position: i32,
    pub buy_in_amount: i64,
    pub stack: i64,
    pub joined_at: Option<Timestamp>,
}

#[derive(Debug, Clone, PartialEq, Eq, Default)]
pub struct PlayerLeft {
    pub player_root: Vec<u8>,
    pub seat_position: i32,
    pub chips_cashed_out: i64,
    pub left_at: Option<Timestamp>,
}

#[derive(Debug, Clone, PartialEq, Eq, Default)]
pub struct HandStarted {
    pub hand_root: Vec<u8>,
    pub hand_number: i64,
    pub dealer_position: i32,
    pub small_blind_position: i32,
    pub big_blind_position: i32,
    pub active_players: Vec<SeatSnapshot>,
    pub game_variant: GameVariant,
    pub small_blind: i64,
    pub big_blind: i64,
    pub started_at: Option<Timestamp>,
}

#[derive(Debug, Clone, PartialEq, Eq, Default)]
pub struct HandEnded {
    pub hand_root: Vec<u8>,
    pub results: Vec<PotResult>,
    pub ended_at: Option<Timestamp>,
}

/// A player on a table stepping away from play.
#[derive(Debug, Clone, PartialEq, Eq, Default)]
pub struct PlayerSittingOut {
    pub table_root: Vec<u8>,
    pub sat_out_at: Option<Timestamp>,
}

/// A player on a table coming back to play.
#[derive(Debug, Clone, PartialEq, Eq, Default)]
pub struct PlayerReturningToPlay {
    pub table_root: Vec<u8>,
    pub sat_in_at: Option<Timestamp>,
}

/// Table fact: a player sat out.
#[derive(Debug, Clone, PartialEq, Eq, Default)]
pub struct PlayerSatOut {
    pub player_root: Vec<u8>,
    pub sat_out_at: Option<Timestamp>,
}

/// Table fact: a player sat back in.
#[derive(Debug, Clone, PartialEq, Eq, Default)]
pub struct PlayerSatIn {
    pub player_root: Vec<u8>,
    pub sat_in_at: Option<Timestamp>,
}

/// Table command: end the hand with these results.
#[derive(Debug, Clone, PartialEq, Eq, Default)]
pub struct EndHand {
    pub hand_root: Vec<u8>,
    pub results: Vec<PotResult>,
}

// --- hand domain events ---

#[derive(Debug, Clone, PartialEq, Eq, Default)]
pub struct CardsDealt {
    pub table_root: Vec<u8>,
    pub hand_number: i64,
    pub game_variant: GameVariant,
    pub player_cards: Vec<PlayerHoleCards>,
    pub dealer_position: i32,
    pub dealt_at: Option<Timestamp>,
}

#[derive(Debug, Clone, PartialEq, Eq, Default)]
pub struct BlindPosted {
    pub player_root: Vec<u8>,
    pub blind_type: String,
    pub amount: i64,
    pub player_stack: i64,
    pub pot_total: i64,
    pub posted_at: Option<Timestamp>,
}

#[derive(Debug, Clone, PartialEq, Eq, Default)]
pub struct ActionTaken {
    pub player_root: Vec<u8>,
    /// The action's wire number (see `ActionType::from_wire`).
    pub action: i32,
    pub amount: i64,
    pub player_stack: i64,
    pub pot_total: i64,
    pub amount_to_call: i64,
    pub action_at: Option<Timestamp>,
}

#[derive(Debug, Clone, PartialEq, Eq, Default)]
pub struct BettingRoundComplete {
    pub completed_phase: BettingPhase,
    pub pot_total: i64,
    pub stacks: Vec<PlayerStackSnapshot>,
    pub completed_at: Option<Timestamp>,
}

#[derive(Debug, Clone, PartialEq, Eq, Default)]
pub struct CommunityCardsDealt {
    pub cards: Vec<Card>,
    pub phase: BettingPhase,
    pub all_community_cards: Vec<Card>,
    pub dealt_at: Option<Timestamp>,
}

#[derive(Debug, Clone, PartialEq, Eq, Default)]
pub struct ShowdownStarted {
    pub started_at: Option<Timestamp>,
}

#[derive(Debug, Clone, PartialEq, Eq, Default)]
pub struct CardsRevealed {
    pub player_root: Vec<u8>,
    pub cards: Vec<Card>,
    pub ranking: Option<HandRanking>,
    pub revealed_at: Option<Timestamp>,
}

#[derive(Debug, Clone, PartialEq, Eq, Default)]
pub struct CardsMucked {
    pub player_root: Vec<u8>,
    pub mucked_at: Option<Timestamp>,
}

#[derive(Debug, Clone, PartialEq, Eq, Default)]
pub struct PotAwarded {
    pub winners: Vec<PotWinner>,
    pub awarded_at: Option<Timestamp>,
}

#[derive(Debug, Clone, PartialEq, Eq, Default)]
pub struct PlayerTimedOut {
    pub player_root: Vec<u8>,
    pub default_action: ActionType,
    pub timed_out_at: Option<Timestamp>,
}

#[derive(Debug, Clone, PartialEq, Eq, Default)]
pub struct HandComplete {
    pub table_root: Vec<u8>,
    pub hand_number: i64,
    pub winners: Vec<PotWinner>,
    pub final_stacks: Vec<PlayerStackSnapshot>,
    pub completed_at: Option<Timestamp>,
}

// --- hand domain commands ---

#[derive(Debug, Clone, PartialEq, Eq, Default)]
pub struct PostBlind {
    pub player_root: Vec<u8>,
    pub blind_type: String,
    pub amount: i64,
}

#[derive(Debug, Clone, Copy, PartialEq, Eq, Default)]
pub struct DealCommunityCards {
    pub count: i32,
}

/// One player's share of an awarded pot.
#[derive(Debug, Clone, PartialEq, Eq, Default)]
pub struct PotAward {
    pub player_root: Vec<u8>,
    pub amount: i64,
    pub pot_type: String,
}

#[derive(Debug, Clone, PartialEq, Eq, Default)]
pub struct AwardPot {
    pub awards: Vec<PotAward>,
}

} // verus!
