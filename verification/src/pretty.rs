//! Human-readable rendering of poker events: money (`$1,000`), cards
//! (`As Kh`), action verbs, blind kinds, phase labels, and the lines an
//! observability projector writes for each event.

use vstd::prelude::*;
use crate::decimal::{dec_int, digit_char, digit_str, fmt_i64, fmt_money, money_spec};
use crate::envelope::Timestamp;
use crate::hand_messages::{Card, HandRankType, Rank, Suit};
use crate::hexfmt::{fmt_player_short, hex_encode, hex_lower, short_id_spec};
use crate::keyed::StrMap;
use crate::messages::{BettingPhase, GameVariant};
use crate::text::{join, joined, strip_prefix_or_self, strip_prefix_spec};

verus! {

// ---------------------------------------------------------------------------
// Cards, variants, phases, hand ranks, times
// ---------------------------------------------------------------------------

/// The rank letter of a card: `A K Q J T 9 .. 2`, `?` when unspecified.
pub open spec fn rank_char(r: Rank) -> char {
    match r {
        Rank::Ace => 'A',
        Rank::King => 'K',
        Rank::Queen => 'Q',
        Rank::Jack => 'J',
        Rank::Ten => 'T',
        Rank::Nine => '9',
        Rank::Eight => '8',
        Rank::Seven => '7',
        Rank::Six => '6',
        Rank::Five => '5',
        Rank::Four => '4',
        Rank::Three => '3',
        Rank::Two => '2',
        Rank::Unspecified => '?',
    }
}

/// The suit letter of a card: `s h d c`, `?` when unspecified.
pub open spec fn suit_char(s: Suit) -> char {
    match s {
        Suit::Spades => 's',
        Suit::Hearts => 'h',
        Suit::Diamonds => 'd',
        Suit::Clubs => 'c',
        Suit::Unspecified => '?',
    }
}

/// A card as rank then suit, as in `As`.
pub open spec fn card_text(c: Card) -> Seq<char> {
    seq![rank_char(c.rank), suit_char(c.suit)]
}

/// Cards in brackets separated by spaces, as in `[As Kh]`.
pub open spec fn cards_text(cs: Seq<Card>) -> Seq<char> {
    seq!['['] + joined(cs.map_values(|c: Card| card_text(c)), seq![' ']) + seq![']']
}

fn rank_letter(r: Rank) -> (c: &'static str)
    ensures
        c@ == seq![rank_char(r)],
{
    proof {
        reveal_strlit("A");
        reveal_strlit("K");
        reveal_strlit("Q");
        reveal_strlit("J");
        reveal_strlit("T");
        reveal_strlit("?");
    }
    match r {
        Rank::Ace => "A",
        Rank::King => "K",
        Rank::Queen => "Q",
        Rank::Jack => "J",
        Rank::Ten => "T",
        Rank::Nine => digit_str(9),
        Rank::Eight => digit_str(8),
        Rank::Seven => digit_str(7),
        Rank::Six => digit_str(6),
        Rank::Five => digit_str(5),
        Rank::Four => digit_str(4),
        Rank::Three => digit_str(3),
        Rank::Two => digit_str(2),
        Rank::Unspecified => "?",
    }
}

fn suit_letter(s: Suit) -> (c: &'static str)
    ensures
        c@ == seq![suit_char(s)],
{
    proof {
        reveal_strlit("s");
        reveal_strlit("h");
        reveal_strlit("d");
        reveal_strlit("c");
        reveal_strlit("?");
    }
    match s {
        Suit::Spades => "s",
        Suit::Hearts => "h",
        Suit::Diamonds => "d",
        Suit::Clubs => "c",
        Suit::Unspecified => "?",
    }
}

/// A card as rank then suit, as in `As`.
pub fn fmt_card(card: &Card) -> (s: String)
    ensures
        s@ == card_text(*card),
{
    let s = String::from_str(rank_letter(card.rank)).concat(suit_letter(card.suit));
    assert(s@ =~= card_text(*card));
    s
}

/// Cards in brackets separated by spaces, as in `[As Kh]`.
pub fn fmt_cards(cards: &[Card]) -> (s: String)
    ensures
        s@ == cards_text(cards@),
{
    let mut parts: Vec<String> = Vec::new();
    let mut i: usize = 0;
    while i < cards.len()
        invariant
            i <= cards@.len(),
            parts@.len() == i,
            forall|j: int| 0 <= j < i ==> (#[trigger] parts@[j])@ == card_text(cards@[j]),
        decreases cards@.len() - i,
    {
        parts.push(fmt_card(&cards[i]));
        i = i + 1;
    }
    let inner = join(&parts, " ");
    proof {
        assert(parts@.map_values(|s: String| s@) =~= cards@.map_values(|c: Card| card_text(c)));
        reveal_strlit(" ");
        assert(" "@ =~= seq![' ']);
    }
    let s = String::from_str("[").concat(inner.as_str()).concat("]");
    proof {
        reveal_strlit("[");
        reveal_strlit("]");
        assert(s@ =~= cards_text(cards@));
    }
    s
}

/// The wire name of a game variant, `UNKNOWN` when unspecified.
pub open spec fn variant_name(v: GameVariant) -> Seq<char> {
    match v {
        GameVariant::TexasHoldem => "TEXAS_HOLDEM"@,
        GameVariant::Omaha => "OMAHA"@,
        GameVariant::FiveCardDraw => "FIVE_CARD_DRAW"@,
        GameVariant::Unspecified => "UNKNOWN"@,
    }
}

/// The wire name of a game variant, `UNKNOWN` when unspecified.
pub fn fmt_variant(variant: GameVariant) -> (s: &'static str)
    ensures
        s@ == variant_name(variant),
{
    match variant {
        GameVariant::TexasHoldem => "TEXAS_HOLDEM",
        GameVariant::Omaha => "OMAHA",
        GameVariant::FiveCardDraw => "FIVE_CARD_DRAW",
        GameVariant::Unspecified => "UNKNOWN",
    }
}

/// The label of a betting round, `?` when unspecified.
pub open spec fn phase_label(p: BettingPhase) -> Seq<char> {
    match p {
        BettingPhase::Preflop => "Preflop"@,
        BettingPhase::Flop => "Flop"@,
        BettingPhase::Turn => "Turn"@,
        BettingPhase::River => "River"@,
        BettingPhase::Draw => "Draw"@,
        BettingPhase::Showdown => "Showdown"@,
        BettingPhase::Unspecified => "?"@,
    }
}

/// The label of a betting round, `?` when unspecified.
pub fn fmt_phase_label(phase: BettingPhase) -> (s: &'static str)
    ensures
        s@ == phase_label(phase),
{
    match phase {
        BettingPhase::Preflop => "Preflop",
        BettingPhase::Flop => "Flop",
        BettingPhase::Turn => "Turn",
        BettingPhase::River => "River",
        BettingPhase::Draw => "Draw",
        BettingPhase::Showdown => "Showdown",
        BettingPhase::Unspecified => "?",
    }
}

/// The name of a hand category, empty when unspecified.
pub open spec fn hand_rank_name(r: HandRankType) -> Seq<char> {
    match r {
        HandRankType::HighCard => "High Card"@,
        HandRankType::Pair => "Pair"@,
        HandRankType::TwoPair => "Two Pair"@,
        HandRankType::ThreeOfAKind => "Three of a Kind"@,
        HandRankType::Straight => "Straight"@,
        HandRankType::Flush => "Flush"@,
        HandRankType::FullHouse => "Full House"@,
        HandRankType::FourOfAKind => "Four of a Kind"@,
        HandRankType::StraightFlush => "Straight Flush"@,
        HandRankType::RoyalFlush => "Royal Flush"@,
        HandRankType::Unspecified => ""@,
    }
}

/// The name of a hand category, empty when unspecified.
pub fn fmt_hand_rank(rank: HandRankType) -> (s: &'static str)
    ensures
        s@ == hand_rank_name(rank),
{
    match rank {
        HandRankType::HighCard => "High Card",
        HandRankType::Pair => "Pair",
        HandRankType::TwoPair => "Two Pair",
        HandRankType::ThreeOfAKind => "Three of a Kind",
        HandRankType::Straight => "Straight",
        HandRankType::Flush => "Flush",
        HandRankType::FullHouse => "Full House",
        HandRankType::FourOfAKind => "Four of a Kind",
        HandRankType::StraightFlush => "Straight Flush",
        HandRankType::RoyalFlush => "Royal Flush",
        HandRankType::Unspecified => "",
    }
}

/// Two decimal digits of `n` (`0 <= n < 100`), zero padded.
pub open spec fn two_digits(n: int) -> Seq<char> {
    seq![digit_char(n / 10), digit_char(n % 10)]
}

/// `HH:MM:SS` of a time of day given in seconds since the epoch (UTC),
/// taken modulo a day.
pub open spec fn hms_text(seconds: int) -> Seq<char> {
    let secs = seconds % 86400;
    two_digits(secs / 3600) + seq![':'] + two_digits((secs % 3600) / 60) + seq![':'] + two_digits(secs % 60)
}

fn push_two_digits(s: String, n: i64) -> (r: String)
    requires
        0 <= n < 100,
    ensures
        r@ == s@ + two_digits(n as int),
{
    let r = s.concat(digit_str((n / 10) as u64)).concat(digit_str((n % 10) as u64));
    assert(r@ =~= s@ + two_digits(n as int));
    r
}

/// `HH:MM:SS` (UTC) of a timestamp, taken modulo a day.
pub fn fmt_timestamp_hms(ts: &Timestamp) -> (s: String)
    ensures
        s@ == hms_text(ts.seconds as int),
{
    let secs: i64 = match ts.seconds.checked_rem_euclid(86400) {
        Some(v) => v,
        None => 0,
    };
    let h = secs / 3600;
    let m = (secs % 3600) / 60;
    let sec = secs % 60;
    let s = push_two_digits(String::new(), h);
    let s = push_two_digits(s.concat(":"), m);
    let s = push_two_digits(s.concat(":"), sec);
    proof {
        reveal_strlit(":");
        assert(s@ =~= hms_text(ts.seconds as int));
    }
    s
}

// ---------------------------------------------------------------------------
// Sinks
// ---------------------------------------------------------------------------

/// Where rendered lines go.
pub trait LineSink {
    fn write_line(&mut self, line: &str);
}

/// Keeps the lines written to it, for tests and inspection.
pub struct MemSink {
    lines: Vec<String>,
}

/// The texts of a sequence of strings.
pub open spec fn texts(v: Seq<String>) -> Seq<Seq<char>> {
    v.map_values(|s: String| s@)
}

impl View for MemSink {
    type V = Seq<Seq<char>>;

    closed spec fn view(&self) -> Seq<Seq<char>> {
        texts(self.lines@)
    }
}

impl MemSink {
    /// A sink with no lines yet.
    pub fn new() -> (s: MemSink)
        ensures
            s@ == Seq::<Seq<char>>::empty(),
    {
        let s = MemSink { lines: Vec::new() };
        assert(s@ =~= Seq::<Seq<char>>::empty());
        s
    }

    /// Every line written, joined by newlines.
    pub fn output(&self) -> (s: String)
        ensures
            s@ == joined(self@, seq!['\n']),
    {
        let s = join(&self.lines, "\n");
        proof {
            reveal_strlit("\n");
            assert("\n"@ =~= seq!['\n']);
        }
        s
    }

    /// Every line written, in order.
    pub fn lines(&self) -> (v: Vec<String>)
        ensures
            texts(v@) == self@,
    {
        let mut v: Vec<String> = Vec::new();
        let mut i: usize = 0;
        while i < self.lines.len()
            invariant
                i <= self.lines@.len(),
                texts(v@) == texts(self.lines@.subrange(0, i as int)),
            decreases self.lines@.len() - i,
        {
            let ghost before = v@;
            v.push(self.lines[i].clone());
            proof {
                let now_ = texts(self.lines@.subrange(0, i + 1));
                assert(texts(before).len() == before.len());
                assert(texts(self.lines@.subrange(0, i as int)).len() == i);
                assert(before.len() == i);
                assert(v@.len() == i + 1);
                assert(now_.len() == i + 1);
                assert forall|k: int| 0 <= k < v@.len() implies #[trigger] texts(v@)[k] == now_[k] by {
                    if k < i {
                        assert(v@[k] == before[k]);
                        assert(texts(before)[k] == texts(self.lines@.subrange(0, i as int))[k]);
                    }
                }
                assert(texts(v@) =~= now_);
            }
            i = i + 1;
        }
        proof {
            assert(self.lines@.subrange(0, self.lines@.len() as int) =~= self.lines@);
        }
        v
    }

    /// Appends a line.
    pub fn push_line(&mut self, line: &str)
        ensures
            final(self)@ == old(self)@.push(line@),
    {
        self.lines.push(line.to_owned());
        assert(self@ =~= old(self)@.push(line@));
    }
}

impl Default for MemSink {
    fn default() -> (s: MemSink)
        ensures
            s@ == Seq::<Seq<char>>::empty(),
    {
        MemSink::new()
    }
}

impl LineSink for MemSink {
    fn write_line(&mut self, line: &str)
        ensures
            final(self)@ == old(self)@.push(line@),
    {
        self.push_line(line);
    }
}

} // verus!
