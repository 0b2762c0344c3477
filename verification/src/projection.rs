//! The lines an observability projector writes for poker events, with the
//! state it keeps across events: display names by player root and the
//! community board of the current hand.

use vstd::prelude::*;
use crate::decimal::{dec_int, fmt_i64, fmt_money, lemma_money_ends_with_digit, money_spec};
use crate::envelope::Timestamp;
use crate::hand_messages::{
    ActionTaken, BlindPosted, Card, CardsDealt, CardsMucked, CardsRevealed, CommunityCardsDealt,
    HandComplete, HandEnded, HandStarted, PlayerJoined, PlayerLeft, PlayerTimedOut, PotAwarded,
    ShowdownStarted, TableCreated,
};
use crate::hexfmt::{fmt_player_short, hex_encode, hex_lower, short_id_spec};
use crate::keyed::StrMap;
use crate::messages::{
    action_of_number, amount_or_zero, amount_of, ActionType, FundsDeposited, FundsReserved, FundsWithdrawn,
    PlayerRegistered, PlayerType,
};
use crate::pretty::{
    card_text, cards_text, fmt_cards, fmt_hand_rank, fmt_phase_label, fmt_timestamp_hms, fmt_variant,
    hand_rank_name, hms_text, phase_label, texts, variant_name,
};
use crate::text::{join, joined, strip_prefix_or_self, strip_prefix_spec};
use vstd::utf8::{decode_utf8, valid_utf8};

verus! {

/// `std::str::from_utf8`, the text taken as an owned string: the bytes
/// are accepted exactly when they are well-formed UTF-8, and the text is
/// the characters they encode.
#[verifier::external_body]
fn text_of_utf8(bytes: &[u8]) -> (r: Option<String>)
    ensures
        r is Some <==> valid_utf8(bytes@),
        r matches Some(s) ==> s@ == decode_utf8(bytes@),
{
    match std::str::from_utf8(bytes) {
        Ok(s) => Some(s.to_owned()),
        Err(_) => None,
    }
}

/// What `str::to_uppercase` makes of a text (full Unicode upper case).
pub uninterp spec fn unicode_upper(s: Seq<char>) -> Seq<char>;

/// `str::to_uppercase`. The result is named by `unicode_upper`; the Unicode
/// case tables are not restated here.
#[verifier::external_body]
fn to_uppercase(s: &str) -> (r: String)
    ensures
        r@ == unicode_upper(s@),
{
    s.to_uppercase()
}

/// The display name for a player root: the registered name when there is
/// one; otherwise `Player_` and the root's text without a `player-`
/// prefix when the root is UTF-8, or its short hex when it is not.
pub open spec fn resolved_name(names: Map<Seq<char>, Seq<char>>, root: Seq<u8>) -> Seq<char> {
    if names.contains_key(hex_lower(root)) {
        names[hex_lower(root)]
    } else {
        if valid_utf8(root) {
            "Player_"@ + strip_prefix_spec(decode_utf8(root), "player-"@)
        } else {
            "Player_"@ + short_id_spec(root)
        }
    }
}

/// `line` with an `[HH:MM:SS] ` prefix when timestamps are shown and the
/// event carries one.
pub open spec fn stamped(show: bool, line: Seq<char>, ts: Option<Timestamp>) -> Seq<char> {
    if show && ts is Some {
        "["@ + hms_text(ts->0.seconds as int) + "] "@ + line
    } else {
        line
    }
}

/// The money rendering of an optional amount, `$0` when absent.
pub open spec fn money_of(c: Option<crate::messages::Currency>) -> Seq<char> {
    money_spec(amount_or_zero(c))
}

/// The amount of an optional currency can be rendered as money.
pub open spec fn renderable(c: Option<crate::messages::Currency>) -> bool {
    amount_or_zero(c) > i64::MIN
}

// --- player domain lines ---

pub open spec fn player_type_label(t: PlayerType) -> Option<Seq<char>> {
    match t {
        PlayerType::Human => Some("HUMAN"@),
        PlayerType::Ai => Some("AI"@),
        PlayerType::Unspecified => None,
    }
}

pub open spec fn registered_line(e: PlayerRegistered) -> Seq<char> {
    let suffix = if e.email@.len() == 0 {
        Seq::empty()
    } else {
        match player_type_label(e.player_type) {
            Some(k) => " ("@ + e.email@ + ") as "@ + k,
            None => " ("@ + e.email@ + ")"@,
        }
    };
    e.display_name@ + " registered"@ + suffix
}

pub open spec fn deposited_line(e: FundsDeposited) -> Seq<char> {
    "Deposited "@ + money_of(e.amount) + ", balance: "@ + money_of(e.new_balance)
}

pub open spec fn withdrawn_line(e: FundsWithdrawn) -> Seq<char> {
    "Withdrew "@ + money_of(e.amount) + ", balance: "@ + money_of(e.new_balance)
}

pub open spec fn reserved_line(e: FundsReserved) -> Seq<char> {
    "Reserved "@ + money_of(e.amount)
}

// --- table domain lines ---

pub open spec fn table_created_line(e: TableCreated) -> Seq<char> {
    "Table \""@ + e.table_name@ + "\" created: "@ + variant_name(e.game_variant) + " "@ + money_spec(
        e.small_blind as int,
    ) + "/"@ + money_spec(e.big_blind as int) + " (buy-in: "@ + money_spec(e.min_buy_in as int) + " - "@
        + money_spec(e.max_buy_in as int) + ")"@
}

/// The state the renderer keeps across events.
#[verifier::ext_equal]
pub struct RendererView {
    pub names: Map<Seq<char>, Seq<char>>,
    pub show_timestamps: bool,
    pub board: Seq<Card>,
}

/// Renders events as lines, remembering display names and the board.
pub struct PrettyRenderer {
    names: StrMap<String>,
    pub show_timestamps: bool,
    board: Vec<Card>,
}

impl View for PrettyRenderer {
    type V = RendererView;

    closed spec fn view(&self) -> RendererView {
        RendererView { names: self.names@.map_values(|s: String| s@), show_timestamps: self.show_timestamps, board: self.board@ }
    }
}

pub open spec fn joined_line(v: RendererView, e: PlayerJoined) -> Seq<char> {
    resolved_name(v.names, e.player_root@) + " joined at seat "@ + dec_int(e.seat_position as int) + " with "@
        + money_spec(e.stack as int)
}

pub open spec fn left_line(v: RendererView, e: PlayerLeft) -> Seq<char> {
    resolved_name(v.names, e.player_root@) + " left with "@ + money_spec(e.chips_cashed_out as int)
}

pub open spec fn hand_started_line(v: RendererView, e: HandStarted) -> Seq<char> {
    let names = e.active_players@.map_values(
        |s: crate::hand_messages::SeatSnapshot| resolved_name(v.names, s.player_root@),
    );
    let players = if names.len() == 0 {
        "no players"@
    } else {
        joined(names, ", "@)
    };
    "HAND #"@ + dec_int(e.hand_number as int) + " started — Dealer: Seat "@ + dec_int(e.dealer_position as int)
        + " — Players: "@ + players
}

pub open spec fn hand_ended_line(v: RendererView, e: HandEnded) -> Seq<char> {
    if e.results@.len() == 0 {
        "Hand ended"@
    } else {
        "Hand ended — "@ + joined(
            e.results@.map_values(
                |r: crate::hand_messages::PotResult| resolved_name(v.names, r.winner_root@) + " wins "@ + money_spec(
                    r.amount as int,
                ),
            ),
            ", "@,
        )
    }
}

// --- hand domain lines ---

pub open spec fn cards_dealt_line(v: RendererView, e: CardsDealt) -> Seq<char> {
    if e.player_cards@.len() == 0 {
        "Cards dealt"@
    } else {
        joined(
            e.player_cards@.map_values(
                |pc: crate::hand_messages::PlayerHoleCards| resolved_name(v.names, pc.player_root@) + ": "@ + cards_text(
                    pc.cards@,
                ),
            ),
            " | "@,
        )
    }
}

pub open spec fn blind_posted_line(v: RendererView, e: BlindPosted) -> Seq<char> {
    let kind = if e.blind_type@.len() == 0 {
        "BLIND"@
    } else {
        unicode_upper(e.blind_type@)
    };
    resolved_name(v.names, e.player_root@) + " posts "@ + kind + " "@ + money_spec(e.amount as int)
}

/// Calls, bets, raises and all-ins show their amount as money.
pub open spec fn formats_amount_as_money(a: ActionType) -> bool {
    a == ActionType::Call || a == ActionType::Bet || a == ActionType::Raise || a == ActionType::AllIn
}

pub open spec fn action_line(v: RendererView, e: ActionTaken) -> Seq<char> {
    let name = resolved_name(v.names, e.player_root@);
    let base = match action_of_number(e.action as int) {
        ActionType::Fold => name + " folds"@,
        ActionType::Check => name + " checks"@,
        ActionType::Call => name + " calls "@ + money_spec(e.amount as int),
        ActionType::Bet => name + " bets "@ + money_spec(e.amount as int),
        ActionType::Raise => name + " raises to "@ + money_spec(e.amount as int),
        ActionType::AllIn => name + " all-in "@ + money_spec(e.amount as int),
        ActionType::Unspecified => name + " acts ("@ + dec_int(e.action as int) + " "@ + dec_int(e.amount as int) + ")"@,
    };
    if e.pot_total > 0 {
        base + " (pot: "@ + money_spec(e.pot_total as int) + ")"@
    } else {
        base
    }
}

pub open spec fn community_line(board_before: Seq<Card>, e: CommunityCardsDealt) -> Seq<char> {
    let board = board_before + e.cards@;
    let board_str = if board.len() == 0 {
        cards_text(e.cards@)
    } else {
        cards_text(board)
    };
    phase_label(e.phase) + ": "@ + cards_text(e.cards@) + " — Board: "@ + board_str
}

pub open spec fn revealed_line(v: RendererView, e: CardsRevealed) -> Seq<char> {
    let ranking = match e.ranking {
        Some(r) => hand_rank_name(r.rank_type),
        None => Seq::empty(),
    };
    let head = resolved_name(v.names, e.player_root@) + " shows "@ + cards_text(e.cards@);
    if ranking.len() == 0 {
        head
    } else {
        head + " — "@ + ranking
    }
}

pub open spec fn timed_out_line(v: RendererView, e: PlayerTimedOut) -> Seq<char> {
    let verb = match e.default_action {
        ActionType::Fold => "folds"@,
        ActionType::Check => "checks"@,
        _ => "acts"@,
    };
    resolved_name(v.names, e.player_root@) + " timed out — auto "@ + verb
}

pub open spec fn winner_line(v: RendererView, w: crate::hand_messages::PotWinner) -> Seq<char> {
    resolved_name(v.names, w.player_root@) + " wins "@ + money_spec(w.amount as int)
}

pub open spec fn stack_entry(v: RendererView, s: crate::hand_messages::PlayerStackSnapshot) -> Seq<char> {
    resolved_name(v.names, s.player_root@) + ": "@ + money_spec(s.stack as int) + if s.has_folded {
        " (folded)"@
    } else {
        Seq::empty()
    }
}

pub open spec fn hand_complete_line(v: RendererView, e: HandComplete) -> Seq<char> {
    if e.final_stacks@.len() == 0 {
        "HAND #"@ + dec_int(e.hand_number as int) + " complete"@
    } else {
        joined(
            seq!["Final stacks"@] + e.final_stacks@.map_values(
                |s: crate::hand_messages::PlayerStackSnapshot| stack_entry(v, s),
            ),
            " — "@,
        )
    }
}

/// `s` as the single element of a vector.
fn single(s: String) -> (v: Vec<String>)
    ensures
        texts(v@) == seq![s@],
{
    let mut v: Vec<String> = Vec::new();
    v.push(s);
    assert(texts(v@) =~= seq![s@]);
    v
}

/// The money rendering of an optional amount, `$0` when absent.
fn money_opt(c: &Option<crate::messages::Currency>) -> (s: String)
    requires
        renderable(*c),
    ensures
        s@ == money_of(*c),
{
    fmt_money(amount_of(c))
}

impl PrettyRenderer {
    /// A renderer with no names, no board, and no timestamps shown.
    pub fn new() -> (r: PrettyRenderer)
        ensures
            r@ == (RendererView { names: Map::empty(), show_timestamps: false, board: Seq::empty() }),
    {
        let r = PrettyRenderer { names: StrMap::new(), show_timestamps: false, board: Vec::new() };
        assert(r@ =~= RendererView { names: Map::empty(), show_timestamps: false, board: Seq::empty() });
        r
    }

    /// Registers the display name of a player root.
    pub fn set_player_name(&mut self, player_root: &[u8], name: &str)
        ensures
            final(self)@ == (RendererView {
                names: old(self)@.names.insert(hex_lower(player_root@), name@),
                ..old(self)@
            }),
    {
        let ghost raw = self.names@;
        self.names.insert(hex_encode(player_root), name.to_owned());
        assert(self.names@.map_values(|s: String| s@) =~= raw.map_values(|s: String| s@).insert(hex_lower(player_root@), name@));
        assert(self@ =~= RendererView {
            names: old(self)@.names.insert(hex_lower(player_root@), name@),
            ..old(self)@
        });
    }

    /// The display name for a player root.
    pub fn resolve_name(&self, player_root: &[u8]) -> (s: String)
        ensures
            s@ == resolved_name(self@.names, player_root@),
    {
        match self.names.get(&hex_encode(player_root)) {
            Some(name) => name.clone(),
            None => match text_of_utf8(player_root) {
                Some(text) => {
                    let trimmed = strip_prefix_or_self(text.as_str(), "player-");
                    String::from_str("Player_").concat(trimmed.as_str())
                },
                None => String::from_str("Player_").concat(fmt_player_short(player_root).as_str()),
            },
        }
    }

    /// `line`, prefixed with the event's time when timestamps are shown.
    fn stamp(&self, line: String, ts: &Option<Timestamp>) -> (s: String)
        ensures
            s@ == stamped(self@.show_timestamps, line@, *ts),
    {
        if !self.show_timestamps {
            return line;
        }
        match ts {
            Some(t) => String::from_str("[").concat(fmt_timestamp_hms(t).as_str()).concat("] ").concat(line.as_str()),
            None => line,
        }
    }

    pub fn on_player_registered(&self, event: &PlayerRegistered) -> (lines: Vec<String>)
        ensures
            texts(lines@) == seq![stamped(self@.show_timestamps, registered_line(*event), event.registered_at)],
    {
        let head = event.display_name.clone().concat(" registered");
        let line = if event.email.as_str().is_empty() {
            head
        } else {
            match event.player_type {
                PlayerType::Human => head.concat(" (").concat(event.email.as_str()).concat(") as ").concat("HUMAN"),
                PlayerType::Ai => head.concat(" (").concat(event.email.as_str()).concat(") as ").concat("AI"),
                PlayerType::Unspecified => head.concat(" (").concat(event.email.as_str()).concat(")"),
            }
        };
        proof {
            assert(line@ =~= registered_line(*event));
        }
        single(self.stamp(line, &event.registered_at))
    }

    pub fn on_funds_deposited(&self, event: &FundsDeposited) -> (lines: Vec<String>)
        requires
            renderable(event.amount),
            renderable(event.new_balance),
        ensures
            texts(lines@) == seq![stamped(self@.show_timestamps, deposited_line(*event), event.deposited_at)],
    {
        let line = String::from_str("Deposited ").concat(money_opt(&event.amount).as_str()).concat(", balance: ").concat(
            money_opt(&event.new_balance).as_str(),
        );
        single(self.stamp(line, &event.deposited_at))
    }

    pub fn on_funds_withdrawn(&self, event: &FundsWithdrawn) -> (lines: Vec<String>)
        requires
            renderable(event.amount),
            renderable(event.new_balance),
        ensures
            texts(lines@) == seq![stamped(self@.show_timestamps, withdrawn_line(*event), event.withdrawn_at)],
    {
        let line = String::from_str("Withdrew ").concat(money_opt(&event.amount).as_str()).concat(", balance: ").concat(
            money_opt(&event.new_balance).as_str(),
        );
        single(self.stamp(line, &event.withdrawn_at))
    }

    pub fn on_funds_reserved(&self, event: &FundsReserved) -> (lines: Vec<String>)
        requires
            renderable(event.amount),
        ensures
            texts(lines@) == seq![stamped(self@.show_timestamps, reserved_line(*event), event.reserved_at)],
    {
        let line = String::from_str("Reserved ").concat(money_opt(&event.amount).as_str());
        single(self.stamp(line, &event.reserved_at))
    }

    pub fn on_table_created(&self, event: &TableCreated) -> (lines: Vec<String>)
        requires
            event.small_blind > i64::MIN,
            event.big_blind > i64::MIN,
            event.min_buy_in > i64::MIN,
            event.max_buy_in > i64::MIN,
        ensures
            texts(lines@) == seq![stamped(self@.show_timestamps, table_created_line(*event), event.created_at)],
    {
        let line = String::from_str("Table \"").concat(event.table_name.as_str()).concat("\" created: ").concat(
            fmt_variant(event.game_variant),
        ).concat(" ").concat(fmt_money(event.small_blind).as_str()).concat("/").concat(
            fmt_money(event.big_blind).as_str(),
        ).concat(" (buy-in: ").concat(fmt_money(event.min_buy_in).as_str()).concat(" - ").concat(
            fmt_money(event.max_buy_in).as_str(),
        ).concat(")");
        single(self.stamp(line, &event.created_at))
    }

    pub fn on_player_joined(&self, event: &PlayerJoined) -> (lines: Vec<String>)
        requires
            event.stack > i64::MIN,
        ensures
            texts(lines@) == seq![stamped(self@.show_timestamps, joined_line(self@, *event), event.joined_at)],
    {
        let line = self.resolve_name(event.player_root.as_slice()).concat(" joined at seat ").concat(
            fmt_i64(event.seat_position as i64).as_str(),
        ).concat(" with ").concat(fmt_money(event.stack).as_str());
        single(self.stamp(line, &event.joined_at))
    }

    pub fn on_player_left(&self, event: &PlayerLeft) -> (lines: Vec<String>)
        requires
            event.chips_cashed_out > i64::MIN,
        ensures
            texts(lines@) == seq![stamped(self@.show_timestamps, left_line(self@, *event), event.left_at)],
    {
        let line = self.resolve_name(event.player_root.as_slice()).concat(" left with ").concat(
            fmt_money(event.chips_cashed_out).as_str(),
        );
        single(self.stamp(line, &event.left_at))
    }

    /// `HandStarted`: the board of the previous hand is cleared.
    pub fn on_hand_started(&mut self, event: &HandStarted) -> (lines: Vec<String>)
        ensures
            final(self)@ == (RendererView { board: Seq::empty(), ..old(self)@ }),
            texts(lines@) == seq![stamped(old(self)@.show_timestamps, hand_started_line(old(self)@, *event), event.started_at)],
    {
        self.board = Vec::new();
        let mut names: Vec<String> = Vec::new();
        let ghost v = self@;
        let ghost want = event.active_players@.map_values(
            |s: crate::hand_messages::SeatSnapshot| resolved_name(v.names, s.player_root@),
        );
        let mut i: usize = 0;
        while i < event.active_players.len()
            invariant
                i <= event.active_players@.len(),
                v == self@,
                want == event.active_players@.map_values(
                    |s: crate::hand_messages::SeatSnapshot| resolved_name(v.names, s.player_root@),
                ),
                texts(names@) == want.subrange(0, i as int),
            decreases event.active_players@.len() - i,
        {
            let ghost before = names@;
            names.push(self.resolve_name(event.active_players[i].player_root.as_slice()));
            proof {
                assert(texts(before).len() == before.len());
                assert forall|k: int| 0 <= k < names@.len() implies #[trigger] texts(names@)[k] == want.subrange(0, i + 1)[k] by {
                    if k < i {
                        assert(names@[k] == before[k]);
                        assert(texts(before)[k] == want.subrange(0, i as int)[k]);
                    }
                }
                assert(texts(names@) =~= want.subrange(0, i + 1));
            }
            i = i + 1;
        }
        proof {
            assert(want.subrange(0, want.len() as int) =~= want);
        }
        let players = if names.len() == 0 {
            String::from_str("no players")
        } else {
            join(&names, ", ")
        };
        let line = String::from_str("HAND #").concat(fmt_i64(event.hand_number).as_str()).concat(
            " started — Dealer: Seat ",
        ).concat(fmt_i64(event.dealer_position as i64).as_str()).concat(" — Players: ").concat(players.as_str());
        proof {
            assert(texts(names@).len() == names@.len());
            assert(line@ =~= hand_started_line(v, *event));
        }
        let r = single(self.stamp(line, &event.started_at));
        assert(self@ =~= RendererView { board: Seq::empty(), ..old(self)@ });
        r
    }

    pub fn on_showdown_started(&self, event: &ShowdownStarted) -> (lines: Vec<String>)
        ensures
            texts(lines@) == seq![stamped(self@.show_timestamps, "SHOWDOWN"@, event.started_at)],
    {
        single(self.stamp(String::from_str("SHOWDOWN"), &event.started_at))
    }

    pub fn on_cards_mucked(&self, event: &CardsMucked) -> (lines: Vec<String>)
        ensures
            texts(lines@) == seq![
                stamped(self@.show_timestamps, resolved_name(self@.names, event.player_root@) + " mucks"@, event.mucked_at),
            ],
    {
        let line = self.resolve_name(event.player_root.as_slice()).concat(" mucks");
        single(self.stamp(line, &event.mucked_at))
    }

    pub fn on_blind_posted(&self, event: &BlindPosted) -> (lines: Vec<String>)
        requires
            event.amount > i64::MIN,
        ensures
            texts(lines@) == seq![stamped(self@.show_timestamps, blind_posted_line(self@, *event), event.posted_at)],
    {
        let kind = if event.blind_type.as_str().is_empty() {
            String::from_str("BLIND")
        } else {
            to_uppercase(event.blind_type.as_str())
        };
        let line = self.resolve_name(event.player_root.as_slice()).concat(" posts ").concat(kind.as_str()).concat(
            " ",
        ).concat(fmt_money(event.amount).as_str());
        single(self.stamp(line, &event.posted_at))
    }

    pub fn on_action_taken(&self, event: &ActionTaken) -> (lines: Vec<String>)
        requires
            formats_amount_as_money(action_of_number(event.action as int)) ==> event.amount > i64::MIN,
        ensures
            texts(lines@) == seq![stamped(self@.show_timestamps, action_line(self@, *event), event.action_at)],
    {
        let name = self.resolve_name(event.player_root.as_slice());
        let base = match ActionType::from_wire(event.action) {
            ActionType::Fold => name.concat(" folds"),
            ActionType::Check => name.concat(" checks"),
            ActionType::Call => name.concat(" calls ").concat(fmt_money(event.amount).as_str()),
            ActionType::Bet => name.concat(" bets ").concat(fmt_money(event.amount).as_str()),
            ActionType::Raise => name.concat(" raises to ").concat(fmt_money(event.amount).as_str()),
            ActionType::AllIn => name.concat(" all-in ").concat(fmt_money(event.amount).as_str()),
            ActionType::Unspecified => name.concat(" acts (").concat(fmt_i64(event.action as i64).as_str()).concat(" ").concat(
                fmt_i64(event.amount).as_str(),
            ).concat(")"),
        };
        let line = if event.pot_total > 0 {
            base.concat(" (pot: ").concat(fmt_money(event.pot_total).as_str()).concat(")")
        } else {
            base
        };
        single(self.stamp(line, &event.action_at))
    }

    pub fn on_player_timed_out(&self, event: &PlayerTimedOut) -> (lines: Vec<String>)
        ensures
            texts(lines@) == seq![stamped(self@.show_timestamps, timed_out_line(self@, *event), event.timed_out_at)],
    {
        let verb = match event.default_action {
            ActionType::Fold => "folds",
            ActionType::Check => "checks",
            _ => "acts",
        };
        let line = self.resolve_name(event.player_root.as_slice()).concat(" timed out — auto ").concat(verb);
        single(self.stamp(line, &event.timed_out_at))
    }

    pub fn on_cards_revealed(&self, event: &CardsRevealed) -> (lines: Vec<String>)
        ensures
            texts(lines@) == seq![stamped(self@.show_timestamps, revealed_line(self@, *event), event.revealed_at)],
    {
        let ranking: &str = match &event.ranking {
            Some(r) => fmt_hand_rank(r.rank_type),
            None => "",
        };
        proof {
            reveal_strlit("");
        }
        let head = self.resolve_name(event.player_root.as_slice()).concat(" shows ").concat(
            fmt_cards(event.cards.as_slice()).as_str(),
        );
        let line = if ranking.is_empty() {
            head
        } else {
            head.concat(" — ").concat(ranking)
        };
        single(self.stamp(line, &event.revealed_at))
    }

    /// `CommunityCardsDealt`: the new cards join the board.
    pub fn on_community_dealt(&mut self, event: &CommunityCardsDealt) -> (lines: Vec<String>)
        ensures
            final(self)@ == (RendererView { board: old(self)@.board + event.cards@, ..old(self)@ }),
            texts(lines@) == seq![stamped(old(self)@.show_timestamps, community_line(old(self)@.board, *event), event.dealt_at)],
    {
        let ghost before = self@;
        let label = fmt_phase_label(event.phase);
        let new_cards = fmt_cards(event.cards.as_slice());
        let mut i: usize = 0;
        while i < event.cards.len()
            invariant
                i <= event.cards@.len(),
                self.board@ == before.board + event.cards@.subrange(0, i as int),
                self@.names == before.names,
                self.show_timestamps == before.show_timestamps,
            decreases event.cards@.len() - i,
        {
            self.board.push(event.cards[i]);
            proof {
                assert(before.board + event.cards@.subrange(0, i + 1) =~= (before.board + event.cards@.subrange(
                    0,
                    i as int,
                )).push(event.cards@[i as int]));
            }
            i = i + 1;
        }
        proof {
            assert(event.cards@.subrange(0, event.cards@.len() as int) =~= event.cards@);
        }
        let board_str = if self.board.len() == 0 {
            fmt_cards(event.cards.as_slice())
        } else {
            fmt_cards(self.board.as_slice())
        };
        let line = String::from_str(label).concat(": ").concat(new_cards.as_str()).concat(" — Board: ").concat(
            board_str.as_str(),
        );
        let r = single(self.stamp(line, &event.dealt_at));
        assert(self@ =~= RendererView { board: before.board + event.cards@, ..before });
        r
    }

    /// `PotAwarded`: one line per winner.
    pub fn on_pot_awarded(&self, event: &PotAwarded) -> (lines: Vec<String>)
        requires
            forall|i: int| 0 <= i < event.winners@.len() ==> (#[trigger] event.winners@[i]).amount > i64::MIN,
        ensures
            lines@.len() == event.winners@.len(),
            forall|i: int|
                0 <= i < lines@.len() ==> (#[trigger] lines@[i])@ == stamped(
                    self@.show_timestamps,
                    winner_line(self@, event.winners@[i]),
                    event.awarded_at,
                ),
    {
        let mut lines: Vec<String> = Vec::new();
        let mut i: usize = 0;
        while i < event.winners.len()
            invariant
                i <= event.winners@.len(),
                lines@.len() == i,
                forall|j: int| 0 <= j < event.winners@.len() ==> (#[trigger] event.winners@[j]).amount > i64::MIN,
                forall|j: int|
                    0 <= j < i ==> (#[trigger] lines@[j])@ == stamped(
                        self@.show_timestamps,
                        winner_line(self@, event.winners@[j]),
                        event.awarded_at,
                    ),
            decreases event.winners@.len() - i,
        {
            let w = &event.winners[i];
            let line = self.resolve_name(w.player_root.as_slice()).concat(" wins ").concat(fmt_money(w.amount).as_str());
            lines.push(self.stamp(line, &event.awarded_at));
            i = i + 1;
        }
        lines
    }

    /// The line for an event no handler knows, without a timestamp.
    pub fn on_unknown(&self, type_url: &str) -> (lines: Vec<String>)
        ensures
            texts(lines@) == seq!["[Unknown event type: "@ + type_url@ + "]"@],
    {
        single(String::from_str("[Unknown event type: ").concat(type_url).concat("]"))
    }
}

impl PrettyRenderer {
    /// `HandEnded`: the winners and what they won.
    pub fn on_hand_ended(&self, event: &HandEnded) -> (lines: Vec<String>)
        requires
            forall|i: int| 0 <= i < event.results@.len() ==> (#[trigger] event.results@[i]).amount > i64::MIN,
        ensures
            texts(lines@) == seq![stamped(self@.show_timestamps, hand_ended_line(self@, *event), event.ended_at)],
    {
        if event.results.len() == 0 {
            return single(self.stamp(String::from_str("Hand ended"), &event.ended_at));
        }
        let ghost v = self@;
        let ghost want = event.results@.map_values(
            |r: crate::hand_messages::PotResult| resolved_name(v.names, r.winner_root@) + " wins "@ + money_spec(
                r.amount as int,
            ),
        );
        let mut parts: Vec<String> = Vec::new();
        let mut i: usize = 0;
        while i < event.results.len()
            invariant
                i <= event.results@.len(),
                v == self@,
                forall|j: int| 0 <= j < event.results@.len() ==> (#[trigger] event.results@[j]).amount > i64::MIN,
                want == event.results@.map_values(
                    |r: crate::hand_messages::PotResult| resolved_name(v.names, r.winner_root@) + " wins "@ + money_spec(
                        r.amount as int,
                    ),
                ),
                texts(parts@) == want.subrange(0, i as int),
            decreases event.results@.len() - i,
        {
            let r = &event.results[i];
            let ghost before = parts@;
            parts.push(self.resolve_name(r.winner_root.as_slice()).concat(" wins ").concat(fmt_money(r.amount).as_str()));
            proof {
                assert(texts(before).len() == before.len());
                assert forall|k: int| 0 <= k < parts@.len() implies #[trigger] texts(parts@)[k] == want.subrange(0, i + 1)[k] by {
                    if k < i {
                        assert(parts@[k] == before[k]);
                        assert(texts(before)[k] == want.subrange(0, i as int)[k]);
                    }
                }
                assert(texts(parts@) =~= want.subrange(0, i + 1));
            }
            i = i + 1;
        }
        proof {
            assert(want.subrange(0, want.len() as int) =~= want);
        }
        let line = String::from_str("Hand ended — ").concat(join(&parts, ", ").as_str());
        single(self.stamp(line, &event.ended_at))
    }

    /// `CardsDealt`: each player's hole cards.
    pub fn on_cards_dealt(&self, event: &CardsDealt) -> (lines: Vec<String>)
        ensures
            texts(lines@) == seq![stamped(self@.show_timestamps, cards_dealt_line(self@, *event), event.dealt_at)],
    {
        if event.player_cards.len() == 0 {
            return single(self.stamp(String::from_str("Cards dealt"), &event.dealt_at));
        }
        let ghost v = self@;
        let ghost want = event.player_cards@.map_values(
            |pc: crate::hand_messages::PlayerHoleCards| resolved_name(v.names, pc.player_root@) + ": "@ + cards_text(
                pc.cards@,
            ),
        );
        let mut parts: Vec<String> = Vec::new();
        let mut i: usize = 0;
        while i < event.player_cards.len()
            invariant
                i <= event.player_cards@.len(),
                v == self@,
                want == event.player_cards@.map_values(
                    |pc: crate::hand_messages::PlayerHoleCards| resolved_name(v.names, pc.player_root@) + ": "@
                        + cards_text(pc.cards@),
                ),
                texts(parts@) == want.subrange(0, i as int),
            decreases event.player_cards@.len() - i,
        {
            let pc = &event.player_cards[i];
            let ghost before = parts@;
            parts.push(self.resolve_name(pc.player_root.as_slice()).concat(": ").concat(fmt_cards(pc.cards.as_slice()).as_str()));
            proof {
                assert(texts(before).len() == before.len());
                assert forall|k: int| 0 <= k < parts@.len() implies #[trigger] texts(parts@)[k] == want.subrange(0, i + 1)[k] by {
                    if k < i {
                        assert(parts@[k] == before[k]);
                        assert(texts(before)[k] == want.subrange(0, i as int)[k]);
                    }
                }
                assert(texts(parts@) =~= want.subrange(0, i + 1));
            }
            i = i + 1;
        }
        proof {
            assert(want.subrange(0, want.len() as int) =~= want);
        }
        let line = join(&parts, " | ");
        single(self.stamp(line, &event.dealt_at))
    }

    /// `HandComplete`: the final stacks, or just the hand number.
    pub fn on_hand_complete(&self, event: &HandComplete) -> (lines: Vec<String>)
        requires
            forall|i: int| 0 <= i < event.final_stacks@.len() ==> (#[trigger] event.final_stacks@[i]).stack > i64::MIN,
        ensures
            texts(lines@) == seq![stamped(self@.show_timestamps, hand_complete_line(self@, *event), event.completed_at)],
    {
        if event.final_stacks.len() == 0 {
            let line = String::from_str("HAND #").concat(fmt_i64(event.hand_number).as_str()).concat(" complete");
            return single(self.stamp(line, &event.completed_at));
        }
        let ghost v = self@;
        let ghost want = seq!["Final stacks"@] + event.final_stacks@.map_values(
            |s: crate::hand_messages::PlayerStackSnapshot| stack_entry(v, s),
        );
        let mut parts: Vec<String> = Vec::new();
        parts.push(String::from_str("Final stacks"));
        proof {
            assert(texts(parts@) =~= want.subrange(0, 1));
        }
        let mut i: usize = 0;
        while i < event.final_stacks.len()
            invariant
                i <= event.final_stacks@.len(),
                v == self@,
                forall|j: int| 0 <= j < event.final_stacks@.len() ==> (#[trigger] event.final_stacks@[j]).stack > i64::MIN,
                want == seq!["Final stacks"@] + event.final_stacks@.map_values(
                    |s: crate::hand_messages::PlayerStackSnapshot| stack_entry(v, s),
                ),
                texts(parts@) == want.subrange(0, i + 1),
            decreases event.final_stacks@.len() - i,
        {
            let snap = &event.final_stacks[i];
            let entry = self.resolve_name(snap.player_root.as_slice()).concat(": ").concat(fmt_money(snap.stack).as_str());
            let entry = if snap.has_folded {
                entry.concat(" (folded)")
            } else {
                entry
            };
            let ghost before = parts@;
            parts.push(entry);
            proof {
                assert(texts(before).len() == before.len());
                assert forall|k: int| 0 <= k < parts@.len() implies #[trigger] texts(parts@)[k] == want.subrange(0, i + 2)[k] by {
                    if k < i + 1 {
                        assert(parts@[k] == before[k]);
                        assert(texts(before)[k] == want.subrange(0, i + 1)[k]);
                    }
                }
                assert(texts(parts@) =~= want.subrange(0, i + 2));
            }
            i = i + 1;
        }
        proof {
            assert(want.subrange(0, want.len() as int) =~= want);
        }
        let line = join(&parts, " — ");
        single(self.stamp(line, &event.completed_at))
    }
}

/// In the final-stacks line, a player's entry starts with the player's
/// name and stack, and ends with ` (folded)` exactly when that player
/// folded.
pub proof fn law_folded_marker_marks_the_folded(v: RendererView, s: crate::hand_messages::PlayerStackSnapshot)
    ensures
        ({
            let entry = stack_entry(v, s);
            let head = resolved_name(v.names, s.player_root@) + ": "@ + money_spec(s.stack as int);
            let mark = " (folded)"@;
            &&& entry.subrange(0, head.len() as int) == head
            &&& (entry.len() >= mark.len() && entry.subrange(entry.len() - mark.len(), entry.len() as int) == mark)
                <==> s.has_folded
        }),
{
    let entry = stack_entry(v, s);
    let head = resolved_name(v.names, s.player_root@) + ": "@ + money_spec(s.stack as int);
    let mark = " (folded)"@;
    reveal_strlit(" (folded)");
    lemma_money_ends_with_digit(s.stack as int);
    if s.has_folded {
        assert(entry == head + mark);
        assert(entry.subrange(entry.len() - mark.len(), entry.len() as int) =~= mark);
        assert(entry.subrange(0, head.len() as int) =~= head);
    } else {
        assert(entry =~= head);
        assert(entry.subrange(0, head.len() as int) =~= head);
        if entry.len() >= mark.len() && entry.subrange(entry.len() - mark.len(), entry.len() as int) == mark {
            assert(entry.last() == entry.subrange(entry.len() - mark.len(), entry.len() as int)[mark.len() - 1]);
            assert(entry.last() == money_spec(s.stack as int).last());
            assert(mark[mark.len() - 1] == ')');
        }
    }
}

/// The final-stacks line lists every player in order: it opens with
/// `Final stacks`, and each further snapshot adds ` — ` and that player's
/// entry at the end, leaving the rest of the line as it was.
pub proof fn law_final_stacks_list_each_player_in_order(
    v: RendererView,
    e: HandComplete,
    longer: HandComplete,
    x: crate::hand_messages::PlayerStackSnapshot,
)
    requires
        longer.final_stacks@ == e.final_stacks@.push(x),
    ensures
        e.final_stacks@.len() == 0 ==> hand_complete_line(v, longer) == "Final stacks"@ + " — "@ + stack_entry(v, x),
        e.final_stacks@.len() > 0 ==> hand_complete_line(v, longer) == hand_complete_line(v, e) + " — "@ + stack_entry(
            v,
            x,
        ),
{
    let f = |s: crate::hand_messages::PlayerStackSnapshot| stack_entry(v, s);
    let short = seq!["Final stacks"@] + e.final_stacks@.map_values(f);
    let long = seq!["Final stacks"@] + longer.final_stacks@.map_values(f);
    assert(long.drop_last() =~= short);
    assert(long.last() == stack_entry(v, x));
    assert(long.len() >= 2);
    if e.final_stacks@.len() == 0 {
        assert(short =~= seq!["Final stacks"@]);
        assert(joined(short, " — "@) == short[0]);
    }
}

} // verus!
