//! The hand-flow process manager: coordinates a hand between the table and
//! hand aggregates, and keeps per-round betting state rebuilt from its own
//! events.

use vstd::prelude::*;
use crate::envelope::{
    copy_bytes, first_of, make_command, single_page, single_page_book, CommandBook, EventBook, MergeStrategy, PmResponse,
};
use crate::hand_machine::{lemma_seq_view_at, seat_map, sorted_seats, Phase, SeatMap};
use crate::hand_messages::{
    ActionTaken, AwardPot, BettingRoundComplete, BlindPosted, CardsDealt, CommunityCardsDealt,
    DealCommunityCards, EndHand, HandComplete, HandStarted, PostBlind, PotAward, PotAwarded,
    PotResult, PotWinner, SeatSnapshot, ShowdownStarted,
};
use crate::messages::{action_of_number, ActionType, BettingPhase, GameVariant};
use crate::text::str_eq;

verus! {

/// Per-player betting state tracked across rounds.
#[derive(Debug, Clone, PartialEq, Eq, Default)]
pub struct PMPlayerState {
    pub player_root: Vec<u8>,
    pub position: i32,
    pub stack: i64,
    pub bet_this_round: i64,
    pub total_invested: i64,
    pub has_acted: bool,
    pub has_folded: bool,
    pub is_all_in: bool,
}

/// A player's betting state as mathematical values.
pub struct PMPlayerView {
    pub player_root: Seq<u8>,
    pub position: i32,
    pub stack: i64,
    pub bet_this_round: i64,
    pub total_invested: i64,
    pub has_acted: bool,
    pub has_folded: bool,
    pub is_all_in: bool,
}

impl View for PMPlayerState {
    type V = PMPlayerView;

    open spec fn view(&self) -> PMPlayerView {
        PMPlayerView {
            player_root: self.player_root@,
            position: self.position,
            stack: self.stack,
            bet_this_round: self.bet_this_round,
            total_invested: self.total_invested,
            has_acted: self.has_acted,
            has_folded: self.has_folded,
            is_all_in: self.is_all_in,
        }
    }
}

/// The process manager's state for one hand.
#[derive(Debug)]
pub struct HandFlowState {
    pub hand_root: Vec<u8>,
    pub hand_number: i64,
    pub game_variant: GameVariant,
    pub dealer_position: i32,
    pub small_blind_position: i32,
    pub big_blind_position: i32,
    pub small_blind: i64,
    pub big_blind: i64,
    /// `(position, player_root)` pairs from the triggering `HandStarted`.
    pub active_players: Vec<(i32, Vec<u8>)>,
    pub phase: Phase,
    /// Most recently completed or active betting round.
    pub betting_phase: BettingPhase,
    pub current_bet: i64,
    pub min_raise: i64,
    pub pot_total: i64,
    pub small_blind_posted: bool,
    pub big_blind_posted: bool,
    pub action_on: i32,
    pub last_aggressor: i32,
    pub community_card_count: i32,
    pub players: SeatMap<PMPlayerState>,
}

/// The state as mathematical values.
#[verifier::ext_equal]
pub struct HandFlowView {
    pub hand_root: Seq<u8>,
    pub hand_number: i64,
    pub game_variant: GameVariant,
    pub dealer_position: i32,
    pub small_blind_position: i32,
    pub big_blind_position: i32,
    pub small_blind: i64,
    pub big_blind: i64,
    pub active_players: Seq<(i32, Seq<u8>)>,
    pub phase: Phase,
    pub betting_phase: BettingPhase,
    pub current_bet: i64,
    pub min_raise: i64,
    pub pot_total: i64,
    pub small_blind_posted: bool,
    pub big_blind_posted: bool,
    pub action_on: i32,
    pub last_aggressor: i32,
    pub community_card_count: i32,
    pub players: Map<i32, PMPlayerView>,
}

impl View for HandFlowState {
    type V = HandFlowView;

    open spec fn view(&self) -> HandFlowView {
        HandFlowView {
            hand_root: self.hand_root@,
            hand_number: self.hand_number,
            game_variant: self.game_variant,
            dealer_position: self.dealer_position,
            small_blind_position: self.small_blind_position,
            big_blind_position: self.big_blind_position,
            small_blind: self.small_blind,
            big_blind: self.big_blind,
            active_players: active_view(self.active_players@),
            phase: self.phase,
            betting_phase: self.betting_phase,
            current_bet: self.current_bet,
            min_raise: self.min_raise,
            pot_total: self.pot_total,
            small_blind_posted: self.small_blind_posted,
            big_blind_posted: self.big_blind_posted,
            action_on: self.action_on,
            last_aggressor: self.last_aggressor,
            community_card_count: self.community_card_count,
            players: self.players@.map_values(|p: PMPlayerState| p@),
        }
    }
}

/// Roster pairs as values.
pub open spec fn active_view(s: Seq<(i32, Vec<u8>)>) -> Seq<(i32, Seq<u8>)> {
    s.map_values(|e: (i32, Vec<u8>)| (e.0, e.1@))
}

/// The `(position, player_root)` pairs of a roster.
pub open spec fn roster(s: Seq<SeatSnapshot>) -> Seq<(i32, Seq<u8>)> {
    s.map_values(|p: SeatSnapshot| (p.position, p.player_root@))
}

/// The state before any event.
pub open spec fn initial_hand_flow() -> HandFlowView {
    HandFlowView {
        hand_root: Seq::empty(),
        hand_number: 0,
        game_variant: GameVariant::Unspecified,
        dealer_position: 0,
        small_blind_position: 0,
        big_blind_position: 0,
        small_blind: 0,
        big_blind: 0,
        active_players: Seq::empty(),
        phase: Phase::AwaitingDeal,
        betting_phase: BettingPhase::Unspecified,
        current_bet: 0,
        min_raise: 0,
        pot_total: 0,
        small_blind_posted: false,
        big_blind_posted: false,
        action_on: 0,
        last_aggressor: 0,
        community_card_count: 0,
        players: Map::empty(),
    }
}

impl Default for HandFlowState {
    fn default() -> (s: HandFlowState)
        ensures
            s@ == initial_hand_flow(),
    {
        let s = HandFlowState {
            hand_root: Vec::new(),
            hand_number: 0,
            game_variant: GameVariant::Unspecified,
            dealer_position: 0,
            small_blind_position: 0,
            big_blind_position: 0,
            small_blind: 0,
            big_blind: 0,
            active_players: Vec::new(),
            phase: Phase::AwaitingDeal,
            betting_phase: BettingPhase::Unspecified,
            current_bet: 0,
            min_raise: 0,
            pot_total: 0,
            small_blind_posted: false,
            big_blind_posted: false,
            action_on: 0,
            last_aggressor: 0,
            community_card_count: 0,
            players: SeatMap::new(),
        };
        assert(s@.players =~= Map::<i32, PMPlayerView>::empty());
        assert(s@ =~= initial_hand_flow());
        s
    }
}

// ---------------------------------------------------------------------------
// Seat lookups
// ---------------------------------------------------------------------------

/// Neither folded nor all-in.
pub open spec fn pm_can_act(p: PMPlayerView) -> bool {
    !p.has_folded && !p.is_all_in
}

pub open spec fn pm_active_at(m: Map<i32, PMPlayerView>, k: i32) -> bool {
    m.contains_key(k) && pm_can_act(m[k])
}

/// The lowest seat after `after` whose player can act, wrapping round to
/// the lowest such seat; `-1` when nobody can act.
pub open spec fn pm_next_active(m: Map<i32, PMPlayerView>, after: i32) -> i32 {
    if exists|k: i32| pm_active_at(m, k) && k > after {
        choose|k: i32| pm_active_at(m, k) && k > after && forall|j: i32| pm_active_at(m, j) && j > after ==> k <= j
    } else if exists|k: i32| pm_active_at(m, k) {
        choose|k: i32| pm_active_at(m, k) && forall|j: i32| pm_active_at(m, j) ==> k <= j
    } else {
        -1i32
    }
}

/// The lowest seat held by `root`, if any.
pub open spec fn root_position(m: Map<i32, PMPlayerView>, root: Seq<u8>) -> Option<i32> {
    if exists|k: i32| m.contains_key(k) && m[k].player_root == root {
        Some(
            choose|k: i32|
                m.contains_key(k) && m[k].player_root == root && forall|j: i32|
                    m.contains_key(j) && m[j].player_root == root ==> k <= j,
        )
    } else {
        None
    }
}

/// The root of the first listed player at `pos`; empty when nobody is.
pub open spec fn root_at_position(ps: Seq<(i32, Seq<u8>)>, pos: i32) -> Seq<u8>
    decreases ps.len(),
{
    if ps.len() == 0 {
        Seq::empty()
    } else if ps[0].0 == pos {
        ps[0].1
    } else {
        root_at_position(ps.drop_first(), pos)
    }
}

/// How the view of a seat map relates to its position-ordered entries.
proof fn lemma_pm_view(e: Seq<(i32, PMPlayerState)>, m: Map<i32, PMPlayerView>)
    requires
        sorted_seats(e),
        m == seat_map(e).map_values(|p: PMPlayerState| p@),
    ensures
        forall|k: i32| #[trigger] m.contains_key(k) <==> exists|c: int| 0 <= c < e.len() && e[c].0 == k,
        forall|c: int| 0 <= c < e.len() ==> m.contains_key((#[trigger] e[c]).0) && m[e[c].0] == e[c].1@,
{
    assert forall|c: int| 0 <= c < e.len() implies m.contains_key((#[trigger] e[c]).0) && m[e[c].0] == e[c].1@ by {
        lemma_seq_view_at(e, c);
    }
}

impl HandFlowState {
    /// The root of the player listed at `pos`, empty when nobody is.
    pub fn player_at_position(&self, pos: i32) -> (r: Vec<u8>)
        ensures
            r@ == root_at_position(self@.active_players, pos),
    {
        let ghost ps = self@.active_players;
        proof {
            assert(ps.subrange(0, ps.len() as int) =~= ps);
        }
        let mut i: usize = 0;
        while i < self.active_players.len()
            invariant
                i <= self.active_players@.len(),
                ps == self@.active_players,
                ps.len() == self.active_players@.len(),
                root_at_position(ps.subrange(i as int, ps.len() as int), pos) == root_at_position(ps, pos),
            decreases self.active_players@.len() - i,
        {
            proof {
                assert(ps.subrange(i as int, ps.len() as int).drop_first() =~= ps.subrange(i + 1, ps.len() as int));
            }
            if self.active_players[i].0 == pos {
                return copy_bytes(&self.active_players[i].1);
            }
            i = i + 1;
        }
        proof {
            assert(ps.subrange(i as int, ps.len() as int) =~= Seq::<(i32, Seq<u8>)>::empty());
        }
        Vec::new()
    }

    /// The lowest seat held by `root`, if any.
    pub fn position_for_root(&self, root: &Vec<u8>) -> (r: Option<i32>)
        ensures
            r == root_position(self@.players, root@),
            r matches Some(k) ==> self@.players.contains_key(k) && self@.players[k].player_root == root@,
    {
        let n = self.players.len();
        let ghost e = self.players.entries();
        let ghost m = self@.players;
        proof {
            lemma_pm_view(e, m);
        }
        let mut i: usize = 0;
        while i < n
            invariant
                n == e.len(),
                e == self.players.entries(),
                m == self@.players,
                forall|k: i32| #[trigger] m.contains_key(k) <==> exists|c: int| 0 <= c < e.len() && e[c].0 == k,
                forall|c: int| 0 <= c < e.len() ==> m.contains_key((#[trigger] e[c]).0) && m[e[c].0] == e[c].1@,
                sorted_seats(e),
                i <= n,
                forall|j: int| 0 <= j < i ==> (#[trigger] e[j]).1.player_root@ != root@,
            decreases n - i,
        {
            let (k, p) = self.players.entry(i);
            if bytes_eq(&p.player_root, root) {
                proof {
                    assert forall|j: i32| m.contains_key(j) && m[j].player_root == root@ implies k <= j by {
                        let c = choose|c: int| 0 <= c < e.len() && e[c].0 == j;
                        if c > i {
                            assert(e[i as int].0 < e[c].0);
                        } else if c < i {
                            assert(e[c].1.player_root@ != root@);
                        }
                    }
                    let w = choose|w: i32|
                        m.contains_key(w) && m[w].player_root == root@ && forall|j: i32|
                            m.contains_key(j) && m[j].player_root == root@ ==> w <= j;
                    assert(m.contains_key(k) && m[k].player_root == root@);
                    assert(w <= k && k <= w);
                }
                return Some(k);
            }
            i = i + 1;
        }
        proof {
            assert forall|j: i32| !(m.contains_key(j) && m[j].player_root == root@) by {
                if m.contains_key(j) {
                    let c = choose|c: int| 0 <= c < e.len() && e[c].0 == j;
                }
            }
        }
        None
    }

    /// The next seat after `after` whose player can act, wrapping round;
    /// `-1` when nobody can act.
    pub fn next_active_position(&self, after: i32) -> (r: i32)
        ensures
            r == pm_next_active(self@.players, after),
    {
        let n = self.players.len();
        let ghost e = self.players.entries();
        let ghost m = self@.players;
        proof {
            lemma_pm_view(e, m);
        }
        let mut i: usize = 0;
        while i < n
            invariant
                n == e.len(),
                e == self.players.entries(),
                m == self@.players,
                forall|k: i32| #[trigger] m.contains_key(k) <==> exists|c: int| 0 <= c < e.len() && e[c].0 == k,
                forall|c: int| 0 <= c < e.len() ==> m.contains_key((#[trigger] e[c]).0) && m[e[c].0] == e[c].1@,
                sorted_seats(e),
                i <= n,
                forall|j: int| 0 <= j < i ==> !((#[trigger] e[j]).0 > after && pm_can_act(e[j].1@)),
            decreases n - i,
        {
            let (k, p) = self.players.entry(i);
            if k > after && !p.has_folded && !p.is_all_in {
                proof {
                    assert forall|j: i32| pm_active_at(m, j) && j > after implies k <= j by {
                        let c = choose|c: int| 0 <= c < e.len() && e[c].0 == j;
                        if c > i {
                            assert(e[i as int].0 < e[c].0);
                        } else if c < i {
                            assert(!(e[c].0 > after && pm_can_act(e[c].1@)));
                        }
                    }
                    assert(pm_active_at(m, k) && k > after);
                    let w = choose|w: i32|
                        pm_active_at(m, w) && w > after && forall|j: i32| pm_active_at(m, j) && j > after ==> w <= j;
                    assert(w <= k && k <= w);
                }
                return k;
            }
            i = i + 1;
        }
        proof {
            assert forall|j: i32| !(pm_active_at(m, j) && j > after) by {
                if pm_active_at(m, j) && j > after {
                    let c = choose|c: int| 0 <= c < e.len() && e[c].0 == j;
                    assert(!(e[c].0 > after && pm_can_act(e[c].1@)));
                }
            }
        }
        let mut i: usize = 0;
        while i < n
            invariant
                n == e.len(),
                e == self.players.entries(),
                m == self@.players,
                forall|k: i32| #[trigger] m.contains_key(k) <==> exists|c: int| 0 <= c < e.len() && e[c].0 == k,
                forall|c: int| 0 <= c < e.len() ==> m.contains_key((#[trigger] e[c]).0) && m[e[c].0] == e[c].1@,
                sorted_seats(e),
                i <= n,
                forall|j: i32| !(pm_active_at(m, j) && j > after),
                forall|j: int| 0 <= j < i ==> !pm_can_act((#[trigger] e[j]).1@),
            decreases n - i,
        {
            let (k, p) = self.players.entry(i);
            if !p.has_folded && !p.is_all_in {
                proof {
                    assert forall|j: i32| pm_active_at(m, j) implies k <= j by {
                        let c = choose|c: int| 0 <= c < e.len() && e[c].0 == j;
                        if c > i {
                            assert(e[i as int].0 < e[c].0);
                        } else if c < i {
                            assert(!pm_can_act(e[c].1@));
                        }
                    }
                    assert(pm_active_at(m, k));
                    let w = choose|w: i32| pm_active_at(m, w) && forall|j: i32| pm_active_at(m, j) ==> w <= j;
                    assert(w <= k && k <= w);
                }
                return k;
            }
            i = i + 1;
        }
        proof {
            assert forall|j: i32| !pm_active_at(m, j) by {
                if pm_active_at(m, j) {
                    let c = choose|c: int| 0 <= c < e.len() && e[c].0 == j;
                    assert(!pm_can_act(e[c].1@));
                }
            }
        }
        -1
    }
}

/// Byte strings compare equal.
fn bytes_eq(a: &Vec<u8>, b: &Vec<u8>) -> (r: bool)
    ensures
        r == (a@ == b@),
{
    if a.len() != b.len() {
        return false;
    }
    let mut i: usize = 0;
    while i < a.len()
        invariant
            a@.len() == b@.len(),
            i <= a@.len(),
            forall|j: int| 0 <= j < i ==> a@[j] == b@[j],
        decreases a@.len() - i,
    {
        if a[i] != b[i] {
            return false;
        }
        i = i + 1;
    }
    assert(a@ =~= b@);
    true
}

// ---------------------------------------------------------------------------
// Commands, recorded events and responses
// ---------------------------------------------------------------------------

/// Commands the hand-flow process manager sends.
#[derive(Debug, Clone, PartialEq, Eq)]
pub enum HandFlowCommand {
    PostBlind(PostBlind),
    DealCommunityCards(DealCommunityCards),
    AwardPot(AwardPot),
    EndHand(EndHand),
}

/// Events the hand-flow process manager records in its own stream.
#[derive(Debug, Clone, PartialEq, Eq)]
pub enum HandFlowEvent {
    HandStarted(HandStarted),
    CardsDealt(CardsDealt),
    BlindPosted(BlindPosted),
    ActionTaken(ActionTaken),
    BettingRoundComplete(BettingRoundComplete),
    CommunityCardsDealt(CommunityCardsDealt),
    ShowdownStarted(ShowdownStarted),
    PotAwarded(PotAwarded),
    HandComplete(HandComplete),
}

/// What one handler hands back.
pub type HandFlowResponse = PmResponse<HandFlowCommand, HandFlowEvent>;

/// `r` records exactly the triggering event `ev`, at sequence 0, for replay.
pub open spec fn records(r: HandFlowResponse, ev: HandFlowEvent) -> bool {
    &&& r.process_events@.len() == 1
    &&& single_page(r.process_events@[0], 0)
    &&& first_of(r.process_events@[0]) == ev
}

/// `b` is addressed to the hand aggregate `hand_root` and asks for a
/// synchronous accept/reject answer.
pub open spec fn to_hand(b: CommandBook<HandFlowCommand>, hand_root: Seq<u8>) -> bool {
    &&& b.domain@ == "hand"@
    &&& b.root@ == hand_root
    &&& b.decision_sync
    &&& b.merge_strategy == MergeStrategy::Commutative
    &&& b.correlation_id@.len() == 36
}

/// `b` posts a blind of `kind` for `player_root`.
pub open spec fn posts_blind(
    b: CommandBook<HandFlowCommand>,
    hand_root: Seq<u8>,
    player_root: Seq<u8>,
    kind: Seq<char>,
    amount: i64,
) -> bool {
    &&& to_hand(b, hand_root)
    &&& b.command is PostBlind
    &&& b.command->PostBlind_0.player_root@ == player_root
    &&& b.command->PostBlind_0.blind_type@ == kind
    &&& b.command->PostBlind_0.amount == amount
}

/// `b` deals `count` community cards.
pub open spec fn deals(b: CommandBook<HandFlowCommand>, hand_root: Seq<u8>, count: i32) -> bool {
    &&& to_hand(b, hand_root)
    &&& b.command == HandFlowCommand::DealCommunityCards(DealCommunityCards { count })
}

/// Quotient of `x` by a positive `d`, rounded toward zero.
pub open spec fn trunc_div(x: int, d: int) -> int {
    if x >= 0 {
        x / d
    } else {
        -((-x) / d)
    }
}

/// Remainder of `x` by a positive `d`, with the sign of `x`.
pub open spec fn trunc_rem(x: int, d: int) -> int {
    if x >= 0 {
        x % d
    } else {
        -((-x) % d)
    }
}

/// The share of the `i`-th of `n` survivors in a pot of `pot`: an even
/// split, with the whole remainder going to the first survivor.
pub open spec fn award_amount(pot: int, n: int, i: int) -> int {
    trunc_div(pot, n) + if i == 0 {
        trunc_rem(pot, n)
    } else {
        0int
    }
}

/// The unfolded players of position-ordered entries, in that order.
pub open spec fn survivors_of(e: Seq<(i32, PMPlayerState)>) -> Seq<PMPlayerState>
    decreases e.len(),
{
    if e.len() == 0 {
        Seq::empty()
    } else if !e.last().1.has_folded {
        survivors_of(e.drop_last()).push(e.last().1)
    } else {
        survivors_of(e.drop_last())
    }
}

/// The first `awards.len()` survivors of `survivors`... each award names
/// its survivor and gives it its share of `pot` among `n`.
pub open spec fn awards_upto(awards: Seq<PotAward>, survivors: Seq<PMPlayerState>, pot: i64, n: int) -> bool {
    &&& awards.len() == survivors.len()
    &&& forall|i: int|
        0 <= i < awards.len() ==> {
            &&& (#[trigger] awards[i]).player_root@ == survivors[i].player_root@
            &&& awards[i].amount == award_amount(pot as int, n, i)
            &&& awards[i].pot_type@ == "main"@
        }
}

/// `awards` gives each survivor, in position order, its share of `pot`.
pub open spec fn fair_awards(awards: Seq<PotAward>, survivors: Seq<PMPlayerState>, pot: i64) -> bool {
    awards_upto(awards, survivors, pot, survivors.len() as int)
}

/// `b` awards the pot of `state` among its unfolded players.
pub open spec fn awards_pot(b: CommandBook<HandFlowCommand>, state: HandFlowState) -> bool {
    &&& to_hand(b, state.hand_root@)
    &&& b.command is AwardPot
    &&& fair_awards(b.command->AwardPot_0.awards@, survivors_of(state.players.entries()), state.pot_total)
}

/// The commands that follow a completed betting round.
pub open spec fn round_commands(
    state: HandFlowState,
    completed: BettingPhase,
    cmds: Seq<CommandBook<HandFlowCommand>>,
) -> bool {
    if state.game_variant == GameVariant::FiveCardDraw && completed == BettingPhase::Preflop {
        cmds.len() == 0
    } else {
        match completed {
            BettingPhase::Preflop => cmds.len() == 1 && deals(cmds[0], state.hand_root@, 3),
            BettingPhase::Flop | BettingPhase::Turn => cmds.len() == 1 && deals(cmds[0], state.hand_root@, 1),
            BettingPhase::River | BettingPhase::Draw => cmds.len() == 1 && awards_pot(cmds[0], state),
            _ => cmds.len() == 0,
        }
    }
}

/// `results` reports each winner, in order.
pub open spec fn results_of(results: Seq<PotResult>, winners: Seq<PotWinner>) -> bool {
    &&& results.len() == winners.len()
    &&& forall|i: int|
        0 <= i < results.len() ==> {
            &&& (#[trigger] results[i]).winner_root@ == winners[i].player_root@
            &&& results[i].amount == winners[i].amount
            &&& results[i].pot_type@ == winners[i].pot_type@
            &&& results[i].winning_hand == winners[i].winning_hand
        }
}

fn respond(commands: Vec<CommandBook<HandFlowCommand>>, event: HandFlowEvent) -> (r: HandFlowResponse)
    ensures
        r.commands@ == commands@,
        records(r, event),
{
    let mut process_events: Vec<EventBook<HandFlowEvent>> = Vec::new();
    process_events.push(single_page_book(0, event));
    PmResponse { commands, process_events }
}

fn post_blind(hand_root: &Vec<u8>, player_root: Vec<u8>, kind: &str, amount: i64) -> (b: CommandBook<
    HandFlowCommand,
>)
    ensures
        posts_blind(b, hand_root@, player_root@, kind@, amount),
{
    let cmd = PostBlind { player_root, blind_type: kind.to_owned(), amount };
    make_command("hand", hand_root, true, HandFlowCommand::PostBlind(cmd))
}

fn deal_cards(hand_root: &Vec<u8>, count: i32) -> (b: CommandBook<HandFlowCommand>)
    ensures
        deals(b, hand_root@, count),
{
    make_command("hand", hand_root, true, HandFlowCommand::DealCommunityCards(DealCommunityCards { count }))
}

proof fn lemma_trunc_bounds(x: int, d: int)
    requires
        d >= 1,
    ensures
        x >= 0 ==> 0 <= trunc_div(x, d) <= x,
        x < 0 ==> x <= trunc_div(x, d) <= 0,
        x >= 0 ==> 0 <= trunc_rem(x, d) < d,
        x < 0 ==> -d < trunc_rem(x, d) <= 0,
{
    if x >= 0 {
        vstd::arithmetic::div_mod::lemma_div_pos_is_pos(x, d);
        vstd::arithmetic::div_mod::lemma_div_is_ordered_by_denominator(x, 1, d);
        vstd::arithmetic::div_mod::lemma_mod_pos_bound(x, d);
    } else {
        vstd::arithmetic::div_mod::lemma_div_pos_is_pos(-x, d);
        vstd::arithmetic::div_mod::lemma_div_is_ordered_by_denominator(-x, 1, d);
        vstd::arithmetic::div_mod::lemma_mod_pos_bound(-x, d);
    }
}

/// The `AwardPot` for everyone still in the hand: the pot split evenly,
/// the remainder going to the lowest-position survivor.
pub fn make_award_pot_command(state: &HandFlowState) -> (b: CommandBook<HandFlowCommand>)
    requires
        state@.players.dom().len() < i64::MAX,
    ensures
        awards_pot(b, *state),
{
    let n = state.players.len();
    let ghost e = state.players.entries();
    proof {
        assert(state@.players.dom() =~= state.players@.dom());
    }
    let mut count: i64 = 0;
    let mut i: usize = 0;
    while i < n
        invariant
            n == e.len(),
            e == state.players.entries(),
            i <= n,
            n < i64::MAX,
            count == survivors_of(e.subrange(0, i as int)).len(),
            count <= i,
        decreases n - i,
    {
        proof {
            assert(e.subrange(0, i + 1).drop_last() =~= e.subrange(0, i as int));
        }
        let (_, p) = state.players.entry(i);
        if !p.has_folded {
            count = count + 1;
        }
        i = i + 1;
    }
    proof {
        assert(e.subrange(0, n as int) =~= e);
    }
    let pot = state.pot_total;
    let mut split: i64 = 0;
    let mut remainder: i64 = 0;
    if count > 0 {
        proof {
            lemma_trunc_bounds(pot as int, count as int);
            vstd::arithmetic::div_mod::lemma_fundamental_div_mod_converse(0, count as int, 0, 0);
        }
        split = match pot.checked_div(count) {
            Some(q) => q,
            None => 0,
        };
        remainder = match pot.checked_rem(count) {
            Some(r) => r,
            None => 0,
        };
        proof {
            lemma_first_share_fits(pot as int, count as int);
        }
    }
    let mut awards: Vec<PotAward> = Vec::new();
    let mut j: i64 = 0;
    let mut i: usize = 0;
    while i < n
        invariant
            n == e.len(),
            e == state.players.entries(),
            count == survivors_of(e).len(),
            i <= n,
            j == survivors_of(e.subrange(0, i as int)).len(),
            j == awards@.len(),
            j <= i,
            count > 0 ==> split == trunc_div(pot as int, count as int),
            count > 0 ==> remainder == trunc_rem(pot as int, count as int),
            count == 0 ==> remainder == 0,
            count > 0 ==> i64::MIN <= split + remainder <= i64::MAX,
            awards_upto(awards@, survivors_of(e.subrange(0, i as int)), pot, count as int),
        decreases n - i,
    {
        proof {
            assert(e.subrange(0, i + 1).drop_last() =~= e.subrange(0, i as int));
            assert(e.subrange(0, i + 1).last() == e[i as int]);
        }
        let (_, p) = state.players.entry(i);
        if !p.has_folded {
            let extra: i64 = if j == 0 {
                remainder
            } else {
                0
            };
            let ghost before = awards@;
            awards.push(PotAward { player_root: copy_bytes(&p.player_root), amount: split + extra, pot_type: "main".to_owned() });
            proof {
                let s = survivors_of(e.subrange(0, i + 1));
                assert(s == survivors_of(e.subrange(0, i as int)).push(e[i as int].1));
                assert(survivors_of(e.subrange(0, i + 1)).len() <= survivors_of(e).len()) by {
                    lemma_survivors_prefix(e, i + 1);
                }
                assert forall|k: int| 0 <= k < awards@.len() implies {
                    &&& (#[trigger] awards@[k]).player_root@ == s[k].player_root@
                    &&& awards@[k].amount == award_amount(pot as int, count as int, k)
                    &&& awards@[k].pot_type@ == "main"@
                } by {
                    if k < before.len() {
                        assert(awards@[k] == before[k]);
                    } else {
                        assert(k == j);
                        assert(s[k] == e[i as int].1);
                    }
                }
            }
            j = j + 1;
        }
        i = i + 1;
    }
    proof {
        assert(e.subrange(0, n as int) =~= e);
    }
    make_command("hand", &state.hand_root, true, HandFlowCommand::AwardPot(AwardPot { awards }))
}

/// Survivors of a prefix are no more than those of the whole.
proof fn lemma_survivors_prefix(e: Seq<(i32, PMPlayerState)>, k: int)
    requires
        0 <= k <= e.len(),
    ensures
        survivors_of(e.subrange(0, k)).len() <= survivors_of(e).len(),
    decreases e.len() - k,
{
    if k < e.len() {
        lemma_survivors_prefix(e, k + 1);
        assert(e.subrange(0, k + 1).drop_last() =~= e.subrange(0, k));
    } else {
        assert(e.subrange(0, k) =~= e);
    }
}

/// The first survivor's share, the even share plus the whole remainder,
/// lies between zero and the pot.
proof fn lemma_first_share_fits(pot: int, n: int)
    requires
        n >= 1,
        i64::MIN <= pot <= i64::MAX,
    ensures
        pot >= 0 ==> 0 <= trunc_div(pot, n) + trunc_rem(pot, n) <= pot,
        pot < 0 ==> pot <= trunc_div(pot, n) + trunc_rem(pot, n) <= 0,
{
    let m = if pot >= 0 { pot } else { -pot };
    vstd::arithmetic::div_mod::lemma_fundamental_div_mod(m, n);
    vstd::arithmetic::div_mod::lemma_mod_pos_bound(m, n);
    vstd::arithmetic::div_mod::lemma_div_pos_is_pos(m, n);
    let q = m / n;
    assert(n * q >= q) by (nonlinear_arith)
        requires
            n >= 1,
            q >= 0,
    ;
}

/// Sum of the first `k` shares of a pot among `n`.
pub open spec fn award_total(pot: int, n: int, k: int) -> int
    decreases k,
{
    if k <= 0 {
        0
    } else {
        award_total(pot, n, k - 1) + award_amount(pot, n, k - 1)
    }
}

proof fn lemma_award_total(pot: int, n: int, k: int)
    requires
        n >= 1,
        0 <= k <= n,
    ensures
        award_total(pot, n, k) == k * trunc_div(pot, n) + if k > 0 {
            trunc_rem(pot, n)
        } else {
            0
        },
    decreases k,
{
    if k > 0 {
        lemma_award_total(pot, n, k - 1);
        let q = trunc_div(pot, n);
        assert((k - 1) * q + q == k * q) by (nonlinear_arith);
        assert(award_total(pot, n, k) == award_total(pot, n, k - 1) + award_amount(pot, n, k - 1));
    } else {
        assert(0 * trunc_div(pot, n) == 0);
    }
}

/// Splitting a pot among `n` survivors hands out exactly the pot: every
/// survivor gets the even share (the quotient truncated toward zero), and
/// the first one also gets the remainder, which has the sign of the pot.
pub proof fn law_award_shares_split_the_pot(pot: int, n: int)
    requires
        n >= 1,
    ensures
        award_total(pot, n, n) == pot,
        award_amount(pot, n, 0) == trunc_div(pot, n) + trunc_rem(pot, n),
        forall|i: int| 0 < i < n ==> #[trigger] award_amount(pot, n, i) == trunc_div(pot, n),
        pot >= 0 ==> award_amount(pot, n, 0) == pot / n + pot % n,
        pot >= 0 ==> forall|i: int| 0 < i < n ==> #[trigger] award_amount(pot, n, i) == pot / n,
{
    lemma_award_total(pot, n, n);
    let m = if pot >= 0 { pot } else { -pot };
    vstd::arithmetic::div_mod::lemma_fundamental_div_mod(m, n);
    assert(n * (m / n) == (m / n) * n) by (nonlinear_arith);
    if pot < 0 {
        assert(n * (-(m / n)) == -(n * (m / n))) by (nonlinear_arith);
    }
}

// ---------------------------------------------------------------------------
// State transitions rebuilt from the recorded events
// ---------------------------------------------------------------------------

/// The seats of a `HandStarted`, later entries replacing earlier ones at
/// the same position, each with nothing bet or acted yet.
pub open spec fn pm_seated(ps: Seq<SeatSnapshot>) -> Map<i32, PMPlayerView>
    decreases ps.len(),
{
    if ps.len() == 0 {
        Map::empty()
    } else {
        let s = ps.last();
        pm_seated(ps.drop_last()).insert(
            s.position,
            PMPlayerView {
                player_root: s.player_root@,
                position: s.position,
                stack: s.stack,
                bet_this_round: 0,
                total_invested: 0,
                has_acted: false,
                has_folded: false,
                is_all_in: false,
            },
        )
    }
}

pub open spec fn hand_started_applied(v: HandFlowView, e: HandStarted) -> HandFlowView {
    HandFlowView {
        hand_root: e.hand_root@,
        hand_number: e.hand_number,
        game_variant: e.game_variant,
        dealer_position: e.dealer_position,
        small_blind_position: e.small_blind_position,
        big_blind_position: e.big_blind_position,
        small_blind: e.small_blind,
        big_blind: e.big_blind,
        active_players: roster(e.active_players@),
        players: pm_seated(e.active_players@),
        phase: Phase::Dealing,
        min_raise: e.big_blind,
        betting_phase: BettingPhase::Preflop,
        ..v
    }
}

pub open spec fn blind_posted_applied(v: HandFlowView, e: BlindPosted) -> HandFlowView {
    let v1 = match root_position(v.players, e.player_root@) {
        Some(pos) => HandFlowView {
            players: v.players.insert(
                pos,
                PMPlayerView {
                    stack: e.player_stack,
                    bet_this_round: e.amount,
                    total_invested: e.amount,
                    ..v.players[pos]
                },
            ),
            ..v
        },
        None => v,
    };
    let v2 = HandFlowView { pot_total: e.pot_total, current_bet: e.amount, ..v1 };
    if e.blind_type@ == "small"@ {
        HandFlowView { small_blind_posted: true, ..v2 }
    } else if e.blind_type@ == "big"@ {
        HandFlowView {
            big_blind_posted: true,
            phase: Phase::Betting,
            action_on: pm_next_active(v2.players, v2.big_blind_position),
            ..v2
        }
    } else {
        v2
    }
}

/// Chips an action puts in: the amount for calls, bets, raises and all-ins.
pub open spec fn chips_put_in(a: ActionType, amount: i64) -> int {
    if a == ActionType::Call || a == ActionType::Bet || a == ActionType::Raise || a == ActionType::AllIn {
        amount as int
    } else {
        0
    }
}

pub open spec fn is_aggressive_action(a: ActionType) -> bool {
    a == ActionType::Bet || a == ActionType::Raise || a == ActionType::AllIn
}

/// The actor after its action: it has acted, its stack is as reported, and
/// its bets grow by the chips it put in.
pub open spec fn actor_after(p: PMPlayerView, e: ActionTaken) -> PMPlayerView {
    PMPlayerView {
        stack: e.player_stack,
        has_acted: true,
        has_folded: p.has_folded || action_of_number(e.action as int) == ActionType::Fold,
        is_all_in: p.is_all_in || action_of_number(e.action as int) == ActionType::AllIn,
        bet_this_round: (p.bet_this_round + chips_put_in(action_of_number(e.action as int), e.amount)) as i64,
        total_invested: (p.total_invested + chips_put_in(action_of_number(e.action as int), e.amount)) as i64,
        ..p
    }
}

/// Every seat but `pos` that can still act must act again.
pub open spec fn reopened(m: Map<i32, PMPlayerView>, pos: i32) -> Map<i32, PMPlayerView> {
    Map::new(
        |k: i32| m.contains_key(k),
        |k: i32|
            if k != pos && pm_can_act(m[k]) {
                PMPlayerView { has_acted: false, ..m[k] }
            } else {
                m[k]
            },
    )
}

/// The arithmetic of an action stays within `i64`.
pub open spec fn action_in_range(v: HandFlowView, e: ActionTaken) -> bool {
    match root_position(v.players, e.player_root@) {
        Some(pos) => {
            let p = v.players[pos];
            &&& i64::MIN <= p.bet_this_round + chips_put_in(action_of_number(e.action as int), e.amount) <= i64::MAX
            &&& i64::MIN <= p.total_invested + chips_put_in(action_of_number(e.action as int), e.amount) <= i64::MAX
            &&& i64::MIN <= p.bet_this_round + chips_put_in(action_of_number(e.action as int), e.amount) - v.current_bet
                <= i64::MAX
        },
        None => true,
    }
}

pub open spec fn action_taken_applied(v: HandFlowView, e: ActionTaken) -> HandFlowView {
    let v1 = match root_position(v.players, e.player_root@) {
        Some(pos) => {
            let p1 = actor_after(v.players[pos], e);
            if is_aggressive_action(action_of_number(e.action as int)) && p1.bet_this_round > v.current_bet {
                let raise = p1.bet_this_round - v.current_bet;
                HandFlowView {
                    players: reopened(v.players.insert(pos, p1), pos),
                    current_bet: p1.bet_this_round,
                    min_raise: if v.min_raise >= raise {
                        v.min_raise
                    } else {
                        raise as i64
                    },
                    last_aggressor: pos,
                    ..v
                }
            } else {
                HandFlowView { players: v.players.insert(pos, p1), ..v }
            }
        },
        None => v,
    };
    let v2 = HandFlowView { pot_total: e.pot_total, ..v1 };
    HandFlowView { action_on: pm_next_active(v2.players, v2.action_on), ..v2 }
}

/// The phase after a completed betting round.
pub open spec fn phase_after_round(variant: GameVariant, completed: BettingPhase, phase: Phase) -> Phase {
    if variant == GameVariant::FiveCardDraw && completed == BettingPhase::Preflop {
        Phase::Draw
    } else {
        match completed {
            BettingPhase::Preflop | BettingPhase::Flop | BettingPhase::Turn => Phase::DealingCommunity,
            BettingPhase::River | BettingPhase::Draw => Phase::Showdown,
            _ => phase,
        }
    }
}

/// Seats at the start of a new round: nothing bet, nobody acted.
pub open spec fn pm_new_round(m: Map<i32, PMPlayerView>) -> Map<i32, PMPlayerView> {
    Map::new(
        |k: i32| m.contains_key(k),
        |k: i32| PMPlayerView { bet_this_round: 0, has_acted: false, ..m[k] },
    )
}

pub open spec fn community_cards_applied(v: HandFlowView, e: CommunityCardsDealt) -> HandFlowView {
    let players = pm_new_round(v.players);
    HandFlowView {
        community_card_count: e.all_community_cards@.len() as i32,
        betting_phase: e.phase,
        players,
        current_bet: 0,
        phase: Phase::Betting,
        action_on: pm_next_active(players, v.dealer_position),
        ..v
    }
}

/// The hand-flow process manager.
pub struct HandFlowPm;

impl HandFlowPm {
    /// A new hand started: nothing to send (the deal is another
    /// component's), the event is recorded to seed the state.
    pub fn on_hand_started(&self, event: HandStarted, state: &HandFlowState) -> (r: HandFlowResponse)
        ensures
            r.commands@.len() == 0,
            records(r, HandFlowEvent::HandStarted(event)),
    {
        respond(Vec::new(), HandFlowEvent::HandStarted(event))
    }

    /// Cards dealt: post the small blind for the player in that seat.
    pub fn on_cards_dealt(&self, event: CardsDealt, state: &HandFlowState) -> (r: HandFlowResponse)
        ensures
            r.commands@.len() == 1,
            posts_blind(
                r.commands@[0],
                state.hand_root@,
                root_at_position(state@.active_players, state.small_blind_position),
                "small"@,
                state.small_blind,
            ),
            records(r, HandFlowEvent::CardsDealt(event)),
    {
        let player = state.player_at_position(state.small_blind_position);
        let mut commands: Vec<CommandBook<HandFlowCommand>> = Vec::new();
        commands.push(post_blind(&state.hand_root, player, "small", state.small_blind));
        respond(commands, HandFlowEvent::CardsDealt(event))
    }

    /// A blind posted: after the small blind, post the big one; after the
    /// big one, betting begins and nothing is sent.
    pub fn on_blind_posted(&self, event: BlindPosted, state: &HandFlowState) -> (r: HandFlowResponse)
        ensures
            event.blind_type@ == "small"@ ==> r.commands@.len() == 1 && posts_blind(
                r.commands@[0],
                state.hand_root@,
                root_at_position(state@.active_players, state.big_blind_position),
                "big"@,
                state.big_blind,
            ),
            event.blind_type@ != "small"@ ==> r.commands@.len() == 0,
            records(r, HandFlowEvent::BlindPosted(event)),
    {
        let mut commands: Vec<CommandBook<HandFlowCommand>> = Vec::new();
        if str_eq(event.blind_type.as_str(), "small") {
            let player = state.player_at_position(state.big_blind_position);
            commands.push(post_blind(&state.hand_root, player, "big", state.big_blind));
        }
        respond(commands, HandFlowEvent::BlindPosted(event))
    }

    /// A player acted: recorded only; the hand reports the end of the round.
    pub fn on_action_taken(&self, event: ActionTaken, state: &HandFlowState) -> (r: HandFlowResponse)
        ensures
            r.commands@.len() == 0,
            records(r, HandFlowEvent::ActionTaken(event)),
    {
        respond(Vec::new(), HandFlowEvent::ActionTaken(event))
    }

    /// A betting round is over: deal the flop after preflop (five-card draw
    /// goes to its draw instead), one card after the flop and the turn, and
    /// award the pot after the river or the post-draw round.
    pub fn on_betting_round_complete(&self, event: BettingRoundComplete, state: &HandFlowState) -> (r:
        HandFlowResponse)
        requires
            state@.players.dom().len() < i64::MAX,
        ensures
            round_commands(*state, event.completed_phase, r.commands@),
            records(r, HandFlowEvent::BettingRoundComplete(event)),
    {
        let mut commands: Vec<CommandBook<HandFlowCommand>> = Vec::new();
        let completed = event.completed_phase;
        if matches!(state.game_variant, GameVariant::FiveCardDraw) && matches!(completed, BettingPhase::Preflop) {
        } else {
            match completed {
                BettingPhase::Preflop => {
                    commands.push(deal_cards(&state.hand_root, 3));
                },
                BettingPhase::Flop | BettingPhase::Turn => {
                    commands.push(deal_cards(&state.hand_root, 1));
                },
                BettingPhase::River | BettingPhase::Draw => {
                    commands.push(make_award_pot_command(state));
                },
                _ => {},
            }
        }
        respond(commands, HandFlowEvent::BettingRoundComplete(event))
    }

    /// Community cards dealt: recorded only.
    pub fn on_community_cards_dealt(&self, event: CommunityCardsDealt, state: &HandFlowState) -> (r:
        HandFlowResponse)
        ensures
            r.commands@.len() == 0,
            records(r, HandFlowEvent::CommunityCardsDealt(event)),
    {
        respond(Vec::new(), HandFlowEvent::CommunityCardsDealt(event))
    }

    /// Showdown started: award the pot.
    pub fn on_showdown_started(&self, event: ShowdownStarted, state: &HandFlowState) -> (r: HandFlowResponse)
        requires
            state@.players.dom().len() < i64::MAX,
        ensures
            r.commands@.len() == 1,
            awards_pot(r.commands@[0], *state),
            records(r, HandFlowEvent::ShowdownStarted(event)),
    {
        let mut commands: Vec<CommandBook<HandFlowCommand>> = Vec::new();
        commands.push(make_award_pot_command(state));
        respond(commands, HandFlowEvent::ShowdownStarted(event))
    }

    /// Pot awarded: recorded only.
    pub fn on_pot_awarded(&self, event: PotAwarded, state: &HandFlowState) -> (r: HandFlowResponse)
        ensures
            r.commands@.len() == 0,
            records(r, HandFlowEvent::PotAwarded(event)),
    {
        respond(Vec::new(), HandFlowEvent::PotAwarded(event))
    }

    /// Hand complete: tell the table to end the hand with the winners.
    pub fn on_hand_complete(&self, event: HandComplete, state: &HandFlowState) -> (r: HandFlowResponse)
        ensures
            r.commands@.len() == 1,
            r.commands@[0].domain@ == "table"@,
            r.commands@[0].root@ == event.table_root@,
            r.commands@[0].decision_sync,
            r.commands@[0].merge_strategy == MergeStrategy::Commutative,
            r.commands@[0].command is EndHand,
            r.commands@[0].command->EndHand_0.hand_root@ == state.hand_root@,
            results_of(r.commands@[0].command->EndHand_0.results@, event.winners@),
            records(r, HandFlowEvent::HandComplete(event)),
    {
        let mut results: Vec<PotResult> = Vec::new();
        let mut i: usize = 0;
        while i < event.winners.len()
            invariant
                i <= event.winners@.len(),
                results_of(results@, event.winners@.subrange(0, i as int)),
            decreases event.winners@.len() - i,
        {
            let w = &event.winners[i];
            let ghost before = results@;
            results.push(PotResult {
                winner_root: copy_bytes(&w.player_root),
                amount: w.amount,
                pot_type: w.pot_type.clone(),
                winning_hand: w.winning_hand,
            });
            proof {
                assert forall|k: int| 0 <= k < results@.len() implies {
                    &&& (#[trigger] results@[k]).winner_root@ == event.winners@.subrange(0, i + 1)[k].player_root@
                    &&& results@[k].amount == event.winners@.subrange(0, i + 1)[k].amount
                    &&& results@[k].pot_type@ == event.winners@.subrange(0, i + 1)[k].pot_type@
                    &&& results@[k].winning_hand == event.winners@.subrange(0, i + 1)[k].winning_hand
                } by {
                    if k < before.len() {
                        assert(results@[k] == before[k]);
                    }
                }
            }
            i = i + 1;
        }
        proof {
            assert(event.winners@.subrange(0, event.winners@.len() as int) =~= event.winners@);
        }
        let end_hand = EndHand { hand_root: copy_bytes(&state.hand_root), results };
        let mut commands: Vec<CommandBook<HandFlowCommand>> = Vec::new();
        commands.push(make_command("table", &event.table_root, true, HandFlowCommand::EndHand(end_hand)));
        respond(commands, HandFlowEvent::HandComplete(event))
    }
}

/// A copy of a player's state.
fn copy_player(p: &PMPlayerState) -> (q: PMPlayerState)
    ensures
        q@ == p@,
{
    PMPlayerState {
        player_root: copy_bytes(&p.player_root),
        position: p.position,
        stack: p.stack,
        bet_this_round: p.bet_this_round,
        total_invested: p.total_invested,
        has_acted: p.has_acted,
        has_folded: p.has_folded,
        is_all_in: p.is_all_in,
    }
}

/// Every seat but `pos` that can still act must act again.
fn reopen_others(players: &mut SeatMap<PMPlayerState>, pos: i32)
    ensures
        final(players)@.map_values(|p: PMPlayerState| p@) == reopened(old(players)@.map_values(|p: PMPlayerState| p@), pos),
{
    let n = players.len();
    let ghost e0 = players.entries();
    let ghost m0 = old(players)@.map_values(|p: PMPlayerState| p@);
    proof {
        lemma_pm_view(e0, m0);
    }
    let mut i: usize = 0;
    while i < n
        invariant
            n == e0.len(),
            sorted_seats(e0),
            players.entries().len() == n,
            forall|j: int| 0 <= j < n ==> (#[trigger] players.entries()[j]).0 == e0[j].0,
            forall|j: int| 0 <= j < i ==> (#[trigger] players.entries()[j]).1@ == (if e0[j].0 != pos && pm_can_act(e0[j].1@) {
                PMPlayerView { has_acted: false, ..e0[j].1@ }
            } else {
                e0[j].1@
            }),
            forall|j: int| i <= j < n ==> #[trigger] players.entries()[j] == e0[j],
            i <= n,
        decreases n - i,
    {
        let (k, p) = players.entry(i);
        if k != pos && !p.has_folded && !p.is_all_in {
            let mut q = copy_player(p);
            q.has_acted = false;
            players.set_at_index(i, q);
        }
        i = i + 1;
    }
    let _ = players.len();
    let ghost e1 = players.entries();
    proof {
        assert(sorted_seats(e1)) by {
            assert forall|a: int, b: int| 0 <= a < b < e1.len() implies e1[a].0 < e1[b].0 by {
                assert(e1[a].0 == e0[a].0);
                assert(e1[b].0 == e0[b].0);
            }
        }
        lemma_pm_view(e1, players@.map_values(|p: PMPlayerState| p@));
        let m1 = players@.map_values(|p: PMPlayerState| p@);
        assert forall|k: i32| #[trigger] m1.contains_key(k) <==> m0.contains_key(k) by {
            if m0.contains_key(k) {
                let c = choose|c: int| 0 <= c < e0.len() && e0[c].0 == k;
                assert(e1[c].0 == k);
            }
            if m1.contains_key(k) {
                let c = choose|c: int| 0 <= c < e1.len() && e1[c].0 == k;
                assert(e0[c].0 == k);
            }
        }
        assert forall|k: i32| #[trigger] m1.contains_key(k) implies m1[k] == reopened(m0, pos)[k] by {
            let c = choose|c: int| 0 <= c < e1.len() && e1[c].0 == k;
            assert(e0[c].0 == k);
        }
        assert(m1 =~= reopened(m0, pos));
    }
}

/// A new betting round: nothing bet, nobody acted.
fn reset_round(players: &mut SeatMap<PMPlayerState>)
    ensures
        final(players)@.map_values(|p: PMPlayerState| p@) == pm_new_round(old(players)@.map_values(|p: PMPlayerState| p@)),
{
    let n = players.len();
    let ghost e0 = players.entries();
    let ghost m0 = old(players)@.map_values(|p: PMPlayerState| p@);
    proof {
        lemma_pm_view(e0, m0);
    }
    let mut i: usize = 0;
    while i < n
        invariant
            n == e0.len(),
            sorted_seats(e0),
            players.entries().len() == n,
            forall|j: int| 0 <= j < n ==> (#[trigger] players.entries()[j]).0 == e0[j].0,
            forall|j: int| 0 <= j < i ==> (#[trigger] players.entries()[j]).1@ == (PMPlayerView {
                bet_this_round: 0,
                has_acted: false,
                ..e0[j].1@
            }),
            forall|j: int| i <= j < n ==> #[trigger] players.entries()[j] == e0[j],
            i <= n,
        decreases n - i,
    {
        let (_, p) = players.entry(i);
        let mut q = copy_player(p);
        q.bet_this_round = 0;
        q.has_acted = false;
        players.set_at_index(i, q);
        i = i + 1;
    }
    let _ = players.len();
    let ghost e1 = players.entries();
    proof {
        assert(sorted_seats(e1)) by {
            assert forall|a: int, b: int| 0 <= a < b < e1.len() implies e1[a].0 < e1[b].0 by {
                assert(e1[a].0 == e0[a].0);
                assert(e1[b].0 == e0[b].0);
            }
        }
        lemma_pm_view(e1, players@.map_values(|p: PMPlayerState| p@));
        let m1 = players@.map_values(|p: PMPlayerState| p@);
        assert forall|k: i32| #[trigger] m1.contains_key(k) <==> m0.contains_key(k) by {
            if m0.contains_key(k) {
                let c = choose|c: int| 0 <= c < e0.len() && e0[c].0 == k;
                assert(e1[c].0 == k);
            }
            if m1.contains_key(k) {
                let c = choose|c: int| 0 <= c < e1.len() && e1[c].0 == k;
                assert(e0[c].0 == k);
            }
        }
        assert forall|k: i32| #[trigger] m1.contains_key(k) implies m1[k] == pm_new_round(m0)[k] by {
            let c = choose|c: int| 0 <= c < e1.len() && e1[c].0 == k;
            assert(e0[c].0 == k);
        }
        assert(m1 =~= pm_new_round(m0));
    }
}

impl HandFlowPm {
    /// `HandStarted`: the hand's parameters and roster; dealing begins.
    pub fn apply_hand_started(state: &mut HandFlowState, event: HandStarted)
        ensures
            final(state)@ == hand_started_applied(old(state)@, event),
    {
        let ghost ev = event;
        let mut active: Vec<(i32, Vec<u8>)> = Vec::new();
        let mut seats: SeatMap<PMPlayerState> = SeatMap::new();
        let mut i: usize = 0;
        while i < event.active_players.len()
            invariant
                ev == event,
                i <= event.active_players@.len(),
                active_view(active@) == roster(event.active_players@.subrange(0, i as int)),
                seats@.map_values(|p: PMPlayerState| p@) == pm_seated(event.active_players@.subrange(0, i as int)),
            decreases event.active_players@.len() - i,
        {
            let s = &event.active_players[i];
            let ghost before_active = active@;
            let ghost before_seats = seats@;
            active.push((s.position, copy_bytes(&s.player_root)));
            let p = PMPlayerState {
                player_root: copy_bytes(&s.player_root),
                position: s.position,
                stack: s.stack,
                bet_this_round: 0,
                total_invested: 0,
                has_acted: false,
                has_folded: false,
                is_all_in: false,
            };
            let ghost pv = p@;
            seats.insert(s.position, p);
            proof {
                let sub = event.active_players@.subrange(0, i + 1);
                assert(sub.drop_last() =~= event.active_players@.subrange(0, i as int));
                assert(sub.last() == event.active_players@[i as int]);
                let prev = event.active_players@.subrange(0, i as int);
                assert(active_view(before_active).len() == before_active.len());
                assert(roster(prev).len() == prev.len());
                assert(before_active.len() == i);
                assert(active@ == before_active.push((event.active_players@[i as int].position, active@[i as int].1)));
                assert forall|k: int| 0 <= k < active@.len() implies #[trigger] active_view(active@)[k] == roster(sub)[k] by {
                    if k < i {
                        assert(active@[k] == before_active[k]);
                        assert(active_view(before_active)[k] == roster(prev)[k]);
                        assert(sub[k] == prev[k]);
                    }
                }
                assert(active_view(active@) =~= roster(sub));
                assert(seats@.map_values(|p: PMPlayerState| p@) =~= before_seats.map_values(|p: PMPlayerState| p@).insert(
                    event.active_players@[i as int].position,
                    pv,
                ));
            }
            i = i + 1;
        }
        proof {
            assert(event.active_players@.subrange(0, event.active_players@.len() as int) =~= event.active_players@);
        }
        state.active_players = active;
        state.players = seats;
        state.hand_number = event.hand_number;
        state.game_variant = event.game_variant;
        state.dealer_position = event.dealer_position;
        state.small_blind_position = event.small_blind_position;
        state.big_blind_position = event.big_blind_position;
        state.small_blind = event.small_blind;
        state.big_blind = event.big_blind;
        state.phase = Phase::Dealing;
        state.min_raise = event.big_blind;
        state.betting_phase = BettingPhase::Preflop;
        state.hand_root = event.hand_root;
        assert(state@ =~= hand_started_applied(old(state)@, ev));
    }

    /// `CardsDealt`: the blinds are due.
    pub fn apply_cards_dealt(state: &mut HandFlowState, event: CardsDealt)
        ensures
            final(state)@ == (HandFlowView { phase: Phase::PostingBlinds, ..old(state)@ }),
    {
        state.phase = Phase::PostingBlinds;
        assert(state@ =~= HandFlowView { phase: Phase::PostingBlinds, ..old(state)@ });
    }

    /// `BlindPosted`: the poster's stack and bet, the pot and the bet to
    /// match; after the big blind, betting starts with the first seat
    /// after it that can act.
    pub fn apply_blind_posted(state: &mut HandFlowState, event: BlindPosted)
        ensures
            final(state)@ == blind_posted_applied(old(state)@, event),
    {
        let ghost v0 = state@;
        match state.position_for_root(&event.player_root) {
            Some(pos) => {
                match state.players.get(pos) {
                    Some(p) => {
                        let mut q = copy_player(p);
                        q.stack = event.player_stack;
                        q.bet_this_round = event.amount;
                        q.total_invested = event.amount;
                        let ghost qv = q@;
                        let ghost raw = state.players@;
                        state.players.insert(pos, q);
                        proof {
                            assert(state.players@.map_values(|p: PMPlayerState| p@) =~= raw.map_values(
                                |p: PMPlayerState| p@,
                            ).insert(pos, qv));
                        }
                    },
                    None => {},
                }
            },
            None => {},
        }
        state.pot_total = event.pot_total;
        state.current_bet = event.amount;
        if str_eq(event.blind_type.as_str(), "small") {
            state.small_blind_posted = true;
        } else if str_eq(event.blind_type.as_str(), "big") {
            state.big_blind_posted = true;
            state.phase = Phase::Betting;
            state.action_on = state.next_active_position(state.big_blind_position);
        }
        assert(state@ =~= blind_posted_applied(v0, event));
    }

    /// `ActionTaken`: the actor's stack, bet and flags; a bet, raise or
    /// all-in above the current bet lifts it, raises the minimum raise,
    /// names the aggressor and reopens action; then action moves on.
    pub fn apply_action_taken(state: &mut HandFlowState, event: ActionTaken)
        requires
            action_in_range(old(state)@, event),
        ensures
            final(state)@ == action_taken_applied(old(state)@, event),
    {
        let ghost v0 = state@;
        match state.position_for_root(&event.player_root) {
            Some(pos) => {
                match state.players.get(pos) {
                    Some(p) => {
                        let action = ActionType::from_wire(event.action);
                        let added: i64 = if matches!(action, ActionType::Call) || matches!(action, ActionType::Bet)
                            || matches!(action, ActionType::Raise) || matches!(action, ActionType::AllIn) {
                            event.amount
                        } else {
                            0
                        };
                        let mut q = copy_player(p);
                        q.stack = event.player_stack;
                        q.has_acted = true;
                        if matches!(action, ActionType::Fold) {
                            q.has_folded = true;
                        }
                        if matches!(action, ActionType::AllIn) {
                            q.is_all_in = true;
                        }
                        q.bet_this_round = p.bet_this_round + added;
                        q.total_invested = p.total_invested + added;
                        let bet = q.bet_this_round;
                        let ghost qv = q@;
                        let ghost raw = state.players@;
                        state.players.insert(pos, q);
                        proof {
                            assert(state.players@.map_values(|p: PMPlayerState| p@) =~= raw.map_values(
                                |p: PMPlayerState| p@,
                            ).insert(pos, qv));
                            assert(qv == actor_after(v0.players[pos], event));
                        }
                        let aggressive = matches!(action, ActionType::Bet) || matches!(action, ActionType::Raise)
                            || matches!(action, ActionType::AllIn);
                        if aggressive && bet > state.current_bet {
                            let raise_amt = bet - state.current_bet;
                            state.current_bet = bet;
                            if state.min_raise < raise_amt {
                                state.min_raise = raise_amt;
                            }
                            state.last_aggressor = pos;
                            reopen_others(&mut state.players, pos);
                        }
                    },
                    None => {},
                }
            },
            None => {},
        }
        state.pot_total = event.pot_total;
        state.action_on = state.next_active_position(state.action_on);
        assert(state@ =~= action_taken_applied(v0, event));
    }

    /// `BettingRoundComplete`: the round and pot as reported; the phase
    /// moves to the draw, the next street or the showdown.
    pub fn apply_betting_round_complete(state: &mut HandFlowState, event: BettingRoundComplete)
        ensures
            final(state)@ == (HandFlowView {
                betting_phase: event.completed_phase,
                pot_total: event.pot_total,
                phase: phase_after_round(old(state).game_variant, event.completed_phase, old(state).phase),
                ..old(state)@
            }),
    {
        state.betting_phase = event.completed_phase;
        state.pot_total = event.pot_total;
        let completed = event.completed_phase;
        if matches!(state.game_variant, GameVariant::FiveCardDraw) && matches!(completed, BettingPhase::Preflop) {
            state.phase = Phase::Draw;
        } else {
            match completed {
                BettingPhase::Preflop | BettingPhase::Flop | BettingPhase::Turn => {
                    state.phase = Phase::DealingCommunity;
                },
                BettingPhase::River | BettingPhase::Draw => {
                    state.phase = Phase::Showdown;
                },
                _ => {},
            }
        }
        assert(state@ =~= HandFlowView {
            betting_phase: event.completed_phase,
            pot_total: event.pot_total,
            phase: phase_after_round(old(state).game_variant, event.completed_phase, old(state).phase),
            ..old(state)@
        });
    }

    /// `CommunityCardsDealt`: a new betting round with action on the
    /// first seat after the dealer that can act.
    pub fn apply_community_cards_dealt(state: &mut HandFlowState, event: CommunityCardsDealt)
        ensures
            final(state)@ == community_cards_applied(old(state)@, event),
    {
        let ghost v0 = state@;
        state.community_card_count = event.all_community_cards.len() as i32;
        state.betting_phase = event.phase;
        reset_round(&mut state.players);
        state.current_bet = 0;
        state.phase = Phase::Betting;
        state.action_on = state.next_active_position(state.dealer_position);
        assert(state@ =~= community_cards_applied(v0, event));
    }

    /// `ShowdownStarted`: the showdown.
    pub fn apply_showdown_started(state: &mut HandFlowState, event: ShowdownStarted)
        ensures
            final(state)@ == (HandFlowView { phase: Phase::Showdown, ..old(state)@ }),
    {
        state.phase = Phase::Showdown;
        assert(state@ =~= HandFlowView { phase: Phase::Showdown, ..old(state)@ });
    }

    /// `PotAwarded`: the pot is being awarded.
    pub fn apply_pot_awarded(state: &mut HandFlowState, event: PotAwarded)
        ensures
            final(state)@ == (HandFlowView { phase: Phase::AwardingPot, ..old(state)@ }),
    {
        state.phase = Phase::AwardingPot;
        assert(state@ =~= HandFlowView { phase: Phase::AwardingPot, ..old(state)@ });
    }

    /// `HandComplete`: the hand is over.
    pub fn apply_hand_complete(state: &mut HandFlowState, event: HandComplete)
        ensures
            final(state)@ == (HandFlowView { phase: Phase::Complete, ..old(state)@ }),
    {
        state.phase = Phase::Complete;
        assert(state@ =~= HandFlowView { phase: Phase::Complete, ..old(state)@ });
    }
}

/// What follows a completed betting round, over every hand: after the
/// flop or the turn exactly one card is dealt on the hand (the next street)
/// and the pot is not awarded; after preflop the three-card flop is dealt
/// (nothing for five-card draw, whose draw comes next); only after the
/// river or the draw round is the pot awarded, once, to the hand.
pub proof fn law_completed_round_deals_or_awards(
    state: HandFlowState,
    completed: BettingPhase,
    cmds: Seq<CommandBook<HandFlowCommand>>,
)
    requires
        round_commands(state, completed, cmds),
    ensures
        cmds.len() <= 1,
        forall|i: int| 0 <= i < cmds.len() ==> (#[trigger] cmds[i]).domain@ == "hand"@ && cmds[i].root@
            == state.hand_root@,
        completed == BettingPhase::Flop || completed == BettingPhase::Turn ==> cmds.len() == 1
            && cmds[0].command == HandFlowCommand::DealCommunityCards(DealCommunityCards { count: 1 }),
        completed == BettingPhase::Preflop && state.game_variant != GameVariant::FiveCardDraw ==> cmds.len() == 1
            && cmds[0].command == HandFlowCommand::DealCommunityCards(DealCommunityCards { count: 3 }),
        completed == BettingPhase::Preflop && state.game_variant == GameVariant::FiveCardDraw ==> cmds.len() == 0,
        completed == BettingPhase::River || completed == BettingPhase::Draw ==> cmds.len() == 1
            && cmds[0].command is AwardPot,
        forall|i: int|
            0 <= i < cmds.len() && (#[trigger] cmds[i]).command is AwardPot ==> completed == BettingPhase::River
                || completed == BettingPhase::Draw,
        forall|i: int|
            0 <= i < cmds.len() && (#[trigger] cmds[i]).command is DealCommunityCards ==> completed
                == BettingPhase::Preflop || completed == BettingPhase::Flop || completed == BettingPhase::Turn,
{
}

} // verus!
