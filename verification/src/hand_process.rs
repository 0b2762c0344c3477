//! The hand process: phase transitions, action-on tracking, raise-reopens-
//! action, all-in handling, timeouts and pot/stack accounting of one hand.

use vstd::prelude::*;
use crate::hand_machine::{
    Phase, BettingPhase, Action, Command, BlindKind, PlayerState, Seats, SeatChange, changed,
    can_act, active_at, at_most_one_unfolded, all_active_acted, betting_complete, next_action_on,
};
use crate::text::str_eq;

verus! {

/// What a hand process holds, as mathematical values.
#[verifier::ext_equal]
pub struct HandView {
    pub phase: Phase,
    pub betting_phase: Option<BettingPhase>,
    pub game_variant: Seq<char>,
    pub dealer_position: i32,
    pub small_blind: i64,
    pub big_blind: i64,
    pub current_bet: i64,
    pub action_on: i32,
    pub pot_total: i64,
    pub players: Map<i32, PlayerState>,
    pub small_blind_posted: bool,
    pub big_blind_posted: bool,
    pub emitted: Seq<Command>,
}

/// The hand-flow process of one hand.
#[derive(Debug)]
pub struct HandProcess {
    pub phase: Phase,
    pub betting_phase: Option<BettingPhase>,
    pub game_variant: String,
    pub dealer_position: i32,
    pub small_blind: i64,
    pub big_blind: i64,
    pub current_bet: i64,
    pub action_on: i32,
    pub pot_total: i64,
    pub players: Seats,
    pub small_blind_posted: bool,
    pub big_blind_posted: bool,
    /// Commands emitted by the latest transition.
    pub emitted: Vec<Command>,
}

impl View for HandProcess {
    type V = HandView;

    open spec fn view(&self) -> HandView {
        HandView {
            phase: self.phase,
            betting_phase: self.betting_phase,
            game_variant: self.game_variant@,
            dealer_position: self.dealer_position,
            small_blind: self.small_blind,
            big_blind: self.big_blind,
            current_bet: self.current_bet,
            action_on: self.action_on,
            pot_total: self.pot_total,
            players: self.players@,
            small_blind_posted: self.small_blind_posted,
            big_blind_posted: self.big_blind_posted,
            emitted: self.emitted@,
        }
    }
}

/// A process before any hand started.
pub open spec fn initial_hand() -> HandView {
    HandView {
        phase: Phase::AwaitingDeal,
        betting_phase: None,
        game_variant: Seq::empty(),
        dealer_position: 0,
        small_blind: 0,
        big_blind: 0,
        current_bet: 0,
        action_on: 0,
        pot_total: 0,
        players: Map::empty(),
        small_blind_posted: false,
        big_blind_posted: false,
        emitted: Seq::empty(),
    }
}

/// The seats given, later entries replacing earlier ones at the same position.
pub open spec fn seated(ps: Seq<PlayerState>) -> Map<i32, PlayerState>
    decreases ps.len(),
{
    if ps.len() == 0 {
        Map::empty()
    } else {
        seated(ps.drop_last()).insert(ps.last().position, ps.last())
    }
}

/// The number of seats used for wrapping round the table: at least one.
pub open spec fn wrap_count(m: Map<i32, PlayerState>) -> int {
    if m.dom().len() == 0 {
        1
    } else {
        m.dom().len() as int
    }
}

/// Counting seat numbers `start, start + 1, ...` round a table of `n` seats,
/// the first one whose player can act; `start` when there is none.
pub open spec fn dense_scan(m: Map<i32, PlayerState>, start: int, n: int) -> int {
    if exists|j: int| 0 <= j < n && #[trigger] active_at(m, ((start + j) % n) as i32) {
        let j = choose|j: int|
            0 <= j < n && #[trigger] active_at(m, ((start + j) % n) as i32) && forall|i: int|
                0 <= i < j ==> !#[trigger] active_at(m, ((start + i) % n) as i32);
        (start + j) % n
    } else {
        start
    }
}

/// The state with the emitted commands cleared.
pub open spec fn cleared(v: HandView) -> HandView {
    HandView { emitted: Seq::empty(), ..v }
}

/// The state after the betting round ends: five-card draw goes from the
/// first round to the draw; otherwise the flop follows preflop, the turn
/// and river follow one card each, and the last round goes to showdown.
pub open spec fn round_ended(v: HandView) -> HandView {
    if v.game_variant == "FIVE_CARD_DRAW"@ && v.betting_phase == Some(BettingPhase::Preflop) {
        HandView { phase: Phase::Draw, ..v }
    } else {
        match v.betting_phase {
            Some(BettingPhase::Preflop) => HandView {
                phase: Phase::DealingCommunity,
                emitted: v.emitted.push(Command::DealCommunityCards { count: 3 }),
                ..v
            },
            Some(BettingPhase::Flop) | Some(BettingPhase::Turn) => HandView {
                phase: Phase::DealingCommunity,
                emitted: v.emitted.push(Command::DealCommunityCards { count: 1 }),
                ..v
            },
            Some(BettingPhase::River) | Some(BettingPhase::Draw) => HandView {
                phase: Phase::Showdown,
                emitted: v.emitted.push(Command::AwardPot),
                ..v
            },
            None => v,
        }
    }
}

/// The state after betting advances: action moves to the next seat round
/// the table that can act; with one unfolded player left the hand is
/// complete and the pot awarded; once everyone who can act has acted the
/// round ends.
pub open spec fn betting_advanced(v: HandView) -> HandView {
    let n = v.players.dom().len() as int;
    if n == 0 {
        v
    } else {
        let w = HandView {
            action_on: dense_scan(v.players, (v.action_on + 1) % n, n) as i32,
            ..v
        };
        if at_most_one_unfolded(v.players) {
            HandView { phase: Phase::Complete, emitted: w.emitted.push(Command::AwardPot), ..w }
        } else if !all_active_acted(v.players) {
            w
        } else {
            round_ended(w)
        }
    }
}

/// The state after the process handles the next event of its phase.
pub open spec fn event_handled(v: HandView) -> HandView {
    let c = cleared(v);
    match v.phase {
        Phase::Dealing => HandView {
            phase: Phase::PostingBlinds,
            emitted: seq![Command::PostBlind { kind: BlindKind::Small }],
            ..c
        },
        Phase::PostingBlinds => if v.small_blind_posted && !v.big_blind_posted {
            HandView {
                emitted: seq![Command::PostBlind { kind: BlindKind::Big }],
                big_blind_posted: true,
                ..c
            }
        } else {
            HandView {
                phase: Phase::Betting,
                action_on: ((v.dealer_position + 2) % wrap_count(v.players)) as i32,
                ..c
            }
        },
        Phase::Betting => betting_advanced(c),
        Phase::Showdown => HandView {
            phase: Phase::Complete,
            emitted: seq![Command::TimeoutCancel],
            ..c
        },
        _ => c,
    }
}

/// The seats after the seat at `pos` takes action `a`: it has acted (and
/// folded or gone all-in when the action says so); a raise clears the
/// `has_acted` flag of every other seat.
pub open spec fn acted_seats(m: Map<i32, PlayerState>, pos: i32, a: Action) -> Map<i32, PlayerState> {
    if !m.contains_key(pos) {
        m
    } else {
        Map::new(
            |k: i32| m.contains_key(k),
            |k: i32|
                if k == pos {
                    changed(SeatChange::Acted(a), pos, m[pos])
                } else if a == Action::Raise {
                    PlayerState { has_acted: false, ..m[k] }
                } else {
                    m[k]
                },
        )
    }
}

/// The seats at the start of a new betting round: no bets, nobody acted.
pub open spec fn new_round_seats(m: Map<i32, PlayerState>) -> Map<i32, PlayerState> {
    Map::new(
        |k: i32| m.contains_key(k),
        |k: i32| PlayerState { bet_this_round: 0, has_acted: false, ..m[k] },
    )
}

/// Raises, bets and all-ins are the actions that can lift the current bet.
pub open spec fn is_aggressive(a: Action) -> bool {
    a == Action::Bet || a == Action::Raise || a == Action::AllIn
}

/// The state after the seat at `pos` puts `amount` chips in with action `a`.
pub open spec fn player_action_applied(v: HandView, pos: i32, a: Action, amount: i64) -> HandView {
    if v.players.contains_key(pos) {
        let p = v.players[pos];
        let bet = p.bet_this_round + amount;
        let w = HandView {
            players: v.players.insert(
                pos,
                PlayerState { stack: (p.stack - amount) as i64, bet_this_round: bet as i64, ..p },
            ),
            current_bet: if is_aggressive(a) && bet > v.current_bet {
                bet as i64
            } else {
                v.current_bet
            },
            pot_total: (v.pot_total + amount) as i64,
            ..v
        };
        HandView { players: acted_seats(w.players, pos, a), ..w }
    } else {
        HandView { pot_total: (v.pot_total + amount) as i64, ..v }
    }
}

/// The automatic action on a timeout: fold when facing a bet not yet
/// matched, check otherwise.
pub open spec fn timeout_action(v: HandView) -> Action {
    if v.current_bet > 0 && v.players.contains_key(v.action_on) && v.players[v.action_on].bet_this_round
        < v.current_bet {
        Action::Fold
    } else {
        Action::Check
    }
}

/// `x` modulo `n`, always in `0..n`.
fn wrap_index(x: i64, n: i64) -> (r: i32)
    requires
        0 < n <= i32::MAX,
    ensures
        r as int == (x as int) % (n as int),
        0 <= r < n,
{
    match x.checked_rem_euclid(n) {
        Some(r) => r as i32,
        None => 0,
    }
}

impl Default for HandProcess {
    fn default() -> (h: HandProcess)
        ensures
            h@ == initial_hand(),
    {
        let h = HandProcess {
            phase: Phase::AwaitingDeal,
            betting_phase: None,
            game_variant: String::new(),
            dealer_position: 0,
            small_blind: 0,
            big_blind: 0,
            current_bet: 0,
            action_on: 0,
            pot_total: 0,
            players: Seats::new(),
            small_blind_posted: false,
            big_blind_posted: false,
            emitted: Vec::new(),
        };
        assert(h@ =~= initial_hand());
        h
    }
}

impl HandProcess {
    /// A process before any hand started.
    pub fn new() -> (h: HandProcess)
        ensures
            h@ == initial_hand(),
    {
        HandProcess::default()
    }

    /// `HandStarted`: records the table parameters, seats the players and
    /// enters dealing.
    pub fn on_hand_started(
        &mut self,
        hand_number: i64,
        game_variant: &str,
        dealer_position: i32,
        small_blind: i64,
        big_blind: i64,
        players: &[PlayerState],
    )
        ensures
            final(self)@ == (HandView {
                phase: Phase::Dealing,
                game_variant: game_variant@,
                dealer_position,
                small_blind,
                big_blind,
                players: seated(players@),
                emitted: Seq::empty(),
                ..old(self)@
            }),
    {
        self.emitted.clear();
        self.game_variant = game_variant.to_owned();
        self.dealer_position = dealer_position;
        self.small_blind = small_blind;
        self.big_blind = big_blind;
        let mut seats = Seats::new();
        let mut i: usize = 0;
        while i < players.len()
            invariant
                i <= players@.len(),
                seats@ == seated(players@.subrange(0, i as int)),
            decreases players@.len() - i,
        {
            proof {
                assert(players@.subrange(0, i + 1).drop_last() =~= players@.subrange(0, i as int));
            }
            let p = players[i].duplicate();
            seats.insert(players[i].position, p);
            i = i + 1;
        }
        self.players = seats;
        proof {
            assert(players@.subrange(0, players@.len() as int) =~= players@);
        }
        self.phase = Phase::Dealing;
        proof {
            assert(self@ =~= HandView {
                phase: Phase::Dealing,
                game_variant: game_variant@,
                dealer_position,
                small_blind,
                big_blind,
                players: seated(players@),
                emitted: Seq::empty(),
                ..old(self)@
            });
        }
    }

    /// Ends the betting round: moves to the draw, the next street or the
    /// showdown, emitting what that step asks for.
    fn finish_round(&mut self)
        ensures
            final(self)@ == round_ended(old(self)@),
    {
        if str_eq(self.game_variant.as_str(), "FIVE_CARD_DRAW") && matches!(self.betting_phase, Some(BettingPhase::Preflop)) {
            self.phase = Phase::Draw;
            assert(self@ =~= round_ended(old(self)@));
            return;
        }
        match self.betting_phase {
            Some(BettingPhase::Preflop) => {
                self.phase = Phase::DealingCommunity;
                self.emitted.push(Command::DealCommunityCards { count: 3 });
            },
            Some(BettingPhase::Flop) | Some(BettingPhase::Turn) => {
                self.phase = Phase::DealingCommunity;
                self.emitted.push(Command::DealCommunityCards { count: 1 });
            },
            Some(BettingPhase::River) | Some(BettingPhase::Draw) => {
                self.phase = Phase::Showdown;
                self.emitted.push(Command::AwardPot);
            },
            None => {},
        }
        assert(self@ =~= round_ended(old(self)@));
    }

    /// Moves action to the next seat round the table that can act, then
    /// ends the hand or the round when that is due.
    fn advance_betting(&mut self)
        requires
            old(self)@.players.dom().len() <= i32::MAX,
            old(self)@.players.dom().len() > 0 ==> old(self).action_on < i32::MAX,
        ensures
            final(self)@ == betting_advanced(old(self)@),
    {
        let len = self.players.len();
        if len == 0 {
            return;
        }
        let n: i64 = len as i64;
        let ghost m = self.players@;
        let start: i32 = wrap_index(self.action_on as i64 + 1, n);
        proof {
            vstd::arithmetic::div_mod::lemma_small_mod(start as nat, n as nat);
        }
        let mut next: i32 = start;
        let mut j: i64 = 0;
        let mut found = false;
        while j < n && !found
            invariant
                n == m.dom().len(),
                0 < n <= i32::MAX,
                self.players@ == m,
                0 <= start < n,
                0 <= j <= n,
                0 <= next < n,
                next as int == (start + j) % (n as int),
                forall|i: int| 0 <= i < j ==> !#[trigger] active_at(m, ((start + i) % (n as int)) as i32),
                found ==> j < n && active_at(m, next),
            decreases n - j + (if found { 0int } else { 1int }),
        {
            match self.players.get(next) {
                Some(p) => {
                    if can_act_now(p) {
                        found = true;
                    }
                },
                None => {},
            }
            if !found {
                proof {
                    let nn = n as int;
                    let x = start + j;
                    vstd::arithmetic::div_mod::lemma_add_mod_noop_right(1, x, nn);
                    if next + 1 < nn {
                        vstd::arithmetic::div_mod::lemma_small_mod((next + 1) as nat, nn as nat);
                    } else {
                        vstd::arithmetic::div_mod::lemma_fundamental_div_mod_converse(nn, nn, 1, 0);
                    }
                    assert(!active_at(m, ((start + j) % (n as int)) as i32));
                }
                next = if next as i64 + 1 >= n {
                    0
                } else {
                    next + 1
                };
                j = j + 1;
            }
        }
        proof {
            let nn = n as int;
            if found {
                let jj = j as int;
                assert(active_at(m, ((start + jj) % nn) as i32));
                let c = choose|c: int|
                    0 <= c < nn && #[trigger] active_at(m, ((start + c) % nn) as i32) && forall|i: int|
                        0 <= i < c ==> !#[trigger] active_at(m, ((start + i) % nn) as i32);
                if c < jj {
                    assert(!active_at(m, ((start + c) % nn) as i32));
                } else if c > jj {
                    assert(!active_at(m, ((start + jj) % nn) as i32));
                }
                assert(dense_scan(m, start as int, nn) == next);
            } else {
                vstd::arithmetic::div_mod::lemma_mod_add_multiples_vanish(start as int, nn);
                vstd::arithmetic::div_mod::lemma_small_mod(start as nat, nn as nat);
                assert forall|i: int| !(0 <= i < nn && #[trigger] active_at(m, ((start + i) % nn) as i32)) by {}
                assert(dense_scan(m, start as int, nn) == start);
            }
        }
        self.action_on = next;
        let ghost w = self@;
        if self.players.unfolded_at_most_one() {
            self.phase = Phase::Complete;
            self.emitted.push(Command::AwardPot);
            assert(self@ =~= betting_advanced(old(self)@));
            return;
        }
        if !self.players.active_all_acted() {
            assert(self@ =~= betting_advanced(old(self)@));
            return;
        }
        self.finish_round();
        assert(self@ =~= betting_advanced(old(self)@));
    }

    /// Drives the next step of the current phase: dealing goes to posting
    /// blinds, the blinds go to betting, betting advances, the showdown
    /// completes the hand.
    pub fn handle_event(&mut self)
        requires
            old(self)@.players.dom().len() <= i32::MAX,
            old(self).phase == Phase::PostingBlinds && !(old(self).small_blind_posted
                && !old(self).big_blind_posted) ==> old(self).dealer_position + 2 <= i32::MAX,
            old(self).phase == Phase::Betting && old(self)@.players.dom().len() > 0 ==> old(self).action_on
                < i32::MAX,
        ensures
            final(self)@ == event_handled(old(self)@),
    {
        self.emitted.clear();
        match self.phase {
            Phase::Dealing => {
                self.phase = Phase::PostingBlinds;
                self.emitted.push(Command::PostBlind { kind: BlindKind::Small });
            },
            Phase::PostingBlinds => {
                if self.small_blind_posted && !self.big_blind_posted {
                    self.emitted.push(Command::PostBlind { kind: BlindKind::Big });
                    self.big_blind_posted = true;
                } else {
                    self.phase = Phase::Betting;
                    let len = self.players.len();
                    let n: i64 = if len == 0 {
                        1
                    } else {
                        len as i64
                    };
                    self.action_on = wrap_index(self.dealer_position as i64 + 2, n);
                }
            },
            Phase::Betting => {
                self.advance_betting();
            },
            Phase::Showdown => {
                self.phase = Phase::Complete;
                self.emitted.push(Command::TimeoutCancel);
            },
            _ => {},
        }
        assert(self@ =~= event_handled(old(self)@));
    }

    /// Ends the betting round from outside, as the runtime does when it
    /// decides the round is over.
    pub fn end_betting_round(&mut self)
        ensures
            final(self)@ == round_ended(cleared(old(self)@)),
    {
        self.emitted.clear();
        self.finish_round();
    }

    /// Records the flags of a player action: the actor has acted (and
    /// folded or gone all-in as the action says); a raise reopens action
    /// for everyone else.
    pub fn apply_action(&mut self, position: i32, action: Action)
        ensures
            final(self)@ == (HandView { players: acted_seats(old(self)@.players, position, action), ..old(self)@ }),
            final(self).players.total_stack() == old(self).players.total_stack(),
    {
        if self.players.get(position).is_some() {
            let ghost m = self.players@;
            self.players.change_at(position, SeatChange::Acted(action));
            if matches!(action, Action::Raise) {
                self.players.change_all(SeatChange::ReopenUnless(position));
            }
            proof {
                assert(self.players@ =~= acted_seats(m, position, action));
            }
        }
        assert(self@ =~= HandView { players: acted_seats(old(self)@.players, position, action), ..old(self)@ });
    }

    /// The automatic action on a timeout, which is also emitted.
    pub fn timeout(&mut self) -> (cmd: Command)
        ensures
            cmd == (Command::PlayerAction { action: timeout_action(old(self)@) }),
            final(self)@ == (HandView { emitted: seq![cmd], ..old(self)@ }),
    {
        self.emitted.clear();
        if self.current_bet > 0 {
            match self.players.get(self.action_on) {
                Some(p) => {
                    if p.bet_this_round < self.current_bet {
                        let cmd = Command::PlayerAction { action: Action::Fold };
                        self.emitted.push(cmd);
                        assert(self@ =~= HandView { emitted: seq![cmd], ..old(self)@ });
                        return cmd;
                    }
                },
                None => {},
            }
        }
        let cmd = Command::PlayerAction { action: Action::Check };
        self.emitted.push(cmd);
        assert(self@ =~= HandView { emitted: seq![cmd], ..old(self)@ });
        cmd
    }

    /// After the last draw of five-card draw: the post-draw betting round.
    pub fn handle_last_draw(&mut self)
        ensures
            final(self)@ == (HandView {
                phase: Phase::Betting,
                betting_phase: Some(BettingPhase::Draw),
                emitted: Seq::empty(),
                ..old(self)@
            }),
    {
        self.emitted.clear();
        self.phase = Phase::Betting;
        self.betting_phase = Some(BettingPhase::Draw);
        assert(self@ =~= HandView {
            phase: Phase::Betting,
            betting_phase: Some(BettingPhase::Draw),
            emitted: Seq::empty(),
            ..old(self)@
        });
    }

    /// Community cards dealt: a new betting round with no bets, action on
    /// the first seat after the dealer.
    pub fn apply_community_cards_dealt(&mut self, betting_phase: BettingPhase)
        requires
            old(self)@.players.dom().len() <= i32::MAX,
            old(self).dealer_position + 1 <= i32::MAX,
        ensures
            final(self)@ == (HandView {
                players: new_round_seats(old(self)@.players),
                current_bet: 0,
                betting_phase: Some(betting_phase),
                action_on: ((old(self).dealer_position + 1) % wrap_count(old(self)@.players)) as i32,
                emitted: Seq::empty(),
                ..old(self)@
            }),
    {
        self.emitted.clear();
        let ghost m = self.players@;
        self.players.change_all(SeatChange::NewRound);
        proof {
            assert(self.players@ =~= new_round_seats(m));
        }
        self.current_bet = 0;
        self.betting_phase = Some(betting_phase);
        let len = self.players.len();
        let n: i64 = if len == 0 {
            1
        } else {
            len as i64
        };
        self.action_on = wrap_index(self.dealer_position as i64 + 1, n);
        assert(self@ =~= HandView {
            players: new_round_seats(old(self)@.players),
            current_bet: 0,
            betting_phase: Some(betting_phase),
            action_on: ((old(self).dealer_position + 1) % wrap_count(old(self)@.players)) as i32,
            emitted: Seq::empty(),
            ..old(self)@
        });
    }

    /// Pot awarded: the hand is complete and its timeouts are cancelled.
    pub fn apply_pot_awarded(&mut self)
        ensures
            final(self)@ == (HandView {
                phase: Phase::Complete,
                emitted: seq![Command::TimeoutCancel],
                ..old(self)@
            }),
    {
        self.emitted.clear();
        self.phase = Phase::Complete;
        self.emitted.push(Command::TimeoutCancel);
        assert(self@ =~= HandView {
            phase: Phase::Complete,
            emitted: seq![Command::TimeoutCancel],
            ..old(self)@
        });
    }

    /// Whether the betting round is over: at most one seat can act, or
    /// every seat that can has acted and matched the current bet.
    pub fn is_betting_complete(&self) -> (b: bool)
        ensures
            b == betting_complete(self@.players, self.current_bet),
    {
        self.players.round_complete(self.current_bet)
    }

    /// Moves action to the next seat strictly after the current one (in
    /// seat order, wrapping round) whose player can act; nothing changes
    /// when nobody can.
    pub fn advance_action_on(&mut self)
        ensures
            final(self)@ == (HandView {
                action_on: match next_action_on(old(self)@.players, old(self).action_on) {
                    Some(k) => k,
                    None => old(self).action_on,
                },
                ..old(self)@
            }),
            (exists|k: i32| active_at(old(self)@.players, k)) ==> active_at(final(self)@.players, final(self).action_on),
    {
        match self.players.next_active_after(self.action_on) {
            Some(k) => {
                self.action_on = k;
            },
            None => {},
        }
        assert(self@ =~= HandView {
            action_on: match next_action_on(old(self)@.players, old(self).action_on) {
                Some(k) => k,
                None => old(self).action_on,
            },
            ..old(self)@
        });
    }

    /// A player action with its chips: the actor's stack goes down and its
    /// bet this round up by `amount`, the pot grows by `amount`, a bet,
    /// raise or all-in above the current bet lifts it, and the flags are
    /// updated as by [`HandProcess::apply_action`]. When the seat exists
    /// the chips in play (stacks and pot together) stay the same.
    pub fn apply_player_action(&mut self, position: i32, action: Action, amount: i64)
        requires
            i64::MIN <= old(self).pot_total + amount <= i64::MAX,
            old(self)@.players.contains_key(position) ==> i64::MIN <= old(self)@.players[position].stack
                - amount <= i64::MAX,
            old(self)@.players.contains_key(position) ==> i64::MIN
                <= old(self)@.players[position].bet_this_round + amount <= i64::MAX,
        ensures
            final(self)@ == player_action_applied(old(self)@, position, action, amount),
            old(self)@.players.contains_key(position) ==> final(self).players.total_stack()
                + final(self).pot_total == old(self).players.total_stack() + old(self).pot_total,
    {
        let ghost v0 = self@;
        match self.players.get(position) {
            Some(p) => {
                let bet = p.bet_this_round + amount;
                self.players.change_at(position, SeatChange::Bet(amount));
                if (matches!(action, Action::Bet) || matches!(action, Action::Raise) || matches!(action, Action::AllIn))
                    && bet > self.current_bet {
                    self.current_bet = bet;
                }
            },
            None => {},
        }
        self.pot_total = self.pot_total + amount;
        proof {
            if v0.players.contains_key(position) {
                let p = v0.players[position];
                assert(self.players@ =~= v0.players.insert(
                    position,
                    PlayerState { stack: (p.stack - amount) as i64, bet_this_round: (p.bet_this_round + amount) as i64, ..p },
                ));
            }
        }
        self.apply_action(position, action);
        assert(self@ =~= player_action_applied(old(self)@, position, action, amount));
    }
}

/// Still able to act: neither folded nor all-in.
fn can_act_now(p: &PlayerState) -> (b: bool)
    ensures
        b == can_act(*p),
{
    !p.has_folded && !p.is_all_in
}

/// A raise leaves the raiser as the only seat that has acted: action is
/// reopened for everyone else.
pub proof fn law_raise_reopens_action(m: Map<i32, PlayerState>, pos: i32)
    requires
        m.contains_key(pos),
    ensures
        forall|k: i32| #[trigger] acted_seats(m, pos, Action::Raise).contains_key(k) ==> (acted_seats(
            m,
            pos,
            Action::Raise,
        )[k].has_acted <==> k == pos),
        acted_seats(m, pos, Action::Raise).dom() == m.dom(),
{
    assert(acted_seats(m, pos, Action::Raise).dom() =~= m.dom());
}

/// A seat that folds or goes all-in can no longer act; no other seat's
/// fold or all-in flag changes.
pub proof fn law_fold_and_all_in_leave_the_action(m: Map<i32, PlayerState>, pos: i32, a: Action)
    requires
        m.contains_key(pos),
        a == Action::Fold || a == Action::AllIn,
    ensures
        !can_act(acted_seats(m, pos, a)[pos]),
        forall|k: i32| #[trigger] m.contains_key(k) && k != pos ==> acted_seats(m, pos, a)[k].has_folded
            == m[k].has_folded && acted_seats(m, pos, a)[k].is_all_in == m[k].is_all_in,
{
}

/// Ending a betting round moves the hand one street on and changes
/// nothing but the phase and the emitted commands: three community cards
/// after preflop, one after the flop and one after the turn, and after the
/// river (or the draw round) the showdown, with the pot awarded and no
/// further card dealt. Five-card draw goes from its first round to the
/// draw, emitting nothing.
pub proof fn law_round_end_moves_one_street(v: HandView)
    ensures
        round_ended(v) == (HandView { phase: round_ended(v).phase, emitted: round_ended(v).emitted, ..v }),
        v.betting_phase == Some(BettingPhase::River) ==> round_ended(v).phase == Phase::Showdown
            && round_ended(v).emitted == v.emitted.push(Command::AwardPot),
        v.betting_phase == Some(BettingPhase::Draw) ==> round_ended(v).phase == Phase::Showdown
            && round_ended(v).emitted == v.emitted.push(Command::AwardPot),
        v.betting_phase == Some(BettingPhase::Flop) || v.betting_phase == Some(BettingPhase::Turn) ==> round_ended(
            v,
        ).phase == Phase::DealingCommunity && round_ended(v).emitted == v.emitted.push(
            Command::DealCommunityCards { count: 1 },
        ),
        v.betting_phase == Some(BettingPhase::Preflop) && v.game_variant != "FIVE_CARD_DRAW"@ ==> round_ended(v).phase
            == Phase::DealingCommunity && round_ended(v).emitted == v.emitted.push(
            Command::DealCommunityCards { count: 3 },
        ),
        v.betting_phase == Some(BettingPhase::Preflop) && v.game_variant == "FIVE_CARD_DRAW"@ ==> round_ended(v).phase
            == Phase::Draw && round_ended(v).emitted == v.emitted,
        v.betting_phase is None ==> round_ended(v) == v,
{
}

/// Over a hold'em hand's four betting rounds, ending each in turn deals
/// five community cards in all and then awards the pot, once.
pub proof fn law_holdem_deals_five_cards_then_awards(v: HandView)
    requires
        v.game_variant != "FIVE_CARD_DRAW"@,
    ensures
        ({
            let a = round_ended(HandView { betting_phase: Some(BettingPhase::Preflop), ..v });
            let b = round_ended(HandView { betting_phase: Some(BettingPhase::Flop), ..a });
            let c = round_ended(HandView { betting_phase: Some(BettingPhase::Turn), ..b });
            let d = round_ended(HandView { betting_phase: Some(BettingPhase::River), ..c });
            &&& d.emitted == v.emitted + seq![
                Command::DealCommunityCards { count: 3 },
                Command::DealCommunityCards { count: 1 },
                Command::DealCommunityCards { count: 1 },
                Command::AwardPot,
            ]
            &&& d.phase == Phase::Showdown
        }),
{
    let a = round_ended(HandView { betting_phase: Some(BettingPhase::Preflop), ..v });
    let b = round_ended(HandView { betting_phase: Some(BettingPhase::Flop), ..a });
    let c = round_ended(HandView { betting_phase: Some(BettingPhase::Turn), ..b });
    let d = round_ended(HandView { betting_phase: Some(BettingPhase::River), ..c });
    assert(d.emitted =~= v.emitted + seq![
        Command::DealCommunityCards { count: 3 },
        Command::DealCommunityCards { count: 1 },
        Command::DealCommunityCards { count: 1 },
        Command::AwardPot,
    ]);
}

/// Betting advances without touching the seats: when at most one player
/// is still in, the hand is complete and the pot is awarded; while someone
/// who can act has not acted, nothing but the action moves; once everyone
/// who can act has acted, the round ends.
pub proof fn law_betting_advance(v: HandView)
    requires
        v.players.dom().len() > 0,
    ensures
        betting_advanced(v).players == v.players,
        at_most_one_unfolded(v.players) ==> betting_advanced(v).phase == Phase::Complete
            && betting_advanced(v).emitted == v.emitted.push(Command::AwardPot),
        !at_most_one_unfolded(v.players) && !all_active_acted(v.players) ==> betting_advanced(v) == (HandView {
            action_on: betting_advanced(v).action_on,
            ..v
        }),
        !at_most_one_unfolded(v.players) && all_active_acted(v.players) ==> betting_advanced(v) == round_ended(
            (HandView { action_on: betting_advanced(v).action_on, ..v }),
        ),
{
}

/// Among the offsets round the table at which a seat can act, there is a
/// first one.
proof fn lemma_first_active_offset(m: Map<i32, PlayerState>, start: int, n: int, j0: int)
    requires
        0 <= j0 < n,
        active_at(m, ((start + j0) % n) as i32),
    ensures
        exists|c: int|
            0 <= c < n && #[trigger] active_at(m, ((start + c) % n) as i32) && forall|i: int|
                0 <= i < c ==> !#[trigger] active_at(m, ((start + i) % n) as i32),
    decreases j0,
{
    if exists|i: int| 0 <= i < j0 && #[trigger] active_at(m, ((start + i) % n) as i32) {
        let i = choose|i: int| 0 <= i < j0 && #[trigger] active_at(m, ((start + i) % n) as i32);
        lemma_first_active_offset(m, start, n, i);
    } else {
        assert(forall|i: int| 0 <= i < j0 ==> !#[trigger] active_at(m, ((start + i) % n) as i32));
    }
}

/// Scanning round the table from any seat finds a seat that can act
/// whenever one exists.
proof fn lemma_scan_finds_an_active_seat(m: Map<i32, PlayerState>, start: int, n: int, k: i32)
    requires
        0 <= start < n,
        0 <= k < n,
        active_at(m, k),
    ensures
        active_at(m, dense_scan(m, start, n) as i32),
{
    let j = (k - start + n) % n;
    assert(0 <= j < n && (start + j) % n == k) by (nonlinear_arith)
        requires
            0 <= start < n,
            0 <= k < n,
            j == (k - start + n) % n,
    ;
    assert(active_at(m, ((start + j) % n) as i32));
    lemma_first_active_offset(m, start, n, j);
    let c = choose|c: int|
        0 <= c < n && #[trigger] active_at(m, ((start + c) % n) as i32) && forall|i: int|
            0 <= i < c ==> !#[trigger] active_at(m, ((start + i) % n) as i32);
    assert(dense_scan(m, start, n) == (start + c) % n);
}

/// When betting advances and some seat can still act, the action lands on
/// a seat that can act.
pub proof fn law_action_moves_to_a_seat_that_can_act(v: HandView, k: i32)
    requires
        0 <= k < v.players.dom().len(),
        active_at(v.players, k),
    ensures
        active_at(v.players, betting_advanced(v).action_on),
{
    let n = v.players.dom().len() as int;
    let start = (v.action_on + 1) % n;
    lemma_scan_finds_an_active_seat(v.players, start, n, k);
    assert(betting_advanced(v).action_on == dense_scan(v.players, start, n) as i32);
}

} // verus!
