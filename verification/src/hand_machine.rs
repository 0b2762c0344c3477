//! The hand-flow state machine: phase, action-on and bet tracking across a
//! poker hand's betting rounds.

use vstd::prelude::*;
use crate::text::str_eq;

verus! {

/// High-level workflow phases of a hand.
#[derive(Debug, Default, Clone, Copy, PartialEq, Eq, Hash)]
pub enum Phase {
    #[default]
    AwaitingDeal,
    Dealing,
    PostingBlinds,
    Betting,
    DealingCommunity,
    Draw,
    Showdown,
    AwardingPot,
    Complete,
}

/// The wire name of each phase.
pub open spec fn phase_name(p: Phase) -> Seq<char> {
    match p {
        Phase::AwaitingDeal => "AWAITING_DEAL"@,
        Phase::Dealing => "DEALING"@,
        Phase::PostingBlinds => "POSTING_BLINDS"@,
        Phase::Betting => "BETTING"@,
        Phase::DealingCommunity => "DEALING_COMMUNITY"@,
        Phase::Draw => "DRAW"@,
        Phase::Showdown => "SHOWDOWN"@,
        Phase::AwardingPot => "AWARDING_POT"@,
        Phase::Complete => "COMPLETE"@,
    }
}

impl Phase {
    /// The wire name of the phase.
    pub fn as_str(&self) -> (s: &'static str)
        ensures
            s@ == phase_name(*self),
    {
        match self {
            Phase::AwaitingDeal => "AWAITING_DEAL",
            Phase::Dealing => "DEALING",
            Phase::PostingBlinds => "POSTING_BLINDS",
            Phase::Betting => "BETTING",
            Phase::DealingCommunity => "DEALING_COMMUNITY",
            Phase::Draw => "DRAW",
            Phase::Showdown => "SHOWDOWN",
            Phase::AwardingPot => "AWARDING_POT",
            Phase::Complete => "COMPLETE",
        }
    }

    /// The phase with the given wire name; `WAITING_FOR_START` is accepted
    /// for `AwaitingDeal`.
    pub fn parse(s: &str) -> (r: Option<Phase>)
        ensures
            r == parse_phase_spec(s@),
    {
        if str_eq(s, "AWAITING_DEAL") || str_eq(s, "WAITING_FOR_START") {
            Some(Phase::AwaitingDeal)
        } else if str_eq(s, "DEALING") {
            Some(Phase::Dealing)
        } else if str_eq(s, "POSTING_BLINDS") {
            Some(Phase::PostingBlinds)
        } else if str_eq(s, "BETTING") {
            Some(Phase::Betting)
        } else if str_eq(s, "DEALING_COMMUNITY") {
            Some(Phase::DealingCommunity)
        } else if str_eq(s, "DRAW") {
            Some(Phase::Draw)
        } else if str_eq(s, "SHOWDOWN") {
            Some(Phase::Showdown)
        } else if str_eq(s, "AWARDING_POT") {
            Some(Phase::AwardingPot)
        } else if str_eq(s, "COMPLETE") {
            Some(Phase::Complete)
        } else {
            None
        }
    }
}

pub open spec fn parse_phase_spec(s: Seq<char>) -> Option<Phase> {
    if s == "AWAITING_DEAL"@ || s == "WAITING_FOR_START"@ {
        Some(Phase::AwaitingDeal)
    } else if s == "DEALING"@ {
        Some(Phase::Dealing)
    } else if s == "POSTING_BLINDS"@ {
        Some(Phase::PostingBlinds)
    } else if s == "BETTING"@ {
        Some(Phase::Betting)
    } else if s == "DEALING_COMMUNITY"@ {
        Some(Phase::DealingCommunity)
    } else if s == "DRAW"@ {
        Some(Phase::Draw)
    } else if s == "SHOWDOWN"@ {
        Some(Phase::Showdown)
    } else if s == "AWARDING_POT"@ {
        Some(Phase::AwardingPot)
    } else if s == "COMPLETE"@ {
        Some(Phase::Complete)
    } else {
        None
    }
}

/// The betting rounds of a hand.
#[derive(Debug, Clone, Copy, PartialEq, Eq)]
pub enum BettingPhase {
    Preflop,
    Flop,
    Turn,
    River,
    Draw,
}

pub open spec fn betting_phase_name(p: BettingPhase) -> Seq<char> {
    match p {
        BettingPhase::Preflop => "PREFLOP"@,
        BettingPhase::Flop => "FLOP"@,
        BettingPhase::Turn => "TURN"@,
        BettingPhase::River => "RIVER"@,
        BettingPhase::Draw => "DRAW"@,
    }
}

pub open spec fn parse_betting_phase_spec(s: Seq<char>) -> Option<BettingPhase> {
    if s == "PREFLOP"@ {
        Some(BettingPhase::Preflop)
    } else if s == "FLOP"@ {
        Some(BettingPhase::Flop)
    } else if s == "TURN"@ {
        Some(BettingPhase::Turn)
    } else if s == "RIVER"@ {
        Some(BettingPhase::River)
    } else if s == "DRAW"@ {
        Some(BettingPhase::Draw)
    } else {
        None
    }
}

impl BettingPhase {
    pub fn as_str(&self) -> (s: &'static str)
        ensures
            s@ == betting_phase_name(*self),
    {
        match self {
            BettingPhase::Preflop => "PREFLOP",
            BettingPhase::Flop => "FLOP",
            BettingPhase::Turn => "TURN",
            BettingPhase::River => "RIVER",
            BettingPhase::Draw => "DRAW",
        }
    }

    pub fn parse(s: &str) -> (r: Option<BettingPhase>)
        ensures
            r == parse_betting_phase_spec(s@),
    {
        if str_eq(s, "PREFLOP") {
            Some(BettingPhase::Preflop)
        } else if str_eq(s, "FLOP") {
            Some(BettingPhase::Flop)
        } else if str_eq(s, "TURN") {
            Some(BettingPhase::Turn)
        } else if str_eq(s, "RIVER") {
            Some(BettingPhase::River)
        } else if str_eq(s, "DRAW") {
            Some(BettingPhase::Draw)
        } else {
            None
        }
    }
}

/// Naming a phase and reading the name back gives the phase again.
pub proof fn law_phase_name_round_trip(p: Phase)
    ensures
        parse_phase_spec(phase_name(p)) == Some(p),
{
    reveal_strlit("AWAITING_DEAL");
    reveal_strlit("WAITING_FOR_START");
    reveal_strlit("DEALING");
    reveal_strlit("POSTING_BLINDS");
    reveal_strlit("BETTING");
    reveal_strlit("DEALING_COMMUNITY");
    reveal_strlit("DRAW");
    reveal_strlit("SHOWDOWN");
    reveal_strlit("AWARDING_POT");
    reveal_strlit("COMPLETE");
    match p {
        Phase::AwaitingDeal => {

        },
        Phase::Dealing => {
            assert("DEALING"@.len() != "AWAITING_DEAL"@.len());
            assert("DEALING"@.len() != "WAITING_FOR_START"@.len());
        },
        Phase::PostingBlinds => {
            assert("POSTING_BLINDS"@.len() != "AWAITING_DEAL"@.len());
            assert("POSTING_BLINDS"@.len() != "WAITING_FOR_START"@.len());
            assert("POSTING_BLINDS"@.len() != "DEALING"@.len());
        },
        Phase::Betting => {
            assert("BETTING"@.len() != "AWAITING_DEAL"@.len());
            assert("BETTING"@.len() != "WAITING_FOR_START"@.len());
            assert("BETTING"@[0] != "DEALING"@[0]);
            assert("BETTING"@.len() != "POSTING_BLINDS"@.len());
        },
        Phase::DealingCommunity => {
            assert("DEALING_COMMUNITY"@.len() != "AWAITING_DEAL"@.len());
            assert("DEALING_COMMUNITY"@[0] != "WAITING_FOR_START"@[0]);
            assert("DEALING_COMMUNITY"@.len() != "DEALING"@.len());
            assert("DEALING_COMMUNITY"@.len() != "POSTING_BLINDS"@.len());
            assert("DEALING_COMMUNITY"@.len() != "BETTING"@.len());
        },
        Phase::Draw => {
            assert("DRAW"@.len() != "AWAITING_DEAL"@.len());
            assert("DRAW"@.len() != "WAITING_FOR_START"@.len());
            assert("DRAW"@.len() != "DEALING"@.len());
            assert("DRAW"@.len() != "POSTING_BLINDS"@.len());
            assert("DRAW"@.len() != "BETTING"@.len());
            assert("DRAW"@.len() != "DEALING_COMMUNITY"@.len());
        },
        Phase::Showdown => {
            assert("SHOWDOWN"@.len() != "AWAITING_DEAL"@.len());
            assert("SHOWDOWN"@.len() != "WAITING_FOR_START"@.len());
            assert("SHOWDOWN"@.len() != "DEALING"@.len());
            assert("SHOWDOWN"@.len() != "POSTING_BLINDS"@.len());
            assert("SHOWDOWN"@.len() != "BETTING"@.len());
            assert("SHOWDOWN"@.len() != "DEALING_COMMUNITY"@.len());
            assert("SHOWDOWN"@.len() != "DRAW"@.len());
        },
        Phase::AwardingPot => {
            assert("AWARDING_POT"@.len() != "AWAITING_DEAL"@.len());
            assert("AWARDING_POT"@.len() != "WAITING_FOR_START"@.len());
            assert("AWARDING_POT"@.len() != "DEALING"@.len());
            assert("AWARDING_POT"@.len() != "POSTING_BLINDS"@.len());
            assert("AWARDING_POT"@.len() != "BETTING"@.len());
            assert("AWARDING_POT"@.len() != "DEALING_COMMUNITY"@.len());
            assert("AWARDING_POT"@.len() != "DRAW"@.len());
            assert("AWARDING_POT"@.len() != "SHOWDOWN"@.len());
        },
        Phase::Complete => {
            assert("COMPLETE"@.len() != "AWAITING_DEAL"@.len());
            assert("COMPLETE"@.len() != "WAITING_FOR_START"@.len());
            assert("COMPLETE"@.len() != "DEALING"@.len());
            assert("COMPLETE"@.len() != "POSTING_BLINDS"@.len());
            assert("COMPLETE"@.len() != "BETTING"@.len());
            assert("COMPLETE"@.len() != "DEALING_COMMUNITY"@.len());
            assert("COMPLETE"@.len() != "DRAW"@.len());
            assert("COMPLETE"@[0] != "SHOWDOWN"@[0]);
            assert("COMPLETE"@.len() != "AWARDING_POT"@.len());
        },
    }
}

/// Naming a betting round and reading the name back gives it again.
pub proof fn law_betting_phase_name_round_trip(p: BettingPhase)
    ensures
        parse_betting_phase_spec(betting_phase_name(p)) == Some(p),
{
    reveal_strlit("PREFLOP");
    reveal_strlit("FLOP");
    reveal_strlit("TURN");
    reveal_strlit("RIVER");
    reveal_strlit("DRAW");
    match p {
        BettingPhase::Preflop => {

        },
        BettingPhase::Flop => {
            assert("FLOP"@.len() != "PREFLOP"@.len());
        },
        BettingPhase::Turn => {
            assert("TURN"@.len() != "PREFLOP"@.len());
            assert("TURN"@[0] != "FLOP"@[0]);
        },
        BettingPhase::River => {
            assert("RIVER"@.len() != "PREFLOP"@.len());
            assert("RIVER"@.len() != "FLOP"@.len());
            assert("RIVER"@.len() != "TURN"@.len());
        },
        BettingPhase::Draw => {
            assert("DRAW"@.len() != "PREFLOP"@.len());
            assert("DRAW"@[0] != "FLOP"@[0]);
            assert("DRAW"@[0] != "TURN"@[0]);
            assert("DRAW"@.len() != "RIVER"@.len());
        },
    }
}

} // verus!

verus! {

/// A player action.
#[derive(Debug, Clone, Copy, PartialEq, Eq)]
pub enum Action {
    Fold,
    Check,
    Call,
    Bet,
    Raise,
    AllIn,
}

pub open spec fn parse_action_spec(s: Seq<char>) -> Option<Action> {
    let u = crate::text::ascii_upper(s);
    if u == "FOLD"@ {
        Some(Action::Fold)
    } else if u == "CHECK"@ {
        Some(Action::Check)
    } else if u == "CALL"@ {
        Some(Action::Call)
    } else if u == "BET"@ {
        Some(Action::Bet)
    } else if u == "RAISE"@ {
        Some(Action::Raise)
    } else if u == "ALL_IN"@ || u == "ALLIN"@ {
        Some(Action::AllIn)
    } else {
        None
    }
}

impl Action {
    /// The action named (in any ASCII case) by `s`; `ALL_IN` and `ALLIN`
    /// both name all-in.
    pub fn parse(s: &str) -> (r: Option<Action>)
        ensures
            r == parse_action_spec(s@),
    {
        let u = crate::text::to_ascii_uppercase(s);
        let u = u.as_str();
        if str_eq(u, "FOLD") {
            Some(Action::Fold)
        } else if str_eq(u, "CHECK") {
            Some(Action::Check)
        } else if str_eq(u, "CALL") {
            Some(Action::Call)
        } else if str_eq(u, "BET") {
            Some(Action::Bet)
        } else if str_eq(u, "RAISE") {
            Some(Action::Raise)
        } else if str_eq(u, "ALL_IN") || str_eq(u, "ALLIN") {
            Some(Action::AllIn)
        } else {
            None
        }
    }
}

/// Which blind a command posts.
#[derive(Debug, Clone, Copy, PartialEq, Eq)]
pub enum BlindKind {
    Small,
    Big,
}

/// A command emitted by a state-machine transition.
#[derive(Debug, Clone, Copy, PartialEq, Eq)]
pub enum Command {
    PostBlind { kind: BlindKind },
    DealCommunityCards { count: i32 },
    AwardPot,
    PlayerAction { action: Action },
    TimeoutCancel,
}

/// One seat's chips and round flags.
#[derive(Debug, Clone, PartialEq, Eq)]
pub struct PlayerState {
    pub position: i32,
    pub player_root: String,
    pub stack: i64,
    pub bet_this_round: i64,
    pub has_acted: bool,
    pub has_folded: bool,
    pub is_all_in: bool,
}

impl PlayerState {
    /// A seat that has not bet or acted this round.
    pub fn new(position: i32, player_root: String, stack: i64) -> (p: PlayerState)
        ensures
            p == (PlayerState {
                position,
                player_root,
                stack,
                bet_this_round: 0,
                has_acted: false,
                has_folded: false,
                is_all_in: false,
            }),
    {
        PlayerState {
            position,
            player_root,
            stack,
            bet_this_round: 0,
            has_acted: false,
            has_folded: false,
            is_all_in: false,
        }
    }

    /// A copy of the seat.
    pub fn duplicate(&self) -> (p: PlayerState)
        ensures
            p == *self,
    {
        PlayerState {
            position: self.position,
            player_root: self.player_root.clone(),
            stack: self.stack,
            bet_this_round: self.bet_this_round,
            has_acted: self.has_acted,
            has_folded: self.has_folded,
            is_all_in: self.is_all_in,
        }
    }
}

/// Still able to act: neither folded nor all-in.
pub open spec fn can_act(p: PlayerState) -> bool {
    !p.has_folded && !p.is_all_in
}

/// Seats ordered by strictly increasing position.
pub open spec fn sorted_seats<V>(s: Seq<(i32, V)>) -> bool {
    forall|i: int, j: int| 0 <= i < j < s.len() ==> s[i].0 < s[j].0
}

/// Values keyed by seat position, kept in position order.
#[derive(Debug)]
pub struct SeatMap<V> {
    seats: Vec<(i32, V)>,
}

/// The seats of a hand, by position.
pub type Seats = SeatMap<PlayerState>;

impl<V> View for SeatMap<V> {
    type V = Map<i32, V>;

    closed spec fn view(&self) -> Map<i32, V> {
        seat_map(self.seats@)
    }
}

impl SeatMap<PlayerState> {

    /// The seats in position order.
    pub closed spec fn in_order(self) -> Seq<PlayerState> {
        self.seats@.map_values(|e: (i32, PlayerState)| e.1)
    }

    /// The chips behind all seats together.
    pub closed spec fn total_stack(self) -> int {
        stacks_total(self.in_order())
    }

}

impl<V> SeatMap<V> {
    #[verifier::type_invariant]
    closed spec fn ordered(self) -> bool {
        sorted_seats(self.seats@)
    }

    /// The entries in position order.
    pub closed spec fn entries(self) -> Seq<(i32, V)> {
        self.seats@
    }

    /// Removes the entry at `pos`, when there is one.
    pub fn remove(&mut self, pos: i32)
        ensures
            final(self)@ == old(self)@.remove(pos),
    {
        proof {
            use_type_invariant(&*self);
        }
        let ghost old_s = self.seats@;
        let ghost old_view = self@;
        match self.find(pos) {
            Some(i) => {
                let mut es: Vec<(i32, V)> = Vec::new();
                std::mem::swap(&mut es, &mut self.seats);
                es.remove(i);
                proof {
                    assert forall|j: int| 0 <= j < es@.len() implies #[trigger] es@[j] == old_s[if j < i { j } else { j + 1 }] by {}
                    assert forall|a: int, b: int| 0 <= a < b < es@.len() implies es@[a].0 < es@[b].0 by {
                        let oa = if a < i { a } else { a + 1 };
                        let ob = if b < i { b } else { b + 1 };
                        assert(es@[a] == old_s[oa]);
                        assert(es@[b] == old_s[ob]);
                        assert(old_s[oa].0 < old_s[ob].0);
                    }
                }
                self.seats = es;
                proof {
                    let target = old_view.remove(pos);
                    assert forall|q: i32| #[trigger] self@.contains_key(q) <==> target.contains_key(q) by {
                        if target.contains_key(q) {
                            let c = choose|j: int| 0 <= j < old_s.len() && old_s[j].0 == q;
                            assert(c != i);
                            if c < i {
                                assert(self.seats@[c].0 == q);
                            } else {
                                assert(self.seats@[c - 1].0 == q);
                            }
                        }
                        if self@.contains_key(q) {
                            let c = choose|j: int| 0 <= j < self.seats@.len() && self.seats@[j].0 == q;
                            let oc = if c < i { c } else { c + 1 };
                            assert(old_s[oc].0 == q);
                            assert(oc != i);
                        }
                    }
                    assert forall|q: i32| #[trigger] self@.contains_key(q) implies self@[q] == target[q] by {
                        let c = choose|j: int| 0 <= j < self.seats@.len() && self.seats@[j].0 == q;
                        lemma_seq_view_at(self.seats@, c);
                        let oc = if c < i { c } else { c + 1 };
                        lemma_seq_view_at(old_s, oc);
                    }
                    assert(self@ =~= target);
                }
            },
            None => {
                assert(self@ =~= old_view.remove(pos));
            },
        }
    }

    /// Replaces the value of the `i`-th entry in position order.
    pub fn set_at_index(&mut self, i: usize, v: V)
        requires
            i < old(self).entries().len(),
        ensures
            final(self).entries() == old(self).entries().update(i as int, (old(self).entries()[i as int].0, v)),
            final(self)@ == old(self)@.insert(old(self).entries()[i as int].0, v),
    {
        proof {
            use_type_invariant(&*self);
        }
        let ghost old_s = self.seats@;
        let ghost old_view = self@;
        let k = self.seats[i].0;
        let mut es: Vec<(i32, V)> = Vec::new();
        std::mem::swap(&mut es, &mut self.seats);
        es.set(i, (k, v));
        proof {
            assert forall|a: int, b: int| 0 <= a < b < es@.len() implies es@[a].0 < es@[b].0 by {
                assert(old_s[a].0 < old_s[b].0);
            }
        }
        self.seats = es;
        proof {
            let target = old_view.insert(k, self.seats@[i as int].1);
            assert forall|q: i32| #[trigger] self@.contains_key(q) <==> target.contains_key(q) by {
                if old_view.contains_key(q) {
                    let c2 = choose|j: int| 0 <= j < old_s.len() && old_s[j].0 == q;
                    assert(self.seats@[c2].0 == q);
                }
                if q == k {
                    assert(self.seats@[i as int].0 == q);
                }
                if self@.contains_key(q) {
                    let c2 = choose|j: int| 0 <= j < self.seats@.len() && self.seats@[j].0 == q;
                    assert(old_s[c2].0 == q);
                }
            }
            assert forall|q: i32| #[trigger] self@.contains_key(q) implies self@[q] == target[q] by {
                let c2 = choose|j: int| 0 <= j < self.seats@.len() && self.seats@[j].0 == q;
                lemma_seq_view_at(self.seats@, c2);
                if c2 != i {
                    lemma_seq_view_at(old_s, c2);
                }
            }
            assert(self@ =~= target);
        }
    }

    /// The `i`-th entry in position order.
    pub fn entry(&self, i: usize) -> (r: (i32, &V))
        requires
            i < self.entries().len(),
        ensures
            r.0 == self.entries()[i as int].0,
            *r.1 == self.entries()[i as int].1,
    {
        (self.seats[i].0, &self.seats[i].1)
    }

    proof fn lemma_view_at(self, i: int)
        requires
            sorted_seats(self.seats@),
            0 <= i < self.seats@.len(),
        ensures
            self@.contains_key(self.seats@[i].0),
            self@[self.seats@[i].0] == self.seats@[i].1,
    {
        let k = self.seats@[i].0;
        assert(self@.contains_key(k));
        let c = choose|j: int| 0 <= j < self.seats@.len() && self.seats@[j].0 == k;
        if c < i {
            assert(self.seats@[c].0 < self.seats@[i].0);
        } else if c > i {
            assert(self.seats@[i].0 < self.seats@[c].0);
        }
    }

    proof fn lemma_dom(self)
        requires
            sorted_seats(self.seats@),
        ensures
            self@.dom().finite(),
            self@.dom().len() == self.seats@.len(),
            forall|k: i32| #[trigger] self@.contains_key(k) <==> exists|i: int| 0 <= i < self.seats@.len() && self.seats@[i].0 == k,
    {
        let ks = self.seats@.map_values(|e: (i32, V)| e.0);
        assert forall|i: int, j: int| 0 <= i < ks.len() && 0 <= j < ks.len() && i != j implies ks[i] != ks[j] by {
            if i < j {
                assert(self.seats@[i].0 < self.seats@[j].0);
            } else {
                assert(self.seats@[j].0 < self.seats@[i].0);
            }
        }
        assert(ks.no_duplicates());
        ks.unique_seq_to_set();
        assert forall|k: i32| self@.dom().contains(k) <==> ks.to_set().contains(k) by {
            if self@.dom().contains(k) {
                let p = choose|i: int| 0 <= i < self.seats@.len() && self.seats@[i].0 == k;
                assert(ks[p] == k);
            }
            if ks.to_set().contains(k) {
                let p = choose|p: int| 0 <= p < ks.len() && ks[p] == k;
                assert(self.seats@[p].0 == k);
            }
        }
        assert(self@.dom() =~= ks.to_set());
    }

    /// No seats.
    pub fn new() -> (s: SeatMap<V>)
        ensures
            s@ == Map::<i32, V>::empty(),
            s.entries() == Seq::<(i32, V)>::empty(),
    {
        let s = SeatMap { seats: Vec::new() };
        assert(s@ =~= Map::<i32, V>::empty());
        s
    }

    /// Number of seated players.
    pub fn len(&self) -> (n: usize)
        ensures
            n == self@.dom().len(),
            self@.dom().finite(),
            n == self.entries().len(),
            sorted_seats(self.entries()),
            self@ == seat_map(self.entries()),
    {
        proof {
            use_type_invariant(self);
            self.lemma_dom();
        }
        self.seats.len()
    }

    /// Whether nobody is seated.
    pub fn is_empty(&self) -> (b: bool)
        ensures
            b == (self@.dom().len() == 0),
    {
        self.len() == 0
    }

    /// Index of the seat at `pos`, if any.
    fn find(&self, pos: i32) -> (r: Option<usize>)
        ensures
            match r {
                Some(i) => i < self.seats@.len() && self.seats@[i as int].0 == pos,
                None => !self@.contains_key(pos),
            },
    {
        let mut i: usize = 0;
        while i < self.seats.len()
            invariant
                i <= self.seats@.len(),
                forall|j: int| 0 <= j < i ==> self.seats@[j].0 != pos,
            decreases self.seats@.len() - i,
        {
            if self.seats[i].0 == pos {
                return Some(i);
            }
            i = i + 1;
        }
        None
    }

    /// The seat at `pos`, if any.
    pub fn get(&self, pos: i32) -> (r: Option<&V>)
        ensures
            match r {
                Some(p) => self@.contains_key(pos) && *p == self@[pos],
                None => !self@.contains_key(pos),
            },
    {
        proof {
            use_type_invariant(self);
        }
        match self.find(pos) {
            Some(i) => {
                proof {
                    self.lemma_view_at(i as int);
                }
                Some(&self.seats[i].1)
            },
            None => None,
        }
    }

    /// Seats `p` at `pos`, replacing whoever sat there.
    pub fn insert(&mut self, pos: i32, p: V)
        ensures
            final(self)@ == old(self)@.insert(pos, p),
            old(self)@.contains_key(pos) ==> exists|i: int|
                0 <= i < old(self).entries().len() && old(self).entries()[i].0 == pos && final(self).entries()
                    == old(self).entries().update(i, (pos, p)),
            !old(self)@.contains_key(pos) ==> exists|i: int|
                0 <= i <= old(self).entries().len() && final(self).entries() == old(self).entries().insert(
                    i,
                    (pos, p),
                ),
    {
        proof {
            use_type_invariant(&*self);
        }
        let ghost old_s = self.seats@;
        let ghost old_view = self@;
        let mut i: usize = 0;
        while i < self.seats.len() && self.seats[i].0 < pos
            invariant
                i <= self.seats@.len(),
                self.seats@ == old_s,
                sorted_seats(old_s),
                forall|j: int| 0 <= j < i ==> old_s[j].0 < pos,
            decreases self.seats@.len() - i,
        {
            i = i + 1;
        }
        let ghost pv = p;
        let mut es: Vec<(i32, V)> = Vec::new();
        std::mem::swap(&mut es, &mut self.seats);
        if i < es.len() && es[i].0 == pos {
            es.set(i, (pos, p));
            proof {
                assert forall|a: int, b: int| 0 <= a < b < es@.len() implies es@[a].0 < es@[b].0 by {
                    assert(old_s[a].0 < old_s[b].0);
                }
            }
            self.seats = es;
            proof {
                assert forall|k: i32| #[trigger] self@.contains_key(k) <==> old_view.insert(pos, pv).contains_key(k) by {
                    if old_view.contains_key(k) {
                        let c = choose|j: int| 0 <= j < old_s.len() && old_s[j].0 == k;
                        assert(self.seats@[c].0 == k);
                    }
                    if k == pos {
                        assert(self.seats@[i as int].0 == k);
                    }
                    if self@.contains_key(k) {
                        let c = choose|j: int| 0 <= j < self.seats@.len() && self.seats@[j].0 == k;
                        if c != i {
                            assert(old_s[c].0 == k);
                        }
                    }
                }
                assert forall|k: i32| #[trigger] self@.contains_key(k) implies self@[k] == old_view.insert(pos, pv)[k] by {
                    let c = choose|j: int| 0 <= j < self.seats@.len() && self.seats@[j].0 == k;
                    self.lemma_view_at(c);
                    if c != i {
                        assert(old_s[c] == self.seats@[c]);
                        lemma_seq_view_at(old_s, c);
                    }
                }
                assert(self@ =~= old_view.insert(pos, pv));
                assert(self.seats@ =~= old_s.update(i as int, (pos, pv)));
                assert(old_s[i as int].0 == pos);
                lemma_seq_view_at(old_s, i as int);
                assert(old_view.contains_key(pos));
                assert(old(self).entries() == old_s);
                assert(0 <= i < old(self).entries().len() && old(self).entries()[i as int].0 == pos && self.entries()
                    == old(self).entries().update(i as int, (pos, pv)));
            }
        } else {
            es.insert(i, (pos, p));
            proof {
                assert forall|a: int, b: int| 0 <= a < b < es@.len() implies es@[a].0 < es@[b].0 by {
                    if b < i {
                        assert(old_s[a].0 < old_s[b].0);
                    } else if b == i {
                        assert(old_s[a].0 < pos);
                    } else if a < i {
                        assert(old_s[a].0 < pos);
                        assert(pos <= old_s[i as int].0);
                        assert(old_s[i as int].0 <= old_s[b - 1].0);
                    } else if a == i {
                        assert(pos < old_s[i as int].0);
                        assert(old_s[i as int].0 <= old_s[b - 1].0);
                    } else {
                        assert(old_s[a - 1].0 < old_s[b - 1].0);
                    }
                }
            }
            self.seats = es;
            proof {
                assert forall|j: int| 0 <= j < self.seats@.len() implies #[trigger] self.seats@[j] == (if j < i { old_s[j] } else if j == i { (pos, pv) } else { old_s[j - 1] }) by {}
                assert forall|k: i32| #[trigger] self@.contains_key(k) <==> old_view.insert(pos, pv).contains_key(k) by {
                    if old_view.contains_key(k) {
                        let c = choose|j: int| 0 <= j < old_s.len() && old_s[j].0 == k;
                        if c < i {
                            assert(self.seats@[c].0 == k);
                        } else {
                            assert(self.seats@[c + 1].0 == k);
                        }
                    }
                    if k == pos {
                        assert(self.seats@[i as int].0 == k);
                    }
                    if self@.contains_key(k) {
                        let c = choose|j: int| 0 <= j < self.seats@.len() && self.seats@[j].0 == k;
                        if c < i {
                            assert(old_s[c].0 == k);
                        } else if c > i {
                            assert(old_s[c - 1].0 == k);
                        }
                    }
                }
                assert forall|k: i32| #[trigger] self@.contains_key(k) implies self@[k] == old_view.insert(pos, pv)[k] by {
                    let c = choose|j: int| 0 <= j < self.seats@.len() && self.seats@[j].0 == k;
                    self.lemma_view_at(c);
                    if c < i {
                        lemma_seq_view_at(old_s, c);
                    } else if c > i {
                        lemma_seq_view_at(old_s, c - 1);
                    }
                }
                assert(self@ =~= old_view.insert(pos, pv));
                assert(self.seats@ =~= old_s.insert(i as int, (pos, pv)));
                assert(old(self).entries() == old_s);
                assert(0 <= i <= old(self).entries().len() && self.entries() == old(self).entries().insert(i as int, (pos, pv)));
                assert(!old_view.contains_key(pos)) by {
                    if old_view.contains_key(pos) {
                        let c = choose|j: int| 0 <= j < old_s.len() && old_s[j].0 == pos;
                        if c < i {
                        } else {
                            assert(old_s[i as int].0 <= old_s[c].0);
                        }
                    }
                }
            }
        }
    }
}

/// The map a sorted seat sequence stands for.
pub open spec fn seat_map<V>(s: Seq<(i32, V)>) -> Map<i32, V> {
    Map::new(
        |k: i32| exists|i: int| 0 <= i < s.len() && s[i].0 == k,
        |k: i32| s[choose|i: int| 0 <= i < s.len() && s[i].0 == k].1,
    )
}

pub proof fn lemma_seq_view_at<V>(s: Seq<(i32, V)>, i: int)
    requires
        sorted_seats(s),
        0 <= i < s.len(),
    ensures
        seat_map(s).contains_key(s[i].0),
        seat_map(s)[s[i].0] == s[i].1,
{
    let k = s[i].0;
    assert(seat_map(s).contains_key(k));
    let c = choose|j: int| 0 <= j < s.len() && s[j].0 == k;
    if c < i {
        assert(s[c].0 < s[i].0);
    } else if c > i {
        assert(s[i].0 < s[c].0);
    }
}

} // verus!

verus! {

/// A change applied to one seat.
#[derive(Debug, Clone, Copy, PartialEq, Eq)]
pub enum SeatChange {
    /// The seat acted with this action.
    Acted(Action),
    /// The seat put these chips in this round.
    Bet(i64),
    /// The seat's `has_acted` flag is set to this value.
    SetActed(bool),
    /// A raise by the seat at this position reopens action for the others.
    ReopenUnless(i32),
    /// A new betting round starts.
    NewRound,
}

/// The seat after a change.
pub open spec fn changed(c: SeatChange, k: i32, p: PlayerState) -> PlayerState {
    match c {
        SeatChange::Acted(a) => PlayerState {
            has_acted: true,
            has_folded: p.has_folded || a == Action::Fold,
            is_all_in: p.is_all_in || a == Action::AllIn,
            ..p
        },
        SeatChange::Bet(amount) => PlayerState {
            stack: (p.stack - amount) as i64,
            bet_this_round: (p.bet_this_round + amount) as i64,
            ..p
        },
        SeatChange::SetActed(v) => PlayerState { has_acted: v, ..p },
        SeatChange::ReopenUnless(pos) => if k != pos {
            PlayerState { has_acted: false, ..p }
        } else {
            p
        },
        SeatChange::NewRound => PlayerState { bet_this_round: 0, has_acted: false, ..p },
    }
}

/// The change stays within `i64` on this seat.
pub open spec fn change_in_range(c: SeatChange, p: PlayerState) -> bool {
    match c {
        SeatChange::Bet(amount) => i64::MIN <= p.stack - amount <= i64::MAX && i64::MIN
            <= p.bet_this_round + amount <= i64::MAX,
        _ => true,
    }
}

fn change_seat(c: SeatChange, k: i32, p: &PlayerState) -> (q: PlayerState)
    requires
        change_in_range(c, *p),
    ensures
        q == changed(c, k, *p),
{
    let mut q = p.duplicate();
    match c {
        SeatChange::Acted(a) => {
            q.has_acted = true;
            if matches!(a, Action::Fold) {
                q.has_folded = true;
            }
            if matches!(a, Action::AllIn) {
                q.is_all_in = true;
            }
        },
        SeatChange::Bet(amount) => {
            q.stack = p.stack - amount;
            q.bet_this_round = p.bet_this_round + amount;
        },
        SeatChange::SetActed(v) => {
            q.has_acted = v;
        },
        SeatChange::ReopenUnless(pos) => {
            if k != pos {
                q.has_acted = false;
            }
        },
        SeatChange::NewRound => {
            q.bet_this_round = 0;
            q.has_acted = false;
        },
    }
    q
}

impl SeatMap<PlayerState> {
    /// Applies `c` to the seat at `pos`, when there is one.
    pub fn change_at(&mut self, pos: i32, c: SeatChange)
        requires
            old(self)@.contains_key(pos) ==> change_in_range(c, old(self)@[pos]),
        ensures
            final(self)@ == (if old(self)@.contains_key(pos) {
                old(self)@.insert(pos, changed(c, pos, old(self)@[pos]))
            } else {
                old(self)@
            }),
            final(self).total_stack() == (if old(self)@.contains_key(pos) {
                old(self).total_stack() - old(self)@[pos].stack + changed(c, pos, old(self)@[pos]).stack
            } else {
                old(self).total_stack()
            }),
    {
        proof {
            use_type_invariant(&*self);
        }
        match self.find(pos) {
            Some(i) => {
                let ghost old_s = self.seats@;
                proof {
                    self.lemma_view_at(i as int);
                }
                let q = change_seat(c, pos, &self.seats[i].1);
                let ghost qv = q;
                let mut es: Vec<(i32, PlayerState)> = Vec::new();
                std::mem::swap(&mut es, &mut self.seats);
                es.set(i, (pos, q));
                proof {
                    assert forall|a: int, b: int| 0 <= a < b < es@.len() implies es@[a].0 < es@[b].0 by {
                        assert(old_s[a].0 < old_s[b].0);
                    }
                }
                self.seats = es;
                proof {
                    let target = seat_map(old_s).insert(pos, qv);
                    assert forall|k: i32| #[trigger] self@.contains_key(k) <==> target.contains_key(k) by {
                        if seat_map(old_s).contains_key(k) {
                            let c2 = choose|j: int| 0 <= j < old_s.len() && old_s[j].0 == k;
                            assert(self.seats@[c2].0 == k);
                        }
                        if self@.contains_key(k) {
                            let c2 = choose|j: int| 0 <= j < self.seats@.len() && self.seats@[j].0 == k;
                            assert(old_s[c2].0 == k);
                        }
                    }
                    assert forall|k: i32| #[trigger] self@.contains_key(k) implies self@[k] == target[k] by {
                        let c2 = choose|j: int| 0 <= j < self.seats@.len() && self.seats@[j].0 == k;
                        lemma_seq_view_at(self.seats@, c2);
                        if c2 != i {
                            lemma_seq_view_at(old_s, c2);
                        }
                    }
                    assert(self@ =~= target);
                    let f = |e: (i32, PlayerState)| e.1;
                    assert(self.seats@.map_values(f) =~= old_s.map_values(f).update(i as int, qv));
                    lemma_stacks_total_update(old_s.map_values(f), i as int, qv);
                }
            },
            None => {},
        }
    }

    /// Applies `c` to every seat.
    pub fn change_all(&mut self, c: SeatChange)
        requires
            forall|k: i32| #[trigger] old(self)@.contains_key(k) ==> change_in_range(c, old(self)@[k]),
        ensures
            final(self)@.dom() == old(self)@.dom(),
            forall|k: i32| #[trigger] final(self)@.contains_key(k) ==> final(self)@[k] == changed(c, k, old(self)@[k]),
            !(c is Bet) ==> final(self).total_stack() == old(self).total_stack(),
    {
        proof {
            use_type_invariant(&*self);
        }
        let ghost old_s = self.seats@;
        assert(seat_map(old_s) == old(self)@);
        let mut es: Vec<(i32, PlayerState)> = Vec::new();
        std::mem::swap(&mut es, &mut self.seats);
        let mut i: usize = 0;
        while i < es.len()
            invariant
                es@.len() == old_s.len(),
                sorted_seats(old_s),
                i <= es@.len(),
                forall|j: int| 0 <= j < i ==> #[trigger] es@[j] == (old_s[j].0, changed(c, old_s[j].0, old_s[j].1)),
                forall|j: int| i <= j < es@.len() ==> #[trigger] es@[j] == old_s[j],
                forall|k: i32| #[trigger] seat_map(old_s).contains_key(k) ==> change_in_range(c, seat_map(old_s)[k]),
            decreases es@.len() - i,
        {
            proof {
                lemma_seq_view_at(old_s, i as int);
            }
            let k = es[i].0;
            let q = change_seat(c, k, &es[i].1);
            es.set(i, (k, q));
            i = i + 1;
        }
        proof {
            assert forall|j: int| 0 <= j < es@.len() implies #[trigger] es@[j].0 == old_s[j].0 by {}
            assert forall|a: int, b: int| 0 <= a < b < es@.len() implies es@[a].0 < es@[b].0 by {
                assert(es@[a].0 == old_s[a].0);
                assert(es@[b].0 == old_s[b].0);
            }
        }
        self.seats = es;
        proof {
            assert forall|k: i32| #[trigger] self@.contains_key(k) <==> seat_map(old_s).contains_key(k) by {
                if seat_map(old_s).contains_key(k) {
                    let c2 = choose|j: int| 0 <= j < old_s.len() && old_s[j].0 == k;
                    assert(self.seats@[c2].0 == k);
                }
                if self@.contains_key(k) {
                    let c2 = choose|j: int| 0 <= j < self.seats@.len() && self.seats@[j].0 == k;
                    assert(old_s[c2].0 == k);
                }
            }
            assert(self@.dom() =~= seat_map(old_s).dom());
            assert forall|k: i32| #[trigger] self@.contains_key(k) implies self@[k] == changed(c, k, seat_map(old_s)[k]) by {
                let c2 = choose|j: int| 0 <= j < self.seats@.len() && self.seats@[j].0 == k;
                lemma_seq_view_at(self.seats@, c2);
                lemma_seq_view_at(old_s, c2);
            }
            if !(c is Bet) {
                let f = |e: (i32, PlayerState)| e.1;
                lemma_stacks_total_same(old_s.map_values(f), self.seats@.map_values(f));
            }
        }
    }

    /// Removes everyone.
    pub fn clear(&mut self)
        ensures
            final(self)@ == Map::<i32, PlayerState>::empty(),
            final(self).total_stack() == 0,
    {
        *self = SeatMap::new();
        assert(self.in_order() =~= Seq::<PlayerState>::empty());
    }

    /// Sets the `has_acted` flag of the seat at `pos`, when there is one.
    pub fn set_has_acted(&mut self, pos: i32, v: bool)
        ensures
            final(self)@ == (if old(self)@.contains_key(pos) {
                old(self)@.insert(pos, PlayerState { has_acted: v, ..old(self)@[pos] })
            } else {
                old(self)@
            }),
    {
        self.change_at(pos, SeatChange::SetActed(v));
    }
}

} // verus!

verus! {

/// A seated player who can still act.
pub open spec fn active_at(m: Map<i32, PlayerState>, k: i32) -> bool {
    m.contains_key(k) && can_act(m[k])
}

/// At most one seat can still act.
pub open spec fn at_most_one_can_act(m: Map<i32, PlayerState>) -> bool {
    forall|a: i32, b: i32| active_at(m, a) && active_at(m, b) ==> a == b
}

/// At most one seat has not folded.
pub open spec fn at_most_one_unfolded(m: Map<i32, PlayerState>) -> bool {
    forall|a: i32, b: i32|
        m.contains_key(a) && m.contains_key(b) && !m[a].has_folded && !m[b].has_folded ==> a == b
}

/// Every seat that can act has acted this round.
pub open spec fn all_active_acted(m: Map<i32, PlayerState>) -> bool {
    forall|k: i32| active_at(m, k) ==> #[trigger] m[k].has_acted
}

/// The round is over: at most one seat can act, or every seat that can has
/// acted and matched the current bet.
pub open spec fn betting_complete(m: Map<i32, PlayerState>, current_bet: i64) -> bool {
    at_most_one_can_act(m) || forall|k: i32| active_at(m, k) ==> #[trigger] m[k].has_acted
        && m[k].bet_this_round >= current_bet
}

/// The lowest seat that can act strictly after `cur`, wrapping to the
/// lowest seat that can act at all; `None` when nobody can act.
pub open spec fn next_action_on(m: Map<i32, PlayerState>, cur: i32) -> Option<i32> {
    if exists|k: i32| active_at(m, k) && k > cur {
        Some(choose|k: i32| active_at(m, k) && k > cur && forall|j: i32| active_at(m, j) && j > cur ==> k <= j)
    } else if exists|k: i32| active_at(m, k) {
        Some(choose|k: i32| active_at(m, k) && forall|j: i32| active_at(m, j) ==> k <= j)
    } else {
        None
    }
}

/// Sum of the stacks of a sequence of seats.
pub open spec fn stacks_total(s: Seq<PlayerState>) -> int
    decreases s.len(),
{
    if s.len() == 0 {
        0
    } else {
        stacks_total(s.drop_last()) + s.last().stack
    }
}

pub proof fn lemma_stacks_total_update(s: Seq<PlayerState>, i: int, p: PlayerState)
    requires
        0 <= i < s.len(),
    ensures
        stacks_total(s.update(i, p)) == stacks_total(s) - s[i].stack + p.stack,
    decreases s.len(),
{
    if i == s.len() - 1 {
        assert(s.update(i, p).drop_last() =~= s.drop_last());
    } else {
        lemma_stacks_total_update(s.drop_last(), i, p);
        assert(s.update(i, p).drop_last() =~= s.drop_last().update(i, p));
    }
}

proof fn lemma_stacks_total_insert(s: Seq<PlayerState>, i: int, p: PlayerState)
    requires
        0 <= i <= s.len(),
    ensures
        stacks_total(s.insert(i, p)) == stacks_total(s) + p.stack,
    decreases s.len(),
{
    if i == s.len() {
        assert(s.insert(i, p).drop_last() =~= s);
    } else {
        lemma_stacks_total_insert(s.drop_last(), i, p);
        assert(s.insert(i, p).drop_last() =~= s.drop_last().insert(i, p));
    }
}

proof fn lemma_stacks_total_same(s: Seq<PlayerState>, t: Seq<PlayerState>)
    requires
        s.len() == t.len(),
        forall|i: int| 0 <= i < s.len() ==> #[trigger] s[i].stack == t[i].stack,
    ensures
        stacks_total(s) == stacks_total(t),
    decreases s.len(),
{
    if s.len() > 0 {
        lemma_stacks_total_same(s.drop_last(), t.drop_last());
    }
}

impl SeatMap<PlayerState> {
    /// The lowest seat that can act strictly after `cur`, wrapping round.
    pub fn next_active_after(&self, cur: i32) -> (r: Option<i32>)
        ensures
            r == next_action_on(self@, cur),
            r matches Some(k) ==> active_at(self@, k),
            r is None ==> forall|k: i32| !active_at(self@, k),
    {
        proof {
            use_type_invariant(self);
        }
        let n = self.seats.len();
        let mut i: usize = 0;
        while i < n
            invariant
                n == self.seats@.len(),
                sorted_seats(self.seats@),
                i <= n,
                forall|j: int| 0 <= j < i ==> !(self.seats@[j].0 > cur && can_act(#[trigger] self.seats@[j].1)),
            decreases n - i,
        {
            let k = self.seats[i].0;
            let p = &self.seats[i].1;
            if k > cur && !p.has_folded && !p.is_all_in {
                proof {
                    lemma_seq_view_at(self.seats@, i as int);
                    assert forall|j: i32| active_at(self@, j) && j > cur implies k <= j by {
                        let c = choose|c: int| 0 <= c < self.seats@.len() && self.seats@[c].0 == j;
                        lemma_seq_view_at(self.seats@, c);
                        if c < i {
                        } else if c > i {
                            assert(self.seats@[i as int].0 < self.seats@[c].0);
                        }
                    }
                    assert(active_at(self@, k) && k > cur);
                    let w = choose|w: i32| active_at(self@, w) && w > cur && forall|j: i32| active_at(self@, j) && j > cur ==> w <= j;
                    assert(w <= k && k <= w);
                }
                return Some(k);
            }
            i = i + 1;
        }
        proof {
            assert forall|j: i32| !(active_at(self@, j) && j > cur) by {
                if active_at(self@, j) && j > cur {
                    let c = choose|c: int| 0 <= c < self.seats@.len() && self.seats@[c].0 == j;
                    lemma_seq_view_at(self.seats@, c);
                }
            }
        }
        let mut i: usize = 0;
        while i < n
            invariant
                n == self.seats@.len(),
                sorted_seats(self.seats@),
                i <= n,
                forall|j: i32| !(active_at(self@, j) && j > cur),
                forall|j: int| 0 <= j < i ==> !can_act(#[trigger] self.seats@[j].1),
            decreases n - i,
        {
            let k = self.seats[i].0;
            let p = &self.seats[i].1;
            if !p.has_folded && !p.is_all_in {
                proof {
                    lemma_seq_view_at(self.seats@, i as int);
                    assert forall|j: i32| active_at(self@, j) implies k <= j by {
                        let c = choose|c: int| 0 <= c < self.seats@.len() && self.seats@[c].0 == j;
                        lemma_seq_view_at(self.seats@, c);
                        if c > i {
                            assert(self.seats@[i as int].0 < self.seats@[c].0);
                        }
                    }
                    assert(active_at(self@, k));
                    let w = choose|w: i32| active_at(self@, w) && forall|j: i32| active_at(self@, j) ==> w <= j;
                    assert(w <= k && k <= w);
                }
                return Some(k);
            }
            i = i + 1;
        }
        proof {
            assert forall|j: i32| !active_at(self@, j) by {
                if active_at(self@, j) {
                    let c = choose|c: int| 0 <= c < self.seats@.len() && self.seats@[c].0 == j;
                    lemma_seq_view_at(self.seats@, c);
                }
            }
        }
        None
    }

    /// Whether the betting round is over for `current_bet`.
    #[verifier::spinoff_prover]
    pub fn round_complete(&self, current_bet: i64) -> (b: bool)
        ensures
            b == betting_complete(self@, current_bet),
    {
        proof {
            use_type_invariant(self);
        }
        let n = self.seats.len();
        // Count seats that can act (stopping at two).
        let mut first: Option<usize> = None;
        let mut two = false;
        let mut all_done = true;
        let mut i: usize = 0;
        while i < n
            invariant
                n == self.seats@.len(),
                sorted_seats(self.seats@),
                i <= n,
                match first {
                    Some(f) => f < i && can_act(self.seats@[f as int].1),
                    None => forall|j: int| 0 <= j < i ==> !can_act(#[trigger] self.seats@[j].1),
                },
                two ==> exists|a: int, b: int| 0 <= a < b < i && can_act(#[trigger] self.seats@[a].1) && can_act(#[trigger] self.seats@[b].1),
                !two ==> forall|a: int, b: int| 0 <= a < b < i && can_act(#[trigger] self.seats@[a].1) && can_act(#[trigger] self.seats@[b].1) ==> false,
                all_done == forall|j: int| 0 <= j < i && can_act(#[trigger] self.seats@[j].1) ==> self.seats@[j].1.has_acted
                    && self.seats@[j].1.bet_this_round >= current_bet,
            decreases n - i,
        {
            let p = &self.seats[i].1;
            if !p.has_folded && !p.is_all_in {
                match first {
                    Some(f) => {
                        proof {
                            assert(can_act(self.seats@[f as int].1) && can_act(self.seats@[i as int].1));
                        }
                        two = true;
                    },
                    None => {
                        first = Some(i);
                    },
                }
                if !(p.has_acted && p.bet_this_round >= current_bet) {
                    all_done = false;
                }
            }
            i = i + 1;
        }
        proof {
            if two {
                let (a, b) = choose|a: int, b: int| 0 <= a < b < n && can_act(#[trigger] self.seats@[a].1) && can_act(#[trigger] self.seats@[b].1);
                lemma_seq_view_at(self.seats@, a);
                lemma_seq_view_at(self.seats@, b);
                let pa = self.seats@[a].0;
                let pb = self.seats@[b].0;
                assert(pa < pb);
                assert(active_at(self@, pa) && active_at(self@, pb));
                assert(!at_most_one_can_act(self@));
            } else {
                assert forall|x: i32, y: i32| active_at(self@, x) && active_at(self@, y) implies x == y by {
                    let cx = choose|c: int| 0 <= c < self.seats@.len() && self.seats@[c].0 == x;
                    let cy = choose|c: int| 0 <= c < self.seats@.len() && self.seats@[c].0 == y;
                    lemma_seq_view_at(self.seats@, cx);
                    lemma_seq_view_at(self.seats@, cy);
                    if cx < cy {
                        assert(can_act(self.seats@[cx].1) && can_act(self.seats@[cy].1));
                    } else if cy < cx {
                        assert(can_act(self.seats@[cy].1) && can_act(self.seats@[cx].1));
                    }
                }
            }
            if all_done {
                assert forall|k: i32| active_at(self@, k) implies #[trigger] self@[k].has_acted && self@[k].bet_this_round >= current_bet by {
                    let c = choose|c: int| 0 <= c < self.seats@.len() && self.seats@[c].0 == k;
                    lemma_seq_view_at(self.seats@, c);
                }
            } else {
                let j = choose|j: int| 0 <= j < n && can_act(#[trigger] self.seats@[j].1) && !(self.seats@[j].1.has_acted
                    && self.seats@[j].1.bet_this_round >= current_bet);
                lemma_seq_view_at(self.seats@, j);
                assert(active_at(self@, self.seats@[j].0));
            }
        }
        two == false || all_done
    }
}

impl SeatMap<PlayerState> {
    /// Whether at most one seat has not folded.
    pub fn unfolded_at_most_one(&self) -> (b: bool)
        ensures
            b == at_most_one_unfolded(self@),
    {
        proof {
            use_type_invariant(self);
        }
        let n = self.seats.len();
        let mut first: Option<usize> = None;
        let mut two = false;
        let mut i: usize = 0;
        while i < n && !two
            invariant
                n == self.seats@.len(),
                sorted_seats(self.seats@),
                i <= n,
                match first {
                    Some(f) => f < i && !self.seats@[f as int].1.has_folded,
                    None => forall|j: int| 0 <= j < i ==> #[trigger] self.seats@[j].1.has_folded,
                },
                two ==> exists|a: int, b: int| 0 <= a < b < i && !#[trigger] self.seats@[a].1.has_folded && !#[trigger] self.seats@[b].1.has_folded,
                !two ==> forall|a: int, b: int| 0 <= a < b < i && !#[trigger] self.seats@[a].1.has_folded && !#[trigger] self.seats@[b].1.has_folded ==> false,
            decreases n - i,
        {
            if !self.seats[i].1.has_folded {
                match first {
                    Some(f) => {
                        proof {
                            assert(!self.seats@[f as int].1.has_folded && !self.seats@[i as int].1.has_folded);
                        }
                        two = true;
                    },
                    None => {
                        first = Some(i);
                    },
                }
            }
            i = i + 1;
        }
        proof {
            if two {
                let (a, b) = choose|a: int, b: int| 0 <= a < b < i && !#[trigger] self.seats@[a].1.has_folded && !#[trigger] self.seats@[b].1.has_folded;
                lemma_seq_view_at(self.seats@, a);
                lemma_seq_view_at(self.seats@, b);
                let pa = self.seats@[a].0;
                let pb = self.seats@[b].0;
                assert(pa < pb);
                assert(self@.contains_key(pa) && self@.contains_key(pb) && !self@[pa].has_folded && !self@[pb].has_folded);
            } else {
                assert forall|x: i32, y: i32| self@.contains_key(x) && self@.contains_key(y) && !self@[x].has_folded && !self@[y].has_folded implies x == y by {
                    let cx = choose|c: int| 0 <= c < self.seats@.len() && self.seats@[c].0 == x;
                    let cy = choose|c: int| 0 <= c < self.seats@.len() && self.seats@[c].0 == y;
                    lemma_seq_view_at(self.seats@, cx);
                    lemma_seq_view_at(self.seats@, cy);
                    if cx < cy {
                        assert(!self.seats@[cx].1.has_folded && !self.seats@[cy].1.has_folded);
                    } else if cy < cx {
                        assert(!self.seats@[cy].1.has_folded && !self.seats@[cx].1.has_folded);
                    }
                }
            }
        }
        !two
    }

    /// Whether every seat that can still act has acted this round.
    pub fn active_all_acted(&self) -> (b: bool)
        ensures
            b == all_active_acted(self@),
    {
        proof {
            use_type_invariant(self);
        }
        let n = self.seats.len();
        let mut i: usize = 0;
        while i < n
            invariant
                n == self.seats@.len(),
                sorted_seats(self.seats@),
                i <= n,
                forall|j: int| 0 <= j < i && can_act(#[trigger] self.seats@[j].1) ==> self.seats@[j].1.has_acted,
            decreases n - i,
        {
            let p = &self.seats[i].1;
            if !p.has_folded && !p.is_all_in && !p.has_acted {
                proof {
                    lemma_seq_view_at(self.seats@, i as int);
                    assert(active_at(self@, self.seats@[i as int].0));
                }
                return false;
            }
            i = i + 1;
        }
        proof {
            assert forall|k: i32| active_at(self@, k) implies #[trigger] self@[k].has_acted by {
                let c = choose|c: int| 0 <= c < self.seats@.len() && self.seats@[c].0 == k;
                lemma_seq_view_at(self.seats@, c);
            }
        }
        true
    }
}

} // verus!
