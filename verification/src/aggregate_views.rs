//! Table and tournament state rebuilt from their event books, for
//! validating a request before the process manager acts on it.
//!
//! The books come through a [`CrossAggregateQuery`]; when no query is
//! configured, or it has nothing for an aggregate, the default state stands
//! for "nothing known" and validation is skipped.

use vstd::prelude::*;
use std::sync::Arc;
use crate::envelope::{EventBook, EventPage, copy_bytes};
use crate::flow_messages::{
    PlayerSeated, RegistrationClosed, RegistrationOpened, TournamentCreated, TournamentPlayerEnrolled,
    TournamentStarted, TournamentStatus,
};
use crate::hand_machine::{lemma_seq_view_at, seat_map, sorted_seats, SeatMap};
use crate::hand_messages::{PlayerJoined, PlayerLeft, TableCreated};
use crate::hexfmt::{hex_encode, hex_lower};
use crate::keyed::StrMap;

verus! {

/// The events of a table or tournament book that the helpers read; every
/// other event is `Other`.
#[derive(Debug, Clone, PartialEq, Eq)]
pub enum AggregateEvent {
    TableCreated(TableCreated),
    PlayerJoined(PlayerJoined),
    PlayerSeated(PlayerSeated),
    PlayerLeft(PlayerLeft),
    TournamentCreated(TournamentCreated),
    RegistrationOpened(RegistrationOpened),
    RegistrationClosed(RegistrationClosed),
    TournamentStarted(TournamentStarted),
    TournamentPlayerEnrolled(TournamentPlayerEnrolled),
    Other,
}

/// Reads the event book of another aggregate, synchronously. `None` means
/// that nothing is known of it, and callers skip validation.
pub trait CrossAggregateQuery: Send + Sync {
    /// `b` is an answer this query may give when asked for the book of
    /// aggregate `root` in `domain`. An implementation that does not state
    /// its answers admits every one.
    closed spec fn answers(&self, domain: Seq<char>, root: Seq<u8>, b: Option<EventBook<AggregateEvent>>) -> bool {
        true
    }

    fn get_event_book(&self, domain: &str, root: &[u8]) -> (r: Option<EventBook<AggregateEvent>>)
        ensures
            self.answers(domain@, root@, r),
    ;
}

// ---------------------------------------------------------------------------
// Table
// ---------------------------------------------------------------------------

/// What a reservation needs to know of a table.
#[derive(Debug)]
pub struct TableStateHelper {
    pub table_id: String,
    pub table_name: String,
    pub min_buy_in: i64,
    pub max_buy_in: i64,
    pub max_players: i32,
    /// Seat position to player root.
    pub seats: SeatMap<Vec<u8>>,
}

/// A table's state as mathematical values.
#[verifier::ext_equal]
pub struct TableView {
    pub table_id: Seq<char>,
    pub table_name: Seq<char>,
    pub min_buy_in: i64,
    pub max_buy_in: i64,
    pub max_players: i32,
    pub seats: Map<i32, Seq<u8>>,
}

impl View for TableStateHelper {
    type V = TableView;

    open spec fn view(&self) -> TableView {
        TableView {
            table_id: self.table_id@,
            table_name: self.table_name@,
            min_buy_in: self.min_buy_in,
            max_buy_in: self.max_buy_in,
            max_players: self.max_players,
            seats: self.seats@.map_values(|r: Vec<u8>| r@),
        }
    }
}

/// Nothing known of a table.
pub open spec fn unknown_table() -> TableView {
    TableView {
        table_id: Seq::empty(),
        table_name: Seq::empty(),
        min_buy_in: 0,
        max_buy_in: 0,
        max_players: 0,
        seats: Map::empty(),
    }
}

/// A table's state after one more event.
pub open spec fn table_step(t: TableView, e: AggregateEvent) -> TableView {
    match e {
        AggregateEvent::TableCreated(c) => TableView {
            table_id: "table_"@ + c.table_name@,
            table_name: c.table_name@,
            min_buy_in: c.min_buy_in,
            max_buy_in: c.max_buy_in,
            max_players: c.max_players,
            ..t
        },
        AggregateEvent::PlayerJoined(j) => TableView { seats: t.seats.insert(j.seat_position, j.player_root@), ..t },
        AggregateEvent::PlayerSeated(s) => TableView { seats: t.seats.insert(s.seat_position, s.player_root@), ..t },
        AggregateEvent::PlayerLeft(l) => TableView { seats: t.seats.remove(l.seat_position), ..t },
        _ => t,
    }
}

/// A table's state after a sequence of events.
pub open spec fn table_state_of(es: Seq<AggregateEvent>) -> TableView
    decreases es.len(),
{
    if es.len() == 0 {
        unknown_table()
    } else {
        table_step(table_state_of(es.drop_last()), es.last())
    }
}

/// The events of a book, in order.
pub open spec fn book_events(b: EventBook<AggregateEvent>) -> Seq<AggregateEvent> {
    b.pages@.map_values(|p: EventPage<AggregateEvent>| p.event)
}

/// The lowest seat held by `root`, if any.
pub open spec fn seat_of(seats: Map<i32, Seq<u8>>, root: Seq<u8>) -> Option<i32> {
    if exists|k: i32| seats.contains_key(k) && seats[k] == root {
        Some(choose|k: i32| seats.contains_key(k) && seats[k] == root && forall|j: i32| seats.contains_key(j) && seats[j] == root ==> k <= j)
    } else {
        None
    }
}

/// The lowest seat in `0..max_players` nobody holds, if any.
pub open spec fn first_free_seat(seats: Map<i32, Seq<u8>>, max_players: i32) -> Option<i32> {
    if exists|i: i32| 0 <= i < max_players && !seats.contains_key(i) {
        Some(choose|i: i32| 0 <= i < max_players && !seats.contains_key(i) && forall|j: i32| 0 <= j < i ==> seats.contains_key(j))
    } else {
        None
    }
}

/// How the value view of a seat map relates to its entries.
proof fn lemma_roots_view(e: Seq<(i32, Vec<u8>)>, m: Map<i32, Seq<u8>>)
    requires
        sorted_seats(e),
        m == seat_map(e).map_values(|r: Vec<u8>| r@),
    ensures
        forall|k: i32| #[trigger] m.contains_key(k) <==> exists|c: int| 0 <= c < e.len() && e[c].0 == k,
        forall|c: int| 0 <= c < e.len() ==> m.contains_key((#[trigger] e[c]).0) && m[e[c].0] == e[c].1@,
{
    assert forall|c: int| 0 <= c < e.len() implies m.contains_key((#[trigger] e[c]).0) && m[e[c].0] == e[c].1@ by {
        lemma_seq_view_at(e, c);
    }
}

impl TableStateHelper {
    /// Nothing known of a table.
    pub fn unknown() -> (t: TableStateHelper)
        ensures
            t@ == unknown_table(),
    {
        let t = TableStateHelper {
            table_id: String::new(),
            table_name: String::new(),
            min_buy_in: 0,
            max_buy_in: 0,
            max_players: 0,
            seats: SeatMap::new(),
        };
        assert(t@.seats =~= Map::<i32, Seq<u8>>::empty());
        assert(t@ =~= unknown_table());
        t
    }

    /// The seat held by `player_root`, if any (the lowest, should it hold
    /// several).
    pub fn find_seat_by_player(&self, player_root: &[u8]) -> (r: Option<i32>)
        ensures
            r == seat_of(self@.seats, player_root@),
    {
        let n = self.seats.len();
        let ghost e = self.seats.entries();
        let ghost m = self@.seats;
        proof {
            lemma_roots_view(e, m);
        }
        let mut i: usize = 0;
        while i < n
            invariant
                n == e.len(),
                e == self.seats.entries(),
                m == self@.seats,
                forall|k: i32| #[trigger] m.contains_key(k) <==> exists|c: int| 0 <= c < e.len() && e[c].0 == k,
                forall|c: int| 0 <= c < e.len() ==> m.contains_key((#[trigger] e[c]).0) && m[e[c].0] == e[c].1@,
                sorted_seats(e),
                i <= n,
                forall|j: int| 0 <= j < i ==> (#[trigger] e[j]).1@ != player_root@,
            decreases n - i,
        {
            let (k, root) = self.seats.entry(i);
            if slice_eq(root.as_slice(), player_root) {
                proof {
                    assert forall|j: i32| m.contains_key(j) && m[j] == player_root@ implies k <= j by {
                        let c = choose|c: int| 0 <= c < e.len() && e[c].0 == j;
                        if c > i {
                            assert(e[i as int].0 < e[c].0);
                        } else if c < i {
                            assert(e[c].1@ != player_root@);
                        }
                    }
                    let w = choose|w: i32|
                        m.contains_key(w) && m[w] == player_root@ && forall|j: i32|
                            m.contains_key(j) && m[j] == player_root@ ==> w <= j;
                    assert(m.contains_key(k) && m[k] == player_root@);
                    assert(w <= k && k <= w);
                }
                return Some(k);
            }
            i = i + 1;
        }
        proof {
            assert forall|j: i32| !(m.contains_key(j) && m[j] == player_root@) by {
                if m.contains_key(j) {
                    let c = choose|c: int| 0 <= c < e.len() && e[c].0 == j;
                }
            }
        }
        None
    }

    /// The lowest free seat below `max_players`, if any.
    pub fn next_available_seat(&self) -> (r: Option<i32>)
        ensures
            r == first_free_seat(self@.seats, self.max_players),
    {
        let mut i: i32 = 0;
        while i < self.max_players
            invariant
                0 <= i,
                i <= self.max_players || self.max_players < 0,
                forall|j: i32| 0 <= j < i ==> #[trigger] self@.seats.contains_key(j),
            decreases self.max_players - i,
        {
            if !self.seat_taken(i) {
                proof {
                    assert(!self@.seats.contains_key(i));
                }
                return Some(i);
            }
            i = i + 1;
        }
        None
    }

    /// Whether `seat` is taken.
    pub fn seat_taken(&self, seat: i32) -> (b: bool)
        ensures
            b == self@.seats.contains_key(seat),
    {
        self.seats.get(seat).is_some()
    }

    /// Number of taken seats.
    pub fn seat_count(&self) -> (n: usize)
        ensures
            n == self@.seats.dom().len(),
    {
        proof {
            assert(self@.seats.dom() =~= self.seats@.dom());
        }
        self.seats.len()
    }
}

/// Byte strings compare equal.
pub fn slice_eq(a: &[u8], b: &[u8]) -> (r: bool)
    ensures
        r == (a@ == b@),
{
    if a.len() != b.len() {
        return false;
    }
    let mut i: usize = 0;
    while i < a.len()
        invariant
            a@.len() == b@.len(),
            i <= a@.len(),
            forall|j: int| 0 <= j < i ==> a@[j] == b@[j],
        decreases a@.len() - i,
    {
        if a[i] != b[i] {
            return false;
        }
        i = i + 1;
    }
    assert(a@ =~= b@);
    true
}

/// Rebuilds a table's state from its event book.
pub fn table_state_from_event_book(book: &EventBook<AggregateEvent>) -> (t: TableStateHelper)
    ensures
        t@ == table_state_of(book_events(*book)),
{
    let mut t = TableStateHelper::unknown();
    let ghost es = book_events(*book);
    let mut i: usize = 0;
    while i < book.pages.len()
        invariant
            es == book_events(*book),
            es.len() == book.pages@.len(),
            i <= es.len(),
            t@ == table_state_of(es.subrange(0, i as int)),
        decreases book.pages@.len() - i,
    {
        proof {
            assert(es.subrange(0, i + 1).drop_last() =~= es.subrange(0, i as int));
            assert(es[i as int] == book.pages@[i as int].event);
        }
        let ghost before = t@;
        match &book.pages[i].event {
            AggregateEvent::TableCreated(e) => {
                let id = String::from_str("table_").concat(e.table_name.as_str());
                proof {
                    reveal_strlit("table_");
                }
                t.table_id = id;
                t.table_name = e.table_name.clone();
                t.min_buy_in = e.min_buy_in;
                t.max_buy_in = e.max_buy_in;
                t.max_players = e.max_players;
                assert(t@ =~= table_step(before, es[i as int]));
            },
            AggregateEvent::PlayerJoined(e) => {
                let ghost raw = t.seats@;
                t.seats.insert(e.seat_position, copy_bytes(&e.player_root));
                proof {
                    assert(t.seats@.map_values(|r: Vec<u8>| r@) =~= raw.map_values(|r: Vec<u8>| r@).insert(
                        e.seat_position,
                        e.player_root@,
                    ));
                }
                assert(t@ =~= table_step(before, es[i as int]));
            },
            AggregateEvent::PlayerSeated(e) => {
                let ghost raw = t.seats@;
                t.seats.insert(e.seat_position, copy_bytes(&e.player_root));
                proof {
                    assert(t.seats@.map_values(|r: Vec<u8>| r@) =~= raw.map_values(|r: Vec<u8>| r@).insert(
                        e.seat_position,
                        e.player_root@,
                    ));
                }
                assert(t@ =~= table_step(before, es[i as int]));
            },
            AggregateEvent::PlayerLeft(e) => {
                let ghost raw = t.seats@;
                t.seats.remove(e.seat_position);
                proof {
                    assert(t.seats@.map_values(|r: Vec<u8>| r@) =~= raw.map_values(|r: Vec<u8>| r@).remove(
                        e.seat_position,
                    ));
                }
                assert(t@ =~= table_step(before, es[i as int]));
            },
            _ => {
                assert(t@ =~= table_step(before, es[i as int]));
            },
        }
        i = i + 1;
    }
    proof {
        assert(es.subrange(0, es.len() as int) =~= es);
    }
    t
}

// ---------------------------------------------------------------------------
// Tournament
// ---------------------------------------------------------------------------

/// What a reservation needs to know of a tournament.
#[derive(Debug)]
pub struct TournamentStateHelper {
    pub status: TournamentStatus,
    pub registration_open: bool,
    pub max_players: i32,
    pub registered_count: i32,
    pub buy_in: i64,
    pub starting_stack: i64,
    /// Hex of the roots of the enrolled players.
    pub registered_players: StrMap<bool>,
    pub rebuy_allowed: bool,
    pub rebuy_cost: i64,
    pub rebuy_chips: i64,
}

/// A tournament's state as mathematical values.
#[verifier::ext_equal]
pub struct TournamentView {
    pub status: TournamentStatus,
    pub registration_open: bool,
    pub max_players: i32,
    pub registered_count: i32,
    pub buy_in: i64,
    pub starting_stack: i64,
    pub registered_players: Set<Seq<char>>,
    pub rebuy_allowed: bool,
    pub rebuy_cost: i64,
    pub rebuy_chips: i64,
}

impl View for TournamentStateHelper {
    type V = TournamentView;

    open spec fn view(&self) -> TournamentView {
        TournamentView {
            status: self.status,
            registration_open: self.registration_open,
            max_players: self.max_players,
            registered_count: self.registered_count,
            buy_in: self.buy_in,
            starting_stack: self.starting_stack,
            registered_players: self.registered_players@.dom(),
            rebuy_allowed: self.rebuy_allowed,
            rebuy_cost: self.rebuy_cost,
            rebuy_chips: self.rebuy_chips,
        }
    }
}

/// Nothing known of a tournament (registration counts as open).
pub open spec fn unknown_tournament() -> TournamentView {
    TournamentView {
        status: TournamentStatus::Unspecified,
        registration_open: true,
        max_players: 0,
        registered_count: 0,
        buy_in: 0,
        starting_stack: 0,
        registered_players: Set::empty(),
        rebuy_allowed: false,
        rebuy_cost: 0,
        rebuy_chips: 0,
    }
}

/// A tournament's state after one more event.
pub open spec fn tournament_step(t: TournamentView, e: AggregateEvent) -> TournamentView {
    match e {
        AggregateEvent::TournamentCreated(c) => {
            let base = TournamentView {
                status: TournamentStatus::TournamentCreated,
                max_players: c.max_players,
                buy_in: c.buy_in,
                starting_stack: c.starting_stack,
                registration_open: true,
                ..t
            };
            match c.rebuy_config {
                Some(rb) => TournamentView {
                    rebuy_allowed: rb.enabled,
                    rebuy_cost: rb.rebuy_cost,
                    rebuy_chips: rb.rebuy_chips,
                    ..base
                },
                None => base,
            }
        },
        AggregateEvent::RegistrationOpened(_) => TournamentView {
            status: TournamentStatus::TournamentRegistrationOpen,
            registration_open: true,
            ..t
        },
        AggregateEvent::RegistrationClosed(_) => TournamentView { registration_open: false, ..t },
        AggregateEvent::TournamentStarted(_) => TournamentView {
            status: TournamentStatus::TournamentRunning,
            registration_open: false,
            ..t
        },
        AggregateEvent::TournamentPlayerEnrolled(p) => {
            let players = t.registered_players.insert(hex_lower(p.player_root@));
            TournamentView { registered_players: players, registered_count: players.len() as i32, ..t }
        },
        _ => t,
    }
}

/// A tournament's state after a sequence of events.
pub open spec fn tournament_state_of(es: Seq<AggregateEvent>) -> TournamentView
    decreases es.len(),
{
    if es.len() == 0 {
        unknown_tournament()
    } else {
        tournament_step(tournament_state_of(es.drop_last()), es.last())
    }
}

impl TournamentStateHelper {
    /// Nothing known of a tournament.
    pub fn unknown() -> (t: TournamentStateHelper)
        ensures
            t@ == unknown_tournament(),
    {
        let t = TournamentStateHelper {
            status: TournamentStatus::Unspecified,
            registration_open: true,
            max_players: 0,
            registered_count: 0,
            buy_in: 0,
            starting_stack: 0,
            registered_players: StrMap::new(),
            rebuy_allowed: false,
            rebuy_cost: 0,
            rebuy_chips: 0,
        };
        assert(t@.registered_players =~= Set::<Seq<char>>::empty());
        assert(t@ =~= unknown_tournament());
        t
    }
}

/// Rebuilds a tournament's state from its event book.
pub fn tournament_state_from_event_book(book: &EventBook<AggregateEvent>) -> (t: TournamentStateHelper)
    ensures
        t@ == tournament_state_of(book_events(*book)),
{
    let mut t = TournamentStateHelper::unknown();
    let ghost es = book_events(*book);
    let mut i: usize = 0;
    while i < book.pages.len()
        invariant
            es == book_events(*book),
            es.len() == book.pages@.len(),
            i <= es.len(),
            t@ == tournament_state_of(es.subrange(0, i as int)),
        decreases book.pages@.len() - i,
    {
        proof {
            assert(es.subrange(0, i + 1).drop_last() =~= es.subrange(0, i as int));
            assert(es[i as int] == book.pages@[i as int].event);
        }
        let ghost before = t@;
        match &book.pages[i].event {
            AggregateEvent::TournamentCreated(e) => {
                t.status = TournamentStatus::TournamentCreated;
                t.max_players = e.max_players;
                t.buy_in = e.buy_in;
                t.starting_stack = e.starting_stack;
                t.registration_open = true;
                match &e.rebuy_config {
                    Some(rb) => {
                        t.rebuy_allowed = rb.enabled;
                        t.rebuy_cost = rb.rebuy_cost;
                        t.rebuy_chips = rb.rebuy_chips;
                    },
                    None => {},
                }
                assert(t@ =~= tournament_step(before, es[i as int]));
            },
            AggregateEvent::RegistrationOpened(_) => {
                t.status = TournamentStatus::TournamentRegistrationOpen;
                t.registration_open = true;
                assert(t@ =~= tournament_step(before, es[i as int]));
            },
            AggregateEvent::RegistrationClosed(_) => {
                t.registration_open = false;
                assert(t@ =~= tournament_step(before, es[i as int]));
            },
            AggregateEvent::TournamentStarted(_) => {
                t.status = TournamentStatus::TournamentRunning;
                t.registration_open = false;
                assert(t@ =~= tournament_step(before, es[i as int]));
            },
            AggregateEvent::TournamentPlayerEnrolled(e) => {
                t.registered_players.insert(hex_encode(e.player_root.as_slice()), true);
                t.registered_count = t.registered_players.len() as i32;
                assert(t@ =~= tournament_step(before, es[i as int]));
            },
            _ => {
                assert(t@ =~= tournament_step(before, es[i as int]));
            },
        }
        i = i + 1;
    }
    proof {
        assert(es.subrange(0, es.len() as int) =~= es);
    }
    t
}

/// Whether an event opens or closes the tournament's registration window.
pub open spec fn moves_registration_window(e: AggregateEvent) -> bool {
    match e {
        AggregateEvent::TournamentCreated(_) | AggregateEvent::RegistrationOpened(_)
        | AggregateEvent::RegistrationClosed(_) | AggregateEvent::TournamentStarted(_) => true,
        _ => false,
    }
}

/// Whether an event leaves the registration window open.
pub open spec fn opens_registration_window(e: AggregateEvent) -> bool {
    match e {
        AggregateEvent::TournamentCreated(_) | AggregateEvent::RegistrationOpened(_) => true,
        _ => false,
    }
}

/// Whether `e` enrolls the player whose root has hex `h`.
pub open spec fn enrolls(e: AggregateEvent, h: Seq<char>) -> bool {
    match e {
        AggregateEvent::TournamentPlayerEnrolled(p) => hex_lower(p.player_root@) == h,
        _ => false,
    }
}

/// The last event that opened or closed the registration window decides
/// whether registration is open, whatever follows it.
pub proof fn law_last_window_event_decides_registration(es: Seq<AggregateEvent>, i: int)
    requires
        0 <= i < es.len(),
        moves_registration_window(es[i]),
        forall|j: int| i < j < es.len() ==> !moves_registration_window(#[trigger] es[j]),
    ensures
        tournament_state_of(es).registration_open == opens_registration_window(es[i]),
    decreases es.len(),
{
    if i < es.len() - 1 {
        assert(!moves_registration_window(es[es.len() - 1]));
        assert forall|j: int| i < j < es.drop_last().len() implies !moves_registration_window(
            #[trigger] es.drop_last()[j],
        ) by {
            assert(es.drop_last()[j] == es[j]);
        }
        law_last_window_event_decides_registration(es.drop_last(), i);
    }
}

/// Registration counts as open until some event closes it: with no event
/// that moves the window, registration is open.
pub proof fn law_registration_open_until_closed(es: Seq<AggregateEvent>)
    requires
        forall|j: int| 0 <= j < es.len() ==> !moves_registration_window(#[trigger] es[j]),
    ensures
        tournament_state_of(es).registration_open,
    decreases es.len(),
{
    if es.len() > 0 {
        assert(!moves_registration_window(es[es.len() - 1]));
        assert forall|j: int| 0 <= j < es.drop_last().len() implies !moves_registration_window(
            #[trigger] es.drop_last()[j],
        ) by {
            assert(es.drop_last()[j] == es[j]);
        }
        law_registration_open_until_closed(es.drop_last());
    }
}

/// The registered players are exactly those some event enrolled, each
/// counted once, and the registered count is their number.
pub proof fn law_enrolled_players_counted_once(es: Seq<AggregateEvent>)
    ensures
        tournament_state_of(es).registered_players.finite(),
        forall|h: Seq<char>|
            tournament_state_of(es).registered_players.contains(h) <==> exists|j: int|
                0 <= j < es.len() && #[trigger] enrolls(es[j], h),
        tournament_state_of(es).registered_count == tournament_state_of(es).registered_players.len() as i32,
    decreases es.len(),
{
    if es.len() > 0 {
        let init = es.drop_last();
        law_enrolled_players_counted_once(init);
        let before = tournament_state_of(init);
        let after = tournament_state_of(es);
        assert forall|h: Seq<char>|
            after.registered_players.contains(h) <==> exists|j: int|
                0 <= j < es.len() && #[trigger] enrolls(es[j], h) by {
            if after.registered_players.contains(h) {
                if before.registered_players.contains(h) {
                    let j = choose|j: int| 0 <= j < init.len() && #[trigger] enrolls(init[j], h);
                    assert(es[j] == init[j]);
                } else {
                    assert(enrolls(es[es.len() - 1], h));
                }
            }
            if exists|j: int| 0 <= j < es.len() && #[trigger] enrolls(es[j], h) {
                let j = choose|j: int| 0 <= j < es.len() && #[trigger] enrolls(es[j], h);
                if j < es.len() - 1 {
                    assert(init[j] == es[j]);
                    assert(before.registered_players.contains(h));
                }
            }
        }
    }
}

// ---------------------------------------------------------------------------
// Fetching through a query
// ---------------------------------------------------------------------------

/// What an answer of the query says of a table: nothing when there is no
/// book, else the state its book rebuilds.
pub open spec fn table_view_of(b: Option<EventBook<AggregateEvent>>) -> TableView {
    match b {
        Some(book) => table_state_of(book_events(book)),
        None => unknown_table(),
    }
}

/// What an answer of the query says of a tournament.
pub open spec fn tournament_view_of(b: Option<EventBook<AggregateEvent>>) -> TournamentView {
    match b {
        Some(book) => tournament_state_of(book_events(book)),
        None => unknown_tournament(),
    }
}

/// The table's state as the query reports it: nothing known without a
/// query, without a root, or when the query has no book. Otherwise the
/// query is asked once for the `table` book of `table_root`, and the state
/// is rebuilt from the book it answers with.
pub fn fetch_table_state(query: Option<&dyn CrossAggregateQuery>, table_root: &[u8]) -> (t: TableStateHelper)
    ensures
        query is None || table_root@.len() == 0 ==> t@ == unknown_table(),
        query is Some && table_root@.len() > 0 ==> exists|b: Option<EventBook<AggregateEvent>>|
            query->0.answers("table"@, table_root@, b) && t@ == table_view_of(b),
{
    match query {
        None => TableStateHelper::unknown(),
        Some(q) => {
            if table_root.len() == 0 {
                return TableStateHelper::unknown();
            }
            let b = q.get_event_book("table", table_root);
            let t = match &b {
                Some(book) => table_state_from_event_book(book),
                None => TableStateHelper::unknown(),
            };
            assert(q.answers("table"@, table_root@, b) && t@ == table_view_of(b));
            t
        },
    }
}

/// The tournament's state as the query reports it: nothing known without
/// a query, without a root, or when the query has no book. Otherwise the
/// query is asked once for the `tournament` book of `tournament_root`, and
/// the state is rebuilt from the book it answers with.
pub fn fetch_tournament_state(query: Option<&dyn CrossAggregateQuery>, tournament_root: &[u8]) -> (t:
    TournamentStateHelper)
    ensures
        query is None || tournament_root@.len() == 0 ==> t@ == unknown_tournament(),
        query is Some && tournament_root@.len() > 0 ==> exists|b: Option<EventBook<AggregateEvent>>|
            query->0.answers("tournament"@, tournament_root@, b) && t@ == tournament_view_of(b),
{
    match query {
        None => TournamentStateHelper::unknown(),
        Some(q) => {
            if tournament_root.len() == 0 {
                return TournamentStateHelper::unknown();
            }
            let b = q.get_event_book("tournament", tournament_root);
            let t = match &b {
                Some(book) => tournament_state_from_event_book(book),
                None => TournamentStateHelper::unknown(),
            };
            assert(q.answers("tournament"@, tournament_root@, b) && t@ == tournament_view_of(b));
            t
        },
    }
}

} // verus!
