//! The reservation process manager: one process for the buy-in, rebuy and
//! registration flows. It turns each reservation lifecycle event into the
//! matching player funds command (reserve on request, deduct on confirm,
//! release on release) and drives the table or tournament side of the flow.

use vstd::prelude::*;
use std::sync::Arc;
use crate::aggregate_views::{
    seat_of, table_state_from_event_book, table_view_of, tournament_state_from_event_book,
    tournament_view_of, unknown_table, unknown_tournament, AggregateEvent, CrossAggregateQuery,
    TableStateHelper, TableView, TournamentStateHelper, TournamentView,
};
use crate::decimal::{dec_int, fmt_i64};
use crate::envelope::{
    copy_bytes, make_command, now, CommandBook, Cover, EventBook, EventPage, MergeStrategy, PmResponse, ProtoUuid,
    SequenceType,
};
use crate::flow_messages::{
    AddRebuyChips, BuyInCompleted, BuyInFailed, BuyInInitiated, BuyInPhase, EnrollPlayer,
    OrchestrationFailure, PlayerSeated, ProcessRebuy, RebuyChipsAdded, RebuyCompleted, RebuyDenied,
    RebuyFailed, RebuyInitiated, RebuyPhase, RebuyProcessed, RegistrationCompleted,
    RegistrationFailed, RegistrationInitiated, RegistrationPhase, SeatPlayer, SeatingRejected,
    TournamentEnrollmentRejected, TournamentPlayerEnrolled, TournamentStatus,
};
use crate::hexfmt::{hex_encode, hex_lower};
use crate::messages::{
    amount_of, amount_or_zero, chips, is_chips, BuyInConfirmed, BuyInRequested,
    BuyInReservationReleased, ConfirmBuyIn, ConfirmRebuyFee, ConfirmRegistrationFee, Currency,
    DeductReservedFunds, RebuyFeeConfirmed, RebuyFeeReleased, RebuyRequested,
    RegistrationFeeConfirmed, RegistrationFeeReleased, RegistrationRequested, ReleaseBuyIn,
    ReleaseFunds, ReleaseRebuyFee, ReleaseRegistrationFee, ReserveFunds,
};

verus! {

/// Which flow a process instance drives.
#[derive(Debug, Clone, Copy, PartialEq, Eq, Default)]
pub enum Kind {
    #[default]
    Unspecified,
    BuyIn,
    Rebuy,
    Registration,
}

/// The phase of whichever flow the instance drives.
#[derive(Debug, Clone, Copy, PartialEq, Eq, Default)]
pub enum FlowPhase {
    #[default]
    Unspecified,
    BuyIn(BuyInPhase),
    Rebuy(RebuyPhase),
    Registration(RegistrationPhase),
}

/// The state of one reservation flow.
#[derive(Debug, Clone, Default)]
pub struct ReservationPMState {
    pub reservation_id: Vec<u8>,
    pub kind: Kind,
    pub player_root: Vec<u8>,
    pub table_root: Vec<u8>,
    pub tournament_root: Vec<u8>,
    pub seat: i32,
    pub amount: i64,
    pub fee: i64,
    pub phase: FlowPhase,
}

/// The key funds are reserved under: the tournament for a registration
/// (there is no table yet), the table otherwise.
pub open spec fn reservation_key_of(s: ReservationPMState) -> Seq<u8> {
    match s.kind {
        Kind::Registration => s.tournament_root@,
        _ => s.table_root@,
    }
}

impl ReservationPMState {
    /// Whether a flow has started: it has a reservation id.
    pub fn is_initialized(&self) -> (b: bool)
        ensures
            b == (self.reservation_id@.len() > 0),
    {
        self.reservation_id.len() > 0
    }

    /// The key funds are reserved and deducted under.
    pub fn reservation_key(&self) -> (k: &[u8])
        ensures
            k@ == reservation_key_of(*self),
    {
        match self.kind {
            Kind::Registration => self.tournament_root.as_slice(),
            _ => self.table_root.as_slice(),
        }
    }
}

/// Commands the reservation process manager sends.
#[derive(Debug, Clone, PartialEq, Eq)]
pub enum ReservationCommand {
    ReserveFunds(ReserveFunds),
    DeductReservedFunds(DeductReservedFunds),
    ReleaseFunds(ReleaseFunds),
    SeatPlayer(SeatPlayer),
    ConfirmBuyIn(ConfirmBuyIn),
    ReleaseBuyIn(ReleaseBuyIn),
    ProcessRebuy(ProcessRebuy),
    AddRebuyChips(AddRebuyChips),
    ConfirmRebuyFee(ConfirmRebuyFee),
    ReleaseRebuyFee(ReleaseRebuyFee),
    EnrollPlayer(EnrollPlayer),
    ConfirmRegistrationFee(ConfirmRegistrationFee),
    ReleaseRegistrationFee(ReleaseRegistrationFee),
}

/// Events the reservation process manager records.
#[derive(Debug, Clone, PartialEq, Eq)]
pub enum ReservationFlowEvent {
    BuyInInitiated(BuyInInitiated),
    BuyInCompleted(BuyInCompleted),
    BuyInFailed(BuyInFailed),
    RebuyInitiated(RebuyInitiated),
    RebuyCompleted(RebuyCompleted),
    RebuyFailed(RebuyFailed),
    RegistrationInitiated(RegistrationInitiated),
    RegistrationCompleted(RegistrationCompleted),
    RegistrationFailed(RegistrationFailed),
}

/// What one handler hands back.
pub type ReservationResponse = PmResponse<ReservationCommand, ReservationFlowEvent>;

// ---------------------------------------------------------------------------
// What responses look like
// ---------------------------------------------------------------------------

/// `b` is addressed to aggregate `root` of `domain`.
pub open spec fn sent_to(b: CommandBook<ReservationCommand>, domain: Seq<char>, root: Seq<u8>) -> bool {
    &&& b.domain@ == domain
    &&& b.root@ == root
    &&& !b.decision_sync
    &&& b.merge_strategy == MergeStrategy::Commutative
    &&& b.correlation_id@.len() == 36
}

/// `b` is the process manager's own book for reservation `rid`, with one
/// event at sequence 0.
pub open spec fn own_book(b: EventBook<ReservationFlowEvent>, rid: Seq<u8>) -> bool {
    &&& b.cover is Some
    &&& b.cover->0.domain@ == "pmg-reservation"@
    &&& b.cover->0.root is Some
    &&& b.cover->0.root->0.value@ == rid
    &&& b.cover->0.correlation_id@.len() == 0
    &&& b.pages@.len() == 1
    &&& b.pages@[0].sequence == SequenceType::Sequence(0)
    &&& b.pages@[0].created_at is Some
}

/// The single recorded event of a response.
pub open spec fn recorded(r: ReservationResponse) -> ReservationFlowEvent {
    r.process_events@[0].pages@[0].event
}

/// `f` reports a failure with this code, message and phase.
pub open spec fn failure_is(f: Option<OrchestrationFailure>, code: Seq<char>, message: Seq<char>, phase: Seq<char>) -> bool {
    &&& f is Some
    &&& f->0.code@ == code
    &&& f->0.message@ == message
    &&& f->0.failed_at_phase@ == phase
    &&& f->0.failed_at is Some
}

/// `c` reserves `amount` chips under `key`.
pub open spec fn reserves(c: ReservationCommand, amount: int, key: Seq<u8>) -> bool {
    &&& c is ReserveFunds
    &&& is_chips(c->ReserveFunds_0.amount, amount)
    &&& c->ReserveFunds_0.key@ == key
}

/// `c` deducts `amount` reserved chips under `key` for reservation `rid`.
pub open spec fn deducts(c: ReservationCommand, amount: int, key: Seq<u8>, rid: Seq<u8>) -> bool {
    &&& c is DeductReservedFunds
    &&& is_chips(c->DeductReservedFunds_0.amount, amount)
    &&& c->DeductReservedFunds_0.key@ == key
    &&& c->DeductReservedFunds_0.reservation_id@ == rid
}

/// `c` releases the funds reserved under `key`.
pub open spec fn releases(c: ReservationCommand, key: Seq<u8>) -> bool {
    &&& c is ReleaseFunds
    &&& c->ReleaseFunds_0.key@ == key
}

/// `a` when not empty, else `b`.
pub open spec fn or_else(a: Seq<u8>, b: Seq<u8>) -> Seq<u8> {
    if a.len() == 0 {
        b
    } else {
        a
    }
}

/// The amount of `c` when present, else `dflt`.
pub open spec fn amount_or(c: Option<Currency>, dflt: i64) -> int {
    match c {
        Some(c) => c.amount as int,
        None => dflt as int,
    }
}

/// A buy-in failed: its reservation is released with `message` as the
/// reason, and `BuyInFailed` is recorded.
pub open spec fn buy_in_failed(
    r: ReservationResponse,
    rid: Seq<u8>,
    player_root: Seq<u8>,
    table_root: Seq<u8>,
    code: Seq<char>,
    message: Seq<char>,
    phase: Seq<char>,
) -> bool {
    &&& r.commands@.len() == 1
    &&& sent_to(r.commands@[0], "reservation"@, rid)
    &&& r.commands@[0].command is ReleaseBuyIn
    &&& r.commands@[0].command->ReleaseBuyIn_0.reservation_id@ == rid
    &&& r.commands@[0].command->ReleaseBuyIn_0.reason@ == message
    &&& r.process_events@.len() == 1
    &&& own_book(r.process_events@[0], rid)
    &&& recorded(r) is BuyInFailed
    &&& recorded(r)->BuyInFailed_0.player_root@ == player_root
    &&& recorded(r)->BuyInFailed_0.table_root@ == table_root
    &&& recorded(r)->BuyInFailed_0.reservation_id@ == rid
    &&& failure_is(recorded(r)->BuyInFailed_0.failure, code, message, phase)
}

/// A rebuy failed: its fee is released with `message` as the reason, and
/// `RebuyFailed` is recorded.
pub open spec fn rebuy_failed(
    r: ReservationResponse,
    rid: Seq<u8>,
    player_root: Seq<u8>,
    tournament_root: Seq<u8>,
    code: Seq<char>,
    message: Seq<char>,
    phase: Seq<char>,
) -> bool {
    &&& r.commands@.len() == 1
    &&& sent_to(r.commands@[0], "reservation"@, rid)
    &&& r.commands@[0].command is ReleaseRebuyFee
    &&& r.commands@[0].command->ReleaseRebuyFee_0.reservation_id@ == rid
    &&& r.commands@[0].command->ReleaseRebuyFee_0.reason@ == message
    &&& r.process_events@.len() == 1
    &&& own_book(r.process_events@[0], rid)
    &&& recorded(r) is RebuyFailed
    &&& recorded(r)->RebuyFailed_0.player_root@ == player_root
    &&& recorded(r)->RebuyFailed_0.tournament_root@ == tournament_root
    &&& recorded(r)->RebuyFailed_0.reservation_id@ == rid
    &&& failure_is(recorded(r)->RebuyFailed_0.failure, code, message, phase)
}

/// A registration failed: its fee is released with `message` as the
/// reason, and `RegistrationFailed` is recorded.
pub open spec fn registration_failed(
    r: ReservationResponse,
    rid: Seq<u8>,
    player_root: Seq<u8>,
    tournament_root: Seq<u8>,
    code: Seq<char>,
    message: Seq<char>,
    phase: Seq<char>,
) -> bool {
    &&& r.commands@.len() == 1
    &&& sent_to(r.commands@[0], "reservation"@, rid)
    &&& r.commands@[0].command is ReleaseRegistrationFee
    &&& r.commands@[0].command->ReleaseRegistrationFee_0.reservation_id@ == rid
    &&& r.commands@[0].command->ReleaseRegistrationFee_0.reason@ == message
    &&& r.process_events@.len() == 1
    &&& own_book(r.process_events@[0], rid)
    &&& recorded(r) is RegistrationFailed
    &&& recorded(r)->RegistrationFailed_0.player_root@ == player_root
    &&& recorded(r)->RegistrationFailed_0.tournament_root@ == tournament_root
    &&& recorded(r)->RegistrationFailed_0.reservation_id@ == rid
    &&& failure_is(recorded(r)->RegistrationFailed_0.failure, code, message, phase)
}

// ---------------------------------------------------------------------------
// Building blocks
// ---------------------------------------------------------------------------

fn own_event_book(rid: &Vec<u8>, event: ReservationFlowEvent) -> (b: EventBook<ReservationFlowEvent>)
    ensures
        own_book(b, rid@),
        b.pages@[0].created_at is Some,
        b.pages@[0].event == event,
{
    let cover = Cover {
        domain: String::from_str("pmg-reservation"),
        root: Some(ProtoUuid { value: copy_bytes(rid) }),
        correlation_id: String::new(),
    };
    let mut pages: Vec<EventPage<ReservationFlowEvent>> = Vec::new();
    pages.push(EventPage { sequence: SequenceType::Sequence(0), created_at: Some(now()), event });
    EventBook { cover: Some(cover), pages }
}

fn send(domain: &str, root: &Vec<u8>, command: ReservationCommand) -> (b: CommandBook<ReservationCommand>)
    ensures
        sent_to(b, domain@, root@),
        b.command == command,
{
    make_command(domain, root, false, command)
}

fn failure(code: &str, message: &str, phase: &str) -> (f: Option<OrchestrationFailure>)
    ensures
        failure_is(f, code@, message@, phase@),
{
    Some(OrchestrationFailure {
        code: code.to_owned(),
        message: message.to_owned(),
        failed_at_phase: phase.to_owned(),
        failed_at: Some(now()),
    })
}

fn one_command(c: CommandBook<ReservationCommand>) -> (v: Vec<CommandBook<ReservationCommand>>)
    ensures
        v@ == seq![c],
{
    let mut v: Vec<CommandBook<ReservationCommand>> = Vec::new();
    v.push(c);
    v
}

fn one_book(b: EventBook<ReservationFlowEvent>) -> (v: Vec<EventBook<ReservationFlowEvent>>)
    ensures
        v@ == seq![b],
{
    let mut v: Vec<EventBook<ReservationFlowEvent>> = Vec::new();
    v.push(b);
    v
}

/// `a` when not empty, else `b`.
fn bytes_or(a: &Vec<u8>, b: &Vec<u8>) -> (r: Vec<u8>)
    ensures
        r@ == or_else(a@, b@),
{
    if a.len() == 0 {
        copy_bytes(b)
    } else {
        copy_bytes(a)
    }
}

/// The amount of `c` when present, else `dflt`.
fn amount_or_default(c: &Option<Currency>, dflt: i64) -> (a: i64)
    ensures
        a == amount_or(*c, dflt),
{
    match c {
        Some(c) => c.amount,
        None => dflt,
    }
}

/// The reservation process manager. The query, when there is one, reads
/// the table and tournament books to validate a request before funds are
/// reserved.
pub struct ReservationPm {
    query: Option<Arc<dyn CrossAggregateQuery + 'static>>,
}

impl ReservationPm {
    /// A process manager that validates nothing beforehand.
    pub fn new() -> (pm: ReservationPm)
        ensures
            pm.has_no_query(),
    {
        ReservationPm { query: None }
    }

    /// A process manager that reads other aggregates through `query`
    /// (`None`: validates nothing beforehand).
    pub fn with_query(query: Option<Arc<dyn CrossAggregateQuery + 'static>>) -> (pm: ReservationPm)
        ensures
            pm.held_query() == query,
            query is None ==> pm.has_no_query(),
    {
        ReservationPm { query }
    }

    /// No query is configured.
    pub closed spec fn has_no_query(self) -> bool {
        self.query is None
    }

    /// The query configured, if any.
    pub closed spec fn held_query(self) -> Option<Arc<dyn CrossAggregateQuery + 'static>> {
        self.query
    }

    /// `t` is what the query configured says of table `root`: nothing
    /// without a query or a root, else the state of one of its answers
    /// for the `table` book of `root`.
    pub open spec fn table_fetched(self, root: Seq<u8>, t: TableView) -> bool {
        match self.held_query() {
            None => t == unknown_table(),
            Some(q) => if root.len() == 0 {
                t == unknown_table()
            } else {
                exists|b: Option<EventBook<AggregateEvent>>| q.answers("table"@, root, b) && t == table_view_of(b)
            },
        }
    }

    /// `t` is what the query configured says of tournament `root`.
    pub open spec fn tournament_fetched(self, root: Seq<u8>, t: TournamentView) -> bool {
        match self.held_query() {
            None => t == unknown_tournament(),
            Some(q) => if root.len() == 0 {
                t == unknown_tournament()
            } else {
                exists|b: Option<EventBook<AggregateEvent>>|
                    q.answers("tournament"@, root, b) && t == tournament_view_of(b)
            },
        }
    }

    /// Asks the query, when there is one, for the table's book.
    fn fetch_table(&self, root: &Vec<u8>) -> (t: TableStateHelper)
        ensures
            self.table_fetched(root@, t@),
    {
        match &self.query {
            None => TableStateHelper::unknown(),
            Some(q) => {
                if root.len() == 0 {
                    return TableStateHelper::unknown();
                }
                let b = q.get_event_book("table", root.as_slice());
                let t = match &b {
                    Some(book) => table_state_from_event_book(book),
                    None => TableStateHelper::unknown(),
                };
                assert(self.held_query()->0.answers("table"@, root@, b) && t@ == table_view_of(b));
                t
            },
        }
    }

    /// Asks the query, when there is one, for the tournament's book.
    fn fetch_tournament(&self, root: &Vec<u8>) -> (t: TournamentStateHelper)
        ensures
            self.tournament_fetched(root@, t@),
    {
        match &self.query {
            None => TournamentStateHelper::unknown(),
            Some(q) => {
                if root.len() == 0 {
                    return TournamentStateHelper::unknown();
                }
                let b = q.get_event_book("tournament", root.as_slice());
                let t = match &b {
                    Some(book) => tournament_state_from_event_book(book),
                    None => TournamentStateHelper::unknown(),
                };
                assert(self.held_query()->0.answers("tournament"@, root@, b) && t@ == tournament_view_of(b));
                t
            },
        }
    }

    /// Releases a buy-in's reservation and records its failure.
    pub fn fail_buy_in(
        &self,
        reservation_id: &Vec<u8>,
        player_root: &Vec<u8>,
        table_root: &Vec<u8>,
        code: &str,
        message: &str,
        phase: &str,
    ) -> (r: ReservationResponse)
        ensures
            buy_in_failed(r, reservation_id@, player_root@, table_root@, code@, message@, phase@),
    {
        let release = ReleaseBuyIn { reservation_id: copy_bytes(reservation_id), reason: message.to_owned() };
        let failed = BuyInFailed {
            player_root: copy_bytes(player_root),
            table_root: copy_bytes(table_root),
            reservation_id: copy_bytes(reservation_id),
            failure: failure(code, message, phase),
        };
        PmResponse {
            commands: one_command(send("reservation", reservation_id, ReservationCommand::ReleaseBuyIn(release))),
            process_events: one_book(own_event_book(reservation_id, ReservationFlowEvent::BuyInFailed(failed))),
        }
    }

    /// Releases a rebuy's fee and records its failure.
    pub fn fail_rebuy(
        &self,
        reservation_id: &Vec<u8>,
        player_root: &Vec<u8>,
        tournament_root: &Vec<u8>,
        code: &str,
        message: &str,
        phase: &str,
    ) -> (r: ReservationResponse)
        ensures
            rebuy_failed(r, reservation_id@, player_root@, tournament_root@, code@, message@, phase@),
    {
        let release = ReleaseRebuyFee { reservation_id: copy_bytes(reservation_id), reason: message.to_owned() };
        let failed = RebuyFailed {
            player_root: copy_bytes(player_root),
            tournament_root: copy_bytes(tournament_root),
            reservation_id: copy_bytes(reservation_id),
            failure: failure(code, message, phase),
        };
        PmResponse {
            commands: one_command(send("reservation", reservation_id, ReservationCommand::ReleaseRebuyFee(release))),
            process_events: one_book(own_event_book(reservation_id, ReservationFlowEvent::RebuyFailed(failed))),
        }
    }

    /// Releases a registration's fee and records its failure.
    pub fn fail_registration(
        &self,
        reservation_id: &Vec<u8>,
        player_root: &Vec<u8>,
        tournament_root: &Vec<u8>,
        code: &str,
        message: &str,
        phase: &str,
    ) -> (r: ReservationResponse)
        ensures
            registration_failed(r, reservation_id@, player_root@, tournament_root@, code@, message@, phase@),
    {
        let release = ReleaseRegistrationFee { reservation_id: copy_bytes(reservation_id), reason: message.to_owned() };
        let failed = RegistrationFailed {
            player_root: copy_bytes(player_root),
            tournament_root: copy_bytes(tournament_root),
            reservation_id: copy_bytes(reservation_id),
            failure: failure(code, message, phase),
        };
        PmResponse {
            commands: one_command(
                send("reservation", reservation_id, ReservationCommand::ReleaseRegistrationFee(release)),
            ),
            process_events: one_book(own_event_book(reservation_id, ReservationFlowEvent::RegistrationFailed(failed))),
        }
    }
}

// ---------------------------------------------------------------------------
// Buy-in
// ---------------------------------------------------------------------------

/// A confirmation deducts the reserved amount from the player: the
/// confirmation's player, key and amount when it carries them, the flow's
/// otherwise.
pub open spec fn deducted_on_confirm(
    r: ReservationResponse,
    player_root: Seq<u8>,
    key: Seq<u8>,
    amount: Option<Currency>,
    rid: Seq<u8>,
    state: ReservationPMState,
    state_key: Seq<u8>,
    state_amount: i64,
) -> bool {
    &&& r.commands@.len() == 1
    &&& sent_to(r.commands@[0], "player"@, or_else(player_root, state.player_root@))
    &&& deducts(r.commands@[0].command, amount_or(amount, state_amount), or_else(key, state_key), rid)
    &&& r.process_events@.len() == 0
}

/// A buy-in proceeds: `amount` chips are reserved under the table, the
/// table is asked to seat the player, and `BuyInInitiated` is recorded.
pub open spec fn buy_in_started(r: ReservationResponse, e: BuyInRequested, amount: int) -> bool {
    &&& r.commands@.len() == 2
    &&& sent_to(r.commands@[0], "player"@, e.player_root@)
    &&& reserves(r.commands@[0].command, amount, e.table_root@)
    &&& sent_to(r.commands@[1], "table"@, e.table_root@)
    &&& r.commands@[1].command is SeatPlayer
    &&& r.commands@[1].command->SeatPlayer_0.player_root@ == e.player_root@
    &&& r.commands@[1].command->SeatPlayer_0.reservation_id@ == e.reservation_id@
    &&& r.commands@[1].command->SeatPlayer_0.seat == e.seat
    &&& r.commands@[1].command->SeatPlayer_0.amount == amount
    &&& r.process_events@.len() == 1
    &&& own_book(r.process_events@[0], e.reservation_id@)
    &&& recorded(r) is BuyInInitiated
    &&& recorded(r)->BuyInInitiated_0.player_root@ == e.player_root@
    &&& recorded(r)->BuyInInitiated_0.table_root@ == e.table_root@
    &&& recorded(r)->BuyInInitiated_0.reservation_id@ == e.reservation_id@
    &&& recorded(r)->BuyInInitiated_0.seat == e.seat
    &&& is_chips(recorded(r)->BuyInInitiated_0.amount, amount)
    &&& recorded(r)->BuyInInitiated_0.phase == BuyInPhase::BuyInSeating
    &&& recorded(r)->BuyInInitiated_0.initiated_at is Some
}

/// How a buy-in request is answered given what is known of the table
/// (nothing is checked when nothing is known, `max_players == 0`): an
/// amount outside the table's limits, a full table or a taken seat fail
/// the buy-in; otherwise it proceeds.
pub open spec fn buy_in_decided(r: ReservationResponse, e: BuyInRequested, t: TableView) -> bool {
    let amount = amount_or_zero(e.amount);
    let rid = e.reservation_id@;
    if t.max_players > 0 && amount < t.min_buy_in {
        buy_in_failed(
            r,
            rid,
            e.player_root@,
            e.table_root@,
            "INVALID_AMOUNT"@,
            "amount "@ + dec_int(amount) + " below minimum "@ + dec_int(t.min_buy_in as int),
            "VALIDATING"@,
        )
    } else if t.max_players > 0 && amount > t.max_buy_in {
        buy_in_failed(
            r,
            rid,
            e.player_root@,
            e.table_root@,
            "INVALID_AMOUNT"@,
            "amount "@ + dec_int(amount) + " exceeds maximum "@ + dec_int(t.max_buy_in as int),
            "VALIDATING"@,
        )
    } else if t.max_players > 0 && (t.seats.dom().len() as i32) >= t.max_players {
        buy_in_failed(r, rid, e.player_root@, e.table_root@, "TABLE_FULL"@, "table has no available seats"@, "VALIDATING"@)
    } else if t.max_players > 0 && e.seat >= 0 && t.seats.contains_key(e.seat) {
        buy_in_failed(
            r,
            rid,
            e.player_root@,
            e.table_root@,
            "SEAT_OCCUPIED"@,
            "seat "@ + dec_int(e.seat as int) + " is occupied"@,
            "VALIDATING"@,
        )
    } else {
        buy_in_started(r, e, amount)
    }
}

/// A known table with as many occupied seats as it has places refuses a
/// buy-in whose amount is within its limits: the answer is a `TABLE_FULL`
/// failure that releases the reservation, and no funds are reserved and no
/// seat is asked for.
pub proof fn law_full_table_refuses_buy_in(r: ReservationResponse, e: BuyInRequested, t: TableView)
    requires
        buy_in_decided(r, e, t),
        t.max_players > 0,
        t.min_buy_in <= amount_or_zero(e.amount) <= t.max_buy_in,
        t.max_players <= t.seats.dom().len() <= i32::MAX,
    ensures
        r.commands@.len() == 1,
        r.commands@[0].command is ReleaseBuyIn,
        forall|i: int|
            0 <= i < r.commands@.len() ==> !((#[trigger] r.commands@[i]).command is ReserveFunds) && !(
            r.commands@[i].command is SeatPlayer),
        r.process_events@.len() == 1,
        r.process_events@[0].pages@.len() == 1,
        r.process_events@[0].pages@[0].event is BuyInFailed,
        r.process_events@[0].pages@[0].event->BuyInFailed_0.failure is Some,
        r.process_events@[0].pages@[0].event->BuyInFailed_0.failure->0.code@ == "TABLE_FULL"@,
{
}

/// A buy-in goes ahead exactly when the table is unknown, or the amount is
/// within the table's limits, a place is free and the requested seat is not
/// taken. Going ahead, it reserves the requested amount from the player and
/// asks the table for that seat; otherwise it releases the reservation and
/// reports why: the amount first, then a full table, then the seat.
pub proof fn law_buy_in_goes_ahead_exactly_when_it_fits(r: ReservationResponse, e: BuyInRequested, t: TableView)
    requires
        buy_in_decided(r, e, t),
        t.seats.dom().len() <= i32::MAX,
    ensures
        r.commands@.len() >= 1,
        ({
            let amount = amount_or_zero(e.amount);
            let in_limits = t.min_buy_in <= amount <= t.max_buy_in;
            let room = t.seats.dom().len() < t.max_players;
            let seat_free = !(e.seat >= 0 && t.seats.contains_key(e.seat));
            let fits = t.max_players <= 0 || (in_limits && room && seat_free);
            let ev = r.process_events@[0].pages@[0].event;
            &&& (r.commands@[0].command is ReserveFunds) <==> fits
            &&& fits ==> {
                &&& r.commands@.len() == 2
                &&& r.commands@[0].domain@ == "player"@
                &&& r.commands@[0].root@ == e.player_root@
                &&& r.commands@[0].command->ReserveFunds_0.amount is Some
                &&& r.commands@[0].command->ReserveFunds_0.amount->0.amount == amount
                &&& r.commands@[1].domain@ == "table"@
                &&& r.commands@[1].root@ == e.table_root@
                &&& r.commands@[1].command is SeatPlayer
                &&& r.commands@[1].command->SeatPlayer_0.seat == e.seat
                &&& ev is BuyInInitiated
            }
            &&& !fits ==> {
                &&& r.commands@.len() == 1
                &&& r.commands@[0].command is ReleaseBuyIn
                &&& ev is BuyInFailed
                &&& ev->BuyInFailed_0.failure is Some
                &&& ev->BuyInFailed_0.failure->0.code@ == (if !in_limits {
                    "INVALID_AMOUNT"@
                } else if !room {
                    "TABLE_FULL"@
                } else {
                    "SEAT_OCCUPIED"@
                })
            }
        }),
{
}

/// `"<a><n><b><m>"` with `n` and `m` in decimal.
fn two_numbers(a: &str, n: i64, b: &str, m: i64) -> (s: String)
    ensures
        s@ == a@ + dec_int(n as int) + b@ + dec_int(m as int),
{
    String::from_str(a).concat(fmt_i64(n).as_str()).concat(b).concat(fmt_i64(m).as_str())
}

/// `"<a><n><b>"` with `n` in decimal.
fn one_number(a: &str, n: i64, b: &str) -> (s: String)
    ensures
        s@ == a@ + dec_int(n as int) + b@,
{
    String::from_str(a).concat(fmt_i64(n).as_str()).concat(b)
}

impl ReservationPm {
    /// Answers a buy-in request given what is known of its table.
    pub fn decide_buy_in(&self, event: &BuyInRequested, tbl: &TableStateHelper) -> (r: ReservationResponse)
        ensures
            buy_in_decided(r, *event, tbl@),
    {
        let amount = amount_of(&event.amount);
        if tbl.max_players > 0 {
            if amount < tbl.min_buy_in {
                let m = two_numbers("amount ", amount, " below minimum ", tbl.min_buy_in);
                return self.fail_buy_in(
                    &event.reservation_id,
                    &event.player_root,
                    &event.table_root,
                    "INVALID_AMOUNT",
                    m.as_str(),
                    "VALIDATING",
                );
            }
            if amount > tbl.max_buy_in {
                let m = two_numbers("amount ", amount, " exceeds maximum ", tbl.max_buy_in);
                return self.fail_buy_in(
                    &event.reservation_id,
                    &event.player_root,
                    &event.table_root,
                    "INVALID_AMOUNT",
                    m.as_str(),
                    "VALIDATING",
                );
            }
            if (tbl.seat_count() as i32) >= tbl.max_players {
                return self.fail_buy_in(
                    &event.reservation_id,
                    &event.player_root,
                    &event.table_root,
                    "TABLE_FULL",
                    "table has no available seats",
                    "VALIDATING",
                );
            }
            if event.seat >= 0 && tbl.seat_taken(event.seat) {
                let m = one_number("seat ", event.seat as i64, " is occupied");
                return self.fail_buy_in(
                    &event.reservation_id,
                    &event.player_root,
                    &event.table_root,
                    "SEAT_OCCUPIED",
                    m.as_str(),
                    "VALIDATING",
                );
            }
        }
        let reserve = ReserveFunds { amount: chips(amount), key: copy_bytes(&event.table_root) };
        let seat = SeatPlayer {
            player_root: copy_bytes(&event.player_root),
            reservation_id: copy_bytes(&event.reservation_id),
            seat: event.seat,
            amount,
        };
        let initiated = BuyInInitiated {
            player_root: copy_bytes(&event.player_root),
            table_root: copy_bytes(&event.table_root),
            reservation_id: copy_bytes(&event.reservation_id),
            seat: event.seat,
            amount: chips(amount),
            phase: BuyInPhase::BuyInSeating,
            initiated_at: Some(now()),
        };
        let mut commands = one_command(send("player", &event.player_root, ReservationCommand::ReserveFunds(reserve)));
        commands.push(send("table", &event.table_root, ReservationCommand::SeatPlayer(seat)));
        PmResponse {
            commands,
            process_events: one_book(own_event_book(&event.reservation_id, ReservationFlowEvent::BuyInInitiated(initiated))),
        }
    }

    /// `BuyInRequested`: validated against the table as the query reports
    /// it (unvalidated without a query), then failed or started.
    pub fn on_buy_in_requested(&self, event: BuyInRequested, state: &ReservationPMState) -> (r: ReservationResponse)
        ensures
            exists|t: TableView| self.table_fetched(event.table_root@, t) && buy_in_decided(r, event, t),
            self.has_no_query() ==> buy_in_decided(r, event, unknown_table()),
    {
        let tbl = self.fetch_table(&event.table_root);
        self.decide_buy_in(&event, &tbl)
    }

    /// `PlayerSeated`: the buy-in is confirmed and its completion recorded.
    pub fn on_player_seated(&self, event: PlayerSeated, state: &ReservationPMState) -> (r: ReservationResponse)
        ensures
            r.commands@.len() == 1,
            sent_to(r.commands@[0], "reservation"@, event.reservation_id@),
            r.commands@[0].command is ConfirmBuyIn,
            r.commands@[0].command->ConfirmBuyIn_0.reservation_id@ == event.reservation_id@,
            r.process_events@.len() == 1,
            own_book(r.process_events@[0], event.reservation_id@),
            recorded(r) is BuyInCompleted,
            recorded(r)->BuyInCompleted_0.player_root@ == event.player_root@,
            recorded(r)->BuyInCompleted_0.table_root@ == state.table_root@,
            recorded(r)->BuyInCompleted_0.reservation_id@ == event.reservation_id@,
            recorded(r)->BuyInCompleted_0.seat == event.seat_position,
            is_chips(recorded(r)->BuyInCompleted_0.amount, event.stack as int),
            recorded(r)->BuyInCompleted_0.completed_at is Some,
    {
        let confirm = ConfirmBuyIn { reservation_id: copy_bytes(&event.reservation_id) };
        let completed = BuyInCompleted {
            player_root: copy_bytes(&event.player_root),
            table_root: copy_bytes(&state.table_root),
            reservation_id: copy_bytes(&event.reservation_id),
            seat: event.seat_position,
            amount: chips(event.stack),
            completed_at: Some(now()),
        };
        PmResponse {
            commands: one_command(send("reservation", &event.reservation_id, ReservationCommand::ConfirmBuyIn(confirm))),
            process_events: one_book(own_event_book(&event.reservation_id, ReservationFlowEvent::BuyInCompleted(completed))),
        }
    }

    /// `SeatingRejected`: the buy-in fails with the table's reason.
    pub fn on_seating_rejected(&self, event: SeatingRejected, state: &ReservationPMState) -> (r: ReservationResponse)
        ensures
            buy_in_failed(
                r,
                event.reservation_id@,
                event.player_root@,
                state.table_root@,
                "SEATING_REJECTED"@,
                event.reason@,
                "SEATING"@,
            ),
    {
        self.fail_buy_in(
            &event.reservation_id,
            &event.player_root,
            &state.table_root,
            "SEATING_REJECTED",
            event.reason.as_str(),
            "SEATING",
        )
    }

    /// `BuyInConfirmed`: the reserved amount is deducted from the player,
    /// the event's values standing before the state's.
    pub fn on_buy_in_confirmed(&self, event: BuyInConfirmed, state: &ReservationPMState) -> (r: ReservationResponse)
        ensures
            deducted_on_confirm(
                r,
                event.player_root@,
                event.table_root@,
                event.amount,
                event.reservation_id@,
                *state,
                state.table_root@,
                state.amount,
            ),
    {
        let amount = amount_or_default(&event.amount, state.amount);
        let player_root = bytes_or(&event.player_root, &state.player_root);
        let key = bytes_or(&event.table_root, &state.table_root);
        let deduct = DeductReservedFunds { amount: chips(amount), key, reservation_id: copy_bytes(&event.reservation_id) };
        PmResponse {
            commands: one_command(send("player", &player_root, ReservationCommand::DeductReservedFunds(deduct))),
            process_events: Vec::new(),
        }
    }

    /// `BuyInReservationReleased`: the player's reserved funds are released.
    pub fn on_buy_in_released(&self, event: BuyInReservationReleased, state: &ReservationPMState) -> (r: ReservationResponse)
        ensures
            r.commands@.len() == 1,
            sent_to(r.commands@[0], "player"@, or_else(event.player_root@, state.player_root@)),
            releases(r.commands@[0].command, or_else(event.table_root@, state.table_root@)),
            r.process_events@.len() == 0,
    {
        let player_root = bytes_or(&event.player_root, &state.player_root);
        let key = bytes_or(&event.table_root, &state.table_root);
        PmResponse {
            commands: one_command(send("player", &player_root, ReservationCommand::ReleaseFunds(ReleaseFunds { key }))),
            process_events: Vec::new(),
        }
    }
}

// ---------------------------------------------------------------------------
// Rebuy
// ---------------------------------------------------------------------------

/// A rebuy proceeds: `fee` chips are reserved under the table, the
/// tournament is asked to process the rebuy, and `RebuyInitiated` is
/// recorded with the chips the tournament grants.
pub open spec fn rebuy_started(r: ReservationResponse, e: RebuyRequested, fee: int, chips_to_add: i64) -> bool {
    &&& r.commands@.len() == 2
    &&& sent_to(r.commands@[0], "player"@, e.player_root@)
    &&& reserves(r.commands@[0].command, fee, e.table_root@)
    &&& sent_to(r.commands@[1], "tournament"@, e.tournament_root@)
    &&& r.commands@[1].command is ProcessRebuy
    &&& r.commands@[1].command->ProcessRebuy_0.player_root@ == e.player_root@
    &&& r.commands@[1].command->ProcessRebuy_0.reservation_id@ == e.reservation_id@
    &&& r.process_events@.len() == 1
    &&& own_book(r.process_events@[0], e.reservation_id@)
    &&& recorded(r) is RebuyInitiated
    &&& recorded(r)->RebuyInitiated_0.player_root@ == e.player_root@
    &&& recorded(r)->RebuyInitiated_0.tournament_root@ == e.tournament_root@
    &&& recorded(r)->RebuyInitiated_0.table_root@ == e.table_root@
    &&& recorded(r)->RebuyInitiated_0.reservation_id@ == e.reservation_id@
    &&& recorded(r)->RebuyInitiated_0.seat == e.seat
    &&& is_chips(recorded(r)->RebuyInitiated_0.fee, fee)
    &&& recorded(r)->RebuyInitiated_0.chips_to_add == chips_to_add
    &&& recorded(r)->RebuyInitiated_0.phase == RebuyPhase::RebuyApproving
    &&& recorded(r)->RebuyInitiated_0.initiated_at is Some
}

/// How a rebuy request is answered given what is known of the tournament
/// and the table: a known tournament that is not running or allows no
/// rebuys fails it; a known table where the player does not hold the
/// requested seat fails it; otherwise it proceeds, at the tournament's
/// rebuy cost when that is positive and at the requested fee otherwise.
pub open spec fn rebuy_decided(r: ReservationResponse, e: RebuyRequested, tour: TournamentView, t: TableView) -> bool {
    let rid = e.reservation_id@;
    if tour.status != TournamentStatus::Unspecified && (tour.status != TournamentStatus::TournamentRunning
        || !tour.rebuy_allowed) {
        rebuy_failed(
            r,
            rid,
            e.player_root@,
            e.tournament_root@,
            "TOURNAMENT_NOT_RUNNING"@,
            "tournament is not accepting rebuys"@,
            "VALIDATING"@,
        )
    } else if t.max_players > 0 && seat_of(t.seats, e.player_root@) != Some(e.seat) {
        rebuy_failed(
            r,
            rid,
            e.player_root@,
            e.tournament_root@,
            "NOT_SEATED"@,
            "player is not seated at position "@ + dec_int(e.seat as int),
            "VALIDATING"@,
        )
    } else {
        let fee = if tour.rebuy_cost > 0 {
            tour.rebuy_cost as int
        } else {
            amount_or_zero(e.fee)
        };
        rebuy_started(r, e, fee, tour.rebuy_chips)
    }
}

/// A tournament with a positive rebuy cost sets the price of a rebuy:
/// whatever fee the request carries, the funds reserved and the fee
/// recorded for the rebuy are the tournament's rebuy cost.
pub proof fn law_rebuy_costs_the_tournament_price(
    r: ReservationResponse,
    e: RebuyRequested,
    tour: TournamentView,
    t: TableView,
)
    requires
        rebuy_decided(r, e, tour, t),
        tour.rebuy_cost > 0,
    ensures
        forall|i: int|
            0 <= i < r.commands@.len() && (#[trigger] r.commands@[i]).command is ReserveFunds ==> {
                &&& r.commands@[i].command->ReserveFunds_0.amount is Some
                &&& r.commands@[i].command->ReserveFunds_0.amount->0.amount == tour.rebuy_cost
            },
        r.process_events@.len() == 1 && r.process_events@[0].pages@.len() == 1,
        r.process_events@[0].pages@[0].event is RebuyInitiated ==> {
            &&& r.process_events@[0].pages@[0].event->RebuyInitiated_0.fee is Some
            &&& r.process_events@[0].pages@[0].event->RebuyInitiated_0.fee->0.amount == tour.rebuy_cost
        },
{
}

/// A rebuy goes ahead exactly when the tournament is unknown or running
/// with rebuys allowed, and the table is unknown or has the player at the
/// requested seat. Going ahead, it reserves the fee from the player (the
/// tournament's rebuy cost when positive, else the requested fee) and asks
/// the tournament to process the rebuy; otherwise it releases the fee and
/// reports why, the tournament first.
pub proof fn law_rebuy_goes_ahead_exactly_when_allowed(
    r: ReservationResponse,
    e: RebuyRequested,
    tour: TournamentView,
    t: TableView,
)
    requires
        rebuy_decided(r, e, tour, t),
    ensures
        r.commands@.len() >= 1,
        ({
            let open = tour.status == TournamentStatus::Unspecified || (tour.status
                == TournamentStatus::TournamentRunning && tour.rebuy_allowed);
            let seated = t.max_players <= 0 || seat_of(t.seats, e.player_root@) == Some(e.seat);
            let ev = r.process_events@[0].pages@[0].event;
            &&& (r.commands@[0].command is ReserveFunds) <==> (open && seated)
            &&& open && seated ==> {
                &&& r.commands@.len() == 2
                &&& r.commands@[0].domain@ == "player"@
                &&& r.commands@[0].root@ == e.player_root@
                &&& r.commands@[0].command->ReserveFunds_0.amount is Some
                &&& r.commands@[0].command->ReserveFunds_0.amount->0.amount == (if tour.rebuy_cost > 0 {
                    tour.rebuy_cost as int
                } else {
                    amount_or_zero(e.fee)
                })
                &&& r.commands@[1].domain@ == "tournament"@
                &&& r.commands@[1].root@ == e.tournament_root@
                &&& r.commands@[1].command is ProcessRebuy
                &&& ev is RebuyInitiated
            }
            &&& !(open && seated) ==> {
                &&& r.commands@.len() == 1
                &&& r.commands@[0].command is ReleaseRebuyFee
                &&& ev is RebuyFailed
                &&& ev->RebuyFailed_0.failure is Some
                &&& ev->RebuyFailed_0.failure->0.code@ == (if !open {
                    "TOURNAMENT_NOT_RUNNING"@
                } else {
                    "NOT_SEATED"@
                })
            }
        }),
{
}

/// A rebuy that goes ahead in a tournament without a rebuy cost reserves
/// the fee the request carries (zero when it carries none).
pub proof fn law_rebuy_without_price_uses_the_requested_fee(
    r: ReservationResponse,
    e: RebuyRequested,
    tour: TournamentView,
    t: TableView,
)
    requires
        rebuy_decided(r, e, tour, t),
        tour.rebuy_cost <= 0,
    ensures
        forall|i: int|
            0 <= i < r.commands@.len() && (#[trigger] r.commands@[i]).command is ReserveFunds ==> {
                &&& r.commands@[i].command->ReserveFunds_0.amount is Some
                &&& r.commands@[i].command->ReserveFunds_0.amount->0.amount == amount_or_zero(e.fee)
            },
{
}

// ---------------------------------------------------------------------------
// Registration
// ---------------------------------------------------------------------------

/// A registration proceeds: `fee` chips are reserved under the
/// tournament, the tournament is asked to enroll the player, and
/// `RegistrationInitiated` is recorded.
pub open spec fn registration_started(r: ReservationResponse, e: RegistrationRequested, fee: int) -> bool {
    &&& r.commands@.len() == 2
    &&& sent_to(r.commands@[0], "player"@, e.player_root@)
    &&& reserves(r.commands@[0].command, fee, e.tournament_root@)
    &&& sent_to(r.commands@[1], "tournament"@, e.tournament_root@)
    &&& r.commands@[1].command is EnrollPlayer
    &&& r.commands@[1].command->EnrollPlayer_0.player_root@ == e.player_root@
    &&& r.commands@[1].command->EnrollPlayer_0.reservation_id@ == e.reservation_id@
    &&& r.process_events@.len() == 1
    &&& own_book(r.process_events@[0], e.reservation_id@)
    &&& recorded(r) is RegistrationInitiated
    &&& recorded(r)->RegistrationInitiated_0.player_root@ == e.player_root@
    &&& recorded(r)->RegistrationInitiated_0.tournament_root@ == e.tournament_root@
    &&& recorded(r)->RegistrationInitiated_0.reservation_id@ == e.reservation_id@
    &&& is_chips(recorded(r)->RegistrationInitiated_0.fee, fee)
    &&& recorded(r)->RegistrationInitiated_0.phase == RegistrationPhase::RegistrationEnrolling
    &&& recorded(r)->RegistrationInitiated_0.initiated_at is Some
}

/// How a registration request is answered given what is known of the
/// tournament (nothing is checked when nothing is known, `max_players ==
/// 0`): closed registration, a full field or a player already enrolled fail
/// it; otherwise it proceeds, at the tournament's buy-in when that is
/// positive and at the requested fee otherwise.
pub open spec fn registration_decided(r: ReservationResponse, e: RegistrationRequested, tour: TournamentView) -> bool {
    let rid = e.reservation_id@;
    if tour.max_players > 0 && !tour.registration_open {
        registration_failed(
            r,
            rid,
            e.player_root@,
            e.tournament_root@,
            "REGISTRATION_CLOSED"@,
            "tournament is not accepting registrations"@,
            "VALIDATING"@,
        )
    } else if tour.max_players > 0 && tour.registered_count >= tour.max_players {
        registration_failed(r, rid, e.player_root@, e.tournament_root@, "REGISTRATION_CLOSED"@, "tournament is full"@, "VALIDATING"@)
    } else if tour.max_players > 0 && e.player_root@.len() > 0 && tour.registered_players.contains(
        hex_lower(e.player_root@),
    ) {
        registration_failed(
            r,
            rid,
            e.player_root@,
            e.tournament_root@,
            "ALREADY_REGISTERED"@,
            "player is already registered"@,
            "VALIDATING"@,
        )
    } else {
        let fee = if tour.buy_in > 0 {
            tour.buy_in as int
        } else {
            amount_or_zero(e.fee)
        };
        registration_started(r, e, fee)
    }
}

/// A registration goes ahead exactly when the tournament is unknown, or
/// its registration is open, it has a free place and the player is not
/// already registered. Going ahead, it reserves the fee (the tournament's
/// buy-in when positive, else the requested fee) under the tournament and
/// asks the tournament to enroll the player; otherwise it releases the fee
/// and reports why.
pub proof fn law_registration_goes_ahead_exactly_when_open(
    r: ReservationResponse,
    e: RegistrationRequested,
    tour: TournamentView,
)
    requires
        registration_decided(r, e, tour),
    ensures
        r.commands@.len() >= 1,
        ({
            let known = tour.max_players > 0;
            let has_place = tour.registration_open && tour.registered_count < tour.max_players;
            let new_player = !(e.player_root@.len() > 0 && tour.registered_players.contains(hex_lower(e.player_root@)));
            let accepted = !known || (has_place && new_player);
            let ev = r.process_events@[0].pages@[0].event;
            &&& (r.commands@[0].command is ReserveFunds) <==> accepted
            &&& accepted ==> {
                &&& r.commands@.len() == 2
                &&& r.commands@[0].domain@ == "player"@
                &&& r.commands@[0].root@ == e.player_root@
                &&& r.commands@[0].command->ReserveFunds_0.key@ == e.tournament_root@
                &&& r.commands@[0].command->ReserveFunds_0.amount is Some
                &&& r.commands@[0].command->ReserveFunds_0.amount->0.amount == (if tour.buy_in > 0 {
                    tour.buy_in as int
                } else {
                    amount_or_zero(e.fee)
                })
                &&& r.commands@[1].domain@ == "tournament"@
                &&& r.commands@[1].root@ == e.tournament_root@
                &&& r.commands@[1].command is EnrollPlayer
                &&& ev is RegistrationInitiated
            }
            &&& !accepted ==> {
                &&& r.commands@.len() == 1
                &&& r.commands@[0].command is ReleaseRegistrationFee
                &&& ev is RegistrationFailed
                &&& ev->RegistrationFailed_0.failure is Some
                &&& ev->RegistrationFailed_0.failure->0.code@ == (if !has_place {
                    "REGISTRATION_CLOSED"@
                } else {
                    "ALREADY_REGISTERED"@
                })
            }
        }),
{
}

impl ReservationPm {
    /// Answers a rebuy request given what is known of the tournament and
    /// the table.
    pub fn decide_rebuy(&self, event: &RebuyRequested, tour: &TournamentStateHelper, tbl: &TableStateHelper) -> (r:
        ReservationResponse)
        ensures
            rebuy_decided(r, *event, tour@, tbl@),
    {
        let event_fee = amount_of(&event.fee);
        let tournament_loaded = !matches!(tour.status, TournamentStatus::Unspecified);
        let table_loaded = tbl.max_players > 0;
        if tournament_loaded {
            let running = matches!(tour.status, TournamentStatus::TournamentRunning);
            if !running || !tour.rebuy_allowed {
                return self.fail_rebuy(
                    &event.reservation_id,
                    &event.player_root,
                    &event.tournament_root,
                    "TOURNAMENT_NOT_RUNNING",
                    "tournament is not accepting rebuys",
                    "VALIDATING",
                );
            }
        }
        if table_loaded {
            let seated_at = tbl.find_seat_by_player(event.player_root.as_slice());
            let at_seat = match seated_at {
                Some(s) => s == event.seat,
                None => false,
            };
            if !at_seat {
                let m = one_number("player is not seated at position ", event.seat as i64, "");
                proof {
                    assert(m@ == "player is not seated at position "@ + dec_int(event.seat as int)) by {
                        reveal_strlit("");
                    }
                }
                return self.fail_rebuy(
                    &event.reservation_id,
                    &event.player_root,
                    &event.tournament_root,
                    "NOT_SEATED",
                    m.as_str(),
                    "VALIDATING",
                );
            }
        }
        let fee = if tour.rebuy_cost > 0 {
            tour.rebuy_cost
        } else {
            event_fee
        };
        let reserve = ReserveFunds { amount: chips(fee), key: copy_bytes(&event.table_root) };
        let process = ProcessRebuy {
            player_root: copy_bytes(&event.player_root),
            reservation_id: copy_bytes(&event.reservation_id),
        };
        let initiated = RebuyInitiated {
            player_root: copy_bytes(&event.player_root),
            tournament_root: copy_bytes(&event.tournament_root),
            table_root: copy_bytes(&event.table_root),
            reservation_id: copy_bytes(&event.reservation_id),
            seat: event.seat,
            fee: chips(fee),
            chips_to_add: tour.rebuy_chips,
            phase: RebuyPhase::RebuyApproving,
            initiated_at: Some(now()),
        };
        let mut commands = one_command(send("player", &event.player_root, ReservationCommand::ReserveFunds(reserve)));
        commands.push(send("tournament", &event.tournament_root, ReservationCommand::ProcessRebuy(process)));
        PmResponse {
            commands,
            process_events: one_book(own_event_book(&event.reservation_id, ReservationFlowEvent::RebuyInitiated(initiated))),
        }
    }

    /// `RebuyRequested`: validated against the tournament and the table as
    /// the query reports them (unvalidated without a query), then failed
    /// or started.
    pub fn on_rebuy_requested(&self, event: RebuyRequested, state: &ReservationPMState) -> (r: ReservationResponse)
        ensures
            exists|tour: TournamentView, t: TableView|
                self.tournament_fetched(event.tournament_root@, tour) && self.table_fetched(event.table_root@, t)
                    && rebuy_decided(r, event, tour, t),
            self.has_no_query() ==> rebuy_decided(r, event, unknown_tournament(), unknown_table()),
    {
        let tour = self.fetch_tournament(&event.tournament_root);
        let tbl = self.fetch_table(&event.table_root);
        self.decide_rebuy(&event, &tour, &tbl)
    }

    /// `RebuyProcessed`: the table adds the granted chips at the player's seat.
    pub fn on_rebuy_processed(&self, event: RebuyProcessed, state: &ReservationPMState) -> (r: ReservationResponse)
        ensures
            r.commands@.len() == 1,
            sent_to(r.commands@[0], "table"@, state.table_root@),
            r.commands@[0].command is AddRebuyChips,
            r.commands@[0].command->AddRebuyChips_0.player_root@ == event.player_root@,
            r.commands@[0].command->AddRebuyChips_0.reservation_id@ == event.reservation_id@,
            r.commands@[0].command->AddRebuyChips_0.seat == state.seat,
            r.commands@[0].command->AddRebuyChips_0.amount == event.chips_added,
            r.process_events@.len() == 0,
    {
        let add = AddRebuyChips {
            player_root: copy_bytes(&event.player_root),
            reservation_id: copy_bytes(&event.reservation_id),
            seat: state.seat,
            amount: event.chips_added,
        };
        PmResponse {
            commands: one_command(send("table", &state.table_root, ReservationCommand::AddRebuyChips(add))),
            process_events: Vec::new(),
        }
    }

    /// `RebuyChipsAdded`: the rebuy fee is confirmed and its completion
    /// recorded.
    pub fn on_rebuy_chips_added(&self, event: RebuyChipsAdded, state: &ReservationPMState) -> (r: ReservationResponse)
        ensures
            r.commands@.len() == 1,
            sent_to(r.commands@[0], "reservation"@, event.reservation_id@),
            r.commands@[0].command is ConfirmRebuyFee,
            r.commands@[0].command->ConfirmRebuyFee_0.reservation_id@ == event.reservation_id@,
            r.process_events@.len() == 1,
            own_book(r.process_events@[0], event.reservation_id@),
            recorded(r) is RebuyCompleted,
            recorded(r)->RebuyCompleted_0.player_root@ == event.player_root@,
            recorded(r)->RebuyCompleted_0.tournament_root@ == state.tournament_root@,
            recorded(r)->RebuyCompleted_0.table_root@ == state.table_root@,
            recorded(r)->RebuyCompleted_0.reservation_id@ == event.reservation_id@,
            is_chips(recorded(r)->RebuyCompleted_0.fee, state.fee as int),
            recorded(r)->RebuyCompleted_0.chips_added == event.amount,
            recorded(r)->RebuyCompleted_0.completed_at is Some,
    {
        let confirm = ConfirmRebuyFee { reservation_id: copy_bytes(&event.reservation_id) };
        let completed = RebuyCompleted {
            player_root: copy_bytes(&event.player_root),
            tournament_root: copy_bytes(&state.tournament_root),
            table_root: copy_bytes(&state.table_root),
            reservation_id: copy_bytes(&event.reservation_id),
            fee: chips(state.fee),
            chips_added: event.amount,
            completed_at: Some(now()),
        };
        PmResponse {
            commands: one_command(send("reservation", &event.reservation_id, ReservationCommand::ConfirmRebuyFee(confirm))),
            process_events: one_book(own_event_book(&event.reservation_id, ReservationFlowEvent::RebuyCompleted(completed))),
        }
    }

    /// `RebuyDenied`: the rebuy fails with the tournament's reason.
    pub fn on_rebuy_denied(&self, event: RebuyDenied, state: &ReservationPMState) -> (r: ReservationResponse)
        ensures
            rebuy_failed(
                r,
                event.reservation_id@,
                event.player_root@,
                state.tournament_root@,
                "REBUY_DENIED"@,
                event.reason@,
                "APPROVING"@,
            ),
    {
        self.fail_rebuy(
            &event.reservation_id,
            &event.player_root,
            &state.tournament_root,
            "REBUY_DENIED",
            event.reason.as_str(),
            "APPROVING",
        )
    }

    /// `RebuyFeeConfirmed`: the fee is deducted from the player, the
    /// event's values standing before the state's.
    pub fn on_rebuy_fee_confirmed(&self, event: RebuyFeeConfirmed, state: &ReservationPMState) -> (r: ReservationResponse)
        ensures
            deducted_on_confirm(
                r,
                event.player_root@,
                event.table_root@,
                event.fee,
                event.reservation_id@,
                *state,
                state.table_root@,
                state.fee,
            ),
    {
        let fee = amount_or_default(&event.fee, state.fee);
        let player_root = bytes_or(&event.player_root, &state.player_root);
        let key = bytes_or(&event.table_root, &state.table_root);
        let deduct = DeductReservedFunds { amount: chips(fee), key, reservation_id: copy_bytes(&event.reservation_id) };
        PmResponse {
            commands: one_command(send("player", &player_root, ReservationCommand::DeductReservedFunds(deduct))),
            process_events: Vec::new(),
        }
    }

    /// `RebuyFeeReleased`: the player's reserved funds are released.
    pub fn on_rebuy_fee_released(&self, event: RebuyFeeReleased, state: &ReservationPMState) -> (r: ReservationResponse)
        ensures
            r.commands@.len() == 1,
            sent_to(r.commands@[0], "player"@, or_else(event.player_root@, state.player_root@)),
            releases(r.commands@[0].command, or_else(event.table_root@, state.table_root@)),
            r.process_events@.len() == 0,
    {
        let player_root = bytes_or(&event.player_root, &state.player_root);
        let key = bytes_or(&event.table_root, &state.table_root);
        PmResponse {
            commands: one_command(send("player", &player_root, ReservationCommand::ReleaseFunds(ReleaseFunds { key }))),
            process_events: Vec::new(),
        }
    }

    /// Answers a registration request given what is known of the tournament.
    pub fn decide_registration(&self, event: &RegistrationRequested, tour: &TournamentStateHelper) -> (r:
        ReservationResponse)
        ensures
            registration_decided(r, *event, tour@),
    {
        let event_fee = amount_of(&event.fee);
        if tour.max_players > 0 {
            if !tour.registration_open {
                return self.fail_registration(
                    &event.reservation_id,
                    &event.player_root,
                    &event.tournament_root,
                    "REGISTRATION_CLOSED",
                    "tournament is not accepting registrations",
                    "VALIDATING",
                );
            }
            if tour.registered_count >= tour.max_players {
                return self.fail_registration(
                    &event.reservation_id,
                    &event.player_root,
                    &event.tournament_root,
                    "REGISTRATION_CLOSED",
                    "tournament is full",
                    "VALIDATING",
                );
            }
            if event.player_root.len() > 0 && tour.registered_players.contains_key(
                &hex_encode(event.player_root.as_slice()),
            ) {
                return self.fail_registration(
                    &event.reservation_id,
                    &event.player_root,
                    &event.tournament_root,
                    "ALREADY_REGISTERED",
                    "player is already registered",
                    "VALIDATING",
                );
            }
        }
        let fee = if tour.buy_in > 0 {
            tour.buy_in
        } else {
            event_fee
        };
        let reserve = ReserveFunds { amount: chips(fee), key: copy_bytes(&event.tournament_root) };
        let enroll = EnrollPlayer {
            player_root: copy_bytes(&event.player_root),
            reservation_id: copy_bytes(&event.reservation_id),
        };
        let initiated = RegistrationInitiated {
            player_root: copy_bytes(&event.player_root),
            tournament_root: copy_bytes(&event.tournament_root),
            reservation_id: copy_bytes(&event.reservation_id),
            fee: chips(fee),
            phase: RegistrationPhase::RegistrationEnrolling,
            initiated_at: Some(now()),
        };
        let mut commands = one_command(send("player", &event.player_root, ReservationCommand::ReserveFunds(reserve)));
        commands.push(send("tournament", &event.tournament_root, ReservationCommand::EnrollPlayer(enroll)));
        PmResponse {
            commands,
            process_events: one_book(
                own_event_book(&event.reservation_id, ReservationFlowEvent::RegistrationInitiated(initiated)),
            ),
        }
    }

    /// `RegistrationRequested`: validated against the tournament as the
    /// query reports it (unvalidated without a query), then failed or
    /// started.
    pub fn on_registration_requested(&self, event: RegistrationRequested, state: &ReservationPMState) -> (r:
        ReservationResponse)
        ensures
            exists|tour: TournamentView|
                self.tournament_fetched(event.tournament_root@, tour) && registration_decided(r, event, tour),
            self.has_no_query() ==> registration_decided(r, event, unknown_tournament()),
    {
        let tour = self.fetch_tournament(&event.tournament_root);
        self.decide_registration(&event, &tour)
    }

    /// `TournamentPlayerEnrolled`: the registration fee is confirmed and
    /// its completion recorded.
    pub fn on_player_enrolled(&self, event: TournamentPlayerEnrolled, state: &ReservationPMState) -> (r:
        ReservationResponse)
        ensures
            r.commands@.len() == 1,
            sent_to(r.commands@[0], "reservation"@, event.reservation_id@),
            r.commands@[0].command is ConfirmRegistrationFee,
            r.commands@[0].command->ConfirmRegistrationFee_0.reservation_id@ == event.reservation_id@,
            r.process_events@.len() == 1,
            own_book(r.process_events@[0], event.reservation_id@),
            recorded(r) is RegistrationCompleted,
            recorded(r)->RegistrationCompleted_0.player_root@ == event.player_root@,
            recorded(r)->RegistrationCompleted_0.tournament_root@ == state.tournament_root@,
            recorded(r)->RegistrationCompleted_0.reservation_id@ == event.reservation_id@,
            is_chips(recorded(r)->RegistrationCompleted_0.fee, state.fee as int),
            recorded(r)->RegistrationCompleted_0.starting_stack == event.starting_stack,
            recorded(r)->RegistrationCompleted_0.completed_at is Some,
    {
        let confirm = ConfirmRegistrationFee { reservation_id: copy_bytes(&event.reservation_id) };
        let completed = RegistrationCompleted {
            player_root: copy_bytes(&event.player_root),
            tournament_root: copy_bytes(&state.tournament_root),
            reservation_id: copy_bytes(&event.reservation_id),
            fee: chips(state.fee),
            starting_stack: event.starting_stack,
            completed_at: Some(now()),
        };
        PmResponse {
            commands: one_command(
                send("reservation", &event.reservation_id, ReservationCommand::ConfirmRegistrationFee(confirm)),
            ),
            process_events: one_book(
                own_event_book(&event.reservation_id, ReservationFlowEvent::RegistrationCompleted(completed)),
            ),
        }
    }

    /// `TournamentEnrollmentRejected`: the registration fails with the
    /// tournament's reason.
    pub fn on_enrollment_rejected(&self, event: TournamentEnrollmentRejected, state: &ReservationPMState) -> (r:
        ReservationResponse)
        ensures
            registration_failed(
                r,
                event.reservation_id@,
                event.player_root@,
                state.tournament_root@,
                "ENROLLMENT_REJECTED"@,
                event.reason@,
                "ENROLLING"@,
            ),
    {
        self.fail_registration(
            &event.reservation_id,
            &event.player_root,
            &state.tournament_root,
            "ENROLLMENT_REJECTED",
            event.reason.as_str(),
            "ENROLLING",
        )
    }

    /// `RegistrationFeeConfirmed`: the fee is deducted from the player,
    /// the event's values standing before the state's.
    pub fn on_registration_confirmed(&self, event: RegistrationFeeConfirmed, state: &ReservationPMState) -> (r:
        ReservationResponse)
        ensures
            deducted_on_confirm(
                r,
                event.player_root@,
                event.tournament_root@,
                event.fee,
                event.reservation_id@,
                *state,
                state.tournament_root@,
                state.fee,
            ),
    {
        let fee = amount_or_default(&event.fee, state.fee);
        let player_root = bytes_or(&event.player_root, &state.player_root);
        let key = bytes_or(&event.tournament_root, &state.tournament_root);
        let deduct = DeductReservedFunds { amount: chips(fee), key, reservation_id: copy_bytes(&event.reservation_id) };
        PmResponse {
            commands: one_command(send("player", &player_root, ReservationCommand::DeductReservedFunds(deduct))),
            process_events: Vec::new(),
        }
    }

    /// `RegistrationFeeReleased`: the player's reserved funds are released.
    pub fn on_registration_released(&self, event: RegistrationFeeReleased, state: &ReservationPMState) -> (r:
        ReservationResponse)
        ensures
            r.commands@.len() == 1,
            sent_to(r.commands@[0], "player"@, or_else(event.player_root@, state.player_root@)),
            releases(r.commands@[0].command, or_else(event.tournament_root@, state.tournament_root@)),
            r.process_events@.len() == 0,
    {
        let player_root = bytes_or(&event.player_root, &state.player_root);
        let key = bytes_or(&event.tournament_root, &state.tournament_root);
        PmResponse {
            commands: one_command(send("player", &player_root, ReservationCommand::ReleaseFunds(ReleaseFunds { key }))),
            process_events: Vec::new(),
        }
    }
}

// ---------------------------------------------------------------------------
// State rebuilt from the recorded events
// ---------------------------------------------------------------------------

impl ReservationPm {
    /// `BuyInInitiated`: the flow is a buy-in with the event's terms.
    pub fn apply_buy_in_initiated(state: &mut ReservationPMState, event: BuyInInitiated)
        ensures
            final(state).kind == Kind::BuyIn,
            final(state).reservation_id == event.reservation_id,
            final(state).player_root == event.player_root,
            final(state).table_root == event.table_root,
            final(state).seat == event.seat,
            final(state).amount == amount_or_zero(event.amount),
            final(state).phase == FlowPhase::BuyIn(event.phase),
            final(state).tournament_root == old(state).tournament_root,
            final(state).fee == old(state).fee,
    {
        state.kind = Kind::BuyIn;
        state.amount = amount_of(&event.amount);
        state.seat = event.seat;
        state.phase = FlowPhase::BuyIn(event.phase);
        state.reservation_id = event.reservation_id;
        state.player_root = event.player_root;
        state.table_root = event.table_root;
    }

    /// `BuyInCompleted`: the buy-in is complete.
    pub fn apply_buy_in_completed(state: &mut ReservationPMState, event: BuyInCompleted)
        ensures
            *final(state) == (ReservationPMState { phase: FlowPhase::BuyIn(BuyInPhase::BuyInCompleted), ..*old(state) }),
    {
        state.phase = FlowPhase::BuyIn(BuyInPhase::BuyInCompleted);
    }

    /// `BuyInFailed`: the buy-in failed.
    pub fn apply_buy_in_failed(state: &mut ReservationPMState, event: BuyInFailed)
        ensures
            *final(state) == (ReservationPMState { phase: FlowPhase::BuyIn(BuyInPhase::BuyInFailed), ..*old(state) }),
    {
        state.phase = FlowPhase::BuyIn(BuyInPhase::BuyInFailed);
    }

    /// `RebuyInitiated`: the flow is a rebuy with the event's terms.
    pub fn apply_rebuy_initiated(state: &mut ReservationPMState, event: RebuyInitiated)
        ensures
            final(state).kind == Kind::Rebuy,
            final(state).reservation_id == event.reservation_id,
            final(state).player_root == event.player_root,
            final(state).tournament_root == event.tournament_root,
            final(state).table_root == event.table_root,
            final(state).seat == event.seat,
            final(state).fee == amount_or_zero(event.fee),
            final(state).phase == FlowPhase::Rebuy(event.phase),
            final(state).amount == old(state).amount,
    {
        state.kind = Kind::Rebuy;
        state.fee = amount_of(&event.fee);
        state.seat = event.seat;
        state.phase = FlowPhase::Rebuy(event.phase);
        state.reservation_id = event.reservation_id;
        state.player_root = event.player_root;
        state.tournament_root = event.tournament_root;
        state.table_root = event.table_root;
    }

    /// `RebuyCompleted`: the rebuy is complete.
    pub fn apply_rebuy_completed(state: &mut ReservationPMState, event: RebuyCompleted)
        ensures
            *final(state) == (ReservationPMState { phase: FlowPhase::Rebuy(RebuyPhase::RebuyCompleted), ..*old(state) }),
    {
        state.phase = FlowPhase::Rebuy(RebuyPhase::RebuyCompleted);
    }

    /// `RebuyFailed`: the rebuy failed.
    pub fn apply_rebuy_failed(state: &mut ReservationPMState, event: RebuyFailed)
        ensures
            *final(state) == (ReservationPMState { phase: FlowPhase::Rebuy(RebuyPhase::RebuyFailed), ..*old(state) }),
    {
        state.phase = FlowPhase::Rebuy(RebuyPhase::RebuyFailed);
    }

    /// `RegistrationInitiated`: the flow is a registration with the
    /// event's terms.
    pub fn apply_registration_initiated(state: &mut ReservationPMState, event: RegistrationInitiated)
        ensures
            final(state).kind == Kind::Registration,
            final(state).reservation_id == event.reservation_id,
            final(state).player_root == event.player_root,
            final(state).tournament_root == event.tournament_root,
            final(state).fee == amount_or_zero(event.fee),
            final(state).phase == FlowPhase::Registration(event.phase),
            final(state).table_root == old(state).table_root,
            final(state).seat == old(state).seat,
            final(state).amount == old(state).amount,
    {
        state.kind = Kind::Registration;
        state.fee = amount_of(&event.fee);
        state.phase = FlowPhase::Registration(event.phase);
        state.reservation_id = event.reservation_id;
        state.player_root = event.player_root;
        state.tournament_root = event.tournament_root;
    }

    /// `RegistrationCompleted`: the registration is complete.
    pub fn apply_registration_completed(state: &mut ReservationPMState, event: RegistrationCompleted)
        ensures
            *final(state) == (ReservationPMState {
                phase: FlowPhase::Registration(RegistrationPhase::RegistrationCompleted),
                ..*old(state)
            }),
    {
        state.phase = FlowPhase::Registration(RegistrationPhase::RegistrationCompleted);
    }

    /// `RegistrationFailed`: the registration failed.
    pub fn apply_registration_failed(state: &mut ReservationPMState, event: RegistrationFailed)
        ensures
            *final(state) == (ReservationPMState {
                phase: FlowPhase::Registration(RegistrationPhase::RegistrationFailed),
                ..*old(state)
            }),
    {
        state.phase = FlowPhase::Registration(RegistrationPhase::RegistrationFailed);
    }
}

// ---------------------------------------------------------------------------
// Laws
// ---------------------------------------------------------------------------

/// A buy-in deducts what it reserved: once a started buy-in's recorded
/// event is applied, a confirmation that carries no terms of its own
/// deducts the reserved amount, under the reserved key, from the player
/// whose funds were reserved.
pub proof fn law_buy_in_deducts_what_it_reserved(
    started: ReservationResponse,
    request: BuyInRequested,
    amount: int,
    state: ReservationPMState,
    confirm: BuyInConfirmed,
    answer: ReservationResponse,
)
    requires
        buy_in_started(started, request, amount),
        state.player_root@ == recorded(started)->BuyInInitiated_0.player_root@,
        state.table_root@ == recorded(started)->BuyInInitiated_0.table_root@,
        state.amount == amount_or_zero(recorded(started)->BuyInInitiated_0.amount),
        confirm.player_root@.len() == 0,
        confirm.table_root@.len() == 0,
        confirm.amount is None,
        deducted_on_confirm(answer, confirm.player_root@, confirm.table_root@, confirm.amount, confirm.reservation_id@, state, state.table_root@, state.amount),
    ensures
        answer.commands@[0].root@ == started.commands@[0].root@,
        answer.commands@[0].command->DeductReservedFunds_0.key@ == started.commands@[0].command->ReserveFunds_0.key@,
        amount_or_zero(answer.commands@[0].command->DeductReservedFunds_0.amount) == amount_or_zero(
            started.commands@[0].command->ReserveFunds_0.amount,
        ),
{
}

/// A rebuy deducts what it reserved: its fee, under the table it reserved
/// against, from the same player (a confirmation without terms of its own).
pub proof fn law_rebuy_deducts_what_it_reserved(
    started: ReservationResponse,
    request: RebuyRequested,
    fee: int,
    chips_to_add: i64,
    state: ReservationPMState,
    confirm: RebuyFeeConfirmed,
    answer: ReservationResponse,
)
    requires
        rebuy_started(started, request, fee, chips_to_add),
        state.player_root@ == recorded(started)->RebuyInitiated_0.player_root@,
        state.table_root@ == recorded(started)->RebuyInitiated_0.table_root@,
        state.fee == amount_or_zero(recorded(started)->RebuyInitiated_0.fee),
        confirm.player_root@.len() == 0,
        confirm.table_root@.len() == 0,
        confirm.fee is None,
        deducted_on_confirm(answer, confirm.player_root@, confirm.table_root@, confirm.fee, confirm.reservation_id@, state, state.table_root@, state.fee),
    ensures
        answer.commands@[0].root@ == started.commands@[0].root@,
        answer.commands@[0].command->DeductReservedFunds_0.key@ == started.commands@[0].command->ReserveFunds_0.key@,
        amount_or_zero(answer.commands@[0].command->DeductReservedFunds_0.amount) == amount_or_zero(
            started.commands@[0].command->ReserveFunds_0.amount,
        ),
{
}

/// A registration deducts what it reserved: its fee, under the tournament
/// it reserved against, from the same player (a confirmation without terms
/// of its own).
pub proof fn law_registration_deducts_what_it_reserved(
    started: ReservationResponse,
    request: RegistrationRequested,
    fee: int,
    state: ReservationPMState,
    confirm: RegistrationFeeConfirmed,
    answer: ReservationResponse,
)
    requires
        registration_started(started, request, fee),
        state.player_root@ == recorded(started)->RegistrationInitiated_0.player_root@,
        state.tournament_root@ == recorded(started)->RegistrationInitiated_0.tournament_root@,
        state.fee == amount_or_zero(recorded(started)->RegistrationInitiated_0.fee),
        confirm.player_root@.len() == 0,
        confirm.tournament_root@.len() == 0,
        confirm.fee is None,
        deducted_on_confirm(answer, confirm.player_root@, confirm.tournament_root@, confirm.fee, confirm.reservation_id@, state, state.tournament_root@, state.fee),
    ensures
        answer.commands@[0].root@ == started.commands@[0].root@,
        answer.commands@[0].command->DeductReservedFunds_0.key@ == started.commands@[0].command->ReserveFunds_0.key@,
        amount_or_zero(answer.commands@[0].command->DeductReservedFunds_0.amount) == amount_or_zero(
            started.commands@[0].command->ReserveFunds_0.amount,
        ),
{
}

/// The key a flow reserves under is the one its state names once the
/// recorded start is applied: the table for a buy-in.
pub proof fn law_buy_in_key_is_the_table(started: ReservationResponse, request: BuyInRequested, amount: int, state: ReservationPMState)
    requires
        buy_in_started(started, request, amount),
        state.kind == Kind::BuyIn,
        state.table_root@ == recorded(started)->BuyInInitiated_0.table_root@,
    ensures
        reservation_key_of(state) == started.commands@[0].command->ReserveFunds_0.key@,
{
}

/// ... and the tournament for a registration.
pub proof fn law_registration_key_is_the_tournament(
    started: ReservationResponse,
    request: RegistrationRequested,
    fee: int,
    state: ReservationPMState,
)
    requires
        registration_started(started, request, fee),
        state.kind == Kind::Registration,
        state.tournament_root@ == recorded(started)->RegistrationInitiated_0.tournament_root@,
    ensures
        reservation_key_of(state) == started.commands@[0].command->ReserveFunds_0.key@,
{
}

} // verus!
