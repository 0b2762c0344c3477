//! One process manager per flow — buy-in, rebuy, registration — each
//! driving its table or tournament step and settling the fee with the
//! player, with its state rebuilt from the events it records.

use vstd::prelude::*;
use crate::envelope::{copy_bytes, make_command, now, CommandBook, EventBook, EventPage, SequenceType};
use crate::flow_messages::{
    AddRebuyChips, BuyInCompleted, BuyInFailed, BuyInInitiated, BuyInPhase, BuyInPhaseChanged,
    EnrollPlayer, OrchestrationFailure, PlayerSeated, ProcessRebuy, RebuyChipsAdded, RebuyCompleted,
    RebuyDenied, RebuyFailed, RebuyInitiated, RebuyPhase, RebuyPhaseChanged, RebuyProcessed,
    RegistrationCompleted, RegistrationFailed, RegistrationInitiated, RegistrationPhase,
    RegistrationPhaseChanged, SeatPlayer, SeatingRejected, TournamentEnrollmentRejected,
    TournamentPlayerEnrolled,
};
use crate::messages::{
    amount_of, amount_or_zero, is_usd, usd, BuyInRequested, ConfirmBuyIn, ConfirmRebuyFee,
    ConfirmRegistrationFee, RebuyRequested, RegistrationRequested, ReleaseBuyIn, ReleaseRebuyFee,
    ReleaseRegistrationFee,
};
use crate::reservation_pm::{failure_is, sent_to, ReservationCommand, ReservationFlowEvent};

verus! {

/// What a flow handler hands back: its commands and, when there is one,
/// the event it records.
#[derive(Debug, Clone, PartialEq, Eq)]
pub struct FlowResponse {
    pub commands: Vec<CommandBook<ReservationCommand>>,
    pub process_events: Option<EventBook<ReservationFlowEvent>>,
}

/// `r` sends one command and records one event (sequence 0, no cover).
pub open spec fn one_and_records(r: FlowResponse) -> bool {
    &&& r.commands@.len() == 1
    &&& r.process_events is Some
    &&& r.process_events->0.cover is None
    &&& r.process_events->0.pages@.len() == 1
    &&& r.process_events->0.pages@[0].sequence == SequenceType::Sequence(0)
    &&& r.process_events->0.pages@[0].created_at is Some
}

/// The event `r` records.
pub open spec fn recorded_event(r: FlowResponse) -> ReservationFlowEvent {
    r.process_events->0.pages@[0].event
}

fn recorded_book(event: ReservationFlowEvent) -> (b: Option<EventBook<ReservationFlowEvent>>)
    ensures
        b is Some,
        b->0.cover is None,
        b->0.pages@.len() == 1,
        b->0.pages@[0].sequence == SequenceType::Sequence(0),
        b->0.pages@[0].created_at is Some,
        b->0.pages@[0].event == event,
{
    let mut pages: Vec<EventPage<ReservationFlowEvent>> = Vec::new();
    pages.push(EventPage { sequence: SequenceType::Sequence(0), created_at: Some(now()), event });
    Some(EventBook { cover: None, pages })
}

fn send_one(domain: &str, root: &Vec<u8>, command: ReservationCommand) -> (v: Vec<CommandBook<ReservationCommand>>)
    ensures
        v@.len() == 1,
        sent_to(v@[0], domain@, root@),
        v@[0].command == command,
{
    let mut v: Vec<CommandBook<ReservationCommand>> = Vec::new();
    v.push(make_command(domain, root, false, command));
    v
}

fn failure(code: &str, message: &String, phase: &str) -> (f: Option<OrchestrationFailure>)
    ensures
        failure_is(f, code@, message@, phase@),
{
    Some(OrchestrationFailure {
        code: code.to_owned(),
        message: message.clone(),
        failed_at_phase: phase.to_owned(),
        failed_at: Some(now()),
    })
}

// ---------------------------------------------------------------------------
// Buy-in
// ---------------------------------------------------------------------------

/// The state of one buy-in.
#[derive(Debug, Clone, Default)]
pub struct BuyInState {
    pub reservation_id: Vec<u8>,
    pub player_root: Vec<u8>,
    pub table_root: Vec<u8>,
    pub seat: i32,
    pub amount: i64,
    pub phase: BuyInPhase,
}

impl BuyInState {
    /// Whether the flow has started: it has a reservation id.
    pub fn is_initialized(&self) -> (b: bool)
        ensures
            b == (self.reservation_id@.len() > 0),
    {
        self.reservation_id.len() > 0
    }
}

/// `BuyInRequested`: the table is asked to seat the reservation and
/// `BuyInInitiated` is recorded, in dollars; the player is not named yet.
/// The answer to the event, as `handle_buy_in_requested` gives it.
pub open spec fn buy_in_requested_answer(r: FlowResponse, event: BuyInRequested) -> bool {
    &&& one_and_records(r)
    &&& sent_to(r.commands@[0], "table"@, event.table_root@)
    &&& r.commands@[0].command is SeatPlayer
    &&& r.commands@[0].command->SeatPlayer_0.player_root@.len() == 0
    &&& r.commands@[0].command->SeatPlayer_0.reservation_id@ == event.reservation_id@
    &&& r.commands@[0].command->SeatPlayer_0.seat == event.seat
    &&& r.commands@[0].command->SeatPlayer_0.amount == amount_or_zero(event.amount)
    &&& recorded_event(r) is BuyInInitiated
    &&& recorded_event(r)->BuyInInitiated_0.player_root@.len() == 0
    &&& recorded_event(r)->BuyInInitiated_0.table_root@ == event.table_root@
    &&& recorded_event(r)->BuyInInitiated_0.reservation_id@ == event.reservation_id@
    &&& recorded_event(r)->BuyInInitiated_0.seat == event.seat
    &&& is_usd(recorded_event(r)->BuyInInitiated_0.amount, amount_or_zero(event.amount))
    &&& recorded_event(r)->BuyInInitiated_0.phase == BuyInPhase::BuyInSeating
    &&& recorded_event(r)->BuyInInitiated_0.initiated_at is Some
}

pub fn handle_buy_in_requested(event: BuyInRequested) -> (r: FlowResponse)
    ensures
        buy_in_requested_answer(r, event),
{
    let amount = amount_of(&event.amount);
    let seat = SeatPlayer {
        player_root: Vec::new(),
        reservation_id: copy_bytes(&event.reservation_id),
        seat: event.seat,
        amount,
    };
    let commands = send_one("table", &event.table_root, ReservationCommand::SeatPlayer(seat));
    let initiated = BuyInInitiated {
        player_root: Vec::new(),
        table_root: event.table_root,
        reservation_id: event.reservation_id,
        seat: event.seat,
        amount: usd(amount),
        phase: BuyInPhase::BuyInSeating,
        initiated_at: Some(now()),
    };
    FlowResponse { commands, process_events: recorded_book(ReservationFlowEvent::BuyInInitiated(initiated)) }
}

/// `PlayerSeated`: the player confirms the buy-in and `BuyInCompleted`
/// is recorded with the seated stack, in dollars.
/// The answer to the event, as `handle_player_seated` gives it.
pub open spec fn player_seated_answer(r: FlowResponse, event: PlayerSeated) -> bool {
    &&& one_and_records(r)
    &&& sent_to(r.commands@[0], "player"@, event.player_root@)
    &&& r.commands@[0].command is ConfirmBuyIn
    &&& r.commands@[0].command->ConfirmBuyIn_0.reservation_id@ == event.reservation_id@
    &&& recorded_event(r) is BuyInCompleted
    &&& recorded_event(r)->BuyInCompleted_0.player_root@ == event.player_root@
    &&& recorded_event(r)->BuyInCompleted_0.table_root@.len() == 0
    &&& recorded_event(r)->BuyInCompleted_0.reservation_id@ == event.reservation_id@
    &&& recorded_event(r)->BuyInCompleted_0.seat == event.seat_position
    &&& is_usd(recorded_event(r)->BuyInCompleted_0.amount, event.stack as int)
    &&& recorded_event(r)->BuyInCompleted_0.completed_at is Some
}

pub fn handle_player_seated(event: PlayerSeated) -> (r: FlowResponse)
    ensures
        player_seated_answer(r, event),
{
    let confirm = ConfirmBuyIn { reservation_id: copy_bytes(&event.reservation_id) };
    let commands = send_one("player", &event.player_root, ReservationCommand::ConfirmBuyIn(confirm));
    let completed = BuyInCompleted {
        player_root: event.player_root,
        table_root: Vec::new(),
        reservation_id: event.reservation_id,
        seat: event.seat_position,
        amount: usd(event.stack),
        completed_at: Some(now()),
    };
    FlowResponse { commands, process_events: recorded_book(ReservationFlowEvent::BuyInCompleted(completed)) }
}

/// `SeatingRejected`: the player releases the buy-in and `BuyInFailed`
/// is recorded with the table's reason.
/// The answer to the event, as `handle_seating_rejected` gives it.
pub open spec fn seating_rejected_answer(r: FlowResponse, event: SeatingRejected) -> bool {
    &&& one_and_records(r)
    &&& sent_to(r.commands@[0], "player"@, event.player_root@)
    &&& r.commands@[0].command is ReleaseBuyIn
    &&& r.commands@[0].command->ReleaseBuyIn_0.reservation_id@ == event.reservation_id@
    &&& r.commands@[0].command->ReleaseBuyIn_0.reason@ == event.reason@
    &&& recorded_event(r) is BuyInFailed
    &&& recorded_event(r)->BuyInFailed_0.player_root@ == event.player_root@
    &&& recorded_event(r)->BuyInFailed_0.table_root@.len() == 0
    &&& recorded_event(r)->BuyInFailed_0.reservation_id@ == event.reservation_id@
    &&& failure_is(recorded_event(r)->BuyInFailed_0.failure, "SEATING_REJECTED"@, event.reason@, "SEATING"@)
}

pub fn handle_seating_rejected(event: SeatingRejected) -> (r: FlowResponse)
    ensures
        seating_rejected_answer(r, event),
{
    let release = ReleaseBuyIn { reservation_id: copy_bytes(&event.reservation_id), reason: event.reason.clone() };
    let commands = send_one("player", &event.player_root, ReservationCommand::ReleaseBuyIn(release));
    let failed = BuyInFailed {
        player_root: copy_bytes(&event.player_root),
        table_root: Vec::new(),
        reservation_id: copy_bytes(&event.reservation_id),
        failure: failure("SEATING_REJECTED", &event.reason, "SEATING"),
    };
    FlowResponse { commands, process_events: recorded_book(ReservationFlowEvent::BuyInFailed(failed)) }
}

/// `BuyInInitiated`: the buy-in's terms and phase.
pub fn apply_buy_in_initiated(state: &mut BuyInState, event: BuyInInitiated)
    ensures
        final(state).phase == event.phase,
        final(state).amount == amount_or_zero(event.amount),
        final(state).reservation_id == event.reservation_id,
        final(state).player_root == event.player_root,
        final(state).table_root == event.table_root,
        final(state).seat == event.seat,
{
    state.phase = event.phase;
    state.amount = amount_of(&event.amount);
    state.reservation_id = event.reservation_id;
    state.player_root = event.player_root;
    state.table_root = event.table_root;
    state.seat = event.seat;
}

/// `BuyInPhaseChanged`: only the phase moves.
pub fn apply_buy_in_phase_changed(state: &mut BuyInState, event: BuyInPhaseChanged)
    ensures
        *final(state) == (BuyInState { phase: event.to_phase, ..*old(state) }),
{
    state.phase = event.to_phase;
}

/// `BuyInCompleted`: the buy-in is complete.
pub fn apply_buy_in_completed(state: &mut BuyInState, event: BuyInCompleted)
    ensures
        *final(state) == (BuyInState { phase: BuyInPhase::BuyInCompleted, ..*old(state) }),
{
    state.phase = BuyInPhase::BuyInCompleted;
}

/// `BuyInFailed`: the buy-in failed.
pub fn apply_buy_in_failed(state: &mut BuyInState, event: BuyInFailed)
    ensures
        *final(state) == (BuyInState { phase: BuyInPhase::BuyInFailed, ..*old(state) }),
{
    state.phase = BuyInPhase::BuyInFailed;
}

/// The buy-in process manager.
pub struct BuyInPm;

impl BuyInPm {
    pub fn on_buy_in_requested(&self, event: BuyInRequested, state: &BuyInState) -> (r: FlowResponse)
        ensures
            buy_in_requested_answer(r, event),
    {
        handle_buy_in_requested(event)
    }

    pub fn on_player_seated(&self, event: PlayerSeated, state: &BuyInState) -> (r: FlowResponse)
        ensures
            player_seated_answer(r, event),
    {
        handle_player_seated(event)
    }

    pub fn on_seating_rejected(&self, event: SeatingRejected, state: &BuyInState) -> (r: FlowResponse)
        ensures
            seating_rejected_answer(r, event),
    {
        handle_seating_rejected(event)
    }

    pub fn apply_initiated(state: &mut BuyInState, event: BuyInInitiated)
        ensures
            final(state).phase == event.phase,
            final(state).amount == amount_or_zero(event.amount),
            final(state).reservation_id == event.reservation_id,
            final(state).player_root == event.player_root,
            final(state).table_root == event.table_root,
            final(state).seat == event.seat,
    {
        apply_buy_in_initiated(state, event);
    }

    pub fn apply_phase_changed(state: &mut BuyInState, event: BuyInPhaseChanged)
        ensures
            *final(state) == (BuyInState { phase: event.to_phase, ..*old(state) }),
    {
        apply_buy_in_phase_changed(state, event);
    }

    pub fn apply_completed(state: &mut BuyInState, event: BuyInCompleted)
        ensures
            *final(state) == (BuyInState { phase: BuyInPhase::BuyInCompleted, ..*old(state) }),
    {
        apply_buy_in_completed(state, event);
    }

    pub fn apply_failed(state: &mut BuyInState, event: BuyInFailed)
        ensures
            *final(state) == (BuyInState { phase: BuyInPhase::BuyInFailed, ..*old(state) }),
    {
        apply_buy_in_failed(state, event);
    }
}

// ---------------------------------------------------------------------------
// Rebuy
// ---------------------------------------------------------------------------

/// The state of one rebuy.
#[derive(Debug, Clone, Default)]
pub struct RebuyState {
    pub reservation_id: Vec<u8>,
    pub player_root: Vec<u8>,
    pub tournament_root: Vec<u8>,
    pub table_root: Vec<u8>,
    pub seat: i32,
    pub fee: i64,
    pub chips_to_add: i64,
    pub phase: RebuyPhase,
}

impl RebuyState {
    /// Whether the flow has started: it has a reservation id.
    pub fn is_initialized(&self) -> (b: bool)
        ensures
            b == (self.reservation_id@.len() > 0),
    {
        self.reservation_id.len() > 0
    }
}

/// `RebuyRequested`: the tournament is asked to process the rebuy and
/// `RebuyInitiated` is recorded with the fee, in dollars, and no chips
/// granted yet; the player is not named yet.
/// The answer to the event, as `handle_rebuy_requested` gives it.
pub open spec fn rebuy_requested_answer(r: FlowResponse, event: RebuyRequested) -> bool {
    &&& one_and_records(r)
    &&& sent_to(r.commands@[0], "tournament"@, event.tournament_root@)
    &&& r.commands@[0].command is ProcessRebuy
    &&& r.commands@[0].command->ProcessRebuy_0.player_root@.len() == 0
    &&& r.commands@[0].command->ProcessRebuy_0.reservation_id@ == event.reservation_id@
    &&& recorded_event(r) is RebuyInitiated
    &&& recorded_event(r)->RebuyInitiated_0.player_root@.len() == 0
    &&& recorded_event(r)->RebuyInitiated_0.tournament_root@ == event.tournament_root@
    &&& recorded_event(r)->RebuyInitiated_0.table_root@ == event.table_root@
    &&& recorded_event(r)->RebuyInitiated_0.reservation_id@ == event.reservation_id@
    &&& recorded_event(r)->RebuyInitiated_0.seat == event.seat
    &&& is_usd(recorded_event(r)->RebuyInitiated_0.fee, amount_or_zero(event.fee))
    &&& recorded_event(r)->RebuyInitiated_0.chips_to_add == 0
    &&& recorded_event(r)->RebuyInitiated_0.phase == RebuyPhase::RebuyApproving
    &&& recorded_event(r)->RebuyInitiated_0.initiated_at is Some
}

pub fn handle_rebuy_requested(event: RebuyRequested) -> (r: FlowResponse)
    ensures
        rebuy_requested_answer(r, event),
{
    let fee = amount_of(&event.fee);
    let process = ProcessRebuy { player_root: Vec::new(), reservation_id: copy_bytes(&event.reservation_id) };
    let commands = send_one("tournament", &event.tournament_root, ReservationCommand::ProcessRebuy(process));
    let initiated = RebuyInitiated {
        player_root: Vec::new(),
        tournament_root: event.tournament_root,
        table_root: event.table_root,
        reservation_id: event.reservation_id,
        seat: event.seat,
        fee: usd(fee),
        chips_to_add: 0,
        phase: RebuyPhase::RebuyApproving,
        initiated_at: Some(now()),
    };
    FlowResponse { commands, process_events: recorded_book(ReservationFlowEvent::RebuyInitiated(initiated)) }
}

/// `RebuyProcessed`: the table adds the granted chips at the rebuy's seat;
/// nothing is recorded.
/// The answer to the event, as `handle_rebuy_processed` gives it.
pub open spec fn rebuy_processed_answer(r: FlowResponse, event: RebuyProcessed, state: RebuyState) -> bool {
    &&& r.commands@.len() == 1
    &&& r.process_events is None
    &&& sent_to(r.commands@[0], "table"@, state.table_root@)
    &&& r.commands@[0].command is AddRebuyChips
    &&& r.commands@[0].command->AddRebuyChips_0.player_root@ == event.player_root@
    &&& r.commands@[0].command->AddRebuyChips_0.reservation_id@ == event.reservation_id@
    &&& r.commands@[0].command->AddRebuyChips_0.seat == state.seat
    &&& r.commands@[0].command->AddRebuyChips_0.amount == event.chips_added
}

pub fn handle_rebuy_processed(event: RebuyProcessed, state: &RebuyState) -> (r: FlowResponse)
    ensures
        rebuy_processed_answer(r, event, *state),
{
    let add = AddRebuyChips {
        player_root: event.player_root,
        reservation_id: event.reservation_id,
        seat: state.seat,
        amount: event.chips_added,
    };
    FlowResponse { commands: send_one("table", &state.table_root, ReservationCommand::AddRebuyChips(add)), process_events: None }
}

/// `RebuyDenied`: the player releases the fee and `RebuyFailed` is
/// recorded with the tournament's reason.
/// The answer to the event, as `handle_rebuy_denied` gives it.
pub open spec fn rebuy_denied_answer(r: FlowResponse, event: RebuyDenied) -> bool {
    &&& one_and_records(r)
    &&& sent_to(r.commands@[0], "player"@, event.player_root@)
    &&& r.commands@[0].command is ReleaseRebuyFee
    &&& r.commands@[0].command->ReleaseRebuyFee_0.reservation_id@ == event.reservation_id@
    &&& r.commands@[0].command->ReleaseRebuyFee_0.reason@ == event.reason@
    &&& recorded_event(r) is RebuyFailed
    &&& recorded_event(r)->RebuyFailed_0.player_root@ == event.player_root@
    &&& recorded_event(r)->RebuyFailed_0.tournament_root@.len() == 0
    &&& recorded_event(r)->RebuyFailed_0.reservation_id@ == event.reservation_id@
    &&& failure_is(recorded_event(r)->RebuyFailed_0.failure, "REBUY_DENIED"@, event.reason@, "APPROVING"@)
}

pub fn handle_rebuy_denied(event: RebuyDenied) -> (r: FlowResponse)
    ensures
        rebuy_denied_answer(r, event),
{
    let release = ReleaseRebuyFee { reservation_id: copy_bytes(&event.reservation_id), reason: event.reason.clone() };
    let commands = send_one("player", &event.player_root, ReservationCommand::ReleaseRebuyFee(release));
    let failed = RebuyFailed {
        player_root: copy_bytes(&event.player_root),
        tournament_root: Vec::new(),
        reservation_id: copy_bytes(&event.reservation_id),
        failure: failure("REBUY_DENIED", &event.reason, "APPROVING"),
    };
    FlowResponse { commands, process_events: recorded_book(ReservationFlowEvent::RebuyFailed(failed)) }
}

/// `RebuyChipsAdded`: the player confirms the fee and `RebuyCompleted` is
/// recorded with the chips added (also stated as the fee, in dollars).
/// The answer to the event, as `handle_chips_added` gives it.
pub open spec fn chips_added_answer(r: FlowResponse, event: RebuyChipsAdded) -> bool {
    &&& one_and_records(r)
    &&& sent_to(r.commands@[0], "player"@, event.player_root@)
    &&& r.commands@[0].command is ConfirmRebuyFee
    &&& r.commands@[0].command->ConfirmRebuyFee_0.reservation_id@ == event.reservation_id@
    &&& recorded_event(r) is RebuyCompleted
    &&& recorded_event(r)->RebuyCompleted_0.player_root@ == event.player_root@
    &&& recorded_event(r)->RebuyCompleted_0.tournament_root@.len() == 0
    &&& recorded_event(r)->RebuyCompleted_0.table_root@.len() == 0
    &&& recorded_event(r)->RebuyCompleted_0.reservation_id@ == event.reservation_id@
    &&& recorded_event(r)->RebuyCompleted_0.chips_added == event.amount
    &&& is_usd(recorded_event(r)->RebuyCompleted_0.fee, event.amount as int)
    &&& recorded_event(r)->RebuyCompleted_0.completed_at is Some
}

pub fn handle_chips_added(event: RebuyChipsAdded) -> (r: FlowResponse)
    ensures
        chips_added_answer(r, event),
{
    let confirm = ConfirmRebuyFee { reservation_id: copy_bytes(&event.reservation_id) };
    let commands = send_one("player", &event.player_root, ReservationCommand::ConfirmRebuyFee(confirm));
    let completed = RebuyCompleted {
        player_root: event.player_root,
        tournament_root: Vec::new(),
        table_root: Vec::new(),
        reservation_id: event.reservation_id,
        chips_added: event.amount,
        fee: usd(event.amount),
        completed_at: Some(now()),
    };
    FlowResponse { commands, process_events: recorded_book(ReservationFlowEvent::RebuyCompleted(completed)) }
}

/// `RebuyInitiated`: the rebuy's terms and phase.
pub fn apply_rebuy_initiated(state: &mut RebuyState, event: RebuyInitiated)
    ensures
        final(state).phase == event.phase,
        final(state).chips_to_add == event.chips_to_add,
        final(state).fee == amount_or_zero(event.fee),
        final(state).reservation_id == event.reservation_id,
        final(state).player_root == event.player_root,
        final(state).tournament_root == event.tournament_root,
        final(state).table_root == event.table_root,
        final(state).seat == event.seat,
{
    state.phase = event.phase;
    state.chips_to_add = event.chips_to_add;
    state.fee = amount_of(&event.fee);
    state.reservation_id = event.reservation_id;
    state.player_root = event.player_root;
    state.tournament_root = event.tournament_root;
    state.table_root = event.table_root;
    state.seat = event.seat;
}

/// `RebuyPhaseChanged`: only the phase moves.
pub fn apply_rebuy_phase_changed(state: &mut RebuyState, event: RebuyPhaseChanged)
    ensures
        *final(state) == (RebuyState { phase: event.to_phase, ..*old(state) }),
{
    state.phase = event.to_phase;
}

/// `RebuyCompleted`: the rebuy is complete.
pub fn apply_rebuy_completed(state: &mut RebuyState, event: RebuyCompleted)
    ensures
        *final(state) == (RebuyState { phase: RebuyPhase::RebuyCompleted, ..*old(state) }),
{
    state.phase = RebuyPhase::RebuyCompleted;
}

/// `RebuyFailed`: the rebuy failed.
pub fn apply_rebuy_failed(state: &mut RebuyState, event: RebuyFailed)
    ensures
        *final(state) == (RebuyState { phase: RebuyPhase::RebuyFailed, ..*old(state) }),
{
    state.phase = RebuyPhase::RebuyFailed;
}

/// The rebuy process manager.
pub struct RebuyPm;

impl RebuyPm {
    pub fn on_rebuy_requested(&self, event: RebuyRequested, state: &RebuyState) -> (r: FlowResponse)
        ensures
            rebuy_requested_answer(r, event),
    {
        handle_rebuy_requested(event)
    }

    pub fn on_rebuy_processed(&self, event: RebuyProcessed, state: &RebuyState) -> (r: FlowResponse)
        ensures
            rebuy_processed_answer(r, event, *state),
    {
        handle_rebuy_processed(event, state)
    }

    pub fn on_rebuy_denied(&self, event: RebuyDenied, state: &RebuyState) -> (r: FlowResponse)
        ensures
            rebuy_denied_answer(r, event),
    {
        handle_rebuy_denied(event)
    }

    pub fn on_chips_added(&self, event: RebuyChipsAdded, state: &RebuyState) -> (r: FlowResponse)
        ensures
            chips_added_answer(r, event),
    {
        handle_chips_added(event)
    }

    pub fn apply_initiated(state: &mut RebuyState, event: RebuyInitiated)
        ensures
            final(state).phase == event.phase,
            final(state).chips_to_add == event.chips_to_add,
            final(state).fee == amount_or_zero(event.fee),
            final(state).reservation_id == event.reservation_id,
            final(state).player_root == event.player_root,
            final(state).tournament_root == event.tournament_root,
            final(state).table_root == event.table_root,
            final(state).seat == event.seat,
    {
        apply_rebuy_initiated(state, event);
    }

    pub fn apply_phase_changed(state: &mut RebuyState, event: RebuyPhaseChanged)
        ensures
            *final(state) == (RebuyState { phase: event.to_phase, ..*old(state) }),
    {
        apply_rebuy_phase_changed(state, event);
    }

    pub fn apply_completed(state: &mut RebuyState, event: RebuyCompleted)
        ensures
            *final(state) == (RebuyState { phase: RebuyPhase::RebuyCompleted, ..*old(state) }),
    {
        apply_rebuy_completed(state, event);
    }

    pub fn apply_failed(state: &mut RebuyState, event: RebuyFailed)
        ensures
            *final(state) == (RebuyState { phase: RebuyPhase::RebuyFailed, ..*old(state) }),
    {
        apply_rebuy_failed(state, event);
    }
}

// ---------------------------------------------------------------------------
// Registration
// ---------------------------------------------------------------------------

/// The state of one tournament registration.
#[derive(Debug, Clone, Default)]
pub struct RegistrationState {
    pub reservation_id: Vec<u8>,
    pub player_root: Vec<u8>,
    pub tournament_root: Vec<u8>,
    pub fee: i64,
    pub phase: RegistrationPhase,
}

impl RegistrationState {
    /// Whether the flow has started: it has a reservation id.
    pub fn is_initialized(&self) -> (b: bool)
        ensures
            b == (self.reservation_id@.len() > 0),
    {
        self.reservation_id.len() > 0
    }
}

/// `RegistrationRequested`: the tournament is asked to enroll and
/// `RegistrationInitiated` is recorded with the fee, in dollars; the player
/// is not named yet.
/// The answer to the event, as `handle_registration_requested` gives it.
pub open spec fn registration_requested_answer(r: FlowResponse, event: RegistrationRequested) -> bool {
    &&& one_and_records(r)
    &&& sent_to(r.commands@[0], "tournament"@, event.tournament_root@)
    &&& r.commands@[0].command is EnrollPlayer
    &&& r.commands@[0].command->EnrollPlayer_0.player_root@.len() == 0
    &&& r.commands@[0].command->EnrollPlayer_0.reservation_id@ == event.reservation_id@
    &&& recorded_event(r) is RegistrationInitiated
    &&& recorded_event(r)->RegistrationInitiated_0.player_root@.len() == 0
    &&& recorded_event(r)->RegistrationInitiated_0.tournament_root@ == event.tournament_root@
    &&& recorded_event(r)->RegistrationInitiated_0.reservation_id@ == event.reservation_id@
    &&& is_usd(recorded_event(r)->RegistrationInitiated_0.fee, amount_or_zero(event.fee))
    &&& recorded_event(r)->RegistrationInitiated_0.phase == RegistrationPhase::RegistrationEnrolling
    &&& recorded_event(r)->RegistrationInitiated_0.initiated_at is Some
}

pub fn handle_registration_requested(event: RegistrationRequested) -> (r: FlowResponse)
    ensures
        registration_requested_answer(r, event),
{
    let fee = amount_of(&event.fee);
    let enroll = EnrollPlayer { player_root: Vec::new(), reservation_id: copy_bytes(&event.reservation_id) };
    let commands = send_one("tournament", &event.tournament_root, ReservationCommand::EnrollPlayer(enroll));
    let initiated = RegistrationInitiated {
        player_root: Vec::new(),
        tournament_root: event.tournament_root,
        reservation_id: event.reservation_id,
        fee: usd(fee),
        phase: RegistrationPhase::RegistrationEnrolling,
        initiated_at: Some(now()),
    };
    FlowResponse { commands, process_events: recorded_book(ReservationFlowEvent::RegistrationInitiated(initiated)) }
}

/// `TournamentPlayerEnrolled`: the player confirms the fee and
/// `RegistrationCompleted` is recorded with the fee paid, in dollars.
/// The answer to the event, as `handle_player_enrolled` gives it.
pub open spec fn player_enrolled_answer(r: FlowResponse, event: TournamentPlayerEnrolled) -> bool {
    &&& one_and_records(r)
    &&& sent_to(r.commands@[0], "player"@, event.player_root@)
    &&& r.commands@[0].command is ConfirmRegistrationFee
    &&& r.commands@[0].command->ConfirmRegistrationFee_0.reservation_id@ == event.reservation_id@
    &&& recorded_event(r) is RegistrationCompleted
    &&& recorded_event(r)->RegistrationCompleted_0.player_root@ == event.player_root@
    &&& recorded_event(r)->RegistrationCompleted_0.tournament_root@.len() == 0
    &&& recorded_event(r)->RegistrationCompleted_0.reservation_id@ == event.reservation_id@
    &&& is_usd(recorded_event(r)->RegistrationCompleted_0.fee, event.fee_paid as int)
    &&& recorded_event(r)->RegistrationCompleted_0.starting_stack == event.starting_stack
    &&& recorded_event(r)->RegistrationCompleted_0.completed_at is Some
}

pub fn handle_player_enrolled(event: TournamentPlayerEnrolled) -> (r: FlowResponse)
    ensures
        player_enrolled_answer(r, event),
{
    let confirm = ConfirmRegistrationFee { reservation_id: copy_bytes(&event.reservation_id) };
    let commands = send_one("player", &event.player_root, ReservationCommand::ConfirmRegistrationFee(confirm));
    let completed = RegistrationCompleted {
        player_root: event.player_root,
        tournament_root: Vec::new(),
        reservation_id: event.reservation_id,
        fee: usd(event.fee_paid),
        starting_stack: event.starting_stack,
        completed_at: Some(now()),
    };
    FlowResponse { commands, process_events: recorded_book(ReservationFlowEvent::RegistrationCompleted(completed)) }
}

/// `TournamentEnrollmentRejected`: the player releases the fee and
/// `RegistrationFailed` is recorded with the tournament's reason.
/// The answer to the event, as `handle_enrollment_rejected` gives it.
pub open spec fn enrollment_rejected_answer(r: FlowResponse, event: TournamentEnrollmentRejected) -> bool {
    &&& one_and_records(r)
    &&& sent_to(r.commands@[0], "player"@, event.player_root@)
    &&& r.commands@[0].command is ReleaseRegistrationFee
    &&& r.commands@[0].command->ReleaseRegistrationFee_0.reservation_id@ == event.reservation_id@
    &&& r.commands@[0].command->ReleaseRegistrationFee_0.reason@ == event.reason@
    &&& recorded_event(r) is RegistrationFailed
    &&& recorded_event(r)->RegistrationFailed_0.player_root@ == event.player_root@
    &&& recorded_event(r)->RegistrationFailed_0.tournament_root@.len() == 0
    &&& recorded_event(r)->RegistrationFailed_0.reservation_id@ == event.reservation_id@
    &&& failure_is(recorded_event(r)->RegistrationFailed_0.failure, "ENROLLMENT_REJECTED"@, event.reason@, "ENROLLING"@)
}

pub fn handle_enrollment_rejected(event: TournamentEnrollmentRejected) -> (r: FlowResponse)
    ensures
        enrollment_rejected_answer(r, event),
{
    let release = ReleaseRegistrationFee { reservation_id: copy_bytes(&event.reservation_id), reason: event.reason.clone() };
    let commands = send_one("player", &event.player_root, ReservationCommand::ReleaseRegistrationFee(release));
    let failed = RegistrationFailed {
        player_root: copy_bytes(&event.player_root),
        tournament_root: Vec::new(),
        reservation_id: copy_bytes(&event.reservation_id),
        failure: failure("ENROLLMENT_REJECTED", &event.reason, "ENROLLING"),
    };
    FlowResponse { commands, process_events: recorded_book(ReservationFlowEvent::RegistrationFailed(failed)) }
}

/// `RegistrationInitiated`: the registration's terms and phase.
pub fn apply_registration_initiated(state: &mut RegistrationState, event: RegistrationInitiated)
    ensures
        final(state).phase == event.phase,
        final(state).fee == amount_or_zero(event.fee),
        final(state).reservation_id == event.reservation_id,
        final(state).player_root == event.player_root,
        final(state).tournament_root == event.tournament_root,
{
    state.phase = event.phase;
    state.fee = amount_of(&event.fee);
    state.reservation_id = event.reservation_id;
    state.player_root = event.player_root;
    state.tournament_root = event.tournament_root;
}

/// `RegistrationPhaseChanged`: only the phase moves.
pub fn apply_registration_phase_changed(state: &mut RegistrationState, event: RegistrationPhaseChanged)
    ensures
        *final(state) == (RegistrationState { phase: event.to_phase, ..*old(state) }),
{
    state.phase = event.to_phase;
}

/// `RegistrationCompleted`: the registration is complete.
pub fn apply_registration_completed(state: &mut RegistrationState, event: RegistrationCompleted)
    ensures
        *final(state) == (RegistrationState { phase: RegistrationPhase::RegistrationCompleted, ..*old(state) }),
{
    state.phase = RegistrationPhase::RegistrationCompleted;
}

/// `RegistrationFailed`: the registration failed.
pub fn apply_registration_failed(state: &mut RegistrationState, event: RegistrationFailed)
    ensures
        *final(state) == (RegistrationState { phase: RegistrationPhase::RegistrationFailed, ..*old(state) }),
{
    state.phase = RegistrationPhase::RegistrationFailed;
}

/// The registration process manager.
pub struct RegistrationPm;

impl RegistrationPm {
    pub fn on_registration_requested(&self, event: RegistrationRequested, state: &RegistrationState) -> (r:
        FlowResponse)
        ensures
            registration_requested_answer(r, event),
    {
        handle_registration_requested(event)
    }

    pub fn on_player_enrolled(&self, event: TournamentPlayerEnrolled, state: &RegistrationState) -> (r: FlowResponse)
        ensures
            player_enrolled_answer(r, event),
    {
        handle_player_enrolled(event)
    }

    pub fn on_enrollment_rejected(&self, event: TournamentEnrollmentRejected, state: &RegistrationState) -> (r:
        FlowResponse)
        ensures
            enrollment_rejected_answer(r, event),
    {
        handle_enrollment_rejected(event)
    }

    pub fn apply_initiated(state: &mut RegistrationState, event: RegistrationInitiated)
        ensures
            final(state).phase == event.phase,
            final(state).fee == amount_or_zero(event.fee),
            final(state).reservation_id == event.reservation_id,
            final(state).player_root == event.player_root,
            final(state).tournament_root == event.tournament_root,
    {
        apply_registration_initiated(state, event);
    }

    pub fn apply_phase_changed(state: &mut RegistrationState, event: RegistrationPhaseChanged)
        ensures
            *final(state) == (RegistrationState { phase: event.to_phase, ..*old(state) }),
    {
        apply_registration_phase_changed(state, event);
    }

    pub fn apply_completed(state: &mut RegistrationState, event: RegistrationCompleted)
        ensures
            *final(state) == (RegistrationState { phase: RegistrationPhase::RegistrationCompleted, ..*old(state) }),
    {
        apply_registration_completed(state, event);
    }

    pub fn apply_failed(state: &mut RegistrationState, event: RegistrationFailed)
        ensures
            *final(state) == (RegistrationState { phase: RegistrationPhase::RegistrationFailed, ..*old(state) }),
    {
        apply_registration_failed(state, event);
    }
}

} // verus!
