//! Reservation aggregate: the pending records of the buy-in, tournament
//! registration and rebuy lifecycles.
//!
//! Each lifecycle has three commands: `Initiate*` opens a pending record
//! (its `*Requested` event carries a fresh reservation id), `Confirm*`
//! closes it on success and `Release*` closes it on failure. Funds live on
//! the player aggregate; a process manager turns these events into player
//! commands.

use std::sync::Arc;
use vstd::prelude::*;
use angzarr_client::QueryClient;
use crate::envelope::{
    copy_bytes, first_of, new_uuid_bytes, now, single_page, single_page_book, EventBook,
};
use crate::hexfmt::{hex_encode, hex_lower};
use crate::keyed::StrMap;
use crate::messages::{
    amount_of, amount_or_zero, chips, copy_currency, is_chips, BuyInConfirmed, BuyInRequested,
    BuyInReservationReleased, ConfirmBuyIn, ConfirmRebuyFee, ConfirmRegistrationFee,
    InitiateBuyIn, InitiateRebuy, InitiateTournamentRegistration, RebuyFeeConfirmed,
    RebuyFeeReleased, RebuyRequested, RegistrationFeeConfirmed, RegistrationFeeReleased,
    RegistrationRequested, ReleaseBuyIn, ReleaseRebuyFee, ReleaseRegistrationFee,
    ReservationEvent,
};
use crate::rejection::{invalid_arg, refused, rejected, ErrorStatus, Rejection};

verus! {

/// A buy-in awaiting its seat.
#[derive(Debug, Clone, PartialEq, Eq, Default)]
pub struct PendingBuyIn {
    pub player_root: Vec<u8>,
    pub table_root: Vec<u8>,
    pub seat: i32,
    pub amount: i64,
}

/// A tournament registration awaiting enrollment.
#[derive(Debug, Clone, PartialEq, Eq, Default)]
pub struct PendingRegistration {
    pub player_root: Vec<u8>,
    pub tournament_root: Vec<u8>,
    pub fee: i64,
}

/// A rebuy awaiting its chips.
#[derive(Debug, Clone, PartialEq, Eq, Default)]
pub struct PendingRebuy {
    pub player_root: Vec<u8>,
    pub tournament_root: Vec<u8>,
    pub table_root: Vec<u8>,
    pub seat: i32,
    pub fee: i64,
}

/// Pending records keyed by the hex of their reservation id.
#[derive(Debug)]
pub struct ReservationState {
    pub pending_buy_ins: StrMap<PendingBuyIn>,
    pub pending_registrations: StrMap<PendingRegistration>,
    pub pending_rebuys: StrMap<PendingRebuy>,
}

impl Default for ReservationState {
    fn default() -> (s: Self)
        ensures
            s.pending_buy_ins@ == Map::<Seq<char>, PendingBuyIn>::empty(),
            s.pending_registrations@ == Map::<Seq<char>, PendingRegistration>::empty(),
            s.pending_rebuys@ == Map::<Seq<char>, PendingRebuy>::empty(),
    {
        ReservationState {
            pending_buy_ins: StrMap::new(),
            pending_registrations: StrMap::new(),
            pending_rebuys: StrMap::new(),
        }
    }
}

/// `angzarr_client::QueryClient`, the event-query client the aggregate can
/// be handed; carried opaquely.
#[verifier::external_type_specification]
#[verifier::external_body]
pub struct ExQueryClient(angzarr_client::QueryClient);

/// The reservation aggregate. It can hold a query client for reads of the
/// player aggregate; the handlers do not consult it.
#[derive(Clone, Default)]
pub struct Reservation {
    query_client: Option<Arc<QueryClient>>,
}

/// A book with one event at `seq`: `r` is `Ok` with such a book.
pub open spec fn emitted(r: Result<EventBook<ReservationEvent>, Rejection>, seq: u32) -> bool {
    &&& r is Ok
    &&& single_page(r->Ok_0, seq)
}

pub open spec fn event_of(r: Result<EventBook<ReservationEvent>, Rejection>) -> ReservationEvent {
    first_of(r->Ok_0)
}

pub open spec fn initiate_buy_in_outcome(cmd: InitiateBuyIn, seq: u32, r: Result<EventBook<ReservationEvent>, Rejection>) -> bool {
    if cmd.player_root@.len() == 0 {
        refused(r, ErrorStatus::PreconditionFailed, "player_root is required"@)
    } else if cmd.table_root@.len() == 0 {
        refused(r, ErrorStatus::PreconditionFailed, "table_root is required"@)
    } else if amount_or_zero(cmd.amount) <= 0 {
        refused(r, ErrorStatus::InvalidArgument, "amount must be positive"@)
    } else {
        &&& emitted(r, seq)
        &&& event_of(r) is BuyInRequested
        &&& {
            let e = event_of(r)->BuyInRequested_0;
            &&& e.reservation_id@.len() == 16
            &&& e.player_root == cmd.player_root
            &&& e.table_root == cmd.table_root
            &&& e.seat == cmd.seat
            &&& e.amount == cmd.amount
            &&& e.requested_at is Some
        }
    }
}

pub open spec fn confirm_buy_in_outcome(cmd: ConfirmBuyIn, state: ReservationState, seq: u32, r: Result<EventBook<ReservationEvent>, Rejection>) -> bool {
    let key = hex_lower(cmd.reservation_id@);
    if cmd.reservation_id@.len() == 0 {
        refused(r, ErrorStatus::PreconditionFailed, "reservation_id is required"@)
    } else if !state.pending_buy_ins@.contains_key(key) {
        refused(r, ErrorStatus::PreconditionFailed, "No pending buy-in with this reservation_id"@)
    } else {
        let p = state.pending_buy_ins@[key];
        &&& emitted(r, seq)
        &&& event_of(r) is BuyInConfirmed
        &&& {
            let e = event_of(r)->BuyInConfirmed_0;
            &&& e.reservation_id == cmd.reservation_id
            &&& e.player_root@ == p.player_root@
            &&& e.table_root@ == p.table_root@
            &&& e.seat == p.seat
            &&& is_chips(e.amount, p.amount as int)
            &&& e.confirmed_at is Some
        }
    }
}

pub open spec fn release_buy_in_outcome(cmd: ReleaseBuyIn, state: ReservationState, seq: u32, r: Result<EventBook<ReservationEvent>, Rejection>) -> bool {
    let key = hex_lower(cmd.reservation_id@);
    if cmd.reservation_id@.len() == 0 {
        refused(r, ErrorStatus::PreconditionFailed, "reservation_id is required"@)
    } else if !state.pending_buy_ins@.contains_key(key) {
        refused(r, ErrorStatus::PreconditionFailed, "No pending buy-in with this reservation_id"@)
    } else {
        let p = state.pending_buy_ins@[key];
        &&& emitted(r, seq)
        &&& event_of(r) is BuyInReservationReleased
        &&& {
            let e = event_of(r)->BuyInReservationReleased_0;
            &&& e.reservation_id == cmd.reservation_id
            &&& e.reason == cmd.reason
            &&& e.released_at is Some
            &&& e.player_root@ == p.player_root@
            &&& e.table_root@ == p.table_root@
            &&& is_chips(e.amount, p.amount as int)
        }
    }
}

pub open spec fn initiate_registration_outcome(cmd: InitiateTournamentRegistration, seq: u32, r: Result<EventBook<ReservationEvent>, Rejection>) -> bool {
    if cmd.player_root@.len() == 0 {
        refused(r, ErrorStatus::PreconditionFailed, "player_root is required"@)
    } else if cmd.tournament_root@.len() == 0 {
        refused(r, ErrorStatus::PreconditionFailed, "tournament_root is required"@)
    } else {
        &&& emitted(r, seq)
        &&& event_of(r) is RegistrationRequested
        &&& {
            let e = event_of(r)->RegistrationRequested_0;
            &&& e.reservation_id@.len() == 16
            &&& e.player_root == cmd.player_root
            &&& e.tournament_root == cmd.tournament_root
            &&& e.fee is None
            &&& e.requested_at is Some
        }
    }
}

pub open spec fn confirm_registration_outcome(cmd: ConfirmRegistrationFee, state: ReservationState, seq: u32, r: Result<EventBook<ReservationEvent>, Rejection>) -> bool {
    let key = hex_lower(cmd.reservation_id@);
    if cmd.reservation_id@.len() == 0 {
        refused(r, ErrorStatus::PreconditionFailed, "reservation_id is required"@)
    } else if !state.pending_registrations@.contains_key(key) {
        refused(r, ErrorStatus::PreconditionFailed, "No pending registration with this reservation_id"@)
    } else {
        let p = state.pending_registrations@[key];
        &&& emitted(r, seq)
        &&& event_of(r) is RegistrationFeeConfirmed
        &&& {
            let e = event_of(r)->RegistrationFeeConfirmed_0;
            &&& e.reservation_id == cmd.reservation_id
            &&& e.player_root@ == p.player_root@
            &&& e.tournament_root@ == p.tournament_root@
            &&& is_chips(e.fee, p.fee as int)
            &&& e.confirmed_at is Some
        }
    }
}

pub open spec fn release_registration_outcome(cmd: ReleaseRegistrationFee, state: ReservationState, seq: u32, r: Result<EventBook<ReservationEvent>, Rejection>) -> bool {
    let key = hex_lower(cmd.reservation_id@);
    if cmd.reservation_id@.len() == 0 {
        refused(r, ErrorStatus::PreconditionFailed, "reservation_id is required"@)
    } else if !state.pending_registrations@.contains_key(key) {
        refused(r, ErrorStatus::PreconditionFailed, "No pending registration with this reservation_id"@)
    } else {
        let p = state.pending_registrations@[key];
        &&& emitted(r, seq)
        &&& event_of(r) is RegistrationFeeReleased
        &&& {
            let e = event_of(r)->RegistrationFeeReleased_0;
            &&& e.reservation_id == cmd.reservation_id
            &&& e.reason == cmd.reason
            &&& e.released_at is Some
            &&& e.player_root@ == p.player_root@
            &&& e.tournament_root@ == p.tournament_root@
            &&& is_chips(e.fee, p.fee as int)
        }
    }
}

pub open spec fn initiate_rebuy_outcome(cmd: InitiateRebuy, seq: u32, r: Result<EventBook<ReservationEvent>, Rejection>) -> bool {
    if cmd.player_root@.len() == 0 {
        refused(r, ErrorStatus::PreconditionFailed, "player_root is required"@)
    } else if cmd.tournament_root@.len() == 0 {
        refused(r, ErrorStatus::PreconditionFailed, "tournament_root is required"@)
    } else if cmd.table_root@.len() == 0 {
        refused(r, ErrorStatus::PreconditionFailed, "table_root is required"@)
    } else {
        &&& emitted(r, seq)
        &&& event_of(r) is RebuyRequested
        &&& {
            let e = event_of(r)->RebuyRequested_0;
            &&& e.reservation_id@.len() == 16
            &&& e.player_root == cmd.player_root
            &&& e.tournament_root == cmd.tournament_root
            &&& e.table_root == cmd.table_root
            &&& e.seat == cmd.seat
            &&& e.fee is None
            &&& e.requested_at is Some
        }
    }
}

pub open spec fn confirm_rebuy_outcome(cmd: ConfirmRebuyFee, state: ReservationState, seq: u32, r: Result<EventBook<ReservationEvent>, Rejection>) -> bool {
    let key = hex_lower(cmd.reservation_id@);
    if cmd.reservation_id@.len() == 0 {
        refused(r, ErrorStatus::PreconditionFailed, "reservation_id is required"@)
    } else if !state.pending_rebuys@.contains_key(key) {
        refused(r, ErrorStatus::PreconditionFailed, "No pending rebuy with this reservation_id"@)
    } else {
        let p = state.pending_rebuys@[key];
        &&& emitted(r, seq)
        &&& event_of(r) is RebuyFeeConfirmed
        &&& {
            let e = event_of(r)->RebuyFeeConfirmed_0;
            &&& e.reservation_id == cmd.reservation_id
            &&& e.player_root@ == p.player_root@
            &&& e.tournament_root@ == p.tournament_root@
            &&& e.table_root@ == p.table_root@
            &&& is_chips(e.fee, p.fee as int)
            &&& e.chips_added == 0
            &&& e.confirmed_at is Some
        }
    }
}

pub open spec fn release_rebuy_outcome(cmd: ReleaseRebuyFee, state: ReservationState, seq: u32, r: Result<EventBook<ReservationEvent>, Rejection>) -> bool {
    let key = hex_lower(cmd.reservation_id@);
    if cmd.reservation_id@.len() == 0 {
        refused(r, ErrorStatus::PreconditionFailed, "reservation_id is required"@)
    } else if !state.pending_rebuys@.contains_key(key) {
        refused(r, ErrorStatus::PreconditionFailed, "No pending rebuy with this reservation_id"@)
    } else {
        let p = state.pending_rebuys@[key];
        &&& emitted(r, seq)
        &&& event_of(r) is RebuyFeeReleased
        &&& {
            let e = event_of(r)->RebuyFeeReleased_0;
            &&& e.reservation_id == cmd.reservation_id
            &&& e.reason == cmd.reason
            &&& e.released_at is Some
            &&& e.player_root@ == p.player_root@
            &&& e.tournament_root@ == p.tournament_root@
            &&& e.table_root@ == p.table_root@
            &&& is_chips(e.fee, p.fee as int)
        }
    }
}

impl Reservation {
    /// An aggregate without a query client.
    pub fn new() -> (r: Self)
        ensures
            r.held_client() is None,
    {
        Reservation { query_client: None }
    }

    /// An aggregate holding `query_client`.
    pub fn with_query_client(query_client: Arc<QueryClient>) -> (r: Self)
        ensures
            r.held_client() == Some(query_client),
    {
        Reservation { query_client: Some(query_client) }
    }

    /// The query client held, if any.
    pub closed spec fn held_client(&self) -> Option<Arc<QueryClient>> {
        self.query_client
    }

    /// The query client, when one is held.
    pub fn query_client(&self) -> (r: Option<&Arc<QueryClient>>)
        ensures
            r is Some <==> self.held_client() is Some,
            r matches Some(q) ==> self.held_client() == Some(*q),
    {
        match &self.query_client {
            Some(q) => Some(q),
            None => None,
        }
    }

    /// `InitiateBuyIn`: refused without a player root, a table root, or a
    /// positive amount; otherwise `BuyInRequested` under a fresh
    /// reservation id.
    pub fn on_initiate_buy_in(&self, cmd: InitiateBuyIn, state: &ReservationState, seq: u32) -> (r: Result<EventBook<ReservationEvent>, Rejection>)
        ensures
            initiate_buy_in_outcome(cmd, seq, r),
    {
        if cmd.player_root.len() == 0 {
            return Err(rejected("player_root is required"));
        }
        if cmd.table_root.len() == 0 {
            return Err(rejected("table_root is required"));
        }
        let amount = amount_of(&cmd.amount);
        if amount <= 0 {
            return Err(invalid_arg("amount must be positive"));
        }
        let event = BuyInRequested {
            reservation_id: new_uuid_bytes(),
            player_root: cmd.player_root,
            table_root: cmd.table_root,
            seat: cmd.seat,
            amount: cmd.amount,
            requested_at: Some(now()),
        };
        Ok(single_page_book(seq, ReservationEvent::BuyInRequested(event)))
    }

    /// `ConfirmBuyIn`: refused without a reservation id or a pending
    /// buy-in under it; otherwise `BuyInConfirmed` with the pending terms.
    pub fn on_confirm_buy_in(&self, cmd: ConfirmBuyIn, state: &ReservationState, seq: u32) -> (r: Result<EventBook<ReservationEvent>, Rejection>)
        ensures
            confirm_buy_in_outcome(cmd, *state, seq, r),
    {
        if cmd.reservation_id.len() == 0 {
            return Err(rejected("reservation_id is required"));
        }
        let key = hex_encode(cmd.reservation_id.as_slice());
        let pending = match state.pending_buy_ins.get(&key) {
            Some(p) => p,
            None => return Err(rejected("No pending buy-in with this reservation_id")),
        };
        let event = BuyInConfirmed {
            reservation_id: cmd.reservation_id,
            player_root: copy_bytes(&pending.player_root),
            table_root: copy_bytes(&pending.table_root),
            seat: pending.seat,
            amount: chips(pending.amount),
            confirmed_at: Some(now()),
        };
        Ok(single_page_book(seq, ReservationEvent::BuyInConfirmed(event)))
    }

    /// `ReleaseBuyIn`: refused without a reservation id or a pending
    /// buy-in under it; otherwise `BuyInReservationReleased` with the
    /// pending terms and the reason.
    pub fn on_release_buy_in(&self, cmd: ReleaseBuyIn, state: &ReservationState, seq: u32) -> (r: Result<EventBook<ReservationEvent>, Rejection>)
        ensures
            release_buy_in_outcome(cmd, *state, seq, r),
    {
        if cmd.reservation_id.len() == 0 {
            return Err(rejected("reservation_id is required"));
        }
        let key = hex_encode(cmd.reservation_id.as_slice());
        let pending = match state.pending_buy_ins.get(&key) {
            Some(p) => p,
            None => return Err(rejected("No pending buy-in with this reservation_id")),
        };
        let event = BuyInReservationReleased {
            reservation_id: cmd.reservation_id,
            reason: cmd.reason,
            released_at: Some(now()),
            player_root: copy_bytes(&pending.player_root),
            table_root: copy_bytes(&pending.table_root),
            amount: chips(pending.amount),
        };
        Ok(single_page_book(seq, ReservationEvent::BuyInReservationReleased(event)))
    }

    /// `InitiateTournamentRegistration`: refused without a player root or a
    /// tournament root; otherwise `RegistrationRequested` under a fresh
    /// reservation id (the fee is left for the process manager).
    pub fn on_initiate_registration(&self, cmd: InitiateTournamentRegistration, state: &ReservationState, seq: u32) -> (r: Result<EventBook<ReservationEvent>, Rejection>)
        ensures
            initiate_registration_outcome(cmd, seq, r),
    {
        if cmd.player_root.len() == 0 {
            return Err(rejected("player_root is required"));
        }
        if cmd.tournament_root.len() == 0 {
            return Err(rejected("tournament_root is required"));
        }
        let event = RegistrationRequested {
            reservation_id: new_uuid_bytes(),
            player_root: cmd.player_root,
            tournament_root: cmd.tournament_root,
            fee: None,
            requested_at: Some(now()),
        };
        Ok(single_page_book(seq, ReservationEvent::RegistrationRequested(event)))
    }

    /// `ConfirmRegistrationFee`: refused without a reservation id or a
    /// pending registration under it; otherwise `RegistrationFeeConfirmed`.
    pub fn on_confirm_registration(&self, cmd: ConfirmRegistrationFee, state: &ReservationState, seq: u32) -> (r: Result<EventBook<ReservationEvent>, Rejection>)
        ensures
            confirm_registration_outcome(cmd, *state, seq, r),
    {
        if cmd.reservation_id.len() == 0 {
            return Err(rejected("reservation_id is required"));
        }
        let key = hex_encode(cmd.reservation_id.as_slice());
        let pending = match state.pending_registrations.get(&key) {
            Some(p) => p,
            None => return Err(rejected("No pending registration with this reservation_id")),
        };
        let event = RegistrationFeeConfirmed {
            reservation_id: cmd.reservation_id,
            player_root: copy_bytes(&pending.player_root),
            tournament_root: copy_bytes(&pending.tournament_root),
            fee: chips(pending.fee),
            confirmed_at: Some(now()),
        };
        Ok(single_page_book(seq, ReservationEvent::RegistrationFeeConfirmed(event)))
    }

    /// `ReleaseRegistrationFee`: refused without a reservation id or a
    /// pending registration under it; otherwise `RegistrationFeeReleased`.
    pub fn on_release_registration(&self, cmd: ReleaseRegistrationFee, state: &ReservationState, seq: u32) -> (r: Result<EventBook<ReservationEvent>, Rejection>)
        ensures
            release_registration_outcome(cmd, *state, seq, r),
    {
        if cmd.reservation_id.len() == 0 {
            return Err(rejected("reservation_id is required"));
        }
        let key = hex_encode(cmd.reservation_id.as_slice());
        let pending = match state.pending_registrations.get(&key) {
            Some(p) => p,
            None => return Err(rejected("No pending registration with this reservation_id")),
        };
        let event = RegistrationFeeReleased {
            reservation_id: cmd.reservation_id,
            reason: cmd.reason,
            released_at: Some(now()),
            player_root: copy_bytes(&pending.player_root),
            tournament_root: copy_bytes(&pending.tournament_root),
            fee: chips(pending.fee),
        };
        Ok(single_page_book(seq, ReservationEvent::RegistrationFeeReleased(event)))
    }

    /// `InitiateRebuy`: refused without a player, tournament or table root;
    /// otherwise `RebuyRequested` under a fresh reservation id (the fee is
    /// left for the process manager).
    pub fn on_initiate_rebuy(&self, cmd: InitiateRebuy, state: &ReservationState, seq: u32) -> (r: Result<EventBook<ReservationEvent>, Rejection>)
        ensures
            initiate_rebuy_outcome(cmd, seq, r),
    {
        if cmd.player_root.len() == 0 {
            return Err(rejected("player_root is required"));
        }
        if cmd.tournament_root.len() == 0 {
            return Err(rejected("tournament_root is required"));
        }
        if cmd.table_root.len() == 0 {
            return Err(rejected("table_root is required"));
        }
        let event = RebuyRequested {
            reservation_id: new_uuid_bytes(),
            player_root: cmd.player_root,
            tournament_root: cmd.tournament_root,
            table_root: cmd.table_root,
            seat: cmd.seat,
            fee: None,
            requested_at: Some(now()),
        };
        Ok(single_page_book(seq, ReservationEvent::RebuyRequested(event)))
    }

    /// `ConfirmRebuyFee`: refused without a reservation id or a pending
    /// rebuy under it; otherwise `RebuyFeeConfirmed` (chips are filled in
    /// later by the process manager).
    pub fn on_confirm_rebuy(&self, cmd: ConfirmRebuyFee, state: &ReservationState, seq: u32) -> (r: Result<EventBook<ReservationEvent>, Rejection>)
        ensures
            confirm_rebuy_outcome(cmd, *state, seq, r),
    {
        if cmd.reservation_id.len() == 0 {
            return Err(rejected("reservation_id is required"));
        }
        let key = hex_encode(cmd.reservation_id.as_slice());
        let pending = match state.pending_rebuys.get(&key) {
            Some(p) => p,
            None => return Err(rejected("No pending rebuy with this reservation_id")),
        };
        let event = RebuyFeeConfirmed {
            reservation_id: cmd.reservation_id,
            player_root: copy_bytes(&pending.player_root),
            tournament_root: copy_bytes(&pending.tournament_root),
            table_root: copy_bytes(&pending.table_root),
            fee: chips(pending.fee),
            chips_added: 0,
            confirmed_at: Some(now()),
        };
        Ok(single_page_book(seq, ReservationEvent::RebuyFeeConfirmed(event)))
    }

    /// `ReleaseRebuyFee`: refused without a reservation id or a pending
    /// rebuy under it; otherwise `RebuyFeeReleased`.
    pub fn on_release_rebuy(&self, cmd: ReleaseRebuyFee, state: &ReservationState, seq: u32) -> (r: Result<EventBook<ReservationEvent>, Rejection>)
        ensures
            release_rebuy_outcome(cmd, *state, seq, r),
    {
        if cmd.reservation_id.len() == 0 {
            return Err(rejected("reservation_id is required"));
        }
        let key = hex_encode(cmd.reservation_id.as_slice());
        let pending = match state.pending_rebuys.get(&key) {
            Some(p) => p,
            None => return Err(rejected("No pending rebuy with this reservation_id")),
        };
        let event = RebuyFeeReleased {
            reservation_id: cmd.reservation_id,
            reason: cmd.reason,
            released_at: Some(now()),
            player_root: copy_bytes(&pending.player_root),
            tournament_root: copy_bytes(&pending.tournament_root),
            table_root: copy_bytes(&pending.table_root),
            fee: chips(pending.fee),
        };
        Ok(single_page_book(seq, ReservationEvent::RebuyFeeReleased(event)))
    }

    // --- appliers ---

    /// `BuyInRequested` opens a pending buy-in under its reservation id.
    pub fn apply_buy_in_requested(state: &mut ReservationState, event: BuyInRequested)
        ensures
            final(state).pending_buy_ins@ == old(state).pending_buy_ins@.insert(
                hex_lower(event.reservation_id@),
                PendingBuyIn {
                    player_root: event.player_root,
                    table_root: event.table_root,
                    seat: event.seat,
                    amount: amount_or_zero(event.amount) as i64,
                },
            ),
            final(state).pending_registrations@ == old(state).pending_registrations@,
            final(state).pending_rebuys@ == old(state).pending_rebuys@,
    {
        let amount = amount_of(&event.amount);
        let key = hex_encode(event.reservation_id.as_slice());
        state.pending_buy_ins.insert(
            key,
            PendingBuyIn { player_root: event.player_root, table_root: event.table_root, seat: event.seat, amount },
        );
    }

    /// `BuyInConfirmed` closes the pending buy-in.
    pub fn apply_buy_in_confirmed(state: &mut ReservationState, event: BuyInConfirmed)
        ensures
            final(state).pending_buy_ins@ == old(state).pending_buy_ins@.remove(hex_lower(event.reservation_id@)),
            final(state).pending_registrations@ == old(state).pending_registrations@,
            final(state).pending_rebuys@ == old(state).pending_rebuys@,
    {
        let key = hex_encode(event.reservation_id.as_slice());
        state.pending_buy_ins.remove(&key);
    }

    /// `BuyInReservationReleased` closes the pending buy-in.
    pub fn apply_buy_in_released(state: &mut ReservationState, event: BuyInReservationReleased)
        ensures
            final(state).pending_buy_ins@ == old(state).pending_buy_ins@.remove(hex_lower(event.reservation_id@)),
            final(state).pending_registrations@ == old(state).pending_registrations@,
            final(state).pending_rebuys@ == old(state).pending_rebuys@,
    {
        let key = hex_encode(event.reservation_id.as_slice());
        state.pending_buy_ins.remove(&key);
    }

    /// `RegistrationRequested` opens a pending registration.
    pub fn apply_registration_requested(state: &mut ReservationState, event: RegistrationRequested)
        ensures
            final(state).pending_registrations@ == old(state).pending_registrations@.insert(
                hex_lower(event.reservation_id@),
                PendingRegistration {
                    player_root: event.player_root,
                    tournament_root: event.tournament_root,
                    fee: amount_or_zero(event.fee) as i64,
                },
            ),
            final(state).pending_buy_ins@ == old(state).pending_buy_ins@,
            final(state).pending_rebuys@ == old(state).pending_rebuys@,
    {
        let fee = amount_of(&event.fee);
        let key = hex_encode(event.reservation_id.as_slice());
        state.pending_registrations.insert(
            key,
            PendingRegistration { player_root: event.player_root, tournament_root: event.tournament_root, fee },
        );
    }

    /// `RegistrationFeeConfirmed` closes the pending registration.
    pub fn apply_registration_confirmed(state: &mut ReservationState, event: RegistrationFeeConfirmed)
        ensures
            final(state).pending_registrations@ == old(state).pending_registrations@.remove(hex_lower(event.reservation_id@)),
            final(state).pending_buy_ins@ == old(state).pending_buy_ins@,
            final(state).pending_rebuys@ == old(state).pending_rebuys@,
    {
        let key = hex_encode(event.reservation_id.as_slice());
        state.pending_registrations.remove(&key);
    }

    /// `RegistrationFeeReleased` closes the pending registration.
    pub fn apply_registration_released(state: &mut ReservationState, event: RegistrationFeeReleased)
        ensures
            final(state).pending_registrations@ == old(state).pending_registrations@.remove(hex_lower(event.reservation_id@)),
            final(state).pending_buy_ins@ == old(state).pending_buy_ins@,
            final(state).pending_rebuys@ == old(state).pending_rebuys@,
    {
        let key = hex_encode(event.reservation_id.as_slice());
        state.pending_registrations.remove(&key);
    }

    /// `RebuyRequested` opens a pending rebuy.
    pub fn apply_rebuy_requested(state: &mut ReservationState, event: RebuyRequested)
        ensures
            final(state).pending_rebuys@ == old(state).pending_rebuys@.insert(
                hex_lower(event.reservation_id@),
                PendingRebuy {
                    player_root: event.player_root,
                    tournament_root: event.tournament_root,
                    table_root: event.table_root,
                    seat: event.seat,
                    fee: amount_or_zero(event.fee) as i64,
                },
            ),
            final(state).pending_buy_ins@ == old(state).pending_buy_ins@,
            final(state).pending_registrations@ == old(state).pending_registrations@,
    {
        let fee = amount_of(&event.fee);
        let key = hex_encode(event.reservation_id.as_slice());
        state.pending_rebuys.insert(
            key,
            PendingRebuy {
                player_root: event.player_root,
                tournament_root: event.tournament_root,
                table_root: event.table_root,
                seat: event.seat,
                fee,
            },
        );
    }

    /// `RebuyFeeConfirmed` closes the pending rebuy.
    pub fn apply_rebuy_confirmed(state: &mut ReservationState, event: RebuyFeeConfirmed)
        ensures
            final(state).pending_rebuys@ == old(state).pending_rebuys@.remove(hex_lower(event.reservation_id@)),
            final(state).pending_buy_ins@ == old(state).pending_buy_ins@,
            final(state).pending_registrations@ == old(state).pending_registrations@,
    {
        let key = hex_encode(event.reservation_id.as_slice());
        state.pending_rebuys.remove(&key);
    }

    /// `RebuyFeeReleased` closes the pending rebuy.
    pub fn apply_rebuy_released(state: &mut ReservationState, event: RebuyFeeReleased)
        ensures
            final(state).pending_rebuys@ == old(state).pending_rebuys@.remove(hex_lower(event.reservation_id@)),
            final(state).pending_buy_ins@ == old(state).pending_buy_ins@,
            final(state).pending_registrations@ == old(state).pending_registrations@,
    {
        let key = hex_encode(event.reservation_id.as_slice());
        state.pending_rebuys.remove(&key);
    }
}

/// A requested buy-in, once applied, can be confirmed under its
/// reservation id, and the confirmation carries exactly the requested
/// player, table, seat and amount.
pub proof fn law_requested_buy_in_confirms(
    s: ReservationState,
    e: BuyInRequested,
    s2: ReservationState,
    cmd: ConfirmBuyIn,
    seq: u32,
    r: Result<EventBook<ReservationEvent>, Rejection>,
)
    requires
        s2.pending_buy_ins@ == s.pending_buy_ins@.insert(
            hex_lower(e.reservation_id@),
            PendingBuyIn {
                player_root: e.player_root,
                table_root: e.table_root,
                seat: e.seat,
                amount: amount_or_zero(e.amount) as i64,
            },
        ),
        e.reservation_id@.len() != 0,
        cmd.reservation_id@ == e.reservation_id@,
        confirm_buy_in_outcome(cmd, s2, seq, r),
    ensures
        r is Ok,
        event_of(r) is BuyInConfirmed,
        event_of(r)->BuyInConfirmed_0.player_root@ == e.player_root@,
        event_of(r)->BuyInConfirmed_0.table_root@ == e.table_root@,
        event_of(r)->BuyInConfirmed_0.seat == e.seat,
        is_chips(event_of(r)->BuyInConfirmed_0.amount, amount_or_zero(e.amount)),
{
}

/// Once a buy-in is confirmed, confirming or releasing it again is refused.
pub proof fn law_confirmed_buy_in_is_closed(
    s: ReservationState,
    e: BuyInConfirmed,
    s2: ReservationState,
    confirm: ConfirmBuyIn,
    release: ReleaseBuyIn,
    seq: u32,
    r1: Result<EventBook<ReservationEvent>, Rejection>,
    r2: Result<EventBook<ReservationEvent>, Rejection>,
)
    requires
        s2.pending_buy_ins@ == s.pending_buy_ins@.remove(hex_lower(e.reservation_id@)),
        e.reservation_id@.len() != 0,
        confirm.reservation_id@ == e.reservation_id@,
        release.reservation_id@ == e.reservation_id@,
        confirm_buy_in_outcome(confirm, s2, seq, r1),
        release_buy_in_outcome(release, s2, seq, r2),
    ensures
        refused(r1, ErrorStatus::PreconditionFailed, "No pending buy-in with this reservation_id"@),
        refused(r2, ErrorStatus::PreconditionFailed, "No pending buy-in with this reservation_id"@),
{
}

/// A requested registration, once applied, can be confirmed under its
/// reservation id with the requested player, tournament and fee.
pub proof fn law_requested_registration_confirms(
    s: ReservationState,
    e: RegistrationRequested,
    s2: ReservationState,
    cmd: ConfirmRegistrationFee,
    seq: u32,
    r: Result<EventBook<ReservationEvent>, Rejection>,
)
    requires
        s2.pending_registrations@ == s.pending_registrations@.insert(
            hex_lower(e.reservation_id@),
            PendingRegistration {
                player_root: e.player_root,
                tournament_root: e.tournament_root,
                fee: amount_or_zero(e.fee) as i64,
            },
        ),
        e.reservation_id@.len() != 0,
        cmd.reservation_id@ == e.reservation_id@,
        confirm_registration_outcome(cmd, s2, seq, r),
    ensures
        r is Ok,
        event_of(r) is RegistrationFeeConfirmed,
        event_of(r)->RegistrationFeeConfirmed_0.player_root@ == e.player_root@,
        event_of(r)->RegistrationFeeConfirmed_0.tournament_root@ == e.tournament_root@,
        is_chips(event_of(r)->RegistrationFeeConfirmed_0.fee, amount_or_zero(e.fee)),
{
}

/// A requested rebuy, once applied, can be confirmed under its reservation
/// id with the requested player, tournament, table and fee.
pub proof fn law_requested_rebuy_confirms(
    s: ReservationState,
    e: RebuyRequested,
    s2: ReservationState,
    cmd: ConfirmRebuyFee,
    seq: u32,
    r: Result<EventBook<ReservationEvent>, Rejection>,
)
    requires
        s2.pending_rebuys@ == s.pending_rebuys@.insert(
            hex_lower(e.reservation_id@),
            PendingRebuy {
                player_root: e.player_root,
                tournament_root: e.tournament_root,
                table_root: e.table_root,
                seat: e.seat,
                fee: amount_or_zero(e.fee) as i64,
            },
        ),
        e.reservation_id@.len() != 0,
        cmd.reservation_id@ == e.reservation_id@,
        confirm_rebuy_outcome(cmd, s2, seq, r),
    ensures
        r is Ok,
        event_of(r) is RebuyFeeConfirmed,
        event_of(r)->RebuyFeeConfirmed_0.player_root@ == e.player_root@,
        event_of(r)->RebuyFeeConfirmed_0.tournament_root@ == e.tournament_root@,
        event_of(r)->RebuyFeeConfirmed_0.table_root@ == e.table_root@,
        is_chips(event_of(r)->RebuyFeeConfirmed_0.fee, amount_or_zero(e.fee)),
{
}

/// Once a registration or rebuy is released, confirming it is refused.
pub proof fn law_released_registration_and_rebuy_are_closed(
    s: ReservationState,
    reg: RegistrationFeeReleased,
    reb: RebuyFeeReleased,
    s2: ReservationState,
    c1: ConfirmRegistrationFee,
    c2: ConfirmRebuyFee,
    seq: u32,
    r1: Result<EventBook<ReservationEvent>, Rejection>,
    r2: Result<EventBook<ReservationEvent>, Rejection>,
)
    requires
        s2.pending_registrations@ == s.pending_registrations@.remove(hex_lower(reg.reservation_id@)),
        s2.pending_rebuys@ == s.pending_rebuys@.remove(hex_lower(reb.reservation_id@)),
        reg.reservation_id@.len() != 0,
        reb.reservation_id@.len() != 0,
        c1.reservation_id@ == reg.reservation_id@,
        c2.reservation_id@ == reb.reservation_id@,
        confirm_registration_outcome(c1, s2, seq, r1),
        confirm_rebuy_outcome(c2, s2, seq, r2),
    ensures
        refused(r1, ErrorStatus::PreconditionFailed, "No pending registration with this reservation_id"@),
        refused(r2, ErrorStatus::PreconditionFailed, "No pending rebuy with this reservation_id"@),
{
}

} // verus!
