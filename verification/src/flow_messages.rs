//! Messages of the buy-in, rebuy and registration flows: the table and
//! tournament sides, and the events a reservation process manager records.

use vstd::prelude::*;
use crate::envelope::Timestamp;
use crate::messages::Currency;

verus! {

/// Phases of a buy-in flow.
#[derive(Debug, Clone, Copy, PartialEq, Eq, Default)]
pub enum BuyInPhase {
    #[default]
    Unspecified,
    BuyInRequested,
    BuyInSeating,
    BuyInConfirming,
    BuyInCompleted,
    BuyInFailed,
}

/// Phases of a rebuy flow.
#[derive(Debug, Clone, Copy, PartialEq, Eq, Default)]
pub enum RebuyPhase {
    #[default]
    Unspecified,
    RebuyRequested,
    RebuyApproving,
    RebuyAddingChips,
    RebuyCompleted,
    RebuyFailed,
}

/// Phases of a registration flow.
#[derive(Debug, Clone, Copy, PartialEq, Eq, Default)]
pub enum RegistrationPhase {
    #[default]
    Unspecified,
    RegistrationRequested,
    RegistrationEnrolling,
    RegistrationConfirming,
    RegistrationCompleted,
    RegistrationFailed,
}

/// Lifecycle of a tournament.
#[derive(Debug, Clone, Copy, PartialEq, Eq, Default)]
pub enum TournamentStatus {
    #[default]
    Unspecified,
    TournamentCreated,
    TournamentRegistrationOpen,
    TournamentRunning,
    TournamentCompleted,
}

/// Why a flow failed, and where.
#[derive(Debug, Clone, PartialEq, Eq, Default)]
pub struct OrchestrationFailure {
    pub code: String,
    pub message: String,
    pub failed_at_phase: String,
    pub failed_at: Option<Timestamp>,
}

// --- table side ---

#[derive(Debug, Clone, PartialEq, Eq, Default)]
pub struct SeatPlayer {
    pub player_root: Vec<u8>,
    pub reservation_id: Vec<u8>,
    pub seat: i32,
    pub amount: i64,
}

#[derive(Debug, Clone, PartialEq, Eq, Default)]
pub struct PlayerSeated {
    pub player_root: Vec<u8>,
    pub reservation_id: Vec<u8>,
    pub seat_position: i32,
    pub stack: i64,
    pub seated_at: Option<Timestamp>,
}

#[derive(Debug, Clone, PartialEq, Eq, Default)]
pub struct SeatingRejected {
    pub player_root: Vec<u8>,
    pub reservation_id: Vec<u8>,
    pub requested_seat: i32,
    pub reason: String,
    pub rejected_at: Option<Timestamp>,
}

#[derive(Debug, Clone, PartialEq, Eq, Default)]
pub struct AddRebuyChips {
    pub player_root: Vec<u8>,
    pub reservation_id: Vec<u8>,
    pub seat: i32,
    pub amount: i64,
}

#[derive(Debug, Clone, PartialEq, Eq, Default)]
pub struct RebuyChipsAdded {
    pub player_root: Vec<u8>,
    pub reservation_id: Vec<u8>,
    pub seat: i32,
    pub amount: i64,
    pub new_stack: i64,
    pub added_at: Option<Timestamp>,
}

// --- tournament side ---

/// Rebuy terms of a tournament.
#[derive(Debug, Clone, Copy, PartialEq, Eq, Default)]
pub struct RebuyConfig {
    pub enabled: bool,
    pub rebuy_cost: i64,
    pub rebuy_chips: i64,
}

#[derive(Debug, Clone, PartialEq, Eq, Default)]
pub struct TournamentCreated {
    pub name: String,
    pub max_players: i32,
    pub buy_in: i64,
    pub starting_stack: i64,
    pub rebuy_config: Option<RebuyConfig>,
}

#[derive(Debug, Clone, PartialEq, Eq, Default)]
pub struct RegistrationOpened {
    pub opened_at: Option<Timestamp>,
}

#[derive(Debug, Clone, PartialEq, Eq, Default)]
pub struct RegistrationClosed {
    pub closed_at: Option<Timestamp>,
}

#[derive(Debug, Clone, PartialEq, Eq, Default)]
pub struct TournamentStarted {
    pub started_at: Option<Timestamp>,
}

#[derive(Debug, Clone, PartialEq, Eq, Default)]
pub struct EnrollPlayer {
    pub player_root: Vec<u8>,
    pub reservation_id: Vec<u8>,
}

#[derive(Debug, Clone, PartialEq, Eq, Default)]
pub struct TournamentPlayerEnrolled {
    pub player_root: Vec<u8>,
    pub reservation_id: Vec<u8>,
    pub fee_paid: i64,
    pub starting_stack: i64,
    pub registration_number: i32,
    pub enrolled_at: Option<Timestamp>,
}

#[derive(Debug, Clone, PartialEq, Eq, Default)]
pub struct TournamentEnrollmentRejected {
    pub player_root: Vec<u8>,
    pub reservation_id: Vec<u8>,
    pub reason: String,
    pub rejected_at: Option<Timestamp>,
}

#[derive(Debug, Clone, PartialEq, Eq, Default)]
pub struct ProcessRebuy {
    pub player_root: Vec<u8>,
    pub reservation_id: Vec<u8>,
}

#[derive(Debug, Clone, PartialEq, Eq, Default)]
pub struct RebuyProcessed {
    pub player_root: Vec<u8>,
    pub reservation_id: Vec<u8>,
    pub rebuy_cost: i64,
    pub chips_added: i64,
    pub rebuy_count: i32,
    pub processed_at: Option<Timestamp>,
}

#[derive(Debug, Clone, PartialEq, Eq, Default)]
pub struct RebuyDenied {
    pub player_root: Vec<u8>,
    pub reservation_id: Vec<u8>,
    pub reason: String,
    pub denied_at: Option<Timestamp>,
}

// --- events a reservation process manager records ---

#[derive(Debug, Clone, PartialEq, Eq, Default)]
pub struct BuyInPhaseChanged {
    pub reservation_id: Vec<u8>,
    pub from_phase: BuyInPhase,
    pub to_phase: BuyInPhase,
    pub changed_at: Option<Timestamp>,
}

#[derive(Debug, Clone, PartialEq, Eq, Default)]
pub struct RebuyPhaseChanged {
    pub reservation_id: Vec<u8>,
    pub from_phase: RebuyPhase,
    pub to_phase: RebuyPhase,
    pub changed_at: Option<Timestamp>,
}

#[derive(Debug, Clone, PartialEq, Eq, Default)]
pub struct RegistrationPhaseChanged {
    pub reservation_id: Vec<u8>,
    pub from_phase: RegistrationPhase,
    pub to_phase: RegistrationPhase,
    pub changed_at: Option<Timestamp>,
}

#[derive(Debug, Clone, PartialEq, Eq, Default)]
pub struct BuyInInitiated {
    pub player_root: Vec<u8>,
    pub table_root: Vec<u8>,
    pub reservation_id: Vec<u8>,
    pub seat: i32,
    pub amount: Option<Currency>,
    pub phase: BuyInPhase,
    pub initiated_at: Option<Timestamp>,
}

#[derive(Debug, Clone, PartialEq, Eq, Default)]
pub struct BuyInCompleted {
    pub player_root: Vec<u8>,
    pub table_root: Vec<u8>,
    pub reservation_id: Vec<u8>,
    pub seat: i32,
    pub amount: Option<Currency>,
    pub completed_at: Option<Timestamp>,
}

#[derive(Debug, Clone, PartialEq, Eq, Default)]
pub struct BuyInFailed {
    pub player_root: Vec<u8>,
    pub table_root: Vec<u8>,
    pub reservation_id: Vec<u8>,
    pub failure: Option<OrchestrationFailure>,
}

#[derive(Debug, Clone, PartialEq, Eq, Default)]
pub struct RebuyInitiated {
    pub player_root: Vec<u8>,
    pub tournament_root: Vec<u8>,
    pub table_root: Vec<u8>,
    pub reservation_id: Vec<u8>,
    pub seat: i32,
    pub fee: Option<Currency>,
    pub chips_to_add: i64,
    pub phase: RebuyPhase,
    pub initiated_at: Option<Timestamp>,
}

#[derive(Debug, Clone, PartialEq, Eq, Default)]
pub struct RebuyCompleted {
    pub player_root: Vec<u8>,
    pub tournament_root: Vec<u8>,
    pub table_root: Vec<u8>,
    pub reservation_id: Vec<u8>,
    pub fee: Option<Currency>,
    pub chips_added: i64,
    pub completed_at: Option<Timestamp>,
}

#[derive(Debug, Clone, PartialEq, Eq, Default)]
pub struct RebuyFailed {
    pub player_root: Vec<u8>,
    pub tournament_root: Vec<u8>,
    pub reservation_id: Vec<u8>,
    pub failure: Option<OrchestrationFailure>,
}

#[derive(Debug, Clone, PartialEq, Eq, Default)]
pub struct RegistrationInitiated {
    pub player_root: Vec<u8>,
    pub tournament_root: Vec<u8>,
    pub reservation_id: Vec<u8>,
    pub fee: Option<Currency>,
    pub phase: RegistrationPhase,
    pub initiated_at: Option<Timestamp>,
}

#[derive(Debug, Clone, PartialEq, Eq, Default)]
pub struct RegistrationCompleted {
    pub player_root: Vec<u8>,
    pub tournament_root: Vec<u8>,
    pub reservation_id: Vec<u8>,
    pub fee: Option<Currency>,
    pub starting_stack: i64,
    pub completed_at: Option<Timestamp>,
}

#[derive(Debug, Clone, PartialEq, Eq, Default)]
pub struct RegistrationFailed {
    pub player_root: Vec<u8>,
    pub tournament_root: Vec<u8>,
    pub reservation_id: Vec<u8>,
    pub failure: Option<OrchestrationFailure>,
}

} // verus!
