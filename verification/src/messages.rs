//! The poker domain's commands and events as plain values.

use vstd::prelude::*;
use crate::envelope::Timestamp;

verus! {

/// An amount together with its currency code.
#[derive(Debug, Clone, PartialEq, Eq, Default)]
pub struct Currency {
    pub amount: i64,
    pub currency_code: String,
}

pub open spec fn chips_code() -> Seq<char> {
    seq!['C', 'H', 'I', 'P', 'S']
}

pub open spec fn usd_code() -> Seq<char> {
    seq!['U', 'S', 'D']
}

/// `Some` currency of `amount` in chips.
pub open spec fn is_chips(c: Option<Currency>, amount: int) -> bool {
    &&& c is Some
    &&& c->0.amount == amount
    &&& c->0.currency_code@ == chips_code()
}

/// `Some` currency of `amount` in US dollars.
pub open spec fn is_usd(c: Option<Currency>, amount: int) -> bool {
    &&& c is Some
    &&& c->0.amount == amount
    &&& c->0.currency_code@ == usd_code()
}

/// The amount carried by an optional currency, zero when absent.
pub open spec fn amount_or_zero(c: Option<Currency>) -> int {
    match c {
        Some(c) => c.amount as int,
        None => 0,
    }
}

/// `amount` chips.
pub fn chips(amount: i64) -> (c: Option<Currency>)
    ensures
        is_chips(c, amount as int),
{
    proof {
        reveal_strlit("CHIPS");
    }
    let code = String::from_str("CHIPS");
    assert(code@ =~= chips_code());
    Some(Currency { amount, currency_code: code })
}

/// `amount` US dollars.
pub fn usd(amount: i64) -> (c: Option<Currency>)
    ensures
        is_usd(c, amount as int),
{
    proof {
        reveal_strlit("USD");
    }
    let code = String::from_str("USD");
    assert(code@ =~= usd_code());
    Some(Currency { amount, currency_code: code })
}

/// The amount of an optional currency, zero when absent.
pub fn amount_of(c: &Option<Currency>) -> (a: i64)
    ensures
        a == amount_or_zero(*c),
{
    match c {
        Some(c) => c.amount,
        None => 0,
    }
}

/// A copy of an optional currency.
pub fn copy_currency(c: &Option<Currency>) -> (r: Option<Currency>)
    ensures
        r == *c,
{
    match c {
        Some(c) => Some(Currency { amount: c.amount, currency_code: c.currency_code.clone() }),
        None => None,
    }
}

/// Human or AI seat occupant.
#[derive(Debug, Clone, Copy, PartialEq, Eq, Default)]
pub enum PlayerType {
    #[default]
    Unspecified,
    Human,
    Ai,
}

/// Poker game variants.
#[derive(Debug, Clone, Copy, PartialEq, Eq, Default)]
pub enum GameVariant {
    #[default]
    Unspecified,
    TexasHoldem,
    Omaha,
    FiveCardDraw,
}

/// Betting rounds as they travel on the wire.
#[derive(Debug, Clone, Copy, PartialEq, Eq, Default)]
pub enum BettingPhase {
    #[default]
    Unspecified,
    Preflop,
    Flop,
    Turn,
    River,
    Draw,
    Showdown,
}

/// Player actions as they travel on the wire.
#[derive(Debug, Clone, Copy, PartialEq, Eq, Default)]
pub enum ActionType {
    #[default]
    Unspecified,
    Fold,
    Check,
    Call,
    Bet,
    Raise,
    AllIn,
}

/// The action a wire number names; a number that names none reads as
/// `Unspecified`.
pub open spec fn action_of_number(n: int) -> ActionType {
    if n == 1 {
        ActionType::Fold
    } else if n == 2 {
        ActionType::Check
    } else if n == 3 {
        ActionType::Call
    } else if n == 4 {
        ActionType::Bet
    } else if n == 5 {
        ActionType::Raise
    } else if n == 6 {
        ActionType::AllIn
    } else {
        ActionType::Unspecified
    }
}

impl ActionType {
    /// Reads a wire number as an action (`Unspecified` for an unknown one).
    pub fn from_wire(n: i32) -> (a: ActionType)
        ensures
            a == action_of_number(n as int),
    {
        if n == 1 {
            ActionType::Fold
        } else if n == 2 {
            ActionType::Check
        } else if n == 3 {
            ActionType::Call
        } else if n == 4 {
            ActionType::Bet
        } else if n == 5 {
            ActionType::Raise
        } else if n == 6 {
            ActionType::AllIn
        } else {
            ActionType::Unspecified
        }
    }

    /// The number this action travels as.
    pub fn wire(self) -> (n: i32)
        ensures
            action_of_number(n as int) == self,
            self != ActionType::Unspecified ==> 1 <= n <= 6,
            self == ActionType::Unspecified ==> n == 0,
    {
        match self {
            ActionType::Unspecified => 0,
            ActionType::Fold => 1,
            ActionType::Check => 2,
            ActionType::Call => 3,
            ActionType::Bet => 4,
            ActionType::Raise => 5,
            ActionType::AllIn => 6,
        }
    }
}

// ---------------------------------------------------------------------------
// Player domain
// ---------------------------------------------------------------------------

#[derive(Debug, Clone, PartialEq, Eq, Default)]
pub struct RegisterPlayer {
    pub display_name: String,
    pub email: String,
    pub player_type: PlayerType,
    pub ai_model_id: String,
}

#[derive(Debug, Clone, PartialEq, Eq, Default)]
pub struct DepositFunds {
    pub amount: Option<Currency>,
}

#[derive(Debug, Clone, PartialEq, Eq, Default)]
pub struct WithdrawFunds {
    pub amount: Option<Currency>,
}

#[derive(Debug, Clone, PartialEq, Eq, Default)]
pub struct ReserveFunds {
    pub amount: Option<Currency>,
    pub key: Vec<u8>,
}

#[derive(Debug, Clone, PartialEq, Eq, Default)]
pub struct ReleaseFunds {
    pub key: Vec<u8>,
}

#[derive(Debug, Clone, PartialEq, Eq, Default)]
pub struct TransferFunds {
    pub from_player_root: Vec<u8>,
    pub amount: Option<Currency>,
    pub hand_root: Vec<u8>,
    pub reason: String,
}

#[derive(Debug, Clone, PartialEq, Eq, Default)]
pub struct DeductReservedFunds {
    pub amount: Option<Currency>,
    pub key: Vec<u8>,
    pub reservation_id: Vec<u8>,
}

#[derive(Debug, Clone, PartialEq, Eq, Default)]
pub struct PlayerRegistered {
    pub display_name: String,
    pub email: String,
    pub player_type: PlayerType,
    pub ai_model_id: String,
    pub registered_at: Option<Timestamp>,
}

#[derive(Debug, Clone, PartialEq, Eq, Default)]
pub struct FundsDeposited {
    pub amount: Option<Currency>,
    pub new_balance: Option<Currency>,
    pub deposited_at: Option<Timestamp>,
}

#[derive(Debug, Clone, PartialEq, Eq, Default)]
pub struct FundsWithdrawn {
    pub amount: Option<Currency>,
    pub new_balance: Option<Currency>,
    pub withdrawn_at: Option<Timestamp>,
}

#[derive(Debug, Clone, PartialEq, Eq, Default)]
pub struct FundsReserved {
    pub amount: Option<Currency>,
    pub key: Vec<u8>,
    pub new_available_balance: Option<Currency>,
    pub new_reserved_balance: Option<Currency>,
    pub reserved_at: Option<Timestamp>,
}

#[derive(Debug, Clone, PartialEq, Eq, Default)]
pub struct FundsReleased {
    pub amount: Option<Currency>,
    pub key: Vec<u8>,
    pub new_available_balance: Option<Currency>,
    pub new_reserved_balance: Option<Currency>,
    pub released_at: Option<Timestamp>,
}

#[derive(Debug, Clone, PartialEq, Eq, Default)]
pub struct FundsTransferred {
    pub from_player_root: Vec<u8>,
    pub to_player_root: Vec<u8>,
    pub amount: Option<Currency>,
    pub hand_root: Vec<u8>,
    pub reason: String,
    pub new_balance: Option<Currency>,
    pub transferred_at: Option<Timestamp>,
}

#[derive(Debug, Clone, PartialEq, Eq, Default)]
pub struct FundsDeducted {
    pub amount: Option<Currency>,
    pub key: Vec<u8>,
    pub reservation_id: Vec<u8>,
    pub new_balance: Option<Currency>,
    pub new_reserved_balance: Option<Currency>,
    pub deducted_at: Option<Timestamp>,
}

/// Events of the player aggregate.
#[derive(Debug, Clone, PartialEq, Eq)]
pub enum PlayerEvent {
    Registered(PlayerRegistered),
    Deposited(FundsDeposited),
    Withdrawn(FundsWithdrawn),
    Reserved(FundsReserved),
    Released(FundsReleased),
    Transferred(FundsTransferred),
    Deducted(FundsDeducted),
}

/// The fully qualified message name of a player event.
pub open spec fn player_event_name(e: PlayerEvent) -> Seq<char> {
    match e {
        PlayerEvent::Registered(_) => "examples.PlayerRegistered"@,
        PlayerEvent::Deposited(_) => "examples.FundsDeposited"@,
        PlayerEvent::Withdrawn(_) => "examples.FundsWithdrawn"@,
        PlayerEvent::Reserved(_) => "examples.FundsReserved"@,
        PlayerEvent::Released(_) => "examples.FundsReleased"@,
        PlayerEvent::Transferred(_) => "examples.FundsTransferred"@,
        PlayerEvent::Deducted(_) => "examples.FundsDeducted"@,
    }
}

impl PlayerEvent {
    /// The fully qualified message name the event is packed under.
    pub fn message_name(&self) -> (s: &'static str)
        ensures
            s@ == player_event_name(*self),
    {
        match self {
            PlayerEvent::Registered(_) => "examples.PlayerRegistered",
            PlayerEvent::Deposited(_) => "examples.FundsDeposited",
            PlayerEvent::Withdrawn(_) => "examples.FundsWithdrawn",
            PlayerEvent::Reserved(_) => "examples.FundsReserved",
            PlayerEvent::Released(_) => "examples.FundsReleased",
            PlayerEvent::Transferred(_) => "examples.FundsTransferred",
            PlayerEvent::Deducted(_) => "examples.FundsDeducted",
        }
    }
}


// ---------------------------------------------------------------------------
// Reservation domain
// ---------------------------------------------------------------------------
#[derive(Debug, Clone, PartialEq, Eq, Default)]
pub struct InitiateBuyIn {
    pub table_root: Vec<u8>,
    pub seat: i32,
    pub amount: Option<Currency>,
    pub player_root: Vec<u8>,
}
#[derive(Debug, Clone, PartialEq, Eq, Default)]
pub struct ConfirmBuyIn {
    pub reservation_id: Vec<u8>,
}
#[derive(Debug, Clone, PartialEq, Eq, Default)]
pub struct ReleaseBuyIn {
    pub reservation_id: Vec<u8>,
    pub reason: String,
}
#[derive(Debug, Clone, PartialEq, Eq, Default)]
pub struct InitiateTournamentRegistration {
    pub player_root: Vec<u8>,
    pub tournament_root: Vec<u8>,
}
#[derive(Debug, Clone, PartialEq, Eq, Default)]
pub struct ConfirmRegistrationFee {
    pub reservation_id: Vec<u8>,
}
#[derive(Debug, Clone, PartialEq, Eq, Default)]
pub struct ReleaseRegistrationFee {
    pub reservation_id: Vec<u8>,
    pub reason: String,
}
#[derive(Debug, Clone, PartialEq, Eq, Default)]
pub struct InitiateRebuy {
    pub player_root: Vec<u8>,
    pub tournament_root: Vec<u8>,
    pub table_root: Vec<u8>,
    pub seat: i32,
}
#[derive(Debug, Clone, PartialEq, Eq, Default)]
pub struct ConfirmRebuyFee {
    pub reservation_id: Vec<u8>,
}
#[derive(Debug, Clone, PartialEq, Eq, Default)]
pub struct ReleaseRebuyFee {
    pub reservation_id: Vec<u8>,
    pub reason: String,
}
#[derive(Debug, Clone, PartialEq, Eq, Default)]
pub struct BuyInRequested {
    pub reservation_id: Vec<u8>,
    pub player_root: Vec<u8>,
    pub table_root: Vec<u8>,
    pub seat: i32,
    pub amount: Option<Currency>,
    pub requested_at: Option<Timestamp>,
}
#[derive(Debug, Clone, PartialEq, Eq, Default)]
pub struct BuyInConfirmed {
    pub reservation_id: Vec<u8>,
    pub player_root: Vec<u8>,
    pub table_root: Vec<u8>,
    pub seat: i32,
    pub amount: Option<Currency>,
    pub confirmed_at: Option<Timestamp>,
}
#[derive(Debug, Clone, PartialEq, Eq, Default)]
pub struct BuyInReservationReleased {
    pub reservation_id: Vec<u8>,
    pub reason: String,
    pub released_at: Option<Timestamp>,
    pub player_root: Vec<u8>,
    pub table_root: Vec<u8>,
    pub amount: Option<Currency>,
}
#[derive(Debug, Clone, PartialEq, Eq, Default)]
pub struct RegistrationRequested {
    pub reservation_id: Vec<u8>,
    pub player_root: Vec<u8>,
    pub tournament_root: Vec<u8>,
    pub fee: Option<Currency>,
    pub requested_at: Option<Timestamp>,
}
#[derive(Debug, Clone, PartialEq, Eq, Default)]
pub struct RegistrationFeeConfirmed {
    pub reservation_id: Vec<u8>,
    pub player_root: Vec<u8>,
    pub tournament_root: Vec<u8>,
    pub fee: Option<Currency>,
    pub confirmed_at: Option<Timestamp>,
}
#[derive(Debug, Clone, PartialEq, Eq, Default)]
pub struct RegistrationFeeReleased {
    pub reservation_id: Vec<u8>,
    pub reason: String,
    pub released_at: Option<Timestamp>,
    pub player_root: Vec<u8>,
    pub tournament_root: Vec<u8>,
    pub fee: Option<Currency>,
}
#[derive(Debug, Clone, PartialEq, Eq, Default)]
pub struct RebuyRequested {
    pub reservation_id: Vec<u8>,
    pub player_root: Vec<u8>,
    pub tournament_root: Vec<u8>,
    pub table_root: Vec<u8>,
    pub seat: i32,
    pub fee: Option<Currency>,
    pub requested_at: Option<Timestamp>,
}
#[derive(Debug, Clone, PartialEq, Eq, Default)]
pub struct RebuyFeeConfirmed {
    pub reservation_id: Vec<u8>,
    pub player_root: Vec<u8>,
    pub tournament_root: Vec<u8>,
    pub table_root: Vec<u8>,
    pub fee: Option<Currency>,
    pub chips_added: i64,
    pub confirmed_at: Option<Timestamp>,
}
#[derive(Debug, Clone, PartialEq, Eq, Default)]
pub struct RebuyFeeReleased {
    pub reservation_id: Vec<u8>,
    pub reason: String,
    pub released_at: Option<Timestamp>,
    pub player_root: Vec<u8>,
    pub tournament_root: Vec<u8>,
    pub table_root: Vec<u8>,
    pub fee: Option<Currency>,
}
/// Events of the reservation aggregate.
#[derive(Debug, Clone, PartialEq, Eq)]
pub enum ReservationEvent {
    BuyInRequested(BuyInRequested),
    BuyInConfirmed(BuyInConfirmed),
    BuyInReservationReleased(BuyInReservationReleased),
    RegistrationRequested(RegistrationRequested),
    RegistrationFeeConfirmed(RegistrationFeeConfirmed),
    RegistrationFeeReleased(RegistrationFeeReleased),
    RebuyRequested(RebuyRequested),
    RebuyFeeConfirmed(RebuyFeeConfirmed),
    RebuyFeeReleased(RebuyFeeReleased),
}

/// The fully qualified message name of a reservation event.
pub open spec fn reservation_event_name(e: ReservationEvent) -> Seq<char> {
    match e {
        ReservationEvent::BuyInRequested(_) => "examples.BuyInRequested"@,
        ReservationEvent::BuyInConfirmed(_) => "examples.BuyInConfirmed"@,
        ReservationEvent::BuyInReservationReleased(_) => "examples.BuyInReservationReleased"@,
        ReservationEvent::RegistrationRequested(_) => "examples.RegistrationRequested"@,
        ReservationEvent::RegistrationFeeConfirmed(_) => "examples.RegistrationFeeConfirmed"@,
        ReservationEvent::RegistrationFeeReleased(_) => "examples.RegistrationFeeReleased"@,
        ReservationEvent::RebuyRequested(_) => "examples.RebuyRequested"@,
        ReservationEvent::RebuyFeeConfirmed(_) => "examples.RebuyFeeConfirmed"@,
        ReservationEvent::RebuyFeeReleased(_) => "examples.RebuyFeeReleased"@,
    }
}

impl ReservationEvent {
    /// The fully qualified message name the event is packed under.
    pub fn message_name(&self) -> (s: &'static str)
        ensures
            s@ == reservation_event_name(*self),
    {
        match self {
            ReservationEvent::BuyInRequested(_) => "examples.BuyInRequested",
            ReservationEvent::BuyInConfirmed(_) => "examples.BuyInConfirmed",
            ReservationEvent::BuyInReservationReleased(_) => "examples.BuyInReservationReleased",
            ReservationEvent::RegistrationRequested(_) => "examples.RegistrationRequested",
            ReservationEvent::RegistrationFeeConfirmed(_) => "examples.RegistrationFeeConfirmed",
            ReservationEvent::RegistrationFeeReleased(_) => "examples.RegistrationFeeReleased",
            ReservationEvent::RebuyRequested(_) => "examples.RebuyRequested",
            ReservationEvent::RebuyFeeConfirmed(_) => "examples.RebuyFeeConfirmed",
            ReservationEvent::RebuyFeeReleased(_) => "examples.RebuyFeeReleased",
        }
    }
}

} // verus!
