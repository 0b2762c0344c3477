//! Player aggregate state and the appliers that rebuild it from events.
//!
//! The player aggregate owns the bankroll and the per-key reservations
//! (a table root for buy-ins and rebuys, a tournament root for
//! registrations), keyed by the lowercase hex of the key bytes.

use vstd::prelude::*;
use crate::hexfmt::{hex_encode, hex_lower};
use crate::keyed::StrMap;
use crate::messages::{
    amount_of, amount_or_zero, FundsDeducted, FundsDeposited, FundsReleased, FundsReserved,
    FundsTransferred, FundsWithdrawn, PlayerRegistered, PlayerType,
};

verus! {

/// Player aggregate state rebuilt from events.
#[derive(Debug)]
pub struct PlayerState {
    pub player_id: String,
    pub display_name: String,
    pub email: String,
    pub player_type: PlayerType,
    pub ai_model_id: String,
    pub bankroll: i64,
    pub reserved_funds: i64,
    /// Reserved amounts keyed by the hex of the reservation key.
    pub table_reservations: StrMap<i64>,
    pub status: String,
}

/// `player_` followed by the email: the id a registration assigns.
pub open spec fn player_id_for(email: Seq<char>) -> Seq<char> {
    seq!['p', 'l', 'a', 'y', 'e', 'r', '_'] + email
}

pub open spec fn active_status() -> Seq<char> {
    seq!['a', 'c', 't', 'i', 'v', 'e']
}

impl PlayerState {
    pub open spec fn exists_spec(&self) -> bool {
        self.player_id@.len() != 0
    }

    pub open spec fn available_spec(&self) -> int {
        self.bankroll - self.reserved_funds
    }

    /// The reservation recorded for a key, zero when none.
    pub open spec fn reserved_for(&self, key: Seq<u8>) -> int {
        if self.table_reservations@.contains_key(hex_lower(key)) {
            self.table_reservations@[hex_lower(key)] as int
        } else {
            0
        }
    }

    /// A registered player has a non-empty id.
    pub fn player_exists(&self) -> (b: bool)
        ensures
            b == self.exists_spec(),
    {
        !self.player_id.as_str().is_empty()
    }

    /// Bankroll not held by reservations.
    pub fn available_balance(&self) -> (a: i64)
        requires
            i64::MIN <= self.available_spec() <= i64::MAX,
        ensures
            a == self.available_spec(),
    {
        self.bankroll - self.reserved_funds
    }

    /// Whether the player is an AI.
    pub fn is_ai(&self) -> (b: bool)
        ensures
            b == (self.player_type == PlayerType::Ai),
    {
        matches!(self.player_type, PlayerType::Ai)
    }

    /// The amount reserved under `key`, zero when none.
    pub fn reservation_for(&self, key: &Vec<u8>) -> (a: i64)
        ensures
            a == self.reserved_for(key@),
    {
        let key_hex = hex_encode(key.as_slice());
        match self.table_reservations.get(&key_hex) {
            Some(a) => *a,
            None => 0,
        }
    }
}

impl Default for PlayerState {
    fn default() -> (s: Self)
        ensures
            s.player_id@.len() == 0,
            s.display_name@.len() == 0,
            s.email@.len() == 0,
            s.player_type == PlayerType::Unspecified,
            s.ai_model_id@.len() == 0,
            s.bankroll == 0,
            s.reserved_funds == 0,
            s.table_reservations@ == Map::<Seq<char>, i64>::empty(),
            s.status@.len() == 0,
    {
        PlayerState {
            player_id: String::new(),
            display_name: String::new(),
            email: String::new(),
            player_type: PlayerType::Unspecified,
            ai_model_id: String::new(),
            bankroll: 0,
            reserved_funds: 0,
            table_reservations: StrMap::new(),
            status: String::new(),
        }
    }
}

/// Everything but the identity fields is unchanged.
pub open spec fn same_funds(a: &PlayerState, b: &PlayerState) -> bool {
    &&& a.bankroll == b.bankroll
    &&& a.reserved_funds == b.reserved_funds
    &&& a.table_reservations@ == b.table_reservations@
}

/// Everything but the funds fields is unchanged.
pub open spec fn same_identity(a: &PlayerState, b: &PlayerState) -> bool {
    &&& a.player_id == b.player_id
    &&& a.display_name == b.display_name
    &&& a.email == b.email
    &&& a.player_type == b.player_type
    &&& a.ai_model_id == b.ai_model_id
    &&& a.status == b.status
}

/// The state after `PlayerRegistered`.
pub open spec fn registered_in(old: PlayerState, new: PlayerState, event: PlayerRegistered) -> bool {
    &&& new.player_id@ == player_id_for(event.email@)
    &&& new.display_name == event.display_name
    &&& new.email == event.email
    &&& new.player_type == event.player_type
    &&& new.ai_model_id == event.ai_model_id
    &&& new.status@ == active_status()
    &&& same_funds(&new, &old)
}

/// `PlayerRegistered`: identity fields from the event, id `player_<email>`,
/// status `active`.
pub fn apply_registered(state: &mut PlayerState, event: PlayerRegistered)
    ensures
        registered_in(*old(state), *final(state), event),
{
    proof {
        reveal_strlit("player_");
        reveal_strlit("active");
    }
    let id = String::from_str("player_").concat(event.email.as_str());
    state.player_id = id;
    state.display_name = event.display_name;
    state.email = event.email;
    state.player_type = event.player_type;
    state.ai_model_id = event.ai_model_id;
    state.status = String::from_str("active");
    assert(state.player_id@ =~= player_id_for(state.email@));
    assert(state.status@ =~= active_status());
}

/// The state after `FundsDeposited`.
pub open spec fn deposited_into(old: PlayerState, new: PlayerState, event: FundsDeposited) -> bool {
    &&& new.bankroll == old.bankroll + amount_or_zero(event.amount)
    &&& new.reserved_funds == old.reserved_funds
    &&& new.table_reservations@ == old.table_reservations@
    &&& new.table_reservations.entry_seq() == old.table_reservations.entry_seq()
    &&& same_identity(&new, &old)
}

/// `FundsDeposited`: the bankroll grows by the deposited amount.
pub fn apply_deposited(state: &mut PlayerState, event: FundsDeposited)
    requires
        old(state).bankroll + amount_or_zero(event.amount) <= i64::MAX,
        old(state).bankroll + amount_or_zero(event.amount) >= i64::MIN,
    ensures
        deposited_into(*old(state), *final(state), event),
{
    if let Some(amount) = event.amount {
        state.bankroll = state.bankroll + amount.amount;
    }
}

/// The state after `FundsWithdrawn`.
pub open spec fn withdrawn_from(old: PlayerState, new: PlayerState, event: FundsWithdrawn) -> bool {
    &&& new.bankroll == old.bankroll - amount_or_zero(event.amount)
    &&& new.reserved_funds == old.reserved_funds
    &&& new.table_reservations@ == old.table_reservations@
    &&& new.table_reservations.entry_seq() == old.table_reservations.entry_seq()
    &&& same_identity(&new, &old)
}

/// `FundsWithdrawn`: the bankroll shrinks by the withdrawn amount.
pub fn apply_withdrawn(state: &mut PlayerState, event: FundsWithdrawn)
    requires
        old(state).bankroll - amount_or_zero(event.amount) <= i64::MAX,
        old(state).bankroll - amount_or_zero(event.amount) >= i64::MIN,
    ensures
        withdrawn_from(*old(state), *final(state), event),
{
    if let Some(amount) = event.amount {
        state.bankroll = state.bankroll - amount.amount;
    }
}

/// The state after `FundsReserved`.
pub open spec fn reserved_in(old: PlayerState, new: PlayerState, event: FundsReserved) -> bool {
    let k = hex_lower(event.key@);
    let v = (old.reserved_for(event.key@) + amount_or_zero(event.amount)) as i64;
    &&& new.reserved_funds == old.reserved_funds + amount_or_zero(event.amount)
    &&& new.table_reservations@ == old.table_reservations@.insert(k, v)
    &&& new.table_reservations.inserted_from(old.table_reservations, k, v)
    &&& new.bankroll == old.bankroll
    &&& same_identity(&new, &old)
}

/// `FundsReserved`: reserved funds grow by the amount, which is added to
/// the reservation under the key's hex.
pub fn apply_reserved(state: &mut PlayerState, event: FundsReserved)
    requires
        i64::MIN <= old(state).reserved_funds + amount_or_zero(event.amount) <= i64::MAX,
        i64::MIN <= old(state).reserved_for(event.key@) + amount_or_zero(event.amount) <= i64::MAX,
    ensures
        reserved_in(*old(state), *final(state), event),
{
    let amount = amount_of(&event.amount);
    state.reserved_funds = state.reserved_funds + amount;
    let key_hex = hex_encode(event.key.as_slice());
    let current = match state.table_reservations.get(&key_hex) {
        Some(a) => *a,
        None => 0,
    };
    state.table_reservations.insert(key_hex, current + amount);
}

/// The state after `FundsReleased`.
pub open spec fn released_from(old: PlayerState, new: PlayerState, event: FundsReleased) -> bool {
    let k = hex_lower(event.key@);
    &&& new.reserved_funds == old.reserved_funds - amount_or_zero(event.amount)
    &&& new.table_reservations@ == old.table_reservations@.remove(k)
    &&& new.table_reservations.removed_from(old.table_reservations, k)
    &&& new.bankroll == old.bankroll
    &&& same_identity(&new, &old)
}

/// `FundsReleased`: reserved funds shrink by the amount and the key's
/// reservation is dropped.
pub fn apply_released(state: &mut PlayerState, event: FundsReleased)
    requires
        i64::MIN <= old(state).reserved_funds - amount_or_zero(event.amount) <= i64::MAX,
    ensures
        released_from(*old(state), *final(state), event),
{
    let amount = amount_of(&event.amount);
    state.reserved_funds = state.reserved_funds - amount;
    let key_hex = hex_encode(event.key.as_slice());
    state.table_reservations.remove(&key_hex);
}

/// The state after `FundsTransferred`.
pub open spec fn transferred_into(old: PlayerState, new: PlayerState, event: FundsTransferred) -> bool {
    &&& new.bankroll == old.bankroll + amount_or_zero(event.amount)
    &&& new.reserved_funds == old.reserved_funds
    &&& new.table_reservations@ == old.table_reservations@
    &&& new.table_reservations.entry_seq() == old.table_reservations.entry_seq()
    &&& same_identity(&new, &old)
}

/// `FundsTransferred`: the bankroll grows by the (signed) amount.
pub fn apply_transferred(state: &mut PlayerState, event: FundsTransferred)
    requires
        i64::MIN <= old(state).bankroll + amount_or_zero(event.amount) <= i64::MAX,
    ensures
        transferred_into(*old(state), *final(state), event),
{
    if let Some(amount) = event.amount {
        state.bankroll = state.bankroll + amount.amount;
    }
}

/// The state after `FundsDeducted`.
pub open spec fn deducted_from(old: PlayerState, new: PlayerState, event: FundsDeducted) -> bool {
    let k = hex_lower(event.key@);
    &&& new.reserved_funds == old.reserved_funds - amount_or_zero(event.amount)
    &&& new.bankroll == old.bankroll - amount_or_zero(event.amount)
    &&& new.table_reservations@ == old.table_reservations@.remove(k)
    &&& new.table_reservations.removed_from(old.table_reservations, k)
    &&& same_identity(&new, &old)
}

/// `FundsDeducted`: the amount leaves both the bankroll and the reserved
/// funds, and the key's reservation is dropped.
pub fn apply_funds_deducted(state: &mut PlayerState, event: FundsDeducted)
    requires
        i64::MIN <= old(state).reserved_funds - amount_or_zero(event.amount) <= i64::MAX,
        i64::MIN <= old(state).bankroll - amount_or_zero(event.amount) <= i64::MAX,
    ensures
        deducted_from(*old(state), *final(state), event),
{
    let amount = amount_of(&event.amount);
    state.reserved_funds = state.reserved_funds - amount;
    state.bankroll = state.bankroll - amount;
    let key_hex = hex_encode(event.key.as_slice());
    state.table_reservations.remove(&key_hex);
}

} // verus!
