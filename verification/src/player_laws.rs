//! Laws of the player aggregate: what every accepted command keeps true of
//! the bankroll once its event is applied.

use vstd::prelude::*;
use crate::envelope::{EventBook, Notification};
use crate::messages::{
    amount_or_zero, DeductReservedFunds, DepositFunds, PlayerEvent, ReleaseFunds, ReserveFunds,
    TransferFunds, WithdrawFunds,
};
use crate::player_handlers::{
    deduct_outcome, deposit_funds_outcome, first_event, join_rejected_outcome,
    release_funds_outcome, reserve_funds_outcome, transfer_funds_outcome,
    withdraw_funds_outcome,
};
use crate::player_state::{
    deducted_from, deposited_into, released_from, reserved_in, transferred_into, withdrawn_from,
    PlayerState,
};
use crate::rejection::Rejection;

verus! {

/// The bankroll invariant: every reservation is positive, the reservations
/// add up to at most the reserved funds, and the reserved funds never
/// exceed the bankroll (so the available balance is never negative).
pub open spec fn funds_ok(s: PlayerState) -> bool {
    &&& forall|k: Seq<char>| #[trigger] s.table_reservations@.contains_key(k) ==> s.table_reservations@[k] > 0
    &&& 0 <= s.table_reservations.total()
    &&& s.table_reservations.total() <= s.reserved_funds
    &&& s.reserved_funds <= s.bankroll
}

/// An accepted `DepositFunds` keeps the bankroll invariant, and the
/// balance its event reports is the bankroll once it is applied.
pub proof fn law_deposit_keeps_funds(cmd: DepositFunds, s: PlayerState, seq: u32, b: EventBook<PlayerEvent>, s2: PlayerState)
    requires
        funds_ok(s),
        deposit_funds_outcome(cmd, s, seq, Ok(b)),
        deposited_into(s, s2, first_event(b)->Deposited_0),
    ensures
        funds_ok(s2),
        amount_or_zero(first_event(b)->Deposited_0.new_balance) == s2.bankroll,
{
    s2.table_reservations.lemma_total_same(s.table_reservations);
}

/// An accepted `WithdrawFunds` keeps the bankroll invariant, and the
/// balance its event reports is the bankroll once it is applied.
pub proof fn law_withdraw_keeps_funds(cmd: WithdrawFunds, s: PlayerState, seq: u32, b: EventBook<PlayerEvent>, s2: PlayerState)
    requires
        funds_ok(s),
        withdraw_funds_outcome(cmd, s, seq, Ok(b)),
        withdrawn_from(s, s2, first_event(b)->Withdrawn_0),
    ensures
        funds_ok(s2),
        amount_or_zero(first_event(b)->Withdrawn_0.new_balance) == s2.bankroll,
{
    s2.table_reservations.lemma_total_same(s.table_reservations);
}

/// An accepted `TransferFunds` crediting a positive amount keeps the
/// bankroll invariant, and the balance its event reports is the bankroll
/// once it is applied.
pub proof fn law_transfer_in_keeps_funds(cmd: TransferFunds, s: PlayerState, seq: u32, b: EventBook<PlayerEvent>, s2: PlayerState)
    requires
        funds_ok(s),
        amount_or_zero(cmd.amount) > 0,
        transfer_funds_outcome(cmd, s, seq, Ok(b)),
        transferred_into(s, s2, first_event(b)->Transferred_0),
    ensures
        funds_ok(s2),
        amount_or_zero(first_event(b)->Transferred_0.new_balance) == s2.bankroll,
{
    s2.table_reservations.lemma_total_same(s.table_reservations);
}

/// An accepted `ReserveFunds` keeps the bankroll invariant, the
/// reservation under the key is exactly the reserved amount, and the
/// balances its event reports are those of the state once it is applied.
pub proof fn law_reserve_keeps_funds(cmd: ReserveFunds, s: PlayerState, seq: u32, b: EventBook<PlayerEvent>, s2: PlayerState)
    requires
        funds_ok(s),
        reserve_funds_outcome(cmd, s, seq, Ok(b)),
        reserved_in(s, s2, first_event(b)->Reserved_0),
    ensures
        funds_ok(s2),
        s2.reserved_for(cmd.key@) == amount_or_zero(cmd.amount),
        amount_or_zero(first_event(b)->Reserved_0.new_reserved_balance) == s2.reserved_funds,
        amount_or_zero(first_event(b)->Reserved_0.new_available_balance) == s2.available_spec(),
{
    let e = first_event(b)->Reserved_0;
    let k = crate::hexfmt::hex_lower(e.key@);
    let v = (s.reserved_for(e.key@) + amount_or_zero(e.amount)) as i64;
    s2.table_reservations.lemma_total_after_insert(s.table_reservations, k, v);
}

/// An accepted `ReleaseFunds` keeps the bankroll invariant, leaves no
/// reservation under the key, and the balances its event reports are
/// those of the state once it is applied.
pub proof fn law_release_keeps_funds(cmd: ReleaseFunds, s: PlayerState, seq: u32, b: EventBook<PlayerEvent>, s2: PlayerState)
    requires
        funds_ok(s),
        s.table_reservations.keys_distinct(),
        release_funds_outcome(cmd, s, seq, Ok(b)),
        released_from(s, s2, first_event(b)->Released_0),
    ensures
        funds_ok(s2),
        s2.reserved_for(cmd.key@) == 0,
        amount_or_zero(first_event(b)->Released_0.new_reserved_balance) == s2.reserved_funds,
        amount_or_zero(first_event(b)->Released_0.new_available_balance) == s2.available_spec(),
{
    let e = first_event(b)->Released_0;
    let k = crate::hexfmt::hex_lower(e.key@);
    s2.table_reservations.lemma_total_after_remove(s.table_reservations, k);
    s.table_reservations.lemma_value_le_total(k);
}

/// An accepted `DeductReservedFunds` keeps the bankroll invariant,
/// leaves no reservation under the key, and the balances its event reports
/// are those of the state once it is applied.
pub proof fn law_deduct_keeps_funds(cmd: DeductReservedFunds, s: PlayerState, seq: u32, b: EventBook<PlayerEvent>, s2: PlayerState)
    requires
        funds_ok(s),
        s.table_reservations.keys_distinct(),
        deduct_outcome(cmd, s, seq, Ok(b)),
        deducted_from(s, s2, first_event(b)->Deducted_0),
    ensures
        funds_ok(s2),
        s2.reserved_for(cmd.key@) == 0,
        amount_or_zero(first_event(b)->Deducted_0.new_balance) == s2.bankroll,
        amount_or_zero(first_event(b)->Deducted_0.new_reserved_balance) == s2.reserved_funds,
{
    let e = first_event(b)->Deducted_0;
    let k = crate::hexfmt::hex_lower(e.key@);
    s2.table_reservations.lemma_total_after_remove(s.table_reservations, k);
    s.table_reservations.lemma_value_le_total(k);
}

/// The compensation for a refused `JoinTable` keeps the bankroll invariant
/// and leaves no reservation under the refused table's root.
pub proof fn law_join_rejected_keeps_funds(n: Notification, s: PlayerState, b: EventBook<PlayerEvent>, s2: PlayerState)
    requires
        funds_ok(s),
        s.table_reservations.keys_distinct(),
        join_rejected_outcome(n, s, b),
        released_from(s, s2, b.pages@[0].event->Released_0),
    ensures
        funds_ok(s2),
        s2.reserved_for(crate::envelope::rejected_root(n.rejection)) == 0,
{
    let e = b.pages@[0].event->Released_0;
    let k = crate::hexfmt::hex_lower(e.key@);
    s2.table_reservations.lemma_total_after_remove(s.table_reservations, k);
    s.table_reservations.lemma_value_le_total(k);
}

} // verus!
