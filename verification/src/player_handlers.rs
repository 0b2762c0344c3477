//! Player aggregate command handlers: each guards on the state, validates
//! the command, and computes the single event it emits.

use vstd::prelude::*;
use crate::decimal::dec_int;
use crate::envelope::{
    cover_root, now, rejected_root, rejected_root_of, single_page_book, EventBook, EventPage,
    Notification, SequenceType, Timestamp,
};
use crate::hexfmt::{hex_encode, hex_lower, slice_prefix};
use crate::messages::{
    amount_of, amount_or_zero, chips, copy_currency, is_chips, DeductReservedFunds, DepositFunds,
    FundsDeducted, FundsDeposited, FundsReleased, FundsReserved, FundsTransferred, FundsWithdrawn,
    PlayerEvent, PlayerRegistered, RegisterPlayer, ReleaseFunds, ReserveFunds, TransferFunds,
    WithdrawFunds,
};
use crate::player_errors::{
    AmountMustBePositive, NoFundsReservedForTable, PlayerNotFound, TableRootRequired,
};
use crate::player_state::PlayerState;
use crate::rejection::{invalid_arg, refused, rejected, ErrorStatus, Rejection};

verus! {

/// `r` is the catalog rejection with this code, status and template.
pub open spec fn catalog_refused<T>(
    r: Result<T, Rejection>,
    code: Seq<char>,
    status: ErrorStatus,
    template: Seq<char>,
) -> bool {
    &&& r is Err
    &&& r->Err_0.code@ == code
    &&& r->Err_0.status == status
    &&& r->Err_0.message@ == template
}

/// The rejection of `r` carries exactly one detail, `name` set to `value`.
pub open spec fn one_detail<T>(r: Result<T, Rejection>, name: Seq<char>, value: Seq<char>) -> bool {
    &&& r is Err
    &&& r->Err_0.details@.len() == 1
    &&& r->Err_0.details@[0].0@ == name
    &&& r->Err_0.details@[0].1@ == value
}

/// The rejection of `r` carries no details.
pub open spec fn no_details<T>(r: Result<T, Rejection>) -> bool {
    &&& r is Err
    &&& r->Err_0.details@.len() == 0
}

/// `b` holds exactly one event, at sequence `seq`, with no cover.
pub open spec fn one_page(b: EventBook<PlayerEvent>, seq: u32) -> bool {
    &&& b.cover is None
    &&& b.pages@.len() == 1
    &&& b.pages@[0].sequence == SequenceType::Sequence(seq)
    &&& b.pages@[0].created_at is Some
}

/// The event on the first page.
pub open spec fn first_event(b: EventBook<PlayerEvent>) -> PlayerEvent {
    b.pages@[0].event
}

// ---------------------------------------------------------------------------
// RegisterPlayer
// ---------------------------------------------------------------------------

pub fn register_player_guard(state: &PlayerState) -> (r: Result<(), Rejection>)
    ensures
        r is Ok <==> !state.exists_spec(),
        state.exists_spec() ==> refused(r, ErrorStatus::PreconditionFailed, "Player already exists"@),
{
    if state.player_exists() {
        return Err(rejected("Player already exists"));
    }
    Ok(())
}

pub fn register_player_validate(cmd: &RegisterPlayer) -> (r: Result<(), Rejection>)
    ensures
        r is Ok <==> (cmd.display_name@.len() != 0 && cmd.email@.len() != 0),
        cmd.display_name@.len() == 0 ==> refused(r, ErrorStatus::PreconditionFailed, "display_name is required"@),
        cmd.display_name@.len() != 0 && cmd.email@.len() == 0 ==> refused(r, ErrorStatus::PreconditionFailed, "email is required"@),
{
    if cmd.display_name.as_str().is_empty() {
        return Err(rejected("display_name is required"));
    }
    if cmd.email.as_str().is_empty() {
        return Err(rejected("email is required"));
    }
    Ok(())
}

pub fn register_player_compute(cmd: &RegisterPlayer, at: Timestamp) -> (e: PlayerRegistered)
    ensures
        e.display_name == cmd.display_name,
        e.email == cmd.email,
        e.player_type == cmd.player_type,
        e.ai_model_id == cmd.ai_model_id,
        e.registered_at == Some(at),
{
    PlayerRegistered {
        display_name: cmd.display_name.clone(),
        email: cmd.email.clone(),
        player_type: cmd.player_type,
        ai_model_id: cmd.ai_model_id.clone(),
        registered_at: Some(at),
    }
}

/// What `handle_register_player` answers.
pub open spec fn register_player_outcome(
    cmd: RegisterPlayer,
    state: PlayerState,
    seq: u32,
    r: Result<EventBook<PlayerEvent>, Rejection>,
) -> bool {
    if state.exists_spec() {
        refused(r, ErrorStatus::PreconditionFailed, "Player already exists"@)
    } else if cmd.display_name@.len() == 0 {
        refused(r, ErrorStatus::PreconditionFailed, "display_name is required"@)
    } else if cmd.email@.len() == 0 {
        refused(r, ErrorStatus::PreconditionFailed, "email is required"@)
    } else {
        &&& r is Ok
        &&& one_page(r->Ok_0, seq)
        &&& first_event(r->Ok_0) is Registered
        &&& {
            let e = first_event(r->Ok_0)->Registered_0;
            &&& e.display_name == cmd.display_name
            &&& e.email == cmd.email
            &&& e.player_type == cmd.player_type
            &&& e.ai_model_id == cmd.ai_model_id
            &&& e.registered_at is Some
        }
    }
}

/// `RegisterPlayer`: refused for an existing player or a missing display
/// name or email; otherwise `PlayerRegistered` with the command's fields.
pub fn handle_register_player(cmd: RegisterPlayer, state: &PlayerState, seq: u32) -> (r: Result<
    EventBook<PlayerEvent>,
    Rejection,
>)
    ensures
        register_player_outcome(cmd, *state, seq, r),
{
    register_player_guard(state)?;
    register_player_validate(&cmd)?;
    let event = register_player_compute(&cmd, now());
    Ok(single_page_book(seq, PlayerEvent::Registered(event)))
}

// ---------------------------------------------------------------------------
// DepositFunds
// ---------------------------------------------------------------------------

pub fn deposit_funds_guard(state: &PlayerState) -> (r: Result<(), Rejection>)
    ensures
        r is Ok <==> state.exists_spec(),
        !state.exists_spec() ==> catalog_refused(r, "PLAYER_NOT_FOUND"@, ErrorStatus::PreconditionFailed, "Player does not exist"@),
        !state.exists_spec() ==> no_details(r),
{
    if !state.player_exists() {
        return Err(PlayerNotFound.reject());
    }
    Ok(())
}

pub fn deposit_funds_validate(cmd: &DepositFunds) -> (r: Result<i64, Rejection>)
    ensures
        amount_or_zero(cmd.amount) > 0 ==> r == Ok::<i64, Rejection>(amount_or_zero(cmd.amount) as i64),
        amount_or_zero(cmd.amount) <= 0 ==> catalog_refused(r, "AMOUNT_MUST_BE_POSITIVE"@, ErrorStatus::InvalidArgument, "Amount must be positive, got {value}"@),
        amount_or_zero(cmd.amount) <= 0 ==> one_detail(r, "value"@, dec_int(amount_or_zero(cmd.amount))),
{
    let amount = amount_of(&cmd.amount);
    if amount <= 0 {
        return Err(AmountMustBePositive { value: amount }.reject());
    }
    Ok(amount)
}

pub fn deposit_funds_compute(cmd: &DepositFunds, state: &PlayerState, amount: i64, at: Timestamp) -> (e: FundsDeposited)
    requires
        state.bankroll + amount <= i64::MAX,
        state.bankroll + amount >= i64::MIN,
    ensures
        e.amount == cmd.amount,
        is_chips(e.new_balance, state.bankroll + amount),
        e.deposited_at == Some(at),
{
    let new_balance = state.bankroll + amount;
    FundsDeposited { amount: copy_currency(&cmd.amount), new_balance: chips(new_balance), deposited_at: Some(at) }
}

pub open spec fn deposit_funds_outcome(
    cmd: DepositFunds,
    state: PlayerState,
    seq: u32,
    r: Result<EventBook<PlayerEvent>, Rejection>,
) -> bool {
    let amount = amount_or_zero(cmd.amount);
    if !state.exists_spec() {
        catalog_refused(r, "PLAYER_NOT_FOUND"@, ErrorStatus::PreconditionFailed, "Player does not exist"@) && no_details(r)
    } else if amount <= 0 {
        catalog_refused(r, "AMOUNT_MUST_BE_POSITIVE"@, ErrorStatus::InvalidArgument, "Amount must be positive, got {value}"@)
            && one_detail(r, "value"@, dec_int(amount))
    } else {
        &&& r is Ok
        &&& one_page(r->Ok_0, seq)
        &&& first_event(r->Ok_0) is Deposited
        &&& {
            let e = first_event(r->Ok_0)->Deposited_0;
            &&& e.amount == cmd.amount
            &&& is_chips(e.new_balance, state.bankroll + amount)
            &&& e.deposited_at is Some
        }
    }
}

/// `DepositFunds`: refused for an unknown player or a non-positive amount;
/// otherwise `FundsDeposited` with the new bankroll.
pub fn handle_deposit_funds(cmd: DepositFunds, state: &PlayerState, seq: u32) -> (r: Result<
    EventBook<PlayerEvent>,
    Rejection,
>)
    requires
        state.exists_spec() && amount_or_zero(cmd.amount) > 0 ==> state.bankroll
            + amount_or_zero(cmd.amount) <= i64::MAX,
    ensures
        deposit_funds_outcome(cmd, *state, seq, r),
{
    deposit_funds_guard(state)?;
    let amount = deposit_funds_validate(&cmd)?;
    let event = deposit_funds_compute(&cmd, state, amount, now());
    Ok(single_page_book(seq, PlayerEvent::Deposited(event)))
}

// ---------------------------------------------------------------------------
// WithdrawFunds
// ---------------------------------------------------------------------------

pub fn withdraw_funds_guard(state: &PlayerState) -> (r: Result<(), Rejection>)
    ensures
        r is Ok <==> state.exists_spec(),
        !state.exists_spec() ==> refused(r, ErrorStatus::PreconditionFailed, "Player does not exist"@),
{
    if !state.player_exists() {
        return Err(rejected("Player does not exist"));
    }
    Ok(())
}

pub fn withdraw_funds_validate(cmd: &WithdrawFunds, state: &PlayerState) -> (r: Result<i64, Rejection>)
    requires
        amount_or_zero(cmd.amount) > 0 ==> i64::MIN <= state.available_spec() <= i64::MAX,
    ensures
        amount_or_zero(cmd.amount) <= 0 ==> refused(r, ErrorStatus::InvalidArgument, "amount must be positive"@),
        amount_or_zero(cmd.amount) > 0 && amount_or_zero(cmd.amount) > state.available_spec() ==> refused(r, ErrorStatus::PreconditionFailed, "insufficient available balance"@),
        r is Ok <==> (amount_or_zero(cmd.amount) > 0 && amount_or_zero(cmd.amount) <= state.available_spec()),
        r is Ok ==> r->Ok_0 == amount_or_zero(cmd.amount),
{
    let amount = amount_of(&cmd.amount);
    if amount <= 0 {
        return Err(invalid_arg("amount must be positive"));
    }
    if amount > state.available_balance() {
        return Err(rejected("insufficient available balance"));
    }
    Ok(amount)
}

pub fn withdraw_funds_compute(cmd: &WithdrawFunds, state: &PlayerState, amount: i64, at: Timestamp) -> (e: FundsWithdrawn)
    requires
        i64::MIN <= state.bankroll - amount <= i64::MAX,
    ensures
        e.amount == cmd.amount,
        is_chips(e.new_balance, state.bankroll - amount),
        e.withdrawn_at == Some(at),
{
    let new_balance = state.bankroll - amount;
    FundsWithdrawn { amount: copy_currency(&cmd.amount), new_balance: chips(new_balance), withdrawn_at: Some(at) }
}

pub open spec fn withdraw_funds_outcome(
    cmd: WithdrawFunds,
    state: PlayerState,
    seq: u32,
    r: Result<EventBook<PlayerEvent>, Rejection>,
) -> bool {
    let amount = amount_or_zero(cmd.amount);
    if !state.exists_spec() {
        refused(r, ErrorStatus::PreconditionFailed, "Player does not exist"@)
    } else if amount <= 0 {
        refused(r, ErrorStatus::InvalidArgument, "amount must be positive"@)
    } else if amount > state.available_spec() {
        refused(r, ErrorStatus::PreconditionFailed, "insufficient available balance"@)
    } else {
        &&& r is Ok
        &&& one_page(r->Ok_0, seq)
        &&& first_event(r->Ok_0) is Withdrawn
        &&& {
            let e = first_event(r->Ok_0)->Withdrawn_0;
            &&& e.amount == cmd.amount
            &&& is_chips(e.new_balance, state.bankroll - amount)
            &&& e.withdrawn_at is Some
        }
    }
}

/// `WithdrawFunds`: refused for an unknown player, a non-positive amount,
/// or more than the available balance; otherwise `FundsWithdrawn`.
pub fn handle_withdraw_funds(cmd: WithdrawFunds, state: &PlayerState, seq: u32) -> (r: Result<
    EventBook<PlayerEvent>,
    Rejection,
>)
    requires
        state.exists_spec() && amount_or_zero(cmd.amount) > 0 ==> i64::MIN <= state.available_spec() <= i64::MAX,
        state.exists_spec() && amount_or_zero(cmd.amount) > 0 ==> i64::MIN <= state.bankroll - amount_or_zero(cmd.amount),
    ensures
        withdraw_funds_outcome(cmd, *state, seq, r),
{
    withdraw_funds_guard(state)?;
    let amount = withdraw_funds_validate(&cmd, state)?;
    let event = withdraw_funds_compute(&cmd, state, amount, now());
    Ok(single_page_book(seq, PlayerEvent::Withdrawn(event)))
}

// ---------------------------------------------------------------------------
// ReserveFunds
// ---------------------------------------------------------------------------

pub fn reserve_funds_guard(state: &PlayerState) -> (r: Result<(), Rejection>)
    ensures
        r is Ok <==> state.exists_spec(),
        !state.exists_spec() ==> refused(r, ErrorStatus::PreconditionFailed, "Player does not exist"@),
{
    if !state.player_exists() {
        return Err(rejected("Player does not exist"));
    }
    Ok(())
}

pub fn reserve_funds_validate(cmd: &ReserveFunds, state: &PlayerState) -> (r: Result<i64, Rejection>)
    requires
        amount_or_zero(cmd.amount) > 0 ==> i64::MIN <= state.available_spec() <= i64::MAX,
    ensures
        amount_or_zero(cmd.amount) <= 0 ==> refused(r, ErrorStatus::InvalidArgument, "amount must be positive"@),
        amount_or_zero(cmd.amount) > 0 && amount_or_zero(cmd.amount) > state.available_spec() ==> refused(r, ErrorStatus::PreconditionFailed, "Insufficient funds"@),
        amount_or_zero(cmd.amount) > 0 && amount_or_zero(cmd.amount) <= state.available_spec()
            && state.table_reservations@.contains_key(hex_lower(cmd.key@)) ==> refused(r, ErrorStatus::PreconditionFailed, "Funds already reserved for this table"@),
        r is Ok <==> (amount_or_zero(cmd.amount) > 0 && amount_or_zero(cmd.amount) <= state.available_spec()
            && !state.table_reservations@.contains_key(hex_lower(cmd.key@))),
        r is Ok ==> r->Ok_0 == amount_or_zero(cmd.amount),
{
    let amount = amount_of(&cmd.amount);
    if amount <= 0 {
        return Err(invalid_arg("amount must be positive"));
    }
    if amount > state.available_balance() {
        return Err(rejected("Insufficient funds"));
    }
    let key_hex = hex_encode(cmd.key.as_slice());
    if state.table_reservations.contains_key(&key_hex) {
        return Err(rejected("Funds already reserved for this table"));
    }
    Ok(amount)
}

pub fn reserve_funds_compute(cmd: &ReserveFunds, state: &PlayerState, amount: i64, at: Timestamp) -> (e: FundsReserved)
    requires
        i64::MIN <= state.reserved_funds + amount <= i64::MAX,
        i64::MIN <= state.bankroll - (state.reserved_funds + amount) <= i64::MAX,
    ensures
        e.amount == cmd.amount,
        e.key@ == cmd.key@,
        is_chips(e.new_available_balance, state.bankroll - (state.reserved_funds + amount)),
        is_chips(e.new_reserved_balance, state.reserved_funds + amount),
        e.reserved_at == Some(at),
{
    let new_reserved = state.reserved_funds + amount;
    let new_available = state.bankroll - new_reserved;
    FundsReserved {
        amount: copy_currency(&cmd.amount),
        key: crate::envelope::copy_bytes(&cmd.key),
        new_available_balance: chips(new_available),
        new_reserved_balance: chips(new_reserved),
        reserved_at: Some(at),
    }
}

pub open spec fn reserve_funds_outcome(
    cmd: ReserveFunds,
    state: PlayerState,
    seq: u32,
    r: Result<EventBook<PlayerEvent>, Rejection>,
) -> bool {
    let amount = amount_or_zero(cmd.amount);
    if !state.exists_spec() {
        refused(r, ErrorStatus::PreconditionFailed, "Player does not exist"@)
    } else if amount <= 0 {
        refused(r, ErrorStatus::InvalidArgument, "amount must be positive"@)
    } else if amount > state.available_spec() {
        refused(r, ErrorStatus::PreconditionFailed, "Insufficient funds"@)
    } else if state.table_reservations@.contains_key(hex_lower(cmd.key@)) {
        refused(r, ErrorStatus::PreconditionFailed, "Funds already reserved for this table"@)
    } else {
        &&& r is Ok
        &&& one_page(r->Ok_0, seq)
        &&& first_event(r->Ok_0) is Reserved
        &&& {
            let e = first_event(r->Ok_0)->Reserved_0;
            &&& e.amount == cmd.amount
            &&& e.key@ == cmd.key@
            &&& is_chips(e.new_available_balance, state.bankroll - (state.reserved_funds + amount))
            &&& is_chips(e.new_reserved_balance, state.reserved_funds + amount)
            &&& e.reserved_at is Some
        }
    }
}

/// `ReserveFunds`: refused for an unknown player, a non-positive amount,
/// more than the available balance, or a key that already holds a
/// reservation; otherwise `FundsReserved` with the new balances.
pub fn handle_reserve_funds(cmd: ReserveFunds, state: &PlayerState, seq: u32) -> (r: Result<
    EventBook<PlayerEvent>,
    Rejection,
>)
    requires
        state.exists_spec() && amount_or_zero(cmd.amount) > 0 ==> i64::MIN <= state.available_spec() <= i64::MAX,
        state.exists_spec() && amount_or_zero(cmd.amount) > 0 ==> state.reserved_funds + amount_or_zero(cmd.amount) <= i64::MAX,
        state.exists_spec() && amount_or_zero(cmd.amount) > 0 ==> state.reserved_funds + amount_or_zero(cmd.amount) >= i64::MIN,
    ensures
        reserve_funds_outcome(cmd, *state, seq, r),
{
    reserve_funds_guard(state)?;
    let amount = reserve_funds_validate(&cmd, state)?;
    let event = reserve_funds_compute(&cmd, state, amount, now());
    Ok(single_page_book(seq, PlayerEvent::Reserved(event)))
}

// ---------------------------------------------------------------------------
// ReleaseFunds
// ---------------------------------------------------------------------------

pub fn release_funds_guard(state: &PlayerState) -> (r: Result<(), Rejection>)
    ensures
        r is Ok <==> state.exists_spec(),
        !state.exists_spec() ==> catalog_refused(r, "PLAYER_NOT_FOUND"@, ErrorStatus::PreconditionFailed, "Player does not exist"@),
        !state.exists_spec() ==> no_details(r),
{
    if !state.player_exists() {
        return Err(PlayerNotFound.reject());
    }
    Ok(())
}

pub fn release_funds_validate(cmd: &ReleaseFunds, state: &PlayerState) -> (r: Result<i64, Rejection>)
    ensures
        cmd.key@.len() == 0 ==> catalog_refused(r, "TABLE_ROOT_REQUIRED"@, ErrorStatus::InvalidArgument, "table_root is required"@),
        cmd.key@.len() != 0 && state.reserved_for(cmd.key@) <= 0 ==> catalog_refused(r, "NO_FUNDS_RESERVED_FOR_TABLE"@, ErrorStatus::PreconditionFailed, "No funds reserved for table {table_root_hex}"@),
        cmd.key@.len() != 0 && state.reserved_for(cmd.key@) <= 0 ==> one_detail(r, "table_root_hex"@, hex_lower(cmd.key@)),
        cmd.key@.len() == 0 ==> no_details(r),
        r is Ok <==> (cmd.key@.len() != 0 && state.reserved_for(cmd.key@) > 0),
        r is Ok ==> r->Ok_0 == state.reserved_for(cmd.key@),
{
    if cmd.key.len() == 0 {
        return Err(TableRootRequired.reject());
    }
    let key_hex = hex_encode(cmd.key.as_slice());
    match state.table_reservations.get(&key_hex) {
        Some(a) => {
            if *a > 0 {
                return Ok(*a);
            }
        },
        None => {},
    }
    Err(NoFundsReservedForTable { table_root_hex: key_hex }.reject())
}

pub fn release_funds_compute(cmd: &ReleaseFunds, state: &PlayerState, reserved: i64, at: Timestamp) -> (e: FundsReleased)
    requires
        i64::MIN <= state.reserved_funds - reserved <= i64::MAX,
        i64::MIN <= state.bankroll - (state.reserved_funds - reserved) <= i64::MAX,
    ensures
        is_chips(e.amount, reserved as int),
        e.key@ == cmd.key@,
        is_chips(e.new_available_balance, state.bankroll - (state.reserved_funds - reserved)),
        is_chips(e.new_reserved_balance, state.reserved_funds - reserved),
        e.released_at == Some(at),
{
    let new_reserved = state.reserved_funds - reserved;
    let new_available = state.bankroll - new_reserved;
    FundsReleased {
        amount: chips(reserved),
        key: crate::envelope::copy_bytes(&cmd.key),
        new_available_balance: chips(new_available),
        new_reserved_balance: chips(new_reserved),
        released_at: Some(at),
    }
}

pub open spec fn release_funds_outcome(
    cmd: ReleaseFunds,
    state: PlayerState,
    seq: u32,
    r: Result<EventBook<PlayerEvent>, Rejection>,
) -> bool {
    let reserved = state.reserved_for(cmd.key@);
    if !state.exists_spec() {
        catalog_refused(r, "PLAYER_NOT_FOUND"@, ErrorStatus::PreconditionFailed, "Player does not exist"@) && no_details(r)
    } else if cmd.key@.len() == 0 {
        catalog_refused(r, "TABLE_ROOT_REQUIRED"@, ErrorStatus::InvalidArgument, "table_root is required"@) && no_details(r)
    } else if reserved <= 0 {
        catalog_refused(r, "NO_FUNDS_RESERVED_FOR_TABLE"@, ErrorStatus::PreconditionFailed, "No funds reserved for table {table_root_hex}"@)
            && one_detail(r, "table_root_hex"@, hex_lower(cmd.key@))
    } else {
        &&& r is Ok
        &&& one_page(r->Ok_0, seq)
        &&& first_event(r->Ok_0) is Released
        &&& {
            let e = first_event(r->Ok_0)->Released_0;
            &&& is_chips(e.amount, reserved)
            &&& e.key@ == cmd.key@
            &&& is_chips(e.new_available_balance, state.bankroll - (state.reserved_funds - reserved))
            &&& is_chips(e.new_reserved_balance, state.reserved_funds - reserved)
            &&& e.released_at is Some
        }
    }
}

/// `ReleaseFunds`: refused for an unknown player, an empty key, or a key
/// without a positive reservation; otherwise `FundsReleased` of the whole
/// reservation under the key.
pub fn handle_release_funds(cmd: ReleaseFunds, state: &PlayerState, seq: u32) -> (r: Result<
    EventBook<PlayerEvent>,
    Rejection,
>)
    requires
        state.exists_spec() && cmd.key@.len() != 0 && state.reserved_for(cmd.key@) > 0 ==>
            i64::MIN <= state.reserved_funds - state.reserved_for(cmd.key@)
            && i64::MIN <= state.bankroll - (state.reserved_funds - state.reserved_for(cmd.key@)) <= i64::MAX,
    ensures
        release_funds_outcome(cmd, *state, seq, r),
{
    release_funds_guard(state)?;
    let reserved = release_funds_validate(&cmd, state)?;
    let event = release_funds_compute(&cmd, state, reserved, now());
    Ok(single_page_book(seq, PlayerEvent::Released(event)))
}

// ---------------------------------------------------------------------------
// DeductReservedFunds
// ---------------------------------------------------------------------------

pub fn deduct_guard(state: &PlayerState) -> (r: Result<(), Rejection>)
    ensures
        r is Ok <==> state.exists_spec(),
        !state.exists_spec() ==> refused(r, ErrorStatus::PreconditionFailed, "Player does not exist"@),
{
    if !state.player_exists() {
        return Err(rejected("Player does not exist"));
    }
    Ok(())
}

pub fn deduct_validate(cmd: &DeductReservedFunds, state: &PlayerState) -> (r: Result<i64, Rejection>)
    ensures
        cmd.key@.len() == 0 ==> refused(r, ErrorStatus::PreconditionFailed, "key is required"@),
        cmd.key@.len() != 0 && amount_or_zero(cmd.amount) <= 0 ==> refused(r, ErrorStatus::InvalidArgument, "amount must be positive"@),
        cmd.key@.len() != 0 && amount_or_zero(cmd.amount) > 0 && amount_or_zero(cmd.amount) > state.reserved_for(cmd.key@)
            ==> refused(r, ErrorStatus::PreconditionFailed, "amount exceeds reserved funds for this key"@),
        r is Ok <==> (cmd.key@.len() != 0 && amount_or_zero(cmd.amount) > 0 && amount_or_zero(cmd.amount) <= state.reserved_for(cmd.key@)),
        r is Ok ==> r->Ok_0 == amount_or_zero(cmd.amount),
{
    if cmd.key.len() == 0 {
        return Err(rejected("key is required"));
    }
    let amount = amount_of(&cmd.amount);
    if amount <= 0 {
        return Err(invalid_arg("amount must be positive"));
    }
    let reserved_for_key = state.reservation_for(&cmd.key);
    if amount > reserved_for_key {
        return Err(rejected("amount exceeds reserved funds for this key"));
    }
    Ok(amount)
}

pub fn deduct_compute(cmd: &DeductReservedFunds, state: &PlayerState, amount: i64, at: Timestamp) -> (e: FundsDeducted)
    requires
        i64::MIN <= state.reserved_funds - amount <= i64::MAX,
        i64::MIN <= state.bankroll - amount <= i64::MAX,
    ensures
        is_chips(e.amount, amount as int),
        e.key@ == cmd.key@,
        e.reservation_id@ == cmd.reservation_id@,
        is_chips(e.new_balance, state.bankroll - amount),
        is_chips(e.new_reserved_balance, state.reserved_funds - amount),
        e.deducted_at == Some(at),
{
    let new_reserved = state.reserved_funds - amount;
    let new_balance = state.bankroll - amount;
    FundsDeducted {
        amount: chips(amount),
        key: crate::envelope::copy_bytes(&cmd.key),
        reservation_id: crate::envelope::copy_bytes(&cmd.reservation_id),
        new_balance: chips(new_balance),
        new_reserved_balance: chips(new_reserved),
        deducted_at: Some(at),
    }
}

pub open spec fn deduct_outcome(
    cmd: DeductReservedFunds,
    state: PlayerState,
    seq: u32,
    r: Result<EventBook<PlayerEvent>, Rejection>,
) -> bool {
    let amount = amount_or_zero(cmd.amount);
    if !state.exists_spec() {
        refused(r, ErrorStatus::PreconditionFailed, "Player does not exist"@)
    } else if cmd.key@.len() == 0 {
        refused(r, ErrorStatus::PreconditionFailed, "key is required"@)
    } else if amount <= 0 {
        refused(r, ErrorStatus::InvalidArgument, "amount must be positive"@)
    } else if amount > state.reserved_for(cmd.key@) {
        refused(r, ErrorStatus::PreconditionFailed, "amount exceeds reserved funds for this key"@)
    } else {
        &&& r is Ok
        &&& one_page(r->Ok_0, seq)
        &&& first_event(r->Ok_0) is Deducted
        &&& {
            let e = first_event(r->Ok_0)->Deducted_0;
            &&& is_chips(e.amount, amount)
            &&& e.key@ == cmd.key@
            &&& e.reservation_id@ == cmd.reservation_id@
            &&& is_chips(e.new_balance, state.bankroll - amount)
            &&& is_chips(e.new_reserved_balance, state.reserved_funds - amount)
            &&& e.deducted_at is Some
        }
    }
}

/// `DeductReservedFunds`: settles (part of) a reservation. Refused for an
/// unknown player, an empty key, a non-positive amount, or more than is
/// reserved under the key; otherwise `FundsDeducted`, which lowers both the
/// bankroll and the reserved funds.
pub fn handle_deduct_reserved_funds(cmd: DeductReservedFunds, state: &PlayerState, seq: u32) -> (r: Result<
    EventBook<PlayerEvent>,
    Rejection,
>)
    requires
        state.exists_spec() && amount_or_zero(cmd.amount) > 0 ==> i64::MIN <= state.reserved_funds - amount_or_zero(cmd.amount)
            && i64::MIN <= state.bankroll - amount_or_zero(cmd.amount),
    ensures
        deduct_outcome(cmd, *state, seq, r),
{
    deduct_guard(state)?;
    let amount = deduct_validate(&cmd, state)?;
    let event = deduct_compute(&cmd, state, amount, now());
    Ok(single_page_book(seq, PlayerEvent::Deducted(event)))
}

// ---------------------------------------------------------------------------
// TransferFunds
// ---------------------------------------------------------------------------

pub fn transfer_funds_guard(state: &PlayerState) -> (r: Result<(), Rejection>)
    ensures
        r is Ok <==> state.exists_spec(),
        !state.exists_spec() ==> refused(r, ErrorStatus::PreconditionFailed, "Player does not exist"@),
{
    if !state.player_exists() {
        return Err(rejected("Player does not exist"));
    }
    Ok(())
}

pub fn transfer_funds_validate(cmd: &TransferFunds) -> (r: Result<i64, Rejection>)
    ensures
        amount_or_zero(cmd.amount) == 0 ==> refused(r, ErrorStatus::InvalidArgument, "amount must be non-zero"@),
        amount_or_zero(cmd.amount) != 0 ==> r == Ok::<i64, Rejection>(amount_or_zero(cmd.amount) as i64),
{
    let amount = amount_of(&cmd.amount);
    if amount == 0 {
        return Err(invalid_arg("amount must be non-zero"));
    }
    Ok(amount)
}

pub fn transfer_funds_compute(cmd: &TransferFunds, state: &PlayerState, amount: i64, at: Timestamp) -> (e: FundsTransferred)
    requires
        i64::MIN <= state.bankroll + amount <= i64::MAX,
    ensures
        e.from_player_root@ == cmd.from_player_root@,
        e.to_player_root@ == vstd::utf8::encode_utf8(state.player_id@),
        e.amount == cmd.amount,
        e.hand_root@ == cmd.hand_root@,
        e.reason == cmd.reason,
        is_chips(e.new_balance, state.bankroll + amount),
        e.transferred_at == Some(at),
{
    let new_balance = state.bankroll + amount;
    let id_bytes = state.player_id.as_str().as_bytes();
    FundsTransferred {
        from_player_root: crate::envelope::copy_bytes(&cmd.from_player_root),
        to_player_root: slice_prefix(id_bytes, id_bytes.len()),
        amount: copy_currency(&cmd.amount),
        hand_root: crate::envelope::copy_bytes(&cmd.hand_root),
        reason: cmd.reason.clone(),
        new_balance: chips(new_balance),
        transferred_at: Some(at),
    }
}

pub open spec fn transfer_funds_outcome(
    cmd: TransferFunds,
    state: PlayerState,
    seq: u32,
    r: Result<EventBook<PlayerEvent>, Rejection>,
) -> bool {
    let amount = amount_or_zero(cmd.amount);
    if !state.exists_spec() {
        refused(r, ErrorStatus::PreconditionFailed, "Player does not exist"@)
    } else if amount == 0 {
        refused(r, ErrorStatus::InvalidArgument, "amount must be non-zero"@)
    } else {
        &&& r is Ok
        &&& one_page(r->Ok_0, seq)
        &&& first_event(r->Ok_0) is Transferred
        &&& {
            let e = first_event(r->Ok_0)->Transferred_0;
            &&& e.from_player_root@ == cmd.from_player_root@
            &&& e.to_player_root@ == vstd::utf8::encode_utf8(state.player_id@)
            &&& e.amount == cmd.amount
            &&& e.hand_root@ == cmd.hand_root@
            &&& e.reason == cmd.reason
            &&& is_chips(e.new_balance, state.bankroll + amount)
            &&& e.transferred_at is Some
        }
    }
}

/// `TransferFunds`: credits a (signed, non-zero) amount, e.g. a pot win.
/// Refused for an unknown player or a zero amount.
pub fn handle_transfer_funds(cmd: TransferFunds, state: &PlayerState, seq: u32) -> (r: Result<
    EventBook<PlayerEvent>,
    Rejection,
>)
    requires
        state.exists_spec() ==> i64::MIN <= state.bankroll + amount_or_zero(cmd.amount) <= i64::MAX,
    ensures
        transfer_funds_outcome(cmd, *state, seq, r),
{
    transfer_funds_guard(state)?;
    let amount = transfer_funds_validate(&cmd)?;
    let event = transfer_funds_compute(&cmd, state, amount, now());
    Ok(single_page_book(seq, PlayerEvent::Transferred(event)))
}

// ---------------------------------------------------------------------------
// JoinTable rejection (compensation)
// ---------------------------------------------------------------------------

pub open spec fn join_rejected_outcome(n: Notification, state: PlayerState, b: EventBook<PlayerEvent>) -> bool {
    let key = rejected_root(n.rejection);
    let reserved = state.reserved_for(key);
    &&& b.cover == n.cover
    &&& b.pages@.len() == 1
    &&& b.pages@[0].sequence == SequenceType::Sequence(0)
    &&& b.pages@[0].created_at is Some
    &&& b.pages@[0].event is Released
    &&& {
        let e = b.pages@[0].event->Released_0;
        &&& is_chips(e.amount, reserved)
        &&& e.key@ == key
        &&& is_chips(e.new_available_balance, state.bankroll - (state.reserved_funds - reserved))
        &&& is_chips(e.new_reserved_balance, state.reserved_funds - reserved)
        &&& e.released_at is Some
    }
}

/// Compensation for a refused `JoinTable`: releases whatever is reserved
/// under the refused command's root (zero when nothing is), as an event
/// book addressed like the notification.
pub fn handle_join_rejected(notification: Notification, state: &PlayerState) -> (b: EventBook<PlayerEvent>)
    requires
        i64::MIN <= state.reserved_funds - state.reserved_for(rejected_root(notification.rejection)) <= i64::MAX,
        i64::MIN <= state.bankroll - (state.reserved_funds - state.reserved_for(rejected_root(notification.rejection))) <= i64::MAX,
    ensures
        join_rejected_outcome(notification, *state, b),
{
    let key = rejected_root_of(&notification.rejection);
    let reserved_amount = state.reservation_for(&key);
    let new_reserved = state.reserved_funds - reserved_amount;
    let new_available = state.bankroll - new_reserved;
    let event = FundsReleased {
        amount: chips(reserved_amount),
        key,
        new_available_balance: chips(new_available),
        new_reserved_balance: chips(new_reserved),
        released_at: Some(now()),
    };
    let mut pages: Vec<EventPage<PlayerEvent>> = Vec::new();
    pages.push(EventPage {
        sequence: SequenceType::Sequence(0),
        created_at: Some(now()),
        event: PlayerEvent::Released(event),
    });
    EventBook { cover: notification.cover, pages }
}

} // verus!
