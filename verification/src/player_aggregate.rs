//! The player aggregate as a component: it dispatches bankroll commands to
//! their handlers, applies its events, and compensates refused table joins.

use vstd::prelude::*;
use crate::envelope::{EventBook, Notification};
use crate::messages::{
    DeductReservedFunds, DepositFunds, FundsDeducted, FundsDeposited, FundsReleased, FundsReserved,
    FundsTransferred, FundsWithdrawn, PlayerEvent, PlayerRegistered, RegisterPlayer,
    ReleaseFunds, ReserveFunds, TransferFunds, WithdrawFunds, amount_or_zero,
};
use crate::player_handlers::{
    deduct_outcome, deposit_funds_outcome, handle_deduct_reserved_funds, handle_deposit_funds,
    handle_join_rejected, handle_register_player, handle_release_funds, handle_reserve_funds,
    handle_transfer_funds, handle_withdraw_funds, join_rejected_outcome, register_player_outcome,
    release_funds_outcome, reserve_funds_outcome, transfer_funds_outcome, withdraw_funds_outcome,
};
use crate::player_state::{
    deducted_from, deposited_into, registered_in, released_from, reserved_in, transferred_into,
    withdrawn_from, PlayerState,
};
use crate::rejection::Rejection;
use crate::text::{ends_with, str_eq};

verus! {

/// The commands the player aggregate accepts.
#[derive(Debug, Clone, PartialEq, Eq)]
pub enum PlayerCommand {
    RegisterPlayer(RegisterPlayer),
    DepositFunds(DepositFunds),
    WithdrawFunds(WithdrawFunds),
    ReserveFunds(ReserveFunds),
    ReleaseFunds(ReleaseFunds),
    TransferFunds(TransferFunds),
    DeductReservedFunds(DeductReservedFunds),
}

/// What the handler of `cmd` answers for `state` at `seq`.
pub open spec fn player_command_outcome(
    cmd: PlayerCommand,
    state: PlayerState,
    seq: u32,
    r: Result<EventBook<PlayerEvent>, Rejection>,
) -> bool {
    match cmd {
        PlayerCommand::RegisterPlayer(c) => register_player_outcome(c, state, seq, r),
        PlayerCommand::DepositFunds(c) => deposit_funds_outcome(c, state, seq, r),
        PlayerCommand::WithdrawFunds(c) => withdraw_funds_outcome(c, state, seq, r),
        PlayerCommand::ReserveFunds(c) => reserve_funds_outcome(c, state, seq, r),
        PlayerCommand::ReleaseFunds(c) => release_funds_outcome(c, state, seq, r),
        PlayerCommand::TransferFunds(c) => transfer_funds_outcome(c, state, seq, r),
        PlayerCommand::DeductReservedFunds(c) => deduct_outcome(c, state, seq, r),
    }
}

/// The arithmetic of `cmd` on `state` stays within `i64`.
pub open spec fn player_command_in_range(cmd: PlayerCommand, state: PlayerState) -> bool {
    match cmd {
        PlayerCommand::RegisterPlayer(_) => true,
        PlayerCommand::DepositFunds(c) => state.bankroll + amount_or_zero(c.amount) <= i64::MAX,
        PlayerCommand::WithdrawFunds(c) => i64::MIN <= state.available_spec() <= i64::MAX
            && i64::MIN <= state.bankroll - amount_or_zero(c.amount),
        PlayerCommand::ReserveFunds(c) => i64::MIN <= state.available_spec() <= i64::MAX
            && i64::MIN <= state.reserved_funds + amount_or_zero(c.amount) <= i64::MAX,
        PlayerCommand::ReleaseFunds(c) => i64::MIN <= state.reserved_funds - state.reserved_for(c.key@)
            && i64::MIN <= state.bankroll - (state.reserved_funds - state.reserved_for(c.key@)) <= i64::MAX,
        PlayerCommand::TransferFunds(c) => i64::MIN <= state.bankroll + amount_or_zero(c.amount) <= i64::MAX,
        PlayerCommand::DeductReservedFunds(c) => i64::MIN <= state.reserved_funds - amount_or_zero(c.amount)
            && i64::MIN <= state.bankroll - amount_or_zero(c.amount),
    }
}

/// What applying `event` does to a player state.
pub open spec fn player_event_applied(old: PlayerState, new: PlayerState, event: PlayerEvent) -> bool {
    match event {
        PlayerEvent::Registered(e) => registered_in(old, new, e),
        PlayerEvent::Deposited(e) => deposited_into(old, new, e),
        PlayerEvent::Withdrawn(e) => withdrawn_from(old, new, e),
        PlayerEvent::Reserved(e) => reserved_in(old, new, e),
        PlayerEvent::Released(e) => released_from(old, new, e),
        PlayerEvent::Transferred(e) => transferred_into(old, new, e),
        PlayerEvent::Deducted(e) => deducted_from(old, new, e),
    }
}

/// The arithmetic of applying `event` to `state` stays within `i64`.
pub open spec fn player_event_in_range(state: PlayerState, event: PlayerEvent) -> bool {
    match event {
        PlayerEvent::Registered(_) => true,
        PlayerEvent::Deposited(e) => i64::MIN <= state.bankroll + amount_or_zero(e.amount) <= i64::MAX,
        PlayerEvent::Withdrawn(e) => i64::MIN <= state.bankroll - amount_or_zero(e.amount) <= i64::MAX,
        PlayerEvent::Reserved(e) => i64::MIN <= state.reserved_funds + amount_or_zero(e.amount) <= i64::MAX
            && i64::MIN <= state.reserved_for(e.key@) + amount_or_zero(e.amount) <= i64::MAX,
        PlayerEvent::Released(e) => i64::MIN <= state.reserved_funds - amount_or_zero(e.amount) <= i64::MAX,
        PlayerEvent::Transferred(e) => i64::MIN <= state.bankroll + amount_or_zero(e.amount) <= i64::MAX,
        PlayerEvent::Deducted(e) => i64::MIN <= state.reserved_funds - amount_or_zero(e.amount) <= i64::MAX
            && i64::MIN <= state.bankroll - amount_or_zero(e.amount) <= i64::MAX,
    }
}

/// Player aggregate: dispatches bankroll commands and applies events.
pub struct PlayerAggregate;

impl PlayerAggregate {
    pub fn on_register_player(&self, cmd: RegisterPlayer, state: &PlayerState, seq: u32) -> (r: Result<EventBook<PlayerEvent>, Rejection>)
        ensures
            register_player_outcome(cmd, *state, seq, r),
    {
        handle_register_player(cmd, state, seq)
    }

    pub fn on_deposit_funds(&self, cmd: DepositFunds, state: &PlayerState, seq: u32) -> (r: Result<EventBook<PlayerEvent>, Rejection>)
        requires
            player_command_in_range(PlayerCommand::DepositFunds(cmd), *state),
        ensures
            deposit_funds_outcome(cmd, *state, seq, r),
    {
        handle_deposit_funds(cmd, state, seq)
    }

    pub fn on_withdraw_funds(&self, cmd: WithdrawFunds, state: &PlayerState, seq: u32) -> (r: Result<EventBook<PlayerEvent>, Rejection>)
        requires
            player_command_in_range(PlayerCommand::WithdrawFunds(cmd), *state),
        ensures
            withdraw_funds_outcome(cmd, *state, seq, r),
    {
        handle_withdraw_funds(cmd, state, seq)
    }

    pub fn on_reserve_funds(&self, cmd: ReserveFunds, state: &PlayerState, seq: u32) -> (r: Result<EventBook<PlayerEvent>, Rejection>)
        requires
            player_command_in_range(PlayerCommand::ReserveFunds(cmd), *state),
        ensures
            reserve_funds_outcome(cmd, *state, seq, r),
    {
        handle_reserve_funds(cmd, state, seq)
    }

    pub fn on_release_funds(&self, cmd: ReleaseFunds, state: &PlayerState, seq: u32) -> (r: Result<EventBook<PlayerEvent>, Rejection>)
        requires
            player_command_in_range(PlayerCommand::ReleaseFunds(cmd), *state),
        ensures
            release_funds_outcome(cmd, *state, seq, r),
    {
        handle_release_funds(cmd, state, seq)
    }

    pub fn on_transfer_funds(&self, cmd: TransferFunds, state: &PlayerState, seq: u32) -> (r: Result<EventBook<PlayerEvent>, Rejection>)
        requires
            player_command_in_range(PlayerCommand::TransferFunds(cmd), *state),
        ensures
            transfer_funds_outcome(cmd, *state, seq, r),
    {
        handle_transfer_funds(cmd, state, seq)
    }

    pub fn on_deduct_reserved_funds(&self, cmd: DeductReservedFunds, state: &PlayerState, seq: u32) -> (r: Result<EventBook<PlayerEvent>, Rejection>)
        requires
            player_command_in_range(PlayerCommand::DeductReservedFunds(cmd), *state),
        ensures
            deduct_outcome(cmd, *state, seq, r),
    {
        handle_deduct_reserved_funds(cmd, state, seq)
    }

    /// Routes a command to its handler.
    pub fn handle(&self, cmd: PlayerCommand, state: &PlayerState, seq: u32) -> (r: Result<EventBook<PlayerEvent>, Rejection>)
        requires
            player_command_in_range(cmd, *state),
        ensures
            player_command_outcome(cmd, *state, seq, r),
    {
        match cmd {
            PlayerCommand::RegisterPlayer(c) => self.on_register_player(c, state, seq),
            PlayerCommand::DepositFunds(c) => self.on_deposit_funds(c, state, seq),
            PlayerCommand::WithdrawFunds(c) => self.on_withdraw_funds(c, state, seq),
            PlayerCommand::ReserveFunds(c) => self.on_reserve_funds(c, state, seq),
            PlayerCommand::ReleaseFunds(c) => self.on_release_funds(c, state, seq),
            PlayerCommand::TransferFunds(c) => self.on_transfer_funds(c, state, seq),
            PlayerCommand::DeductReservedFunds(c) => self.on_deduct_reserved_funds(c, state, seq),
        }
    }

    pub fn apply_registered(state: &mut PlayerState, event: PlayerRegistered)
        ensures
            registered_in(*old(state), *final(state), event),
    {
        crate::player_state::apply_registered(state, event);
    }

    pub fn apply_deposited(state: &mut PlayerState, event: FundsDeposited)
        requires
            player_event_in_range(*old(state), PlayerEvent::Deposited(event)),
        ensures
            deposited_into(*old(state), *final(state), event),
    {
        crate::player_state::apply_deposited(state, event);
    }

    pub fn apply_withdrawn(state: &mut PlayerState, event: FundsWithdrawn)
        requires
            player_event_in_range(*old(state), PlayerEvent::Withdrawn(event)),
        ensures
            withdrawn_from(*old(state), *final(state), event),
    {
        crate::player_state::apply_withdrawn(state, event);
    }

    pub fn apply_reserved(state: &mut PlayerState, event: FundsReserved)
        requires
            player_event_in_range(*old(state), PlayerEvent::Reserved(event)),
        ensures
            reserved_in(*old(state), *final(state), event),
    {
        crate::player_state::apply_reserved(state, event);
    }

    pub fn apply_released(state: &mut PlayerState, event: FundsReleased)
        requires
            player_event_in_range(*old(state), PlayerEvent::Released(event)),
        ensures
            released_from(*old(state), *final(state), event),
    {
        crate::player_state::apply_released(state, event);
    }

    pub fn apply_transferred(state: &mut PlayerState, event: FundsTransferred)
        requires
            player_event_in_range(*old(state), PlayerEvent::Transferred(event)),
        ensures
            transferred_into(*old(state), *final(state), event),
    {
        crate::player_state::apply_transferred(state, event);
    }

    pub fn apply_deducted(state: &mut PlayerState, event: FundsDeducted)
        requires
            player_event_in_range(*old(state), PlayerEvent::Deducted(event)),
        ensures
            deducted_from(*old(state), *final(state), event),
    {
        crate::player_state::apply_funds_deducted(state, event);
    }

    /// Routes an event to its applier.
    pub fn apply(state: &mut PlayerState, event: PlayerEvent)
        requires
            player_event_in_range(*old(state), event),
        ensures
            player_event_applied(*old(state), *final(state), event),
    {
        match event {
            PlayerEvent::Registered(e) => Self::apply_registered(state, e),
            PlayerEvent::Deposited(e) => Self::apply_deposited(state, e),
            PlayerEvent::Withdrawn(e) => Self::apply_withdrawn(state, e),
            PlayerEvent::Reserved(e) => Self::apply_reserved(state, e),
            PlayerEvent::Released(e) => Self::apply_released(state, e),
            PlayerEvent::Transferred(e) => Self::apply_transferred(state, e),
            PlayerEvent::Deducted(e) => Self::apply_deducted(state, e),
        }
    }

    /// A refused `JoinTable` from the table domain: release the funds
    /// reserved for that table.
    pub fn on_join_table_rejected(&self, notification: Notification, state: &PlayerState) -> (b: EventBook<PlayerEvent>)
        requires
            i64::MIN <= state.reserved_funds - state.reserved_for(crate::envelope::rejected_root(notification.rejection)) <= i64::MAX,
            i64::MIN <= state.bankroll - (state.reserved_funds - state.reserved_for(crate::envelope::rejected_root(notification.rejection))) <= i64::MAX,
        ensures
            join_rejected_outcome(notification, *state, b),
    {
        handle_join_rejected(notification, state)
    }
}

/// The refused command is a table's `JoinTable`: the domain is `table`
/// and the command's name ends in `JoinTable`.
pub open spec fn refused_join(domain: Seq<char>, command: Seq<char>) -> bool {
    &&& domain == "table"@
    &&& "JoinTable"@.len() <= command.len()
    &&& command.subrange(command.len() - "JoinTable"@.len(), command.len() as int) == "JoinTable"@
}

/// The player command handler as registered with the runtime.
#[derive(Debug, Clone, Copy, Default)]
pub struct PlayerHandler;

impl PlayerHandler {
    pub fn new() -> Self {
        PlayerHandler
    }

    /// Names of the commands this handler accepts.
    pub fn command_types(&self) -> (v: Vec<String>)
        ensures
            v@.len() == 7,
            v@[0]@ == "RegisterPlayer"@,
            v@[1]@ == "DepositFunds"@,
            v@[2]@ == "WithdrawFunds"@,
            v@[3]@ == "ReserveFunds"@,
            v@[4]@ == "ReleaseFunds"@,
            v@[5]@ == "TransferFunds"@,
            v@[6]@ == "DeductReservedFunds"@,
    {
        let mut v: Vec<String> = Vec::new();
        v.push(String::from_str("RegisterPlayer"));
        v.push(String::from_str("DepositFunds"));
        v.push(String::from_str("WithdrawFunds"));
        v.push(String::from_str("ReserveFunds"));
        v.push(String::from_str("ReleaseFunds"));
        v.push(String::from_str("TransferFunds"));
        v.push(String::from_str("DeductReservedFunds"));
        v
    }

    /// Routes a command to its handler.
    pub fn handle(&self, cmd: PlayerCommand, state: &PlayerState, seq: u32) -> (r: Result<EventBook<PlayerEvent>, Rejection>)
        requires
            player_command_in_range(cmd, *state),
        ensures
            player_command_outcome(cmd, *state, seq, r),
    {
        PlayerAggregate.handle(cmd, state, seq)
    }

    /// A refusal of a command this aggregate caused: a `JoinTable` refused by
    /// the table domain is compensated by releasing the table's
    /// reservation; anything else is left to the runtime (`None`).
    pub fn on_rejected(&self, notification: Notification, state: &PlayerState, target_domain: &str, target_command: &str) -> (r: Option<EventBook<PlayerEvent>>)
        requires
            refused_join(target_domain@, target_command@) ==> {
                &&& i64::MIN <= state.reserved_funds - state.reserved_for(crate::envelope::rejected_root(notification.rejection)) <= i64::MAX
                &&& i64::MIN <= state.bankroll - (state.reserved_funds - state.reserved_for(crate::envelope::rejected_root(notification.rejection))) <= i64::MAX
            },
        ensures
            r is Some <==> refused_join(target_domain@, target_command@),
            r is Some ==> join_rejected_outcome(notification, *state, r->0),
    {
        if str_eq(target_domain, "table") && ends_with(target_command, "JoinTable") {
            return Some(handle_join_rejected(notification, state));
        }
        None
    }
}

} // verus!
