use poker_domain::messages::{
    Currency, DeductReservedFunds, DepositFunds, PlayerEvent, RegisterPlayer, ReleaseFunds,
    ReserveFunds, TransferFunds, WithdrawFunds, PlayerType,
};
use poker_domain::player_aggregate::PlayerAggregate;
use poker_domain::player_handlers::{
    handle_deduct_reserved_funds, handle_register_player, handle_release_funds,
    handle_reserve_funds, handle_transfer_funds, handle_withdraw_funds,
};
use poker_domain::player_state::PlayerState;
use poker_domain::rejection::ErrorStatus;

fn chips(amount: i64) -> Option<Currency> {
    Some(Currency {
        amount,
        currency_code: "CHIPS".into(),
    })
}

fn apply_all(state: &mut PlayerState, events: Vec<PlayerEvent>) {
    for e in events {
        PlayerAggregate::apply(state, e);
    }
}

fn accepted(
    r: Result<poker_domain::envelope::EventBook<PlayerEvent>, poker_domain::rejection::Rejection>,
) -> Vec<PlayerEvent> {
    r.expect("accepted").pages.into_iter().map(|p| p.event).collect()
}

fn registered_with(bankroll: i64) -> PlayerState {
    let mut s = PlayerState::default();
    let events = accepted(handle_register_player(
        RegisterPlayer {
            display_name: "Alice".into(),
            email: "alice@example.com".into(),
            player_type: PlayerType::Human,
            ai_model_id: String::new(),
        },
        &s,
        0,
    ));
    apply_all(&mut s, events);
    if bankroll == 0 {
        return s;
    }
    let events = accepted(PlayerAggregate.on_deposit_funds(
        DepositFunds {
            amount: chips(bankroll),
        },
        &s,
        1,
    ));
    apply_all(&mut s, events);
    s
}

fn funds_ok(s: &PlayerState) -> bool {
    s.reserved_funds >= 0 && s.reserved_funds <= s.bankroll
}

#[test]
fn registration_requires_name_email_and_a_new_player() {
    let s = PlayerState::default();
    let err = handle_register_player(
        RegisterPlayer {
            display_name: String::new(),
            email: "a@x".into(),
            ..Default::default()
        },
        &s,
        0,
    )
    .unwrap_err();
    assert_eq!(err.message, "display_name is required");
    let err = handle_register_player(
        RegisterPlayer {
            display_name: "A".into(),
            email: String::new(),
            ..Default::default()
        },
        &s,
        0,
    )
    .unwrap_err();
    assert_eq!(err.message, "email is required");
    let s = registered_with(0);
    assert_eq!(s.player_id, "player_alice@example.com");
    let err = handle_register_player(
        RegisterPlayer {
            display_name: "A".into(),
            email: "a@x".into(),
            ..Default::default()
        },
        &s,
        0,
    )
    .unwrap_err();
    assert_eq!(err.message, "Player already exists");
}

#[test]
fn reserve_then_deduct_keeps_the_bankroll_consistent() {
    let mut s = registered_with(1000);
    let key = vec![0xab, 0xcd];
    let events = accepted(handle_reserve_funds(
        ReserveFunds {
            amount: chips(300),
            key: key.clone(),
        },
        &s,
        2,
    ));
    apply_all(&mut s, events);
    assert_eq!(s.reservation_for(&key), 300);
    assert_eq!(s.available_balance(), 700);
    assert!(funds_ok(&s));

    let err = handle_reserve_funds(
        ReserveFunds {
            amount: chips(10),
            key: key.clone(),
        },
        &s,
        3,
    )
    .unwrap_err();
    assert_eq!(err.message, "Funds already reserved for this table");

    let err = handle_deduct_reserved_funds(
        DeductReservedFunds {
            amount: chips(301),
            key: key.clone(),
            reservation_id: vec![1],
        },
        &s,
        3,
    )
    .unwrap_err();
    assert_eq!(err.message, "amount exceeds reserved funds for this key");

    let events = accepted(handle_deduct_reserved_funds(
        DeductReservedFunds {
            amount: chips(300),
            key: key.clone(),
            reservation_id: vec![1],
        },
        &s,
        3,
    ));
    apply_all(&mut s, events);
    assert_eq!(s.bankroll, 700);
    assert_eq!(s.reserved_funds, 0);
    assert_eq!(s.reservation_for(&key), 0);
    assert!(funds_ok(&s));
}

#[test]
fn reserve_then_release_restores_the_available_balance() {
    let mut s = registered_with(500);
    let key = vec![7];
    let before = s.available_balance();
    let events = accepted(handle_reserve_funds(
        ReserveFunds {
            amount: chips(200),
            key: key.clone(),
        },
        &s,
        2,
    ));
    apply_all(&mut s, events);
    let events = accepted(handle_release_funds(ReleaseFunds { key: key.clone() }, &s, 3));
    match &events[0] {
        PlayerEvent::Released(e) => {
            assert_eq!(e.amount, chips(200));
            assert_eq!(e.new_available_balance, chips(500));
            assert_eq!(e.new_reserved_balance, chips(0));
        }
        other => panic!("expected a release, got {:?}", other),
    }
    apply_all(&mut s, events);
    assert_eq!(s.available_balance(), before);
    assert_eq!(s.reservation_for(&key), 0);
}

#[test]
fn release_refusals_use_the_catalog() {
    let s = registered_with(500);
    let err = handle_release_funds(ReleaseFunds { key: vec![] }, &s, 2).unwrap_err();
    assert_eq!(err.code, "TABLE_ROOT_REQUIRED");
    assert_eq!(err.status, ErrorStatus::InvalidArgument);
    let err = handle_release_funds(ReleaseFunds { key: vec![0xde, 0xad] }, &s, 2).unwrap_err();
    assert_eq!(err.code, "NO_FUNDS_RESERVED_FOR_TABLE");
    assert_eq!(err.detail("table_root_hex"), Some("dead".to_string()));
    let err = handle_release_funds(ReleaseFunds { key: vec![1] }, &PlayerState::default(), 2)
        .unwrap_err();
    assert_eq!(err.code, "PLAYER_NOT_FOUND");
}

#[test]
fn withdraw_and_reserve_refuse_more_than_is_available() {
    let mut s = registered_with(100);
    let events = accepted(handle_reserve_funds(
        ReserveFunds {
            amount: chips(80),
            key: vec![1],
        },
        &s,
        2,
    ));
    apply_all(&mut s, events);
    let err = handle_withdraw_funds(WithdrawFunds { amount: chips(30) }, &s, 3).unwrap_err();
    assert_eq!(err.message, "insufficient available balance");
    let err = handle_reserve_funds(
        ReserveFunds {
            amount: chips(30),
            key: vec![2],
        },
        &s,
        3,
    )
    .unwrap_err();
    assert_eq!(err.message, "Insufficient funds");
    let err = handle_withdraw_funds(WithdrawFunds { amount: None }, &s, 3).unwrap_err();
    assert_eq!(err.status, ErrorStatus::InvalidArgument);
}

#[test]
fn transfers_credit_signed_amounts() {
    let mut s = registered_with(100);
    let err = handle_transfer_funds(
        TransferFunds {
            from_player_root: vec![1],
            amount: chips(0),
            hand_root: vec![],
            reason: "pot".into(),
        },
        &s,
        2,
    )
    .unwrap_err();
    assert_eq!(err.message, "amount must be non-zero");
    let events = accepted(handle_transfer_funds(
        TransferFunds {
            from_player_root: vec![1],
            amount: chips(-40),
            hand_root: vec![],
            reason: "pot".into(),
        },
        &s,
        2,
    ));
    match &events[0] {
        PlayerEvent::Transferred(e) => {
            assert_eq!(e.new_balance, chips(60));
            assert_eq!(e.to_player_root, b"player_alice@example.com".to_vec());
        }
        other => panic!("expected a transfer, got {:?}", other),
    }
    apply_all(&mut s, events);
    assert_eq!(s.bankroll, 60);
}
