use poker_domain::envelope::{
    Cover, Notification, ProtoUuid, RejectedCommand, RejectionNotification, SequenceType, Timestamp,
};
use hex::encode as hex_encode;
use poker_domain::messages::{
    Currency, DeductReservedFunds, DepositFunds, FundsDeducted, FundsDeposited, FundsReleased,
    FundsReserved, FundsTransferred, FundsWithdrawn, PlayerEvent, PlayerRegistered, PlayerType,
    RegisterPlayer, ReleaseFunds, ReserveFunds, TransferFunds, WithdrawFunds,
};
use poker_domain::player_aggregate::{PlayerAggregate, PlayerCommand, PlayerHandler};
use poker_domain::player_handlers::{
    deposit_funds_compute, deposit_funds_guard, deposit_funds_validate, handle_deposit_funds,
};
use poker_domain::player_state::{apply_deposited, apply_registered, apply_reserved, PlayerState};

fn currency(amount: i64) -> Currency {
    Currency {
        amount,
        currency_code: "CHIPS".into(),
    }
}

fn registered_state() -> PlayerState {
    let mut s = PlayerState::default();
    apply_registered(
        &mut s,
        PlayerRegistered {
            display_name: "Alice".into(),
            email: "alice@example.com".into(),
            player_type: PlayerType::Human,
            ai_model_id: String::new(),
            registered_at: None,
        },
    );
    s
}

fn funded_state(bankroll: i64) -> PlayerState {
    let mut s = registered_state();
    apply_deposited(
        &mut s,
        FundsDeposited {
            amount: Some(currency(bankroll)),
            new_balance: Some(currency(bankroll)),
            deposited_at: None,
        },
    );
    s
}

fn reserve(state: &mut PlayerState, key: &[u8], amount: i64) {
    apply_reserved(
        state,
        FundsReserved {
            amount: Some(currency(amount)),
            key: key.to_vec(),
            new_available_balance: Some(currency(state.bankroll - amount)),
            new_reserved_balance: Some(currency(state.reserved_funds + amount)),
            reserved_at: None,
        },
    );
}

// --- appliers ---

#[test]
fn apply_registered_delegates_to_state_fn() {
    let mut state = PlayerState::default();
    PlayerAggregate::apply_registered(
        &mut state,
        PlayerRegistered {
            display_name: "Alice".into(),
            email: "alice@example.com".into(),
            player_type: PlayerType::Human,
            ai_model_id: String::new(),
            registered_at: None,
        },
    );
    assert_eq!(state.player_id, "player_alice@example.com");
    assert_eq!(state.display_name, "Alice");
    assert_eq!(state.status, "active");
}

#[test]
fn apply_deposited_delegates_to_state_fn() {
    let mut state = PlayerState::default();
    PlayerAggregate::apply_deposited(
        &mut state,
        FundsDeposited {
            amount: Some(currency(500)),
            new_balance: Some(currency(500)),
            deposited_at: None,
        },
    );
    assert_eq!(state.bankroll, 500);
}

#[test]
fn apply_withdrawn_delegates_to_state_fn() {
    let mut state = PlayerState {
        bankroll: 1000,
        ..PlayerState::default()
    };
    PlayerAggregate::apply_withdrawn(
        &mut state,
        FundsWithdrawn {
            amount: Some(currency(300)),
            new_balance: Some(currency(700)),
            withdrawn_at: None,
        },
    );
    assert_eq!(state.bankroll, 700);
}

#[test]
fn apply_reserved_delegates_to_state_fn() {
    let mut state = PlayerState {
        bankroll: 1000,
        ..PlayerState::default()
    };
    let key = vec![1u8, 2];
    PlayerAggregate::apply_reserved(
        &mut state,
        FundsReserved {
            amount: Some(currency(200)),
            key: key.clone(),
            new_available_balance: Some(currency(800)),
            new_reserved_balance: Some(currency(200)),
            reserved_at: None,
        },
    );
    assert_eq!(state.reserved_funds, 200);
    assert_eq!(state.table_reservations.get(&hex_encode(&key)), Some(&200));
}

#[test]
fn apply_released_delegates_to_state_fn() {
    let mut state = PlayerState {
        bankroll: 1000,
        reserved_funds: 200,
        ..PlayerState::default()
    };
    let key = vec![5u8];
    state.table_reservations.insert(hex_encode(&key), 200);
    PlayerAggregate::apply_released(
        &mut state,
        FundsReleased {
            amount: Some(currency(200)),
            key: key.clone(),
            new_available_balance: Some(currency(1000)),
            new_reserved_balance: Some(currency(0)),
            released_at: None,
        },
    );
    assert_eq!(state.reserved_funds, 0);
    assert!(!state.table_reservations.contains_key(&hex_encode(&key)));
}

#[test]
fn apply_transferred_delegates_to_state_fn() {
    let mut state = PlayerState {
        bankroll: 500,
        ..PlayerState::default()
    };
    PlayerAggregate::apply_transferred(
        &mut state,
        FundsTransferred {
            from_player_root: vec![1],
            to_player_root: vec![2],
            amount: Some(currency(200)),
            hand_root: vec![],
            reason: "pot_win".into(),
            new_balance: Some(currency(700)),
            transferred_at: None,
        },
    );
    assert_eq!(state.bankroll, 700);
}

#[test]
fn apply_deducted_delegates_to_state_fn() {
    let mut state = PlayerState {
        bankroll: 1000,
        reserved_funds: 200,
        ..PlayerState::default()
    };
    let key = vec![5u8];
    state.table_reservations.insert(hex_encode(&key), 200);
    PlayerAggregate::apply_deducted(
        &mut state,
        FundsDeducted {
            amount: Some(currency(200)),
            key: key.clone(),
            reservation_id: vec![0xaa],
            new_balance: Some(currency(800)),
            new_reserved_balance: Some(currency(0)),
            deducted_at: None,
        },
    );
    assert_eq!(state.bankroll, 800);
    assert_eq!(state.reserved_funds, 0);
    assert!(!state.table_reservations.contains_key(&hex_encode(&key)));
}

// --- command handlers ---

#[test]
fn on_register_player_delegates_to_handler() {
    let agg = PlayerAggregate;
    let state = PlayerState::default();
    let book = agg
        .on_register_player(
            RegisterPlayer {
                display_name: "Alice".into(),
                email: "alice@example.com".into(),
                player_type: PlayerType::Human,
                ai_model_id: String::new(),
            },
            &state,
            0,
        )
        .expect("handler should succeed");
    assert_eq!(book.pages.len(), 1);
}

#[test]
fn on_deposit_funds_delegates_to_handler() {
    let agg = PlayerAggregate;
    let state = registered_state();
    let book = agg
        .on_deposit_funds(
            DepositFunds {
                amount: Some(currency(500)),
            },
            &state,
            1,
        )
        .expect("handler should succeed");
    assert_eq!(book.pages.len(), 1);
}

#[test]
fn on_withdraw_funds_delegates_to_handler() {
    let agg = PlayerAggregate;
    let state = funded_state(1000);
    let book = agg
        .on_withdraw_funds(
            WithdrawFunds {
                amount: Some(currency(300)),
            },
            &state,
            2,
        )
        .expect("handler should succeed");
    assert_eq!(book.pages.len(), 1);
}

#[test]
fn on_reserve_funds_delegates_to_handler() {
    let agg = PlayerAggregate;
    let state = funded_state(1000);
    let book = agg
        .on_reserve_funds(
            ReserveFunds {
                amount: Some(currency(200)),
                key: vec![0xab, 0xcd],
            },
            &state,
            3,
        )
        .expect("handler should succeed");
    assert_eq!(book.pages.len(), 1);
}

#[test]
fn on_release_funds_delegates_to_handler() {
    let agg = PlayerAggregate;
    let mut state = funded_state(1000);
    let key = vec![0xab, 0xcd];
    reserve(&mut state, &key, 200);
    let book = agg
        .on_release_funds(ReleaseFunds { key }, &state, 4)
        .expect("handler should succeed");
    assert_eq!(book.pages.len(), 1);
}

#[test]
fn on_transfer_funds_delegates_to_handler() {
    let agg = PlayerAggregate;
    let state = registered_state();
    let book = agg
        .on_transfer_funds(
            TransferFunds {
                from_player_root: vec![9],
                amount: Some(currency(100)),
                hand_root: vec![1],
                reason: "pot".into(),
            },
            &state,
            5,
        )
        .expect("handler should succeed");
    assert_eq!(book.pages.len(), 1);
}

#[test]
fn on_deduct_reserved_funds_delegates_to_handler() {
    let agg = PlayerAggregate;
    let mut state = funded_state(1000);
    let key = vec![0xab, 0xcd];
    reserve(&mut state, &key, 200);
    let book = agg
        .on_deduct_reserved_funds(
            DeductReservedFunds {
                amount: Some(currency(200)),
                key,
                reservation_id: vec![0xaa],
            },
            &state,
            6,
        )
        .expect("handler should succeed");
    assert_eq!(book.pages.len(), 1);
}

fn join_table_rejection(key: &[u8]) -> Notification {
    Notification {
        cover: Some(Cover {
            domain: "player".into(),
            root: Some(ProtoUuid {
                value: vec![0xff; 16],
            }),
            correlation_id: String::new(),
        }),
        rejection: Some(RejectionNotification {
            rejected_command: Some(RejectedCommand {
                cover: Some(Cover {
                    domain: "table".into(),
                    root: Some(ProtoUuid {
                        value: key.to_vec(),
                    }),
                    correlation_id: String::new(),
                }),
            }),
            rejection_reason: "seat_occupied".into(),
        }),
    }
}

#[test]
fn on_join_table_rejected_delegates_to_handler() {
    let agg = PlayerAggregate;
    let mut state = funded_state(1000);
    let key = vec![1u8, 2, 3, 4];
    reserve(&mut state, &key, 400);
    let book = agg.on_join_table_rejected(join_table_rejection(&key), &state);
    assert_eq!(book.pages.len(), 1);
    match &book.pages[0].event {
        PlayerEvent::Released(e) => {
            assert_eq!(e.amount.as_ref().unwrap().amount, 400);
            assert_eq!(e.key, key);
            assert_eq!(e.new_reserved_balance.as_ref().unwrap().amount, 0);
            assert_eq!(e.new_available_balance.as_ref().unwrap().amount, 1000);
        }
        other => panic!("expected a release, got {:?}", other),
    }
    assert_eq!(book.cover.unwrap().domain, "player");
}

#[test]
fn join_rejection_for_unreserved_table_releases_nothing() {
    let state = funded_state(1000);
    let book = PlayerAggregate.on_join_table_rejected(join_table_rejection(&[7, 7]), &state);
    match &book.pages[0].event {
        PlayerEvent::Released(e) => assert_eq!(e.amount.as_ref().unwrap().amount, 0),
        other => panic!("expected a release, got {:?}", other),
    }
}

#[test]
fn handler_routes_only_join_table_rejections() {
    let handler = PlayerHandler::new();
    let mut state = funded_state(1000);
    reserve(&mut state, &[3], 100);
    assert!(handler
        .on_rejected(join_table_rejection(&[3]), &state, "table", "examples.JoinTable")
        .is_some());
    assert!(handler
        .on_rejected(join_table_rejection(&[3]), &state, "hand", "examples.JoinTable")
        .is_none());
    assert!(handler
        .on_rejected(join_table_rejection(&[3]), &state, "table", "LeaveTable")
        .is_none());
    assert_eq!(handler.command_types().len(), 7);
    assert_eq!(handler.command_types()[6], "DeductReservedFunds");
}

#[test]
fn dispatch_routes_each_command_to_its_handler() {
    let handler = PlayerHandler::new();
    let state = funded_state(1000);
    let book = handler
        .handle(
            PlayerCommand::WithdrawFunds(WithdrawFunds {
                amount: Some(currency(250)),
            }),
            &state,
            9,
        )
        .unwrap();
    assert_eq!(book.pages[0].sequence, SequenceType::Sequence(9));
    match &book.pages[0].event {
        PlayerEvent::Withdrawn(e) => assert_eq!(e.new_balance.as_ref().unwrap().amount, 750),
        other => panic!("expected a withdrawal, got {:?}", other),
    }
    let refused = handler.handle(
        PlayerCommand::WithdrawFunds(WithdrawFunds {
            amount: Some(currency(5000)),
        }),
        &state,
        9,
    );
    assert_eq!(refused.unwrap_err().message, "insufficient available balance");
}

// --- deposit ---

#[test]
fn test_deposit_increases_bankroll() {
    let state = PlayerState {
        player_id: "player_1".to_string(),
        bankroll: 1000,
        ..Default::default()
    };
    let cmd = DepositFunds {
        amount: Some(Currency {
            amount: 500,
            currency_code: "CHIPS".to_string(),
        }),
    };

    let event = deposit_funds_compute(&cmd, &state, 500, Timestamp::default());

    assert_eq!(event.new_balance.unwrap().amount, 1500);
}

#[test]
fn test_deposit_rejects_non_existent_player() {
    let state = PlayerState::default();

    let result = deposit_funds_guard(&state);

    assert!(result.is_err());
    assert!(result.unwrap_err().message.contains("does not exist"));
}

#[test]
fn test_deposit_rejects_zero_amount() {
    let cmd = DepositFunds {
        amount: Some(Currency {
            amount: 0,
            currency_code: "CHIPS".to_string(),
        }),
    };

    let result = deposit_funds_validate(&cmd);

    assert!(result.is_err());
    assert!(result.unwrap_err().message.contains("positive"));
}

fn registered() -> PlayerState {
    let mut s = PlayerState::default();
    apply_registered(
        &mut s,
        PlayerRegistered {
            display_name: "A".into(),
            email: "a@x".into(),
            player_type: PlayerType::Human,
            ai_model_id: String::new(),
            registered_at: None,
        },
    );
    s
}

#[test]
fn handle_deposit_funds_success_emits_event() {
    let mut state = registered();
    state.bankroll = 100;
    let cmd = DepositFunds {
        amount: Some(Currency {
            amount: 400,
            currency_code: "CHIPS".into(),
        }),
    };
    let book = handle_deposit_funds(cmd, &state, 1).expect("ok");
    assert_eq!(book.pages.len(), 1);
    let event = &book.pages[0].event;
    assert!(event.message_name().ends_with("FundsDeposited"));
    match event {
        PlayerEvent::Deposited(decoded) => {
            assert_eq!(decoded.new_balance.as_ref().unwrap().amount, 500)
        }
        other => panic!("expected a deposit, got {:?}", other),
    }
}

#[test]
fn handle_deposit_funds_rejects_when_no_player() {
    let state = PlayerState::default();
    let cmd = DepositFunds {
        amount: Some(Currency {
            amount: 100,
            currency_code: "CHIPS".into(),
        }),
    };
    let err = handle_deposit_funds(cmd, &state, 1).unwrap_err();
    assert!(err.message.contains("does not exist"));
}

#[test]
fn handle_deposit_funds_rejects_non_positive_amount() {
    let state = registered();
    let cmd = DepositFunds {
        amount: Some(Currency {
            amount: 0,
            currency_code: "CHIPS".into(),
        }),
    };
    let err = handle_deposit_funds(cmd, &state, 1).unwrap_err();
    assert!(err.message.contains("positive"));
}

#[test]
fn deposit_without_amount_is_refused_as_zero() {
    let err = deposit_funds_validate(&DepositFunds { amount: None }).unwrap_err();
    assert_eq!(err.detail("value"), Some("0".to_string()));
}

// --- routing through the command handler, with state replayed from prior events ---

fn replayed(prior: Vec<PlayerEvent>) -> PlayerState {
    let mut state = PlayerState::default();
    for e in prior {
        PlayerAggregate::apply(&mut state, e);
    }
    state
}

fn registered_event() -> PlayerEvent {
    PlayerEvent::Registered(PlayerRegistered {
        display_name: "Alice".into(),
        email: "alice@example.com".into(),
        player_type: PlayerType::Human,
        ai_model_id: String::new(),
        registered_at: None,
    })
}

fn deposited_event(amount: i64) -> PlayerEvent {
    PlayerEvent::Deposited(FundsDeposited {
        amount: Some(currency(amount)),
        new_balance: Some(currency(amount)),
        deposited_at: None,
    })
}

fn reserved_event(amount: i64, key: &[u8]) -> PlayerEvent {
    PlayerEvent::Reserved(FundsReserved {
        amount: Some(currency(amount)),
        key: key.to_vec(),
        new_available_balance: Some(currency(0)),
        new_reserved_balance: Some(currency(amount)),
        reserved_at: None,
    })
}

fn routed(cmd: PlayerCommand, prior: Vec<PlayerEvent>) -> usize {
    let state = replayed(prior);
    let seq = 0;
    PlayerHandler::new()
        .handle(cmd, &state, seq)
        .expect("dispatch ok")
        .pages
        .len()
}

#[test]
fn router_dispatches_register_player() {
    let pages = routed(
        PlayerCommand::RegisterPlayer(RegisterPlayer {
            display_name: "Alice".into(),
            email: "alice@example.com".into(),
            player_type: PlayerType::Human,
            ai_model_id: String::new(),
        }),
        vec![],
    );
    assert_eq!(pages, 1);
}

#[test]
fn router_dispatches_deposit_funds() {
    let pages = routed(
        PlayerCommand::DepositFunds(DepositFunds {
            amount: Some(currency(500)),
        }),
        vec![registered_event()],
    );
    assert_eq!(pages, 1);
}

#[test]
fn router_dispatches_reserve_funds() {
    let pages = routed(
        PlayerCommand::ReserveFunds(ReserveFunds {
            amount: Some(currency(200)),
            key: vec![0xab, 0xcd],
        }),
        vec![registered_event(), deposited_event(1_000)],
    );
    assert_eq!(pages, 1);
}

#[test]
fn router_dispatches_release_funds() {
    let pages = routed(
        PlayerCommand::ReleaseFunds(ReleaseFunds {
            key: vec![0xab, 0xcd],
        }),
        vec![
            registered_event(),
            deposited_event(1_000),
            reserved_event(200, &[0xab, 0xcd]),
        ],
    );
    assert_eq!(pages, 1);
}

#[test]
fn router_dispatches_deduct_reserved_funds() {
    let pages = routed(
        PlayerCommand::DeductReservedFunds(DeductReservedFunds {
            amount: Some(currency(200)),
            key: vec![0xab, 0xcd],
            reservation_id: vec![0xaa],
        }),
        vec![
            registered_event(),
            deposited_event(1_000),
            reserved_event(200, &[0xab, 0xcd]),
        ],
    );
    assert_eq!(pages, 1);
}
