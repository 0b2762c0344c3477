use poker_domain::flow_messages::{
    BuyInCompleted, BuyInFailed, BuyInInitiated, BuyInPhase, BuyInPhaseChanged,
    OrchestrationFailure, PlayerSeated, RebuyChipsAdded, RebuyCompleted, RebuyDenied, RebuyFailed,
    RebuyInitiated, RebuyPhase, RebuyPhaseChanged, RebuyProcessed, RegistrationCompleted,
    RegistrationFailed, RegistrationInitiated, RegistrationPhase, RegistrationPhaseChanged,
    SeatingRejected, TournamentEnrollmentRejected, TournamentPlayerEnrolled,
};
use poker_domain::flow_pms::{
    apply_buy_in_completed, apply_buy_in_failed, apply_buy_in_initiated,
    apply_buy_in_phase_changed, apply_rebuy_completed, apply_rebuy_failed, apply_rebuy_initiated,
    apply_rebuy_phase_changed, apply_registration_completed, apply_registration_failed,
    apply_registration_initiated, apply_registration_phase_changed, BuyInPm, BuyInState, RebuyPm,
    RebuyState, RegistrationPm, RegistrationState,
};
use poker_domain::messages::{BuyInRequested, Currency, RebuyRequested, RegistrationRequested};
use poker_domain::reservation_pm::{ReservationCommand, ReservationFlowEvent};

fn usd(amount: i64) -> Option<Currency> {
    Some(Currency {
        amount,
        currency_code: "USD".to_string(),
    })
}

// --- buy-in state ---

fn sample_buy_in_initiated() -> BuyInInitiated {
    BuyInInitiated {
        player_root: b"player-root-123".to_vec(),
        table_root: b"table-root-456".to_vec(),
        reservation_id: b"reservation-789".to_vec(),
        seat: 4,
        amount: usd(5_000),
        phase: BuyInPhase::BuyInSeating,
        initiated_at: None,
    }
}

#[test]
fn is_initialized_is_false_for_default_state() {
    let state = BuyInState::default();
    assert!(!state.is_initialized());
    assert!(state.reservation_id.is_empty());
}

#[test]
fn is_initialized_is_true_once_reservation_id_is_set() {
    let state = BuyInState {
        reservation_id: b"not-empty".to_vec(),
        ..BuyInState::default()
    };
    assert!(state.is_initialized());
}

#[test]
fn is_initialized_after_apply_buy_in_initiated() {
    let mut state = BuyInState::default();
    assert!(!state.is_initialized());
    apply_buy_in_initiated(&mut state, sample_buy_in_initiated());
    assert!(state.is_initialized());
}

#[test]
fn apply_buy_in_initiated_copies_all_fields() {
    let mut state = BuyInState::default();
    apply_buy_in_initiated(&mut state, sample_buy_in_initiated());

    assert_eq!(state.reservation_id, b"reservation-789".to_vec());
    assert_eq!(state.player_root, b"player-root-123".to_vec());
    assert_eq!(state.table_root, b"table-root-456".to_vec());
    assert_eq!(state.seat, 4);
    assert_eq!(state.amount, 5_000);
    assert_eq!(state.phase, BuyInPhase::BuyInSeating);
}

#[test]
fn apply_buy_in_initiated_uses_zero_when_amount_missing() {
    let mut state = BuyInState::default();
    let mut event = sample_buy_in_initiated();
    event.amount = None;
    apply_buy_in_initiated(&mut state, event);

    assert_eq!(state.amount, 0);
    assert_eq!(state.reservation_id, b"reservation-789".to_vec());
    assert_eq!(state.seat, 4);
    assert_eq!(state.phase, BuyInPhase::BuyInSeating);
}

#[test]
fn apply_buy_in_phase_changed_updates_phase_only() {
    let mut state = BuyInState::default();
    apply_buy_in_initiated(&mut state, sample_buy_in_initiated());
    assert_eq!(state.phase, BuyInPhase::BuyInSeating);

    let event = BuyInPhaseChanged {
        reservation_id: b"reservation-789".to_vec(),
        from_phase: BuyInPhase::BuyInSeating,
        to_phase: BuyInPhase::BuyInConfirming,
        changed_at: None,
    };
    apply_buy_in_phase_changed(&mut state, event);

    assert_eq!(state.phase, BuyInPhase::BuyInConfirming);
    assert_eq!(state.reservation_id, b"reservation-789".to_vec());
    assert_eq!(state.player_root, b"player-root-123".to_vec());
    assert_eq!(state.table_root, b"table-root-456".to_vec());
    assert_eq!(state.seat, 4);
    assert_eq!(state.amount, 5_000);
}

#[test]
fn apply_buy_in_completed_sets_completed_phase() {
    let mut state = BuyInState::default();
    apply_buy_in_initiated(&mut state, sample_buy_in_initiated());

    let event = BuyInCompleted {
        player_root: b"player-root-123".to_vec(),
        table_root: b"table-root-456".to_vec(),
        reservation_id: b"reservation-789".to_vec(),
        seat: 4,
        amount: usd(5_000),
        completed_at: None,
    };
    apply_buy_in_completed(&mut state, event);

    assert_eq!(state.phase, BuyInPhase::BuyInCompleted);
    assert_eq!(state.reservation_id, b"reservation-789".to_vec());
    assert_eq!(state.seat, 4);
    assert_eq!(state.amount, 5_000);
}

#[test]
fn apply_buy_in_failed_sets_failed_phase() {
    let mut state = BuyInState::default();
    apply_buy_in_initiated(&mut state, sample_buy_in_initiated());

    let event = BuyInFailed {
        player_root: b"player-root-123".to_vec(),
        table_root: b"table-root-456".to_vec(),
        reservation_id: b"reservation-789".to_vec(),
        failure: Some(OrchestrationFailure {
            code: "SEATING_REJECTED".to_string(),
            message: "seat occupied".to_string(),
            failed_at_phase: "SEATING".to_string(),
            failed_at: None,
        }),
    };
    apply_buy_in_failed(&mut state, event);

    assert_eq!(state.phase, BuyInPhase::BuyInFailed);
    assert_eq!(state.reservation_id, b"reservation-789".to_vec());
    assert_eq!(state.player_root, b"player-root-123".to_vec());
    assert_eq!(state.seat, 4);
}

// --- the process managers' appliers ---

#[test]
fn lib_apply_initiated_delegates_to_state_fn() {
    let mut state = BuyInState::default();
    BuyInPm::apply_initiated(
        &mut state,
        BuyInInitiated {
            player_root: vec![1],
            table_root: vec![2],
            reservation_id: vec![0xaa, 0xbb],
            seat: 5,
            amount: usd(100),
            phase: BuyInPhase::BuyInSeating,
            initiated_at: None,
        },
    );
    assert_eq!(state.reservation_id, vec![0xaa, 0xbb]);
    assert_eq!(state.seat, 5);
    assert_eq!(state.amount, 100);
    assert_eq!(state.phase, BuyInPhase::BuyInSeating);

    let mut state = RebuyState::default();
    RebuyPm::apply_initiated(
        &mut state,
        RebuyInitiated {
            player_root: vec![1],
            tournament_root: vec![2],
            table_root: vec![3],
            reservation_id: vec![0xaa],
            seat: 5,
            fee: usd(200),
            chips_to_add: 1000,
            phase: RebuyPhase::RebuyApproving,
            initiated_at: None,
        },
    );
    assert_eq!(state.reservation_id, vec![0xaa]);
    assert_eq!(state.seat, 5);
    assert_eq!(state.fee, 200);
    assert_eq!(state.chips_to_add, 1000);
    assert_eq!(state.phase, RebuyPhase::RebuyApproving);

    let mut state = RegistrationState::default();
    RegistrationPm::apply_initiated(
        &mut state,
        RegistrationInitiated {
            player_root: vec![1, 2],
            tournament_root: vec![3, 4],
            reservation_id: vec![0xaa, 0xbb],
            fee: usd(500),
            phase: RegistrationPhase::RegistrationEnrolling,
            initiated_at: None,
        },
    );
    assert_eq!(state.reservation_id, vec![0xaa, 0xbb]);
    assert_eq!(state.player_root, vec![1, 2]);
    assert_eq!(state.tournament_root, vec![3, 4]);
    assert_eq!(state.fee, 500);
    assert_eq!(state.phase, RegistrationPhase::RegistrationEnrolling);
}

#[test]
fn lib_apply_phase_changed_delegates_to_state_fn() {
    let mut state = BuyInState {
        reservation_id: vec![0xaa],
        phase: BuyInPhase::BuyInSeating,
        ..BuyInState::default()
    };
    BuyInPm::apply_phase_changed(
        &mut state,
        BuyInPhaseChanged {
            reservation_id: vec![0xaa],
            from_phase: BuyInPhase::BuyInSeating,
            to_phase: BuyInPhase::BuyInConfirming,
            changed_at: None,
        },
    );
    assert_eq!(state.phase, BuyInPhase::BuyInConfirming);

    let mut state = RebuyState {
        reservation_id: vec![0xaa],
        phase: RebuyPhase::RebuyApproving,
        ..RebuyState::default()
    };
    RebuyPm::apply_phase_changed(
        &mut state,
        RebuyPhaseChanged {
            reservation_id: vec![0xaa],
            from_phase: RebuyPhase::RebuyApproving,
            to_phase: RebuyPhase::RebuyAddingChips,
            changed_at: None,
        },
    );
    assert_eq!(state.phase, RebuyPhase::RebuyAddingChips);

    let mut state = RegistrationState {
        reservation_id: vec![0xaa],
        phase: RegistrationPhase::RegistrationEnrolling,
        ..RegistrationState::default()
    };
    RegistrationPm::apply_phase_changed(
        &mut state,
        RegistrationPhaseChanged {
            reservation_id: vec![0xaa],
            from_phase: RegistrationPhase::RegistrationEnrolling,
            to_phase: RegistrationPhase::RegistrationConfirming,
            changed_at: None,
        },
    );
    assert_eq!(state.phase, RegistrationPhase::RegistrationConfirming);
}

#[test]
fn lib_apply_completed_delegates_to_state_fn() {
    let mut state = BuyInState {
        reservation_id: vec![0xaa],
        phase: BuyInPhase::BuyInConfirming,
        ..BuyInState::default()
    };
    BuyInPm::apply_completed(
        &mut state,
        BuyInCompleted {
            player_root: vec![],
            table_root: vec![],
            reservation_id: vec![0xaa],
            seat: 0,
            amount: None,
            completed_at: None,
        },
    );
    assert_eq!(state.phase, BuyInPhase::BuyInCompleted);

    let mut state = RebuyState {
        reservation_id: vec![0xaa],
        phase: RebuyPhase::RebuyAddingChips,
        ..RebuyState::default()
    };
    RebuyPm::apply_completed(
        &mut state,
        RebuyCompleted {
            player_root: vec![],
            tournament_root: vec![],
            table_root: vec![],
            reservation_id: vec![0xaa],
            fee: None,
            chips_added: 0,
            completed_at: None,
        },
    );
    assert_eq!(state.phase, RebuyPhase::RebuyCompleted);

    let mut state = RegistrationState {
        reservation_id: vec![0xaa],
        phase: RegistrationPhase::RegistrationConfirming,
        ..RegistrationState::default()
    };
    RegistrationPm::apply_completed(
        &mut state,
        RegistrationCompleted {
            player_root: vec![],
            tournament_root: vec![],
            reservation_id: vec![0xaa],
            fee: None,
            starting_stack: 0,
            completed_at: None,
        },
    );
    assert_eq!(state.phase, RegistrationPhase::RegistrationCompleted);
}

fn failure(code: &str, message: &str, phase: &str) -> Option<OrchestrationFailure> {
    Some(OrchestrationFailure {
        code: code.into(),
        message: message.into(),
        failed_at_phase: phase.into(),
        failed_at: None,
    })
}

#[test]
fn lib_apply_failed_delegates_to_state_fn() {
    let mut state = BuyInState {
        reservation_id: vec![0xaa],
        phase: BuyInPhase::BuyInConfirming,
        ..BuyInState::default()
    };
    BuyInPm::apply_failed(
        &mut state,
        BuyInFailed {
            player_root: vec![],
            table_root: vec![],
            reservation_id: vec![0xaa],
            failure: failure("SEATING_REJECTED", "nope", "SEATING"),
        },
    );
    assert_eq!(state.phase, BuyInPhase::BuyInFailed);

    let mut state = RebuyState {
        reservation_id: vec![0xaa],
        phase: RebuyPhase::RebuyApproving,
        ..RebuyState::default()
    };
    RebuyPm::apply_failed(
        &mut state,
        RebuyFailed {
            player_root: vec![],
            tournament_root: vec![],
            reservation_id: vec![0xaa],
            failure: failure("REBUY_DENIED", "nope", "APPROVING"),
        },
    );
    assert_eq!(state.phase, RebuyPhase::RebuyFailed);

    let mut state = RegistrationState {
        reservation_id: vec![0xaa],
        phase: RegistrationPhase::RegistrationEnrolling,
        ..RegistrationState::default()
    };
    RegistrationPm::apply_failed(
        &mut state,
        RegistrationFailed {
            player_root: vec![],
            tournament_root: vec![],
            reservation_id: vec![0xaa],
            failure: failure("ENROLLMENT_REJECTED", "nope", "ENROLLING"),
        },
    );
    assert_eq!(state.phase, RegistrationPhase::RegistrationFailed);
}

// --- buy-in handlers ---

#[test]
fn on_buy_in_requested_delegates_to_handler() {
    let pm = BuyInPm;
    let state = BuyInState::default();
    let response = pm.on_buy_in_requested(
        BuyInRequested {
            reservation_id: b"res".to_vec(),
            player_root: Vec::new(),
            table_root: b"tbl".to_vec(),
            seat: 3,
            amount: usd(500),
            requested_at: None,
        },
        &state,
    );
    assert_eq!(response.commands.len(), 1);
    assert_eq!(response.commands[0].domain, "table");
    assert!(response.process_events.is_some());
}

#[test]
fn on_player_seated_delegates_to_handler() {
    let pm = BuyInPm;
    let state = BuyInState::default();
    let response = pm.on_player_seated(
        PlayerSeated {
            player_root: b"p".to_vec(),
            reservation_id: b"r".to_vec(),
            seat_position: 1,
            stack: 1000,
            seated_at: None,
        },
        &state,
    );
    assert_eq!(response.commands.len(), 1);
    assert_eq!(response.commands[0].domain, "player");
    assert!(response.process_events.is_some());
}

#[test]
fn on_seating_rejected_delegates_to_handler() {
    let pm = BuyInPm;
    let state = BuyInState::default();
    let response = pm.on_seating_rejected(
        SeatingRejected {
            player_root: b"p".to_vec(),
            reservation_id: b"r".to_vec(),
            requested_seat: 2,
            reason: "seat_occupied".into(),
            rejected_at: None,
        },
        &state,
    );
    assert_eq!(response.commands.len(), 1);
    assert_eq!(response.commands[0].domain, "player");
    assert!(response.process_events.is_some());
}

#[test]
fn buy_in_request_seats_at_the_table_in_dollars() {
    let response = BuyInPm.on_buy_in_requested(
        BuyInRequested {
            reservation_id: b"res".to_vec(),
            player_root: Vec::new(),
            table_root: b"tbl".to_vec(),
            seat: 3,
            amount: usd(500),
            requested_at: None,
        },
        &BuyInState::default(),
    );
    assert_eq!(response.commands[0].root, b"tbl".to_vec());
    match &response.commands[0].command {
        ReservationCommand::SeatPlayer(seat) => {
            assert_eq!(seat.seat, 3);
            assert_eq!(seat.amount, 500);
            assert_eq!(seat.reservation_id, b"res".to_vec());
        }
        other => panic!("expected SeatPlayer, got {:?}", other),
    }
    let book = response.process_events.unwrap();
    match &book.pages[0].event {
        ReservationFlowEvent::BuyInInitiated(e) => {
            assert_eq!(e.amount, usd(500));
            assert_eq!(e.phase, BuyInPhase::BuyInSeating);
        }
        other => panic!("expected BuyInInitiated, got {:?}", other),
    }
}

#[test]
fn seating_rejection_records_the_reason() {
    let response = BuyInPm.on_seating_rejected(
        SeatingRejected {
            player_root: b"p".to_vec(),
            reservation_id: b"r".to_vec(),
            requested_seat: 2,
            reason: "seat_occupied".into(),
            rejected_at: None,
        },
        &BuyInState::default(),
    );
    match &response.process_events.unwrap().pages[0].event {
        ReservationFlowEvent::BuyInFailed(e) => {
            let f = e.failure.as_ref().unwrap();
            assert_eq!(f.code, "SEATING_REJECTED");
            assert_eq!(f.message, "seat_occupied");
            assert_eq!(f.failed_at_phase, "SEATING");
        }
        other => panic!("expected BuyInFailed, got {:?}", other),
    }
}

// --- rebuy state ---

fn sample_rebuy_initiated() -> RebuyInitiated {
    RebuyInitiated {
        player_root: vec![0x01, 0x02],
        tournament_root: vec![0x03, 0x04],
        table_root: vec![0x05, 0x06],
        reservation_id: vec![0xAA, 0xBB, 0xCC],
        seat: 4,
        fee: usd(250),
        chips_to_add: 1000,
        phase: RebuyPhase::RebuyApproving,
        initiated_at: None,
    }
}

#[test]
fn is_initialized_false_for_default() {
    let state = RebuyState::default();
    assert!(!state.is_initialized());
    assert!(state.reservation_id.is_empty());
}

#[test]
fn is_initialized_true_when_reservation_id_set() {
    let state = RebuyState {
        reservation_id: vec![0x01],
        ..RebuyState::default()
    };
    assert!(state.is_initialized());
}

#[test]
fn is_initialized_false_when_reservation_id_cleared() {
    let mut state = RebuyState {
        reservation_id: vec![0x01],
        ..RebuyState::default()
    };
    assert!(state.is_initialized());
    state.reservation_id.clear();
    assert!(!state.is_initialized());
}

#[test]
fn apply_rebuy_initiated_populates_all_fields() {
    let mut state = RebuyState::default();
    apply_rebuy_initiated(&mut state, sample_rebuy_initiated());

    assert_eq!(state.phase, RebuyPhase::RebuyApproving);
    assert_eq!(state.chips_to_add, 1000);
    assert_eq!(state.fee, 250);
    assert_eq!(state.reservation_id, vec![0xAA, 0xBB, 0xCC]);
    assert_eq!(state.player_root, vec![0x01, 0x02]);
    assert_eq!(state.tournament_root, vec![0x03, 0x04]);
    assert_eq!(state.table_root, vec![0x05, 0x06]);
    assert_eq!(state.seat, 4);
    assert!(state.is_initialized());
}

#[test]
fn apply_rebuy_initiated_fee_defaults_to_zero_when_absent() {
    let mut state = RebuyState::default();
    let mut event = sample_rebuy_initiated();
    event.fee = None;
    apply_rebuy_initiated(&mut state, event);

    assert_eq!(state.fee, 0);
    assert_eq!(state.seat, 4);
    assert!(state.is_initialized());
}

#[test]
fn apply_rebuy_phase_changed_updates_only_phase() {
    let mut state = RebuyState {
        reservation_id: vec![0xAA],
        seat: 7,
        fee: 500,
        chips_to_add: 2000,
        phase: RebuyPhase::RebuyApproving,
        ..RebuyState::default()
    };
    let event = RebuyPhaseChanged {
        reservation_id: vec![0xAA],
        from_phase: RebuyPhase::RebuyApproving,
        to_phase: RebuyPhase::RebuyAddingChips,
        changed_at: None,
    };
    apply_rebuy_phase_changed(&mut state, event);

    assert_eq!(state.phase, RebuyPhase::RebuyAddingChips);
    assert_eq!(state.reservation_id, vec![0xAA]);
    assert_eq!(state.seat, 7);
    assert_eq!(state.fee, 500);
    assert_eq!(state.chips_to_add, 2000);
}

#[test]
fn apply_rebuy_completed_sets_completed_phase() {
    let mut state = RebuyState {
        reservation_id: vec![0xAA],
        phase: RebuyPhase::RebuyAddingChips,
        ..RebuyState::default()
    };
    let event = RebuyCompleted {
        player_root: vec![],
        tournament_root: vec![],
        table_root: vec![],
        reservation_id: vec![0xAA],
        fee: None,
        chips_added: 1000,
        completed_at: None,
    };
    apply_rebuy_completed(&mut state, event);

    assert_eq!(state.phase, RebuyPhase::RebuyCompleted);
    assert_eq!(state.reservation_id, vec![0xAA]);
}

#[test]
fn apply_rebuy_failed_sets_failed_phase() {
    let mut state = RebuyState {
        reservation_id: vec![0xAA],
        phase: RebuyPhase::RebuyApproving,
        ..RebuyState::default()
    };
    let event = RebuyFailed {
        player_root: vec![],
        tournament_root: vec![],
        reservation_id: vec![0xAA],
        failure: failure("REBUY_DENIED", "nope", "APPROVING"),
    };
    apply_rebuy_failed(&mut state, event);

    assert_eq!(state.phase, RebuyPhase::RebuyFailed);
    assert_eq!(state.reservation_id, vec![0xAA]);
}

// --- rebuy handlers ---

#[test]
fn on_rebuy_requested_delegates_to_handler() {
    let pm = RebuyPm;
    let state = RebuyState::default();
    let response = pm.on_rebuy_requested(
        RebuyRequested {
            reservation_id: b"r".to_vec(),
            player_root: Vec::new(),
            tournament_root: b"t".to_vec(),
            table_root: b"tbl".to_vec(),
            seat: 2,
            fee: usd(150),
            requested_at: None,
        },
        &state,
    );
    assert_eq!(response.commands.len(), 1);
    assert_eq!(response.commands[0].domain, "tournament");
    assert!(response.process_events.is_some());
}

#[test]
fn on_rebuy_processed_delegates_to_handler() {
    let pm = RebuyPm;
    let state = RebuyState {
        reservation_id: b"r".to_vec(),
        player_root: b"p".to_vec(),
        table_root: b"tbl".to_vec(),
        seat: 3,
        ..RebuyState::default()
    };
    let response = pm.on_rebuy_processed(
        RebuyProcessed {
            player_root: b"p".to_vec(),
            reservation_id: b"r".to_vec(),
            rebuy_cost: 200,
            chips_added: 500,
            rebuy_count: 1,
            processed_at: None,
        },
        &state,
    );
    assert_eq!(response.commands.len(), 1);
    assert_eq!(response.commands[0].domain, "table");
    assert!(response.process_events.is_none());
    match &response.commands[0].command {
        ReservationCommand::AddRebuyChips(add) => {
            assert_eq!(add.seat, 3);
            assert_eq!(add.amount, 500);
        }
        other => panic!("expected AddRebuyChips, got {:?}", other),
    }
}

#[test]
fn on_rebuy_denied_delegates_to_handler() {
    let pm = RebuyPm;
    let state = RebuyState::default();
    let response = pm.on_rebuy_denied(
        RebuyDenied {
            player_root: b"p".to_vec(),
            reservation_id: b"r".to_vec(),
            reason: "insufficient".into(),
            denied_at: None,
        },
        &state,
    );
    assert_eq!(response.commands.len(), 1);
    assert_eq!(response.commands[0].domain, "player");
    assert!(response.process_events.is_some());
}

#[test]
fn on_chips_added_delegates_to_handler() {
    let pm = RebuyPm;
    let state = RebuyState::default();
    let response = pm.on_chips_added(
        RebuyChipsAdded {
            player_root: b"p".to_vec(),
            reservation_id: b"r".to_vec(),
            seat: 4,
            amount: 500,
            new_stack: 1500,
            added_at: None,
        },
        &state,
    );
    assert_eq!(response.commands.len(), 1);
    assert_eq!(response.commands[0].domain, "player");
    assert!(response.process_events.is_some());
}

// --- registration state ---

fn reservation_bytes() -> Vec<u8> {
    vec![1, 2, 3, 4]
}

fn player_bytes() -> Vec<u8> {
    vec![9, 8, 7, 6]
}

fn tournament_bytes() -> Vec<u8> {
    vec![5, 5, 5, 5]
}

#[test]
fn is_initialized_is_false_on_default_state() {
    let state = RegistrationState::default();
    assert!(!state.is_initialized());
    assert!(state.reservation_id.is_empty());
    assert_eq!(state.fee, 0);
    assert_eq!(state.phase, RegistrationPhase::Unspecified);
}

#[test]
fn is_initialized_is_true_when_reservation_id_set() {
    let mut state = RegistrationState::default();
    state.reservation_id = reservation_bytes();
    assert!(state.is_initialized());
}

#[test]
fn is_initialized_remains_false_when_other_fields_populated_but_reservation_empty() {
    let mut state = RegistrationState::default();
    state.player_root = player_bytes();
    state.tournament_root = tournament_bytes();
    state.fee = 500;
    state.phase = RegistrationPhase::RegistrationEnrolling;
    assert!(!state.is_initialized());
}

#[test]
fn apply_registration_initiated_populates_every_field() {
    let mut state = RegistrationState::default();
    let event = RegistrationInitiated {
        player_root: player_bytes(),
        tournament_root: tournament_bytes(),
        reservation_id: reservation_bytes(),
        fee: usd(2500),
        phase: RegistrationPhase::RegistrationEnrolling,
        initiated_at: None,
    };

    apply_registration_initiated(&mut state, event);

    assert!(state.is_initialized());
    assert_eq!(state.reservation_id, reservation_bytes());
    assert_eq!(state.player_root, player_bytes());
    assert_eq!(state.tournament_root, tournament_bytes());
    assert_eq!(state.fee, 2500);
    assert_eq!(state.phase, RegistrationPhase::RegistrationEnrolling);
}

#[test]
fn apply_registration_initiated_treats_missing_fee_as_zero() {
    let mut state = RegistrationState::default();
    let event = RegistrationInitiated {
        player_root: player_bytes(),
        tournament_root: tournament_bytes(),
        reservation_id: reservation_bytes(),
        fee: None,
        phase: RegistrationPhase::RegistrationRequested,
        initiated_at: None,
    };

    apply_registration_initiated(&mut state, event);

    assert_eq!(state.fee, 0);
    assert_eq!(state.phase, RegistrationPhase::RegistrationRequested);
    assert!(state.is_initialized());
}

#[test]
fn apply_registration_phase_changed_updates_phase_only() {
    let mut state = RegistrationState {
        reservation_id: reservation_bytes(),
        player_root: player_bytes(),
        tournament_root: tournament_bytes(),
        fee: 1234,
        phase: RegistrationPhase::RegistrationRequested,
    };

    let event = RegistrationPhaseChanged {
        reservation_id: reservation_bytes(),
        from_phase: RegistrationPhase::RegistrationRequested,
        to_phase: RegistrationPhase::RegistrationConfirming,
        changed_at: None,
    };

    apply_registration_phase_changed(&mut state, event);

    assert_eq!(state.phase, RegistrationPhase::RegistrationConfirming);
    assert_eq!(state.reservation_id, reservation_bytes());
    assert_eq!(state.player_root, player_bytes());
    assert_eq!(state.tournament_root, tournament_bytes());
    assert_eq!(state.fee, 1234);
}

#[test]
fn apply_registration_completed_sets_completed_phase_and_preserves_other_fields() {
    let mut state = RegistrationState {
        reservation_id: reservation_bytes(),
        player_root: player_bytes(),
        tournament_root: tournament_bytes(),
        fee: 7777,
        phase: RegistrationPhase::RegistrationConfirming,
    };

    let event = RegistrationCompleted {
        player_root: player_bytes(),
        tournament_root: tournament_bytes(),
        reservation_id: reservation_bytes(),
        fee: usd(7777),
        starting_stack: 15000,
        completed_at: None,
    };

    apply_registration_completed(&mut state, event);

    assert_eq!(state.phase, RegistrationPhase::RegistrationCompleted);
    assert_eq!(state.reservation_id, reservation_bytes());
    assert_eq!(state.player_root, player_bytes());
    assert_eq!(state.tournament_root, tournament_bytes());
    assert_eq!(state.fee, 7777);
}

#[test]
fn apply_registration_failed_sets_failed_phase_and_preserves_other_fields() {
    let mut state = RegistrationState {
        reservation_id: reservation_bytes(),
        player_root: player_bytes(),
        tournament_root: tournament_bytes(),
        fee: 3000,
        phase: RegistrationPhase::RegistrationEnrolling,
    };

    let event = RegistrationFailed {
        player_root: player_bytes(),
        tournament_root: tournament_bytes(),
        reservation_id: reservation_bytes(),
        failure: failure("ENROLLMENT_REJECTED", "tournament full", "ENROLLING"),
    };

    apply_registration_failed(&mut state, event);

    assert_eq!(state.phase, RegistrationPhase::RegistrationFailed);
    assert_eq!(state.reservation_id, reservation_bytes());
    assert_eq!(state.player_root, player_bytes());
    assert_eq!(state.tournament_root, tournament_bytes());
    assert_eq!(state.fee, 3000);
}

// --- registration handlers ---

#[test]
fn on_registration_requested_delegates_to_handler() {
    let pm = RegistrationPm;
    let state = RegistrationState::default();
    let response = pm.on_registration_requested(
        RegistrationRequested {
            reservation_id: b"res".to_vec(),
            player_root: Vec::new(),
            tournament_root: b"tnmt".to_vec(),
            fee: usd(500),
            requested_at: None,
        },
        &state,
    );
    assert_eq!(response.commands.len(), 1);
    assert_eq!(response.commands[0].domain, "tournament");
    assert!(response.process_events.is_some());
}

#[test]
fn on_player_enrolled_delegates_to_handler() {
    let pm = RegistrationPm;
    let state = RegistrationState::default();
    let response = pm.on_player_enrolled(
        TournamentPlayerEnrolled {
            player_root: b"p".to_vec(),
            reservation_id: b"r".to_vec(),
            fee_paid: 300,
            starting_stack: 10_000,
            registration_number: 1,
            enrolled_at: None,
        },
        &state,
    );
    assert_eq!(response.commands.len(), 1);
    assert_eq!(response.commands[0].domain, "player");
    assert!(response.process_events.is_some());
}

#[test]
fn on_enrollment_rejected_delegates_to_handler() {
    let pm = RegistrationPm;
    let state = RegistrationState::default();
    let response = pm.on_enrollment_rejected(
        TournamentEnrollmentRejected {
            player_root: b"p".to_vec(),
            reservation_id: b"r".to_vec(),
            reason: "full".into(),
            rejected_at: None,
        },
        &state,
    );
    assert_eq!(response.commands.len(), 1);
    assert_eq!(response.commands[0].domain, "player");
    assert!(response.process_events.is_some());
}
