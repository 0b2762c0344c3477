use poker_domain::flow_messages::{
    BuyInCompleted, BuyInFailed, BuyInInitiated, BuyInPhase, BuyInPhaseChanged,
    OrchestrationFailure, PlayerSeated, RebuyChipsAdded, RebuyCompleted, RebuyDenied, RebuyFailed,
    RebuyInitiated, RebuyPhase, RebuyPhaseChanged, RebuyProcessed, RegistrationCompleted,
    RegistrationFailed, RegistrationInitiated, RegistrationPhase, RegistrationPhaseChanged,
    SeatingRejected, TournamentEnrollmentRejected, TournamentPlayerEnrolled,
};
use poker_domain::flow_pms::{
    BuyInPm, BuyInState, FlowResponse, RebuyPm, RebuyState, RegistrationPm, RegistrationState,
};
use poker_domain::messages::{BuyInRequested, Currency, RebuyRequested, RegistrationRequested};

fn usd(amount: i64) -> Option<Currency> {
    Some(Currency {
        amount,
        currency_code: "USD".into(),
    })
}

fn failure(code: &str, message: &str, phase: &str) -> Option<OrchestrationFailure> {
    Some(OrchestrationFailure {
        code: code.into(),
        message: message.into(),
        failed_at_phase: phase.into(),
        failed_at: None,
    })
}

fn answers_with_one_command_to(resp: &FlowResponse, domain: &str) {
    assert_eq!(resp.commands.len(), 1);
    assert_eq!(resp.commands[0].domain, domain);
}

// --- buy-in ---

fn buy_in_requested_event() -> BuyInRequested {
    BuyInRequested {
        reservation_id: vec![0x03; 16],
        player_root: Vec::new(),
        table_root: vec![0x02; 16],
        seat: 4,
        amount: usd(1000),
        requested_at: None,
    }
}

fn buy_in_initiated_event() -> BuyInInitiated {
    BuyInInitiated {
        player_root: vec![0x01; 16],
        table_root: vec![0x02; 16],
        reservation_id: vec![0x03; 16],
        seat: 4,
        amount: usd(1000),
        phase: BuyInPhase::BuyInRequested,
        initiated_at: None,
    }
}

fn buy_in_replayed(prior: impl FnOnce(&mut BuyInState)) -> BuyInState {
    let mut state = BuyInState::default();
    prior(&mut state);
    state
}

#[test]
fn dispatch_buy_in_requested_emits_seat_player_command() {
    let resp = BuyInPm.on_buy_in_requested(buy_in_requested_event(), &BuyInState::default());
    answers_with_one_command_to(&resp, "table");
    assert!(resp.process_events.is_some());
}

#[test]
fn dispatch_player_seated_arm() {
    let state = buy_in_replayed(|s| BuyInPm::apply_initiated(s, buy_in_initiated_event()));
    let resp = BuyInPm.on_player_seated(
        PlayerSeated {
            player_root: vec![0x01; 16],
            reservation_id: vec![0x03; 16],
            seat_position: 4,
            stack: 1000,
            seated_at: None,
        },
        &state,
    );
    answers_with_one_command_to(&resp, "player");
}

#[test]
fn dispatch_seating_rejected_arm() {
    let state = buy_in_replayed(|s| BuyInPm::apply_initiated(s, buy_in_initiated_event()));
    let resp = BuyInPm.on_seating_rejected(
        SeatingRejected {
            player_root: vec![0x01; 16],
            reservation_id: vec![0x03; 16],
            requested_seat: 4,
            reason: "seat_occupied".into(),
            rejected_at: None,
        },
        &state,
    );
    answers_with_one_command_to(&resp, "player");
}

#[test]
fn apply_buy_in_initiated_branch() {
    let state = buy_in_replayed(|s| BuyInPm::apply_initiated(s, buy_in_initiated_event()));
    assert_eq!(state.phase, BuyInPhase::BuyInRequested);
    let resp = BuyInPm.on_buy_in_requested(buy_in_requested_event(), &state);
    answers_with_one_command_to(&resp, "table");
}

#[test]
fn apply_buy_in_phase_changed_branch() {
    let state = buy_in_replayed(|s| {
        BuyInPm::apply_phase_changed(
            s,
            BuyInPhaseChanged {
                reservation_id: vec![0x03; 16],
                from_phase: BuyInPhase::BuyInRequested,
                to_phase: BuyInPhase::BuyInSeating,
                changed_at: None,
            },
        )
    });
    assert_eq!(state.phase, BuyInPhase::BuyInSeating);
    let resp = BuyInPm.on_buy_in_requested(buy_in_requested_event(), &state);
    answers_with_one_command_to(&resp, "table");
}

#[test]
fn apply_buy_in_completed_branch() {
    let state = buy_in_replayed(|s| {
        BuyInPm::apply_completed(
            s,
            BuyInCompleted {
                player_root: vec![0x01; 16],
                table_root: vec![0x02; 16],
                reservation_id: vec![0x03; 16],
                seat: 4,
                amount: usd(1000),
                completed_at: None,
            },
        )
    });
    assert_eq!(state.phase, BuyInPhase::BuyInCompleted);
    let resp = BuyInPm.on_buy_in_requested(buy_in_requested_event(), &state);
    answers_with_one_command_to(&resp, "table");
}

#[test]
fn apply_buy_in_failed_branch() {
    let state = buy_in_replayed(|s| {
        BuyInPm::apply_failed(
            s,
            BuyInFailed {
                player_root: vec![0x01; 16],
                table_root: vec![0x02; 16],
                reservation_id: vec![0x03; 16],
                failure: failure("seating_rejected", "seat occupied", "seating"),
            },
        )
    });
    assert_eq!(state.phase, BuyInPhase::BuyInFailed);
    let resp = BuyInPm.on_buy_in_requested(buy_in_requested_event(), &state);
    answers_with_one_command_to(&resp, "table");
}

// --- rebuy ---

fn rebuy_requested_event() -> RebuyRequested {
    RebuyRequested {
        reservation_id: vec![0x01; 16],
        player_root: Vec::new(),
        tournament_root: vec![0x02; 16],
        table_root: vec![0x03; 16],
        seat: 2,
        fee: usd(500),
        requested_at: None,
    }
}

fn rebuy_initiated_event() -> RebuyInitiated {
    RebuyInitiated {
        player_root: vec![0x04; 16],
        tournament_root: vec![0x02; 16],
        table_root: vec![0x03; 16],
        reservation_id: vec![0x01; 16],
        seat: 2,
        fee: usd(500),
        chips_to_add: 10_000,
        phase: RebuyPhase::RebuyRequested,
        initiated_at: None,
    }
}

fn rebuy_replayed(prior: impl FnOnce(&mut RebuyState)) -> RebuyState {
    let mut state = RebuyState::default();
    prior(&mut state);
    state
}

#[test]
fn dispatch_rebuy_requested_emits_response() {
    let resp = RebuyPm.on_rebuy_requested(rebuy_requested_event(), &RebuyState::default());
    answers_with_one_command_to(&resp, "tournament");
}

#[test]
fn dispatch_rebuy_processed_arm() {
    let state = rebuy_replayed(|s| RebuyPm::apply_initiated(s, rebuy_initiated_event()));
    let resp = RebuyPm.on_rebuy_processed(
        RebuyProcessed {
            player_root: vec![0x04; 16],
            reservation_id: vec![0x01; 16],
            rebuy_cost: 500,
            chips_added: 10_000,
            rebuy_count: 1,
            processed_at: None,
        },
        &state,
    );
    answers_with_one_command_to(&resp, "table");
    assert_eq!(resp.commands[0].root, vec![0x03; 16]);
}

#[test]
fn dispatch_rebuy_denied_arm() {
    let state = rebuy_replayed(|s| RebuyPm::apply_initiated(s, rebuy_initiated_event()));
    let resp = RebuyPm.on_rebuy_denied(
        RebuyDenied {
            player_root: vec![0x04; 16],
            reservation_id: vec![0x01; 16],
            reason: "max_reached".into(),
            denied_at: None,
        },
        &state,
    );
    answers_with_one_command_to(&resp, "player");
}

#[test]
fn dispatch_rebuy_chips_added_arm() {
    let state = rebuy_replayed(|s| RebuyPm::apply_initiated(s, rebuy_initiated_event()));
    let resp = RebuyPm.on_chips_added(
        RebuyChipsAdded {
            player_root: vec![0x04; 16],
            reservation_id: vec![0x01; 16],
            seat: 2,
            amount: 10_000,
            new_stack: 20_000,
            added_at: None,
        },
        &state,
    );
    answers_with_one_command_to(&resp, "player");
}

#[test]
fn apply_rebuy_initiated_branch() {
    let state = rebuy_replayed(|s| RebuyPm::apply_initiated(s, rebuy_initiated_event()));
    assert_eq!(state.chips_to_add, 10_000);
    answers_with_one_command_to(
        &RebuyPm.on_rebuy_requested(rebuy_requested_event(), &state),
        "tournament",
    );
}

#[test]
fn apply_rebuy_phase_changed_branch() {
    let state = rebuy_replayed(|s| {
        RebuyPm::apply_phase_changed(
            s,
            RebuyPhaseChanged {
                reservation_id: vec![0x01; 16],
                from_phase: RebuyPhase::RebuyRequested,
                to_phase: RebuyPhase::RebuyApproving,
                changed_at: None,
            },
        )
    });
    assert_eq!(state.phase, RebuyPhase::RebuyApproving);
    answers_with_one_command_to(
        &RebuyPm.on_rebuy_requested(rebuy_requested_event(), &state),
        "tournament",
    );
}

#[test]
fn apply_rebuy_completed_branch() {
    let state = rebuy_replayed(|s| {
        RebuyPm::apply_completed(
            s,
            RebuyCompleted {
                player_root: vec![0x04; 16],
                tournament_root: vec![0x02; 16],
                table_root: vec![0x03; 16],
                reservation_id: vec![0x01; 16],
                fee: usd(500),
                chips_added: 10_000,
                completed_at: None,
            },
        )
    });
    assert_eq!(state.phase, RebuyPhase::RebuyCompleted);
    answers_with_one_command_to(
        &RebuyPm.on_rebuy_requested(rebuy_requested_event(), &state),
        "tournament",
    );
}

#[test]
fn apply_rebuy_failed_branch() {
    let state = rebuy_replayed(|s| {
        RebuyPm::apply_failed(
            s,
            RebuyFailed {
                player_root: vec![0x04; 16],
                tournament_root: vec![0x02; 16],
                reservation_id: vec![0x01; 16],
                failure: failure("stack_too_high", "ineligible", "approving"),
            },
        )
    });
    assert_eq!(state.phase, RebuyPhase::RebuyFailed);
    answers_with_one_command_to(
        &RebuyPm.on_rebuy_requested(rebuy_requested_event(), &state),
        "tournament",
    );
}

// --- registration ---

fn registration_requested_event() -> RegistrationRequested {
    RegistrationRequested {
        reservation_id: vec![0xAA; 16],
        player_root: Vec::new(),
        tournament_root: vec![0xBB; 16],
        fee: usd(500),
        requested_at: None,
    }
}

fn registration_initiated_event() -> RegistrationInitiated {
    RegistrationInitiated {
        player_root: vec![0x01; 16],
        tournament_root: vec![0xBB; 16],
        reservation_id: vec![0xAA; 16],
        fee: usd(500),
        phase: RegistrationPhase::RegistrationRequested,
        initiated_at: None,
    }
}

fn registration_replayed(prior: impl FnOnce(&mut RegistrationState)) -> RegistrationState {
    let mut state = RegistrationState::default();
    prior(&mut state);
    state
}

#[test]
fn dispatch_registration_requested_emits_response() {
    let resp = RegistrationPm.on_registration_requested(
        registration_requested_event(),
        &RegistrationState::default(),
    );
    answers_with_one_command_to(&resp, "tournament");
}

#[test]
fn dispatch_player_enrolled_arm() {
    let state = registration_replayed(|s| {
        RegistrationPm::apply_initiated(s, registration_initiated_event())
    });
    let resp = RegistrationPm.on_player_enrolled(
        TournamentPlayerEnrolled {
            player_root: vec![0x01; 16],
            reservation_id: vec![0xAA; 16],
            fee_paid: 500,
            starting_stack: 10_000,
            registration_number: 1,
            enrolled_at: None,
        },
        &state,
    );
    answers_with_one_command_to(&resp, "player");
}

#[test]
fn dispatch_enrollment_rejected_arm() {
    let state = registration_replayed(|s| {
        RegistrationPm::apply_initiated(s, registration_initiated_event())
    });
    let resp = RegistrationPm.on_enrollment_rejected(
        TournamentEnrollmentRejected {
            player_root: vec![0x01; 16],
            reservation_id: vec![0xAA; 16],
            reason: "full".into(),
            rejected_at: None,
        },
        &state,
    );
    answers_with_one_command_to(&resp, "player");
}

#[test]
fn apply_registration_initiated_branch() {
    let state = registration_replayed(|s| {
        RegistrationPm::apply_initiated(s, registration_initiated_event())
    });
    assert_eq!(state.fee, 500);
    answers_with_one_command_to(
        &RegistrationPm.on_registration_requested(registration_requested_event(), &state),
        "tournament",
    );
}

#[test]
fn apply_registration_phase_changed_branch() {
    let state = registration_replayed(|s| {
        RegistrationPm::apply_phase_changed(
            s,
            RegistrationPhaseChanged {
                reservation_id: vec![0xAA; 16],
                from_phase: RegistrationPhase::RegistrationRequested,
                to_phase: RegistrationPhase::RegistrationEnrolling,
                changed_at: None,
            },
        )
    });
    assert_eq!(state.phase, RegistrationPhase::RegistrationEnrolling);
    answers_with_one_command_to(
        &RegistrationPm.on_registration_requested(registration_requested_event(), &state),
        "tournament",
    );
}

#[test]
fn apply_registration_completed_branch() {
    let state = registration_replayed(|s| {
        RegistrationPm::apply_completed(
            s,
            RegistrationCompleted {
                player_root: vec![0x01; 16],
                tournament_root: vec![0xBB; 16],
                reservation_id: vec![0xAA; 16],
                fee: usd(500),
                starting_stack: 10_000,
                completed_at: None,
            },
        )
    });
    assert_eq!(state.phase, RegistrationPhase::RegistrationCompleted);
    answers_with_one_command_to(
        &RegistrationPm.on_registration_requested(registration_requested_event(), &state),
        "tournament",
    );
}

#[test]
fn apply_registration_failed_branch() {
    let state = registration_replayed(|s| {
        RegistrationPm::apply_failed(
            s,
            RegistrationFailed {
                player_root: vec![0x01; 16],
                tournament_root: vec![0xBB; 16],
                reservation_id: vec![0xAA; 16],
                failure: failure("tournament_full", "no seats", "enrolling"),
            },
        )
    });
    assert_eq!(state.phase, RegistrationPhase::RegistrationFailed);
    answers_with_one_command_to(
        &RegistrationPm.on_registration_requested(registration_requested_event(), &state),
        "tournament",
    );
}
