use std::sync::{Arc, Mutex};

use poker_domain::aggregate_views::{
    table_state_from_event_book, tournament_state_from_event_book, AggregateEvent,
    CrossAggregateQuery,
};
use poker_domain::envelope::{EventBook, EventPage, MergeStrategy, SequenceType};
use poker_domain::flow_messages::{
    RegistrationClosed, RegistrationOpened, TournamentCreated, TournamentPlayerEnrolled,
};
use poker_domain::hand_messages::{PlayerJoined, PlayerLeft, TableCreated};
use hex::encode as hex_encode;
use poker_domain::messages::{
    BuyInConfirmed, BuyInRequested, Currency, RebuyRequested, RegistrationRequested,
};
use poker_domain::reservation_pm::{
    Kind, ReservationCommand, ReservationFlowEvent, ReservationPMState, ReservationPm,
    ReservationResponse,
};

fn currency(amount: i64) -> Currency {
    Currency {
        amount,
        currency_code: "CHIPS".into(),
    }
}

fn first_command_domain(resp: &ReservationResponse, idx: usize) -> &str {
    resp.commands[idx].domain.as_str()
}

#[test]
fn buy_in_requested_emits_reserve_and_seat() {
    let pm = ReservationPm::new();
    let resp = pm.on_buy_in_requested(
        BuyInRequested {
            reservation_id: vec![0x1],
            table_root: vec![0x2],
            seat: 3,
            amount: Some(currency(500)),
            requested_at: None,
            player_root: vec![0x4],
        },
        &ReservationPMState::default(),
    );
    assert_eq!(resp.commands.len(), 2);
    assert_eq!(first_command_domain(&resp, 0), "player");
    assert_eq!(first_command_domain(&resp, 1), "table");
    assert_eq!(resp.process_events.len(), 1);
}

#[test]
fn rebuy_requested_emits_reserve_and_process_rebuy() {
    let pm = ReservationPm::new();
    let resp = pm.on_rebuy_requested(
        RebuyRequested {
            reservation_id: vec![0x1],
            tournament_root: vec![0x9],
            table_root: vec![0x2],
            seat: 3,
            fee: Some(currency(100)),
            requested_at: None,
            player_root: vec![0x4],
        },
        &ReservationPMState::default(),
    );
    assert_eq!(resp.commands.len(), 2);
    assert_eq!(first_command_domain(&resp, 0), "player");
    assert_eq!(first_command_domain(&resp, 1), "tournament");
}

#[test]
fn registration_requested_uses_tournament_root_as_reservation_key() {
    let pm = ReservationPm::new();
    let resp = pm.on_registration_requested(
        RegistrationRequested {
            reservation_id: vec![0x1],
            tournament_root: vec![0xab, 0xcd],
            fee: Some(currency(300)),
            requested_at: None,
            player_root: vec![0x4],
        },
        &ReservationPMState::default(),
    );
    assert_eq!(resp.commands.len(), 2);
    match &resp.commands[0].command {
        ReservationCommand::ReserveFunds(reserve) => assert_eq!(reserve.key, vec![0xab, 0xcd]),
        other => panic!("expected ReserveFunds, got {:?}", other),
    }
}

#[test]
fn buy_in_confirmed_emits_deduct() {
    let pm = ReservationPm::new();
    let state = ReservationPMState {
        kind: Kind::BuyIn,
        player_root: vec![0xaa],
        table_root: vec![0xbb],
        amount: 500,
        ..Default::default()
    };
    let resp = pm.on_buy_in_confirmed(
        BuyInConfirmed {
            reservation_id: vec![0x1],
            table_root: vec![],
            seat: 0,
            amount: None,
            confirmed_at: None,
            player_root: vec![],
        },
        &state,
    );
    assert_eq!(resp.commands.len(), 1);
    match &resp.commands[0].command {
        ReservationCommand::DeductReservedFunds(deduct) => {
            assert_eq!(deduct.key, vec![0xbb]);
            assert_eq!(deduct.amount.as_ref().unwrap().amount, 500);
        }
        other => panic!("expected DeductReservedFunds, got {:?}", other),
    }
    assert_eq!(resp.commands[0].root, vec![0xaa]);
}

fn book(events: Vec<AggregateEvent>) -> EventBook<AggregateEvent> {
    EventBook {
        cover: None,
        pages: events
            .into_iter()
            .enumerate()
            .map(|(i, event)| EventPage {
                sequence: SequenceType::Sequence(i as u32),
                created_at: None,
                event,
            })
            .collect(),
    }
}

struct FixedBooks {
    table: Vec<AggregateEvent>,
    tournament: Vec<AggregateEvent>,
}

impl CrossAggregateQuery for FixedBooks {
    fn get_event_book(&self, domain: &str, _root: &[u8]) -> Option<EventBook<AggregateEvent>> {
        match domain {
            "table" => Some(book(self.table.clone())),
            "tournament" => Some(book(self.tournament.clone())),
            _ => None,
        }
    }
}

fn small_table() -> Vec<AggregateEvent> {
    vec![
        AggregateEvent::TableCreated(TableCreated {
            table_name: "T1".into(),
            min_buy_in: 100,
            max_buy_in: 1000,
            max_players: 2,
            ..Default::default()
        }),
        AggregateEvent::PlayerJoined(PlayerJoined {
            player_root: vec![0x77],
            seat_position: 3,
            buy_in_amount: 200,
            stack: 200,
            joined_at: None,
        }),
    ]
}

fn pm_with(table: Vec<AggregateEvent>, tournament: Vec<AggregateEvent>) -> ReservationPm {
    let query: Arc<dyn CrossAggregateQuery> = Arc::new(FixedBooks { table, tournament });
    ReservationPm::with_query(Some(query))
}

fn buy_in(seat: i32, amount: i64) -> BuyInRequested {
    BuyInRequested {
        reservation_id: vec![0x1],
        table_root: vec![0x2],
        seat,
        amount: Some(currency(amount)),
        requested_at: None,
        player_root: vec![0x4],
    }
}

fn failure_code(resp: &ReservationResponse) -> (String, String) {
    match &resp.process_events[0].pages[0].event {
        ReservationFlowEvent::BuyInFailed(e) => {
            let f = e.failure.as_ref().unwrap();
            (f.code.clone(), f.message.clone())
        }
        other => panic!("expected BuyInFailed, got {:?}", other),
    }
}

#[test]
fn buy_in_for_an_occupied_seat_is_released() {
    let pm = pm_with(small_table(), vec![]);
    let resp = pm.on_buy_in_requested(buy_in(3, 500), &ReservationPMState::default());
    assert_eq!(resp.commands.len(), 1);
    assert_eq!(resp.commands[0].domain, "reservation");
    assert!(matches!(
        resp.commands[0].command,
        ReservationCommand::ReleaseBuyIn(_)
    ));
    assert_eq!(
        failure_code(&resp),
        ("SEAT_OCCUPIED".to_string(), "seat 3 is occupied".to_string())
    );
}

#[test]
fn buy_in_outside_the_table_limits_is_released() {
    let pm = pm_with(small_table(), vec![]);
    let low = pm.on_buy_in_requested(buy_in(1, 50), &ReservationPMState::default());
    assert_eq!(
        failure_code(&low),
        (
            "INVALID_AMOUNT".to_string(),
            "amount 50 below minimum 100".to_string()
        )
    );
    let high = pm.on_buy_in_requested(buy_in(1, 5000), &ReservationPMState::default());
    assert_eq!(
        failure_code(&high),
        (
            "INVALID_AMOUNT".to_string(),
            "amount 5000 exceeds maximum 1000".to_string()
        )
    );
    let ok = pm.on_buy_in_requested(buy_in(1, 500), &ReservationPMState::default());
    assert_eq!(ok.commands.len(), 2);
}

#[test]
fn table_state_tracks_joins_and_leaves() {
    let mut events = small_table();
    let tbl = table_state_from_event_book(&book(events.clone()));
    assert_eq!(tbl.max_players, 2);
    assert_eq!(tbl.seat_count(), 1);
    assert!(tbl.seat_taken(3));
    assert_eq!(tbl.find_seat_by_player(&[0x77]), Some(3));
    assert_eq!(tbl.next_available_seat(), Some(0));
    events.push(AggregateEvent::PlayerLeft(PlayerLeft {
        player_root: vec![0x77],
        seat_position: 3,
        chips_cashed_out: 200,
        left_at: None,
    }));
    let tbl = table_state_from_event_book(&book(events));
    assert!(!tbl.seat_taken(3));
    assert_eq!(tbl.find_seat_by_player(&[0x77]), None);
}

#[test]
fn tournament_state_records_enrolled_players() {
    let events = vec![
        AggregateEvent::TournamentCreated(TournamentCreated {
            name: "Sunday".into(),
            max_players: 100,
            buy_in: 50,
            starting_stack: 1500,
            rebuy_config: None,
        }),
        AggregateEvent::TournamentPlayerEnrolled(TournamentPlayerEnrolled {
            player_root: vec![0xab],
            reservation_id: vec![1],
            fee_paid: 50,
            starting_stack: 1500,
            registration_number: 1,
            enrolled_at: None,
        }),
    ];
    let t = tournament_state_from_event_book(&book(events));
    assert_eq!(t.buy_in, 50);
    assert!(t.registered_players.contains_key(&hex_encode([0xabu8])));
    assert!(!t.registered_players.contains_key(&hex_encode([0xcdu8])));
}

#[test]
fn reservation_key_follows_the_flow_kind() {
    let state = ReservationPMState {
        kind: Kind::Registration,
        table_root: vec![1],
        tournament_root: vec![2],
        reservation_id: vec![9],
        ..Default::default()
    };
    assert_eq!(state.reservation_key(), &[2u8][..]);
    assert!(state.is_initialized());
    let state = ReservationPMState {
        kind: Kind::BuyIn,
        table_root: vec![1],
        tournament_root: vec![2],
        ..Default::default()
    };
    assert_eq!(state.reservation_key(), &[1u8][..]);
    assert!(!state.is_initialized());
}

#[test]
fn a_buy_in_deducts_what_it_reserved() {
    let pm = ReservationPm::new();
    let started = pm.on_buy_in_requested(buy_in(2, 400), &ReservationPMState::default());
    let mut state = ReservationPMState::default();
    match &started.process_events[0].pages[0].event {
        ReservationFlowEvent::BuyInInitiated(e) => {
            ReservationPm::apply_buy_in_initiated(&mut state, e.clone())
        }
        other => panic!("expected BuyInInitiated, got {:?}", other),
    }
    let (reserve_key, reserve_amount) = match &started.commands[0].command {
        ReservationCommand::ReserveFunds(r) => (r.key.clone(), r.amount.clone()),
        other => panic!("expected ReserveFunds, got {:?}", other),
    };
    let answer = pm.on_buy_in_confirmed(
        BuyInConfirmed {
            reservation_id: vec![0x1],
            table_root: vec![],
            seat: 0,
            amount: None,
            confirmed_at: None,
            player_root: vec![],
        },
        &state,
    );
    assert_eq!(answer.commands[0].root, started.commands[0].root);
    match &answer.commands[0].command {
        ReservationCommand::DeductReservedFunds(d) => {
            assert_eq!(d.key, reserve_key);
            assert_eq!(d.amount, reserve_amount);
        }
        other => panic!("expected DeductReservedFunds, got {:?}", other),
    }
    assert_eq!(state.reservation_key(), &reserve_key[..]);
}

#[test]
fn commands_carry_fresh_correlation_ids() {
    let pm = ReservationPm::new();
    let a = pm.on_buy_in_requested(buy_in(2, 400), &ReservationPMState::default());
    let b = pm.on_buy_in_requested(buy_in(2, 400), &ReservationPMState::default());
    assert_eq!(a.commands[0].correlation_id.len(), 36);
    assert!(!a.commands[0].decision_sync);
    assert_eq!(a.commands[0].merge_strategy, MergeStrategy::Commutative);
    assert!(a.process_events[0].pages[0].created_at.is_some());
    assert_ne!(a.commands[0].correlation_id, b.commands[0].correlation_id);
}

/// Answers only for the table `0x2` and the tournament `0x9`, and records
/// every question it was asked.
struct RootedBooks {
    asked: Mutex<Vec<(String, Vec<u8>)>>,
}

impl CrossAggregateQuery for RootedBooks {
    fn get_event_book(&self, domain: &str, root: &[u8]) -> Option<EventBook<AggregateEvent>> {
        self.asked
            .lock()
            .unwrap()
            .push((domain.to_string(), root.to_vec()));
        match (domain, root) {
            ("table", [0x2]) => Some(book(small_table())),
            ("tournament", [0x9]) => Some(book(vec![AggregateEvent::TournamentCreated(
                TournamentCreated {
                    name: "Sunday".into(),
                    max_players: 100,
                    buy_in: 50,
                    starting_stack: 1500,
                    rebuy_config: None,
                },
            )])),
            _ => None,
        }
    }
}

#[test]
fn rebuy_checks_the_tournament_and_table_it_names() {
    let query = Arc::new(RootedBooks {
        asked: Mutex::new(vec![]),
    });
    let shared: Arc<dyn CrossAggregateQuery> = query.clone();
    let pm = ReservationPm::with_query(Some(shared));
    let resp = pm.on_rebuy_requested(
        RebuyRequested {
            reservation_id: vec![0x1],
            tournament_root: vec![0x9],
            table_root: vec![0x2],
            seat: 3,
            fee: Some(currency(100)),
            requested_at: None,
            player_root: vec![0x4],
        },
        &ReservationPMState::default(),
    );
    assert_eq!(resp.commands.len(), 1);
    match &resp.process_events[0].pages[0].event {
        ReservationFlowEvent::RebuyFailed(e) => {
            assert_eq!(e.failure.as_ref().unwrap().code, "TOURNAMENT_NOT_RUNNING");
        }
        other => panic!("expected RebuyFailed, got {:?}", other),
    }
    let asked = query.asked.lock().unwrap().clone();
    assert!(asked.contains(&("tournament".to_string(), vec![0x9])));
    assert!(asked.iter().all(|(d, r)| (d == "tournament" && r == &vec![0x9])
        || (d == "table" && r == &vec![0x2])));
}

#[test]
fn buy_in_checks_the_table_it_names() {
    let query = Arc::new(RootedBooks {
        asked: Mutex::new(vec![]),
    });
    let shared: Arc<dyn CrossAggregateQuery> = query.clone();
    let pm = ReservationPm::with_query(Some(shared));
    let resp = pm.on_buy_in_requested(buy_in(3, 500), &ReservationPMState::default());
    assert_eq!(
        failure_code(&resp),
        ("SEAT_OCCUPIED".to_string(), "seat 3 is occupied".to_string())
    );
    let asked = query.asked.lock().unwrap().clone();
    assert_eq!(asked, vec![("table".to_string(), vec![0x2])]);
}

fn enrolled(root: u8) -> AggregateEvent {
    AggregateEvent::TournamentPlayerEnrolled(TournamentPlayerEnrolled {
        player_root: vec![root],
        reservation_id: vec![1],
        fee_paid: 50,
        starting_stack: 1500,
        registration_number: 1,
        enrolled_at: None,
    })
}

#[test]
fn the_last_window_event_decides_registration_and_players_count_once() {
    let created = AggregateEvent::TournamentCreated(TournamentCreated {
        name: "Sunday".into(),
        max_players: 100,
        buy_in: 50,
        starting_stack: 1500,
        rebuy_config: None,
    });
    let closed = AggregateEvent::RegistrationClosed(RegistrationClosed { closed_at: None });
    let opened = AggregateEvent::RegistrationOpened(RegistrationOpened { opened_at: None });

    let t = tournament_state_from_event_book(&book(vec![enrolled(1), enrolled(2)]));
    assert!(t.registration_open);
    assert_eq!(t.registered_count, 2);

    let t = tournament_state_from_event_book(&book(vec![
        created.clone(),
        enrolled(1),
        closed.clone(),
        enrolled(2),
        enrolled(1),
    ]));
    assert!(!t.registration_open);
    assert_eq!(t.registered_count, 2);
    assert!(t.registered_players.contains_key(&hex_encode([1u8])));
    assert!(t.registered_players.contains_key(&hex_encode([2u8])));

    let t = tournament_state_from_event_book(&book(vec![created, closed, opened, enrolled(3)]));
    assert!(t.registration_open);
    assert_eq!(t.registered_count, 1);
}
