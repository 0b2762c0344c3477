use hex::encode as hex_encode;
use poker_domain::messages::{
    BuyInConfirmed, ConfirmBuyIn, ConfirmRegistrationFee, Currency, InitiateBuyIn,
    InitiateTournamentRegistration, ReleaseBuyIn, ReservationEvent,
};
use poker_domain::reservation_agg::{Reservation, ReservationState};

fn currency(amount: i64) -> Currency {
    Currency {
        amount,
        currency_code: "CHIPS".into(),
    }
}

#[test]
fn buy_in_requested_then_confirmed_clears_pending() {
    let mut state = ReservationState::default();
    let agg = Reservation::new();

    let book = agg
        .on_initiate_buy_in(
            InitiateBuyIn {
                table_root: vec![0xaa],
                seat: 1,
                amount: Some(currency(100)),
                player_root: vec![0xbb],
            },
            &state,
            0,
        )
        .expect("initiate succeeds");
    assert_eq!(book.pages.len(), 1);

    let req = match book.pages[0].event.clone() {
        ReservationEvent::BuyInRequested(req) => req,
        other => panic!("expected BuyInRequested, got {:?}", other),
    };
    let rid = req.reservation_id.clone();
    Reservation::apply_buy_in_requested(&mut state, req);
    assert!(state.pending_buy_ins.contains_key(&hex_encode(&rid)));

    let book = agg
        .on_confirm_buy_in(
            ConfirmBuyIn {
                reservation_id: rid.clone(),
            },
            &state,
            1,
        )
        .expect("confirm succeeds");
    assert_eq!(book.pages.len(), 1);

    Reservation::apply_buy_in_confirmed(
        &mut state,
        BuyInConfirmed {
            reservation_id: rid.clone(),
            player_root: vec![],
            table_root: vec![],
            seat: 0,
            amount: None,
            confirmed_at: None,
        },
    );
    assert!(!state.pending_buy_ins.contains_key(&hex_encode(&rid)));
}

#[test]
fn release_unknown_reservation_rejects() {
    let state = ReservationState::default();
    let agg = Reservation::new();
    let err = agg
        .on_release_buy_in(
            ReleaseBuyIn {
                reservation_id: vec![0xff],
                reason: "test".into(),
            },
            &state,
            0,
        )
        .expect_err("should reject");
    assert!(err.message.contains("No pending buy-in"));
}

#[test]
fn initiate_buy_in_validates_amount() {
    let state = ReservationState::default();
    let agg = Reservation::new();
    let err = agg
        .on_initiate_buy_in(
            InitiateBuyIn {
                table_root: vec![0xaa],
                seat: 1,
                amount: Some(currency(0)),
                player_root: vec![0xbb],
            },
            &state,
            0,
        )
        .expect_err("zero amount rejected");
    assert!(err.message.contains("amount must be positive"));
}

#[test]
fn confirmation_carries_the_pending_terms() {
    let mut state = ReservationState::default();
    let agg = Reservation::new();
    let book = agg
        .on_initiate_buy_in(
            InitiateBuyIn {
                table_root: vec![0xaa],
                seat: 4,
                amount: Some(currency(250)),
                player_root: vec![0xbb],
            },
            &state,
            0,
        )
        .unwrap();
    let req = match book.pages[0].event.clone() {
        ReservationEvent::BuyInRequested(req) => req,
        other => panic!("expected BuyInRequested, got {:?}", other),
    };
    assert_eq!(req.reservation_id.len(), 16);
    let rid = req.reservation_id.clone();
    Reservation::apply_buy_in_requested(&mut state, req);
    let book = agg
        .on_confirm_buy_in(ConfirmBuyIn { reservation_id: rid }, &state, 1)
        .unwrap();
    match &book.pages[0].event {
        ReservationEvent::BuyInConfirmed(c) => {
            assert_eq!(c.player_root, vec![0xbb]);
            assert_eq!(c.table_root, vec![0xaa]);
            assert_eq!(c.seat, 4);
            assert_eq!(c.amount.as_ref().unwrap().amount, 250);
        }
        other => panic!("expected BuyInConfirmed, got {:?}", other),
    }
}

#[test]
fn missing_roots_and_ids_are_refused() {
    let state = ReservationState::default();
    let agg = Reservation::new();
    let err = agg
        .on_initiate_buy_in(
            InitiateBuyIn {
                table_root: vec![0xaa],
                seat: 1,
                amount: Some(currency(10)),
                player_root: vec![],
            },
            &state,
            0,
        )
        .unwrap_err();
    assert_eq!(err.message, "player_root is required");
    let err = agg
        .on_confirm_buy_in(
            ConfirmBuyIn {
                reservation_id: vec![],
            },
            &state,
            0,
        )
        .unwrap_err();
    assert_eq!(err.message, "reservation_id is required");
    let err = agg
        .on_initiate_registration(
            InitiateTournamentRegistration {
                player_root: vec![1],
                tournament_root: vec![],
            },
            &state,
            0,
        )
        .unwrap_err();
    assert!(err.message.contains("tournament_root"));
    let err = agg
        .on_confirm_registration(
            ConfirmRegistrationFee {
                reservation_id: vec![7],
            },
            &state,
            0,
        )
        .unwrap_err();
    assert!(err.message.contains("No pending"));
}
