use poker_domain::decimal::{fmt_i64, magnitude};
use poker_domain::game_log::{truncate_id, OutputProjector};
use poker_domain::hand_messages::{
    ActionTaken, BlindPosted, HandComplete, HandStarted, PlayerJoined, PotAwarded, PotWinner,
    SeatSnapshot, TableCreated,
};
use poker_domain::hexfmt::{fmt_player_short, slice_prefix};
use poker_domain::keyed::StrMap;
use poker_domain::messages::{
    ActionType, Currency, FundsDeposited, GameVariant, PlayerRegistered, PlayerType,
};
use poker_domain::text::{ends_with, join, starts_with, str_eq, strip_prefix_or_self};

#[test]
fn game_log_lines_for_player_events() {
    let p = OutputProjector;
    assert_eq!(
        p.project_registered(&PlayerRegistered {
            display_name: "Alice".into(),
            email: "a@x".into(),
            player_type: PlayerType::Human,
            ai_model_id: String::new(),
            registered_at: None,
        }),
        "PLAYER registered: Alice (a@x)"
    );
    assert_eq!(
        p.project_deposited(&FundsDeposited {
            amount: Some(Currency {
                amount: 250,
                currency_code: "CHIPS".into(),
            }),
            new_balance: None,
            deposited_at: None,
        }),
        "PLAYER deposited 250, balance: 0"
    );
}

#[test]
fn game_log_lines_for_table_and_hand_events() {
    let p = OutputProjector;
    assert_eq!(
        p.project_table_created(&TableCreated {
            table_name: "Main".into(),
            game_variant: GameVariant::Omaha,
            ..Default::default()
        }),
        "TABLE created: Main (variant 2)"
    );
    assert_eq!(
        p.project_player_joined(&PlayerJoined {
            player_root: vec![0xde, 0xad, 0xbe, 0xef, 0x01],
            seat_position: 2,
            buy_in_amount: 500,
            stack: 500,
            joined_at: None,
        }),
        "TABLE player deadbeef joined with 500 chips"
    );
    assert_eq!(
        p.project_hand_started(&HandStarted {
            hand_number: 3,
            dealer_position: 1,
            active_players: vec![SeatSnapshot::default(), SeatSnapshot::default()],
            ..Default::default()
        }),
        "TABLE hand #3 started, 2 players, dealer at position 1"
    );
    assert_eq!(
        p.project_blind_posted(&BlindPosted {
            player_root: vec![0xab],
            blind_type: "big".into(),
            amount: 10,
            ..Default::default()
        }),
        "HAND player ab posted \"big\" blind: 10"
    );
    assert_eq!(
        p.project_action_taken(&ActionTaken {
            player_root: vec![1, 2, 3, 4],
            action: ActionType::Raise as i32,
            amount: 40,
            ..Default::default()
        }),
        "HAND player 01020304: 5 40"
    );
    assert_eq!(
        p.project_pot_awarded(&PotAwarded {
            winners: vec![
                PotWinner {
                    player_root: vec![0xaa, 0xbb],
                    amount: 30,
                    ..Default::default()
                },
                PotWinner {
                    player_root: vec![0xcc],
                    amount: 5,
                    ..Default::default()
                },
            ],
            awarded_at: None,
        }),
        "HAND pot awarded: aabb wins 30, cc wins 5"
    );
    assert_eq!(
        p.project_hand_complete(&HandComplete {
            hand_number: 9,
            ..Default::default()
        }),
        "HAND #9 complete"
    );
}

#[test]
fn short_ids_keep_at_most_four_bytes() {
    assert_eq!(truncate_id(&[1, 2, 3, 4, 5, 6]), "01020304");
    assert_eq!(truncate_id(&[0xff]), "ff");
    assert_eq!(truncate_id(&[]), "");
    assert_eq!(fmt_player_short(&[0xab, 0xcd, 0xef, 0x12, 0x34]), "abcdef12");
    assert_eq!(slice_prefix(&[9, 8, 7], 2), vec![9, 8]);
}

#[test]
fn hex_is_lowercase_two_digits_per_byte() {
    assert_eq!(fmt_player_short(&[0x00, 0x0f, 0xa0, 0xff]), "000fa0ff");
    assert_eq!(fmt_player_short(&[]), "");
}

#[test]
fn decimal_rendering_of_signed_values() {
    assert_eq!(fmt_i64(0), "0");
    assert_eq!(fmt_i64(-42), "-42");
    assert_eq!(fmt_i64(i64::MIN), "-9223372036854775808");
    assert_eq!(magnitude(i64::MIN), 9_223_372_036_854_775_808u64);
}

#[test]
fn text_helpers() {
    assert!(str_eq("abc", "abc"));
    assert!(!str_eq("abc", "abd"));
    assert!(ends_with("examples.JoinTable", "JoinTable"));
    assert!(!ends_with("Join", "JoinTable"));
    assert!(starts_with("player-7", "player-"));
    assert_eq!(strip_prefix_or_self("player-7", "player-"), "7");
    assert_eq!(strip_prefix_or_self("bob", "player-"), "bob");
    assert_eq!(
        join(&vec!["a".to_string(), "b".to_string(), "c".to_string()], ", "),
        "a, b, c"
    );
    assert_eq!(join(&vec![], ", "), "");
}

#[test]
fn keyed_map_insert_get_remove() {
    let mut m: StrMap<i64> = StrMap::new();
    assert_eq!(m.len(), 0);
    m.insert("a".to_string(), 1);
    m.insert("b".to_string(), 2);
    m.insert("a".to_string(), 3);
    assert_eq!(m.len(), 2);
    assert_eq!(m.get(&"a".to_string()), Some(&3));
    assert!(m.contains_key(&"b".to_string()));
    m.remove(&"b".to_string());
    assert!(!m.contains_key(&"b".to_string()));
    assert_eq!(m.len(), 1);
}
