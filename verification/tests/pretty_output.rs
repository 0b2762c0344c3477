use poker_domain::decimal::fmt_money;
use poker_domain::envelope::Timestamp;
use poker_domain::hand_messages::{
    ActionTaken, BlindPosted, Card, CardsDealt, CommunityCardsDealt, HandComplete, HandRankType,
    HandStarted, PlayerHoleCards, PlayerJoined, PotAwarded, PotWinner, Rank, SeatSnapshot, Suit,
    TableCreated,
};
use poker_domain::messages::{
    ActionType, BettingPhase, Currency, FundsDeposited, GameVariant, PlayerRegistered, PlayerType,
};
use poker_domain::pretty::{
    fmt_card, fmt_cards, fmt_hand_rank, fmt_phase_label, fmt_timestamp_hms, fmt_variant, LineSink,
    MemSink,
};
use poker_domain::projection::PrettyRenderer;

fn make_projector() -> (PrettyRenderer, MemSink) {
    (PrettyRenderer::new(), MemSink::new())
}

fn emit(sink: &mut MemSink, lines: Vec<String>) {
    for line in lines {
        sink.write_line(&line);
    }
}

fn card(rank: Rank, suit: Suit) -> Card {
    Card { rank, suit }
}

#[test]
fn fmt_money_adds_dollar_and_thousands_separator() {
    assert_eq!(fmt_money(0), "$0");
    assert_eq!(fmt_money(5), "$5");
    assert_eq!(fmt_money(999), "$999");
    assert_eq!(fmt_money(1000), "$1,000");
    assert_eq!(fmt_money(12_345), "$12,345");
    assert_eq!(fmt_money(1_000_000), "$1,000,000");
    assert_eq!(fmt_money(-50), "-$50");
}

#[test]
fn fmt_money_handles_the_extremes() {
    assert_eq!(fmt_money(i64::MAX), "$9,223,372,036,854,775,807");
    assert_eq!(fmt_money(-1_234_567), "-$1,234,567");
}

#[test]
fn fmt_money_groups_only_insert_separators_and_negatives_carry_a_sign() {
    for a in [1_i64, 42, 999, 1_000, 65_536, 1_234_567, 10_000_000_000] {
        let pos = fmt_money(a);
        assert_eq!(pos.trim_start_matches('$').replace(',', ""), a.to_string());
        assert_eq!(fmt_money(-a), format!("-{}", pos));
        let digits = pos.trim_start_matches('$');
        for (i, c) in digits.chars().enumerate() {
            assert_eq!(c == ',', (digits.len() - 1 - i) % 4 == 3);
        }
    }
}

#[test]
fn fmt_card_renders_rank_and_suit() {
    let ace_spades = card(Rank::Ace, Suit::Spades);
    assert_eq!(fmt_card(&ace_spades), "As");
    let ten_hearts = card(Rank::Ten, Suit::Hearts);
    assert_eq!(fmt_card(&ten_hearts), "Th");
}

#[test]
fn fmt_cards_wraps_in_brackets() {
    let cards = vec![card(Rank::Ace, Suit::Spades), card(Rank::King, Suit::Hearts)];
    assert_eq!(fmt_cards(&cards), "[As Kh]");
    assert_eq!(fmt_cards(&[]), "[]");
}

#[test]
fn labels_name_variants_phases_and_ranks() {
    assert_eq!(fmt_variant(GameVariant::TexasHoldem), "TEXAS_HOLDEM");
    assert_eq!(fmt_phase_label(BettingPhase::Flop), "Flop");
    assert_eq!(fmt_hand_rank(HandRankType::FullHouse), "Full House");
    assert_eq!(fmt_hand_rank(HandRankType::Unspecified), "");
    assert_eq!(
        fmt_timestamp_hms(&Timestamp {
            seconds: 3_661,
            nanos: 0
        }),
        "01:01:01"
    );
}

#[test]
fn on_player_registered_emits_registration_line() {
    let (proj, mut sink) = make_projector();
    emit(
        &mut sink,
        proj.on_player_registered(&PlayerRegistered {
            display_name: "Alice".into(),
            email: "alice@example.com".into(),
            player_type: PlayerType::Human,
            ai_model_id: String::new(),
            registered_at: None,
        }),
    );
    let out = sink.output();
    assert!(out.contains("Alice registered"));
    assert!(out.contains("HUMAN"));
}

#[test]
fn on_player_registered_ai_labels_as_ai() {
    let (proj, mut sink) = make_projector();
    emit(
        &mut sink,
        proj.on_player_registered(&PlayerRegistered {
            display_name: "Bot".into(),
            email: "bot@x.io".into(),
            player_type: PlayerType::Ai,
            ai_model_id: "v1".into(),
            registered_at: None,
        }),
    );
    assert!(sink.output().contains(" as AI"));
}

#[test]
fn on_funds_deposited_formats_money_with_thousands() {
    let (proj, mut sink) = make_projector();
    emit(
        &mut sink,
        proj.on_funds_deposited(&FundsDeposited {
            amount: Some(Currency {
                amount: 1000,
                currency_code: "CHIPS".into(),
            }),
            new_balance: Some(Currency {
                amount: 1000,
                currency_code: "CHIPS".into(),
            }),
            deposited_at: None,
        }),
    );
    let out = sink.output();
    assert!(out.contains("$1,000"));
    assert!(out.contains("balance: $1,000"));
}

#[test]
fn on_table_created_persists_and_renders_stakes() {
    let (proj, mut sink) = make_projector();
    let event = TableCreated {
        table_name: "Main".into(),
        game_variant: GameVariant::TexasHoldem,
        small_blind: 5,
        big_blind: 10,
        min_buy_in: 200,
        max_buy_in: 1000,
        max_players: 6,
        action_timeout_seconds: 30,
        created_at: None,
    };
    emit(&mut sink, proj.on_table_created(&event));
    let out = sink.output();
    assert!(out.contains("Main"));
    assert!(out.contains("TEXAS_HOLDEM"));
    assert!(out.contains("$5/$10"));
    assert!(out.contains("$200 - $1,000"));
}

#[test]
fn on_hand_started_persists_roster_and_renders_header() {
    let (mut proj, mut sink) = make_projector();
    let event = HandStarted {
        hand_root: vec![0xAB; 16],
        hand_number: 5,
        dealer_position: 2,
        small_blind_position: 0,
        big_blind_position: 1,
        active_players: vec![
            SeatSnapshot {
                position: 0,
                player_root: vec![0xAA; 16],
                stack: 500,
            },
            SeatSnapshot {
                position: 1,
                player_root: vec![0xBB; 16],
                stack: 500,
            },
            SeatSnapshot {
                position: 2,
                player_root: vec![0xCC; 16],
                stack: 500,
            },
        ],
        game_variant: GameVariant::TexasHoldem,
        small_blind: 5,
        big_blind: 10,
        started_at: None,
    };
    emit(&mut sink, proj.on_hand_started(&event));
    let out = sink.output();
    assert!(out.contains("HAND #5"));
    assert!(out.contains("Dealer: Seat 2"));
    // Without a registered name the byte roots fall back to Player_<utf8>.
    assert!(out.contains("Player_"));
}

#[test]
fn on_blind_posted_uppercases_blind_type() {
    let (proj, mut sink) = make_projector();
    emit(
        &mut sink,
        proj.on_blind_posted(&BlindPosted {
            player_root: vec![0xDE, 0xAD, 0xBE, 0xEF],
            blind_type: "small".into(),
            amount: 5,
            player_stack: 495,
            pot_total: 5,
            posted_at: None,
        }),
    );
    let out = sink.output();
    assert!(out.contains("deadbeef"));
    assert!(out.contains("SMALL"));
    assert!(out.contains("$5"));
}

#[test]
fn on_action_taken_uses_action_specific_verb() {
    let cases: Vec<(ActionType, &str, i64)> = vec![
        (ActionType::Fold, "folds", 0),
        (ActionType::Check, "checks", 0),
        (ActionType::Call, "calls $10", 10),
        (ActionType::Bet, "bets $20", 20),
        (ActionType::Raise, "raises to $30", 30),
        (ActionType::AllIn, "all-in $500", 500),
    ];
    for (action, expected_fragment, amount) in cases {
        let (proj, mut sink) = make_projector();
        emit(
            &mut sink,
            proj.on_action_taken(&ActionTaken {
                player_root: vec![0xAB; 4],
                action: action as i32,
                amount,
                player_stack: 0,
                pot_total: 100,
                amount_to_call: 0,
                action_at: None,
            }),
        );
        let out = sink.output();
        assert!(
            out.contains(expected_fragment),
            "output {:?} should contain {:?}",
            out,
            expected_fragment
        );
        assert!(out.contains("pot: $100"));
    }
}

#[test]
fn on_community_dealt_labels_phase() {
    let (mut proj, mut sink) = make_projector();
    let flop = vec![
        card(Rank::Ace, Suit::Hearts),
        card(Rank::King, Suit::Diamonds),
        card(Rank::Seven, Suit::Spades),
    ];
    emit(
        &mut sink,
        proj.on_community_dealt(&CommunityCardsDealt {
            cards: flop.clone(),
            phase: BettingPhase::Flop,
            all_community_cards: flop,
            dealt_at: None,
        }),
    );
    let out = sink.output();
    assert!(out.contains("Flop: [Ah Kd 7s]"));
    assert!(out.contains("Board:"));
}

#[test]
fn on_pot_awarded_lines_per_winner() {
    let (proj, mut sink) = make_projector();
    emit(
        &mut sink,
        proj.on_pot_awarded(&PotAwarded {
            winners: vec![
                PotWinner {
                    player_root: vec![0x11, 0x22, 0x33, 0x44],
                    amount: 150,
                    pot_type: "main".into(),
                    winning_hand: None,
                },
                PotWinner {
                    player_root: vec![0x55, 0x66, 0x77, 0x88],
                    amount: 50,
                    pot_type: "side_1".into(),
                    winning_hand: None,
                },
            ],
            awarded_at: None,
        }),
    );
    let lines = sink.lines();
    assert_eq!(lines.len(), 2);
    assert!(lines[0].contains("Player_"));
    assert!(lines[0].contains("wins $150"));
    assert!(lines[1].contains("wins $50"));
}

#[test]
fn on_hand_complete_emits_completion_line() {
    let (proj, mut sink) = make_projector();
    emit(
        &mut sink,
        proj.on_hand_complete(&HandComplete {
            table_root: vec![],
            hand_number: 42,
            winners: vec![],
            final_stacks: vec![],
            completed_at: None,
        }),
    );
    assert!(sink.output().contains("HAND #42 complete"));
}

#[test]
fn on_cards_dealt_renders_per_player_hole_cards() {
    let (proj, mut sink) = make_projector();
    let cards = vec![card(Rank::Ace, Suit::Spades), card(Rank::King, Suit::Hearts)];
    emit(
        &mut sink,
        proj.on_cards_dealt(&CardsDealt {
            table_root: vec![],
            hand_number: 1,
            game_variant: GameVariant::TexasHoldem,
            player_cards: vec![PlayerHoleCards {
                player_root: vec![0x99; 4],
                cards,
            }],
            dealer_position: 0,
            dealt_at: None,
        }),
    );
    let out = sink.output();
    assert!(out.contains("99999999"));
    assert!(out.contains("[As Kh]"));
}

#[test]
fn registered_names_replace_the_fallback() {
    let (mut proj, mut sink) = make_projector();
    proj.set_player_name(&[0x11, 0x22], "Alice");
    assert_eq!(proj.resolve_name(&[0x11, 0x22]), "Alice");
    emit(
        &mut sink,
        proj.on_pot_awarded(&PotAwarded {
            winners: vec![PotWinner {
                player_root: vec![0x11, 0x22],
                amount: 75,
                pot_type: "main".into(),
                winning_hand: None,
            }],
            awarded_at: None,
        }),
    );
    assert!(sink.output().contains("Alice wins $75"));
}

#[test]
fn mem_sink_joins_lines_with_newlines() {
    let mut sink = MemSink::new();
    sink.write_line("a");
    sink.push_line("b");
    assert_eq!(sink.output(), "a\nb");
    assert_eq!(sink.lines(), vec!["a".to_string(), "b".to_string()]);
}

// --- one renderer fed event after event, as the projector's dispatch does ---

#[test]
fn dispatch_player_registered_writes_pretty_line() {
    let (proj, mut sink) = make_projector();
    emit(
        &mut sink,
        proj.on_player_registered(&PlayerRegistered {
            display_name: "Alice".into(),
            email: "alice@example.com".into(),
            player_type: PlayerType::Human,
            ai_model_id: String::new(),
            registered_at: None,
        }),
    );
    assert!(sink.output().contains("Alice registered"));
}

#[test]
fn dispatch_funds_deposited_formats_money() {
    let (proj, mut sink) = make_projector();
    emit(
        &mut sink,
        proj.on_funds_deposited(&FundsDeposited {
            amount: Some(Currency {
                amount: 1_000,
                currency_code: "CHIPS".into(),
            }),
            new_balance: Some(Currency {
                amount: 1_000,
                currency_code: "CHIPS".into(),
            }),
            deposited_at: None,
        }),
    );
    assert!(sink.output().contains("$1,000"));
}

#[test]
fn dispatch_table_created_then_hand_started_renders_both() {
    let (mut proj, mut sink) = make_projector();
    emit(
        &mut sink,
        proj.on_table_created(&TableCreated {
            table_name: "Main".into(),
            game_variant: GameVariant::TexasHoldem,
            small_blind: 5,
            big_blind: 10,
            min_buy_in: 200,
            max_buy_in: 1_000,
            max_players: 6,
            action_timeout_seconds: 30,
            created_at: None,
        }),
    );
    emit(
        &mut sink,
        proj.on_hand_started(&HandStarted {
            hand_root: vec![0xAA; 16],
            hand_number: 1,
            dealer_position: 0,
            small_blind_position: 1,
            big_blind_position: 2,
            active_players: vec![],
            game_variant: GameVariant::TexasHoldem,
            small_blind: 5,
            big_blind: 10,
            started_at: None,
        }),
    );
    let out = sink.output();
    assert!(out.contains("Table \"Main\" created"));
    assert!(out.contains("HAND #1"));
    assert!(out.contains("no players"));
}

#[test]
fn dispatch_blind_posted_uppercases_type() {
    let (proj, mut sink) = make_projector();
    emit(
        &mut sink,
        proj.on_blind_posted(&BlindPosted {
            player_root: vec![0xAB; 16],
            blind_type: "small".into(),
            amount: 5,
            player_stack: 495,
            pot_total: 5,
            posted_at: None,
        }),
    );
    assert!(sink.output().contains("SMALL"));
}

#[test]
fn dispatch_action_taken_maps_enum_to_verb() {
    let (proj, mut sink) = make_projector();
    emit(
        &mut sink,
        proj.on_action_taken(&ActionTaken {
            player_root: vec![0xAB; 16],
            action: ActionType::Raise as i32,
            amount: 30,
            player_stack: 970,
            pot_total: 50,
            amount_to_call: 0,
            action_at: None,
        }),
    );
    let out = sink.output();
    assert!(out.contains("raises to $30"));
    assert!(out.contains("pot: $50"));
}

#[test]
fn an_action_number_naming_no_action_is_printed_raw() {
    let (proj, mut sink) = make_projector();
    emit(
        &mut sink,
        proj.on_action_taken(&ActionTaken {
            player_root: vec![0xAB; 16],
            action: 42,
            amount: i64::MIN,
            player_stack: 0,
            pot_total: 0,
            amount_to_call: 0,
            action_at: None,
        }),
    );
    assert!(sink.output().contains("acts (42 -9223372036854775808)"));
}

#[test]
fn dispatch_player_joined_arm() {
    let (proj, mut sink) = make_projector();
    emit(
        &mut sink,
        proj.on_player_joined(&PlayerJoined {
            player_root: vec![0xAB; 16],
            seat_position: 3,
            buy_in_amount: 500,
            stack: 500,
            joined_at: None,
        }),
    );
    let out = sink.output();
    assert!(out.contains("seat 3"));
    assert!(out.contains("$500"));
}

#[test]
fn dispatch_cards_dealt_arm_without_hole_cards_falls_back_to_summary() {
    let (proj, mut sink) = make_projector();
    emit(
        &mut sink,
        proj.on_cards_dealt(&CardsDealt {
            table_root: vec![],
            hand_number: 3,
            game_variant: GameVariant::TexasHoldem,
            player_cards: vec![],
            dealer_position: 0,
            dealt_at: None,
        }),
    );
    assert!(sink.output().contains("Cards dealt"));
}

#[test]
fn dispatch_pot_awarded_lists_winners() {
    let (proj, mut sink) = make_projector();
    emit(
        &mut sink,
        proj.on_pot_awarded(&PotAwarded {
            winners: vec![PotWinner {
                player_root: vec![0xAB; 16],
                amount: 150,
                pot_type: "main".into(),
                winning_hand: None,
            }],
            awarded_at: None,
        }),
    );
    assert!(sink.output().contains("wins $150"));
}

#[test]
fn dispatch_hand_complete_arm() {
    let (proj, mut sink) = make_projector();
    emit(
        &mut sink,
        proj.on_hand_complete(&HandComplete {
            table_root: vec![0xAA; 16],
            hand_number: 7,
            winners: vec![],
            final_stacks: vec![],
            completed_at: None,
        }),
    );
    assert!(sink.output().contains("HAND #7 complete"));
}

#[test]
fn unknown_roots_fall_back_to_their_text_or_short_hex() {
    let proj = PrettyRenderer::new();
    assert_eq!(proj.resolve_name(b"player-abc123"), "Player_abc123");
    assert_eq!(proj.resolve_name(b"bob"), "Player_bob");
    assert_eq!(proj.resolve_name(&[0xff, 0xfe, 0x01, 0x02, 0x03]), "Player_fffe0102");
    assert_eq!(proj.resolve_name(&[0xed, 0xa0, 0x80]), "Player_eda080");
}
