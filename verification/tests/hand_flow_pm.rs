use poker_domain::hand_flow_pm::{
    make_award_pot_command, HandFlowCommand, HandFlowEvent, HandFlowPm, HandFlowState,
};
use poker_domain::envelope::MergeStrategy;
use poker_domain::hand_machine::Phase as HandPhase;
use poker_domain::hand_messages::{
    ActionTaken, BettingRoundComplete, BlindPosted, CardsDealt, CommunityCardsDealt, HandComplete,
    HandStarted, PotAwarded, PotWinner, SeatSnapshot,
};
use poker_domain::messages::{ActionType, BettingPhase, GameVariant};

fn sample_hand_started() -> HandStarted {
    HandStarted {
        hand_root: vec![0xAA; 16],
        hand_number: 1,
        dealer_position: 0,
        small_blind_position: 1,
        big_blind_position: 2,
        active_players: vec![
            SeatSnapshot {
                position: 0,
                player_root: vec![1; 16],
                stack: 500,
            },
            SeatSnapshot {
                position: 1,
                player_root: vec![2; 16],
                stack: 500,
            },
            SeatSnapshot {
                position: 2,
                player_root: vec![3; 16],
                stack: 500,
            },
        ],
        game_variant: GameVariant::TexasHoldem,
        small_blind: 5,
        big_blind: 10,
        started_at: None,
    }
}

#[test]
fn hand_started_emits_pm_event_for_replay_and_no_command() {
    let pm = HandFlowPm;
    let event = sample_hand_started();
    let resp = pm.on_hand_started(event.clone(), &HandFlowState::default());

    assert!(
        resp.commands.is_empty(),
        "PM no longer emits DealCards on HandStarted (saga emits)"
    );
    let pm_book = resp
        .process_events
        .into_iter()
        .next()
        .expect("process_events");
    match &pm_book.pages[0].event {
        HandFlowEvent::HandStarted(decoded) => assert_eq!(decoded.hand_number, 1),
        other => panic!("expected HandStarted, got {:?}", other),
    }
}

#[test]
fn blind_posted_small_emits_post_blind_big() {
    let pm = HandFlowPm;
    let mut state = HandFlowState::default();
    HandFlowPm::apply_hand_started(&mut state, sample_hand_started());

    let event = BlindPosted {
        player_root: vec![2; 16],
        blind_type: "small".to_string(),
        amount: 5,
        player_stack: 495,
        pot_total: 5,
        posted_at: None,
    };
    let resp = pm.on_blind_posted(event, &state);
    assert_eq!(resp.commands.len(), 1);
    let book = &resp.commands[0];
    match &book.command {
        HandFlowCommand::PostBlind(post) => {
            assert_eq!(post.blind_type, "big");
            assert_eq!(post.amount, 10);
            assert_eq!(post.player_root, vec![3u8; 16]);
        }
        other => panic!("expected PostBlind, got {:?}", other),
    }
    // Commands go out asking for a synchronous accept/reject answer.
    assert!(book.decision_sync);
    assert_eq!(book.merge_strategy, MergeStrategy::Commutative);
}

#[test]
fn betting_round_complete_river_emits_award_pot() {
    let pm = HandFlowPm;
    let mut state = HandFlowState::default();
    HandFlowPm::apply_hand_started(&mut state, sample_hand_started());
    state.pot_total = 30;

    let event = BettingRoundComplete {
        completed_phase: BettingPhase::River,
        pot_total: 30,
        stacks: vec![],
        completed_at: None,
    };
    let resp = pm.on_betting_round_complete(event, &state);
    assert_eq!(resp.commands.len(), 1);
    assert!(matches!(resp.commands[0].command, HandFlowCommand::AwardPot(_)));
}

#[test]
fn pot_awarded_marks_phase_awarding_pot() {
    let mut state = HandFlowState::default();
    HandFlowPm::apply_hand_started(&mut state, sample_hand_started());
    HandFlowPm::apply_pot_awarded(
        &mut state,
        PotAwarded {
            winners: vec![],
            awarded_at: None,
        },
    );
    assert_eq!(state.phase, HandPhase::AwardingPot);
}

#[test]
fn award_pot_gives_the_whole_remainder_to_the_first_survivor() {
    let mut state = HandFlowState::default();
    HandFlowPm::apply_hand_started(&mut state, sample_hand_started());
    state.pot_total = 31;
    let book = make_award_pot_command(&state);
    assert_eq!(book.domain, "hand");
    assert_eq!(book.root, vec![0xAA; 16]);
    match &book.command {
        HandFlowCommand::AwardPot(award) => {
            let amounts: Vec<i64> = award.awards.iter().map(|a| a.amount).collect();
            assert_eq!(amounts, vec![11, 10, 10]);
            assert_eq!(amounts.iter().sum::<i64>(), 31);
            assert_eq!(award.awards[0].player_root, vec![1; 16]);
            assert_eq!(award.awards[0].pot_type, "main");
        }
        other => panic!("expected AwardPot, got {:?}", other),
    }
    state.pot_total = 11;
    match &make_award_pot_command(&state).command {
        HandFlowCommand::AwardPot(award) => {
            let amounts: Vec<i64> = award.awards.iter().map(|a| a.amount).collect();
            assert_eq!(amounts, vec![5, 3, 3]);
        }
        other => panic!("expected AwardPot, got {:?}", other),
    }
}

#[test]
fn folded_players_get_no_share_of_the_pot() {
    let mut state = HandFlowState::default();
    HandFlowPm::apply_hand_started(&mut state, sample_hand_started());
    HandFlowPm::apply_action_taken(
        &mut state,
        ActionTaken {
            player_root: vec![1; 16],
            action: ActionType::Fold as i32,
            amount: 0,
            player_stack: 500,
            pot_total: 0,
            amount_to_call: 0,
            action_at: None,
        },
    );
    state.pot_total = 20;
    match &make_award_pot_command(&state).command {
        HandFlowCommand::AwardPot(award) => {
            assert_eq!(award.awards.len(), 2);
            assert_eq!(award.awards[0].player_root, vec![2; 16]);
            assert_eq!(award.awards[0].amount, 10);
            assert_eq!(award.awards[1].amount, 10);
        }
        other => panic!("expected AwardPot, got {:?}", other),
    }
}

#[test]
fn an_action_number_naming_no_action_moves_no_chips() {
    let mut state = HandFlowState::default();
    HandFlowPm::apply_hand_started(&mut state, sample_hand_started());
    let before = state.players.get(0).map(|p| p.bet_this_round);
    HandFlowPm::apply_action_taken(
        &mut state,
        ActionTaken {
            player_root: vec![1; 16],
            action: 99,
            amount: 400,
            player_stack: 500,
            pot_total: 0,
            amount_to_call: 0,
            action_at: None,
        },
    );
    let p = state.players.get(0).unwrap();
    assert!(p.has_acted);
    assert!(!p.has_folded);
    assert_eq!(Some(p.bet_this_round), before);
}

#[test]
fn a_negative_pot_splits_by_truncated_quotient() {
    let mut state = HandFlowState::default();
    HandFlowPm::apply_hand_started(&mut state, sample_hand_started());
    state.pot_total = -11;
    match &make_award_pot_command(&state).command {
        HandFlowCommand::AwardPot(award) => {
            let amounts: Vec<i64> = award.awards.iter().map(|a| a.amount).collect();
            assert_eq!(amounts, vec![-5, -3, -3]);
            assert_eq!(amounts.iter().sum::<i64>(), -11);
        }
        other => panic!("expected AwardPot, got {:?}", other),
    }
}

#[test]
fn flop_round_complete_deals_the_turn_card() {
    let mut state = HandFlowState::default();
    HandFlowPm::apply_hand_started(&mut state, sample_hand_started());
    let resp = HandFlowPm.on_betting_round_complete(
        BettingRoundComplete {
            completed_phase: BettingPhase::Flop,
            pot_total: 30,
            stacks: vec![],
            completed_at: None,
        },
        &state,
    );
    assert_eq!(resp.commands.len(), 1);
    match &resp.commands[0].command {
        HandFlowCommand::DealCommunityCards(deal) => assert_eq!(deal.count, 1),
        other => panic!("expected DealCommunityCards, got {:?}", other),
    }
}

#[test]
fn hand_started_seats_the_roster_for_replay() {
    let mut state = HandFlowState::default();
    HandFlowPm::apply_hand_started(&mut state, sample_hand_started());
    assert_eq!(state.phase, HandPhase::Dealing);
    assert_eq!(state.players.len(), 3);
    assert_eq!(state.player_at_position(2), vec![3u8; 16]);
    assert!(state.player_at_position(7).is_empty());
    assert_eq!(state.position_for_root(&vec![2u8; 16]), Some(1));
    assert_eq!(state.position_for_root(&vec![9u8; 16]), None);
}

#[test]
fn community_cards_reset_the_round() {
    let mut state = HandFlowState::default();
    HandFlowPm::apply_hand_started(&mut state, sample_hand_started());
    state.current_bet = 10;
    HandFlowPm::apply_community_cards_dealt(
        &mut state,
        CommunityCardsDealt {
            cards: vec![],
            phase: BettingPhase::Flop,
            all_community_cards: vec![],
            dealt_at: None,
        },
    );
    assert_eq!(state.current_bet, 0);
    assert_eq!(state.betting_phase, BettingPhase::Flop);
    assert_eq!(state.phase, HandPhase::Betting);
}

#[test]
fn dispatch_cards_dealt_emits_post_blind_for_small_blind_player() {
    let mut state = HandFlowState::default();
    HandFlowPm::apply_hand_started(&mut state, sample_hand_started());
    let cards = CardsDealt {
        table_root: vec![],
        hand_number: 1,
        game_variant: GameVariant::TexasHoldem,
        player_cards: vec![],
        dealer_position: 0,
        dealt_at: None,
    };
    let resp = HandFlowPm.on_cards_dealt(cards, &state);
    assert_eq!(resp.commands.len(), 1);
    let cmd = &resp.commands[0];
    assert_eq!(cmd.domain, "hand");
    match &cmd.command {
        HandFlowCommand::PostBlind(post) => {
            assert_eq!(post.blind_type, "small");
            assert_eq!(post.amount, 5);
            assert_eq!(post.player_root, vec![2u8; 16]);
        }
        other => panic!("expected PostBlind, got {:?}", other),
    }
}

#[test]
fn dispatch_hand_complete_emits_end_hand_to_table() {
    let mut state = HandFlowState::default();
    HandFlowPm::apply_hand_started(&mut state, sample_hand_started());
    let complete = HandComplete {
        table_root: vec![0xBB; 16],
        hand_number: 1,
        winners: vec![PotWinner {
            player_root: vec![1; 16],
            amount: 15,
            pot_type: "main".into(),
            winning_hand: None,
        }],
        final_stacks: vec![],
        completed_at: None,
    };
    let resp = HandFlowPm.on_hand_complete(complete, &state);
    assert_eq!(resp.commands.len(), 1);
    let cmd = &resp.commands[0];
    assert_eq!(cmd.domain, "table");
    assert_eq!(cmd.root, vec![0xBB; 16]);
    match &cmd.command {
        HandFlowCommand::EndHand(end) => {
            assert_eq!(end.results.len(), 1);
            assert_eq!(end.results[0].amount, 15);
        }
        other => panic!("expected EndHand, got {:?}", other),
    }
}
